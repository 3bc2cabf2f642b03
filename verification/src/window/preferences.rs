//! Values shown and written by the preferences dialog.
use vstd::prelude::*;

use crate::text::str_eq;

verus! {

pub open spec fn image_format_index_spec(format: Seq<char>) -> u32 {
    if format == "jpg"@ || format == "jpeg"@ {
        1
    } else if format == "webp"@ {
        2
    } else {
        0
    }
}

/// The row of the image format list (PNG, JPG, WebP) for a stored format.
pub fn image_format_index(format: &str) -> (r: u32)
    ensures
        r == image_format_index_spec(format@),
{
    if str_eq(format, "jpg") || str_eq(format, "jpeg") {
        1
    } else if str_eq(format, "webp") {
        2
    } else {
        0
    }
}

pub open spec fn image_format_at_spec(index: u32) -> &'static str {
    if index == 1 {
        "jpg"
    } else if index == 2 {
        "webp"
    } else {
        "png"
    }
}

/// The format stored when a row of the image format list is chosen.
pub fn image_format_at(index: u32) -> (r: &'static str)
    ensures
        r == image_format_at_spec(index),
{
    if index == 1 {
        "jpg"
    } else if index == 2 {
        "webp"
    } else {
        "png"
    }
}

/// Choosing a row stores a format that selects the same row again, and each
/// of the three formats written is shown on its own row.
pub proof fn lemma_image_format_round_trip(index: u32, format: Seq<char>)
    ensures
        index < 3 ==> image_format_index_spec(image_format_at_spec(index)@) == index,
        (format == "png"@ || format == "jpg"@ || format == "webp"@) ==> image_format_at_spec(
            image_format_index_spec(format),
        )@ == format,
{
    reveal_strlit("png");
    reveal_strlit("jpg");
    reveal_strlit("jpeg");
    reveal_strlit("webp");
    assert("png"@[0] != "jpg"@[0]);
    assert("png"@.len() != "jpeg"@.len());
    assert("png"@[0] != "webp"@[0]);
    assert("webp"@[0] != "jpg"@[0]);
    assert("webp"@[0] != "jpeg"@[0]);
}

/// The position of the first id equal to `current`.
pub open spec fn position_of(ids: Seq<String>, current: Seq<char>) -> Option<int>
    decreases ids.len(),
{
    if ids.len() == 0 {
        None
    } else if ids[0]@ == current {
        Some(0)
    } else {
        match position_of(ids.drop_first(), current) {
            Some(k) => Some(k + 1),
            None => None,
        }
    }
}

proof fn lemma_position_skip(ids: Seq<String>, current: Seq<char>, i: int)
    requires
        0 <= i <= ids.len(),
        forall|j: int| 0 <= j < i ==> ids[j]@ != current,
    ensures
        position_of(ids, current) == (match position_of(ids.skip(i), current) {
            Some(k) => Some(k + i),
            None => None,
        }),
    decreases i,
{
    if i > 0 {
        assert(ids.skip(1).skip(i - 1) =~= ids.skip(i));
        lemma_position_skip(ids.drop_first(), current, i - 1);
        assert(ids.skip(1) =~= ids.drop_first());
    } else {
        assert(ids.skip(0) =~= ids);
    }
}

/// The row of a profile list to select for the stored profile id.
pub fn profile_row(ids: &Vec<String>, current: &str) -> (r: Option<usize>)
    ensures
        match position_of(ids@, current@) {
            Some(k) => r == Some(k as usize),
            None => r is None,
        },
{
    let mut i: usize = 0;
    while i < ids.len()
        invariant
            i <= ids@.len(),
            forall|j: int| 0 <= j < i ==> ids@[j]@ != current@,
        decreases ids.len() - i,
    {
        if str_eq(ids[i].as_str(), current) {
            proof {
                lemma_position_skip(ids@, current@, i as int);
                assert(ids@.skip(i as int)[0] == ids@[i as int]);
                assert(position_of(ids@.skip(i as int), current@) == Some(0int));
            }
            return Some(i);
        }
        i = i + 1;
    }
    proof {
        lemma_position_skip(ids@, current@, i as int);
    }
    None
}

/// The home directory, "/tmp" when unknown.
pub fn home_or_tmp(home: Option<&str>) -> (r: String)
    ensures
        r@ == (match home {
            Some(h) => h@,
            None => "/tmp"@,
        }),
{
    match home {
        Some(h) => h.to_owned(),
        None => "/tmp".to_owned(),
    }
}

/// The path shown for a save location: the configured directory, or the
/// default folder in the home directory.
pub fn directory_display(current: Option<&str>, home: &str, default_subdir: &str) -> (r: String)
    ensures
        r@ == (match current {
            Some(c) => c@,
            None => home@ + "/"@ + default_subdir@,
        }),
{
    match current {
        Some(c) => c.to_owned(),
        None => {
            let mut r = home.to_owned();
            r.append("/");
            r.append(default_subdir);
            r
        },
    }
}

} // verus!
