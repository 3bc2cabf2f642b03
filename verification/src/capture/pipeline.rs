//! Video capture: element descriptions, the X11 source description, the
//! audio branch, the choice between the portal and X11 sources, compositor
//! offsets, and output paths.
use vstd::prelude::*;

use crate::portal::types::{CursorMode, SourceType, Stream};
use crate::text::{
    dec_int, dec_nat, find_char, format_i64, format_u64, push_char, split_once, split_once_spec,
    split_whitespace, str_eq, views, ws_tokens,
};
use crate::window::main_window::Scope;

verus! {

/// x264enc needs even offsets: an odd value moves up by one.
pub open spec fn round_to_even_spec(n: int) -> int {
    if n % 2 == 0 {
        n
    } else {
        n + 1
    }
}

pub fn round_to_even(n: i32) -> (r: i32)
    requires
        n % 2 != 0 ==> n < i32::MAX,
    ensures
        r == round_to_even_spec(n as int),
{
    if n % 2 == 0 {
        n
    } else {
        n + 1
    }
}

/// The result of rounding is even and at most one above the input.
pub proof fn lemma_round_to_even(n: int)
    ensures
        round_to_even_spec(n) % 2 == 0,
        n <= round_to_even_spec(n) <= n + 1,
{
}

/// An element description: a factory name and `key=value` properties.
pub struct ElementDesc {
    pub factory: String,
    pub properties: Vec<(String, String)>,
}

pub enum ElementDescError {
    /// "empty element description"
    Empty,
    /// A property without `=`.
    MalformedProperty(String),
}

impl ElementDescError {
    /// The error text, naming the description it came from.
    pub fn message(&self, desc: &str) -> (r: String)
        ensures
            r@ == (match *self {
                ElementDescError::Empty => "empty element description"@,
                ElementDescError::MalformedProperty(p) => "malformed property '"@ + p@ + "' in '"@
                    + desc@ + "'"@,
            }),
    {
        match self {
            ElementDescError::Empty => "empty element description".to_owned(),
            ElementDescError::MalformedProperty(p) => {
                let mut r = "malformed property '".to_owned();
                r.append(p.as_str());
                r.append("' in '");
                r.append(desc);
                r.append("'");
                r
            },
        }
    }
}

pub open spec fn props_view(v: Seq<(String, String)>) -> Seq<(Seq<char>, Seq<char>)> {
    v.map_values(|p: (String, String)| (p.0@, p.1@))
}

/// The properties of the words after the factory name, each split at its
/// first `=`; `None` when some word has no `=`.
pub open spec fn strict_props(words: Seq<Seq<char>>) -> Option<Seq<(Seq<char>, Seq<char>)>>
    decreases words.len(),
{
    if words.len() == 0 {
        Some(seq![])
    } else {
        match strict_props(words.drop_last()) {
            Some(ps) => match split_once_spec(words.last(), '=') {
                Some(kv) => Some(ps.push(kv)),
                None => None,
            },
            None => None,
        }
    }
}

/// The properties of the words that have an `=`, skipping the others.
pub open spec fn lenient_props(words: Seq<Seq<char>>) -> Seq<(Seq<char>, Seq<char>)>
    decreases words.len(),
{
    if words.len() == 0 {
        seq![]
    } else {
        let ps = lenient_props(words.drop_last());
        match split_once_spec(words.last(), '=') {
            Some(kv) => ps.push(kv),
            None => ps,
        }
    }
}

/// The first word without an `=` after the factory name.
pub open spec fn first_malformed(words: Seq<Seq<char>>) -> Option<Seq<char>>
    decreases words.len(),
{
    if words.len() == 0 {
        None
    } else {
        match first_malformed(words.drop_last()) {
            Some(w) => Some(w),
            None => match split_once_spec(words.last(), '=') {
                Some(_) => None,
                None => Some(words.last()),
            },
        }
    }
}

proof fn lemma_first_malformed_prefix(words: Seq<Seq<char>>, k: int)
    requires
        0 <= k <= words.len(),
        first_malformed(words.take(k)) is Some,
    ensures
        first_malformed(words) == first_malformed(words.take(k)),
    decreases words.len() - k,
{
    if k < words.len() {
        let t = words.take(k + 1);
        assert(t.drop_last() =~= words.take(k));
        lemma_first_malformed_prefix(words, k + 1);
    } else {
        assert(words.take(k) =~= words);
    }
}

proof fn lemma_strict_props(words: Seq<Seq<char>>)
    ensures
        strict_props(words) is Some <==> first_malformed(words) is None,
        strict_props(words) is Some ==> strict_props(words) == Some(lenient_props(words)),
    decreases words.len(),
{
    if words.len() > 0 {
        lemma_strict_props(words.drop_last());
    }
}

/// Reads "factory prop=val prop=val": the first whitespace-separated word
/// is the factory, each later word a property split at its first `=`. With
/// `strict`, a word without `=` is an error; otherwise it is skipped.
fn parse_desc(desc: &str, strict: bool) -> (r: Result<ElementDesc, ElementDescError>)
    ensures
        ({
            let words = ws_tokens(desc@);
            match r {
                Ok(e) => words.len() > 0 && e.factory@ == words[0] && props_view(e.properties@)
                    == lenient_props(words.drop_first()) && (strict ==> first_malformed(
                    words.drop_first(),
                ) is None),
                Err(ElementDescError::Empty) => words.len() == 0,
                Err(ElementDescError::MalformedProperty(p)) => strict && words.len() > 0
                    && first_malformed(words.drop_first()) == Some(p@),
            }
        }),
{
    let words = split_whitespace(desc);
    let ghost ws = ws_tokens(desc@);
    if words.len() == 0 {
        return Err(ElementDescError::Empty);
    }
    let factory = words[0].clone();
    assert(ws[0] == words@[0]@);
    let ghost rest = ws.drop_first();
    let mut properties: Vec<(String, String)> = Vec::new();
    let mut i: usize = 1;
    while i < words.len()
        invariant
            views(words@) == ws,
            ws == ws_tokens(desc@),
            rest == ws.drop_first(),
            1 <= i <= words@.len(),
            props_view(properties@) == lenient_props(rest.take(i - 1)),
            strict ==> first_malformed(rest.take(i - 1)) is None,
        decreases words.len() - i,
    {
        let ghost t = rest.take(i as int);
        assert(t.drop_last() =~= rest.take(i - 1));
        assert(t.last() == words@[i as int]@);
        match split_once(words[i].as_str(), '=') {
            Some((k, v)) => {
                let ghost before = properties@;
                properties.push((k, v));
                assert(props_view(properties@) =~= props_view(before).push((k@, v@)));
            },
            None => {
                if strict {
                    proof {
                        lemma_first_malformed_prefix(rest, i as int);
                    }
                    return Err(ElementDescError::MalformedProperty(words[i].clone()));
                }
            },
        }
        i = i + 1;
    }
    assert(rest.take(words@.len() - 1) =~= rest);
    Ok(ElementDesc { factory, properties })
}

/// Reads a muxer or element description; any word without `=` after the
/// factory name is an error.
pub fn parse_element_desc(desc: &str) -> (r: Result<ElementDesc, ElementDescError>)
    ensures
        ({
            let words = ws_tokens(desc@);
            match r {
                Ok(e) => words.len() > 0 && e.factory@ == words[0] && strict_props(words.drop_first())
                    == Some(props_view(e.properties@)),
                Err(ElementDescError::Empty) => words.len() == 0,
                Err(ElementDescError::MalformedProperty(p)) => words.len() > 0 && first_malformed(
                    words.drop_first(),
                ) == Some(p@),
            }
        }),
{
    let r = parse_desc(desc, true);
    proof {
        let words = ws_tokens(desc@);
        if words.len() > 0 {
            lemma_strict_props(words.drop_first());
        }
    }
    r
}

/// Reads an audio profile's muxer: an empty description means the encoder
/// output is written as is (`None`); a blank one is an error; words without
/// `=` after the factory name are skipped.
pub fn parse_muxer_desc(desc: &str) -> (r: Result<Option<ElementDesc>, ElementDescError>)
    ensures
        ({
            let words = ws_tokens(desc@);
            match r {
                Ok(None) => desc@.len() == 0,
                Ok(Some(e)) => desc@.len() > 0 && words.len() > 0 && e.factory@ == words[0]
                    && props_view(e.properties@) == lenient_props(words.drop_first()),
                Err(ElementDescError::Empty) => desc@.len() > 0 && words.len() == 0,
                Err(_) => false,
            }
        }),
{
    if desc.unicode_len() == 0 {
        return Ok(None);
    }
    match parse_desc(desc, false) {
        Ok(e) => Ok(Some(e)),
        Err(e) => Err(e),
    }
}

/// The inclusive end coordinate of a span starting at `start` of `len`
/// pixels.
pub open spec fn span_end(start: int, len: int) -> int {
    start + len - 1
}

pub open spec fn region_fits(region: (i32, i32, i32, i32)) -> bool {
    let (x, y, w, h) = region;
    i32::MIN <= x + w <= i32::MAX && i32::MIN <= x + w - 1 && i32::MIN <= y + h <= i32::MAX
        && i32::MIN <= y + h - 1
}

/// Whether a region's inclusive end coordinates can be computed in `i32`.
pub fn crop_fits(region: (i32, i32, i32, i32)) -> (r: bool)
    ensures
        r == region_fits(region),
{
    let (x, y, w, h) = region;
    let ex = x as i64 + w as i64;
    let ey = y as i64 + h as i64;
    let min = i32::MIN as i64;
    let max = i32::MAX as i64;
    min <= ex && ex <= max && min <= ex - 1 && min <= ey && ey <= max && min <= ey - 1
}

/// The crop properties of a region: " startx=X starty=Y endx=EX endy=EY",
/// the ends inclusive.
pub open spec fn crop_props(region: (i32, i32, i32, i32)) -> Seq<char> {
    let (x, y, w, h) = region;
    " startx="@ + dec_int(x as int) + " starty="@ + dec_int(y as int) + " endx="@ + dec_int(
        span_end(x as int, w as int),
    ) + " endy="@ + dec_int(span_end(y as int, h as int))
}

fn push_crop_props(out: &mut String, region: (i32, i32, i32, i32))
    requires
        region_fits(region),
    ensures
        final(out)@ == old(out)@ + crop_props(region),
{
    let (x, y, w, h) = region;
    let endx: i32 = x + w - 1;
    let endy: i32 = y + h - 1;
    out.append(" startx=");
    out.append(format_i64(x as i64).as_str());
    out.append(" starty=");
    out.append(format_i64(y as i64).as_str());
    out.append(" endx=");
    out.append(format_i64(endx as i64).as_str());
    out.append(" endy=");
    out.append(format_i64(endy as i64).as_str());
    assert(out@ =~= old(out)@ + crop_props(region));
}

/// The X11 screen source for video: the whole screen or a cropped region,
/// converted and rate-limited to the framerate.
pub open spec fn x11_video_source_spec(framerate: u32, region: Option<(i32, i32, i32, i32)>) -> Seq<char> {
    "ximagesrc use-damage=false"@ + match region {
        Some(r) => crop_props(r),
        None => Seq::<char>::empty(),
    } + " ! videoconvert ! videorate ! capsfilter caps=video/x-raw,framerate="@ + dec_nat(
        framerate as nat,
    ) + "/1"@
}

pub fn x11_video_source_desc(framerate: u32, region: Option<(i32, i32, i32, i32)>) -> (r: String)
    requires
        match region {
            Some(reg) => region_fits(reg),
            None => true,
        },
    ensures
        r@ == x11_video_source_spec(framerate, region),
{
    let mut r = "ximagesrc use-damage=false".to_owned();
    match region {
        Some(reg) => push_crop_props(&mut r, reg),
        None => {},
    }
    r.append(" ! videoconvert ! videorate ! capsfilter caps=video/x-raw,framerate=");
    r.append(format_u64(framerate as u64).as_str());
    r.append("/1");
    assert(r@ =~= x11_video_source_spec(framerate, region));
    r
}

/// A one-frame X11 grab of a region, converted to RGBA for the app sink.
pub open spec fn x11_area_grab_spec(region: (i32, i32, i32, i32)) -> Seq<char> {
    "ximagesrc num-buffers=1 use-damage=false"@ + crop_props(region)
        + " ! videoconvert ! video/x-raw,format=RGBA ! appsink name=sink emit-signals=false max-buffers=1 drop=false sync=false"@
}


/// A region grab is cropped to exactly the region: it starts at the region's
/// corner and ends, inclusively, one pixel short of corner plus size; the
/// video source for the same region carries the same crop.
pub proof fn lemma_grab_crops_exact_region(x: i32, y: i32, w: i32, h: i32, framerate: u32)
    ensures
        x11_area_grab_spec((x, y, w, h)) == "ximagesrc num-buffers=1 use-damage=false"@ + " startx="@
            + dec_int(x as int) + " starty="@ + dec_int(y as int) + " endx="@ + dec_int(x + w - 1)
            + " endy="@ + dec_int(y + h - 1)
            + " ! videoconvert ! video/x-raw,format=RGBA ! appsink name=sink emit-signals=false max-buffers=1 drop=false sync=false"@,
        x11_video_source_spec(framerate, Some((x, y, w, h))) == "ximagesrc use-damage=false"@
            + " startx="@ + dec_int(x as int) + " starty="@ + dec_int(y as int) + " endx="@ + dec_int(
            x + w - 1,
        ) + " endy="@ + dec_int(y + h - 1)
            + " ! videoconvert ! videorate ! capsfilter caps=video/x-raw,framerate="@ + dec_nat(
            framerate as nat,
        ) + "/1"@,
{
    assert(x11_area_grab_spec((x, y, w, h)) =~= "ximagesrc num-buffers=1 use-damage=false"@ + " startx="@
        + dec_int(x as int) + " starty="@ + dec_int(y as int) + " endx="@ + dec_int(x + w - 1)
        + " endy="@ + dec_int(y + h - 1)
        + " ! videoconvert ! video/x-raw,format=RGBA ! appsink name=sink emit-signals=false max-buffers=1 drop=false sync=false"@);
    assert(x11_video_source_spec(framerate, Some((x, y, w, h))) =~= "ximagesrc use-damage=false"@
        + " startx="@ + dec_int(x as int) + " starty="@ + dec_int(y as int) + " endx="@ + dec_int(
        x + w - 1,
    ) + " endy="@ + dec_int(y + h - 1)
        + " ! videoconvert ! videorate ! capsfilter caps=video/x-raw,framerate="@ + dec_nat(
        framerate as nat,
    ) + "/1"@);
}

pub fn x11_area_grab_desc(x: i32, y: i32, w: i32, h: i32) -> (r: String)
    requires
        region_fits((x, y, w, h)),
    ensures
        r@ == x11_area_grab_spec((x, y, w, h)),
{
    let mut r = "ximagesrc num-buffers=1 use-damage=false".to_owned();
    push_crop_props(&mut r, (x, y, w, h));
    r.append(
        " ! videoconvert ! video/x-raw,format=RGBA ! appsink name=sink emit-signals=false max-buffers=1 drop=false sync=false",
    );
    r
}

/// The audio recorded beside a video, or by itself.
#[derive(Debug, Clone, Copy, PartialEq, Eq, Structural)]
pub enum AudioBranch {
    NoAudio,
    /// Desktop monitor and microphone mixed.
    Mixed,
    /// One source: the desktop monitor, or the default microphone.
    Single { monitor: bool },
}

pub open spec fn audio_branch_spec(source: Seq<char>) -> AudioBranch {
    if source == "none"@ {
        AudioBranch::NoAudio
    } else if source == "both"@ {
        AudioBranch::Mixed
    } else {
        AudioBranch::Single { monitor: source == "desktop"@ }
    }
}

/// The audio branch of a video recording for an audio source.
pub fn audio_branch(source: &str) -> (r: AudioBranch)
    ensures
        r == audio_branch_spec(source@),
{
    if str_eq(source, "none") {
        AudioBranch::NoAudio
    } else if str_eq(source, "both") {
        AudioBranch::Mixed
    } else {
        AudioBranch::Single { monitor: str_eq(source, "desktop") }
    }
}

/// The PulseAudio device of a source: the default sink's monitor for the
/// desktop, nothing (the default input) for the microphone.
pub fn pulse_device(monitor: bool) -> (r: Option<&'static str>)
    ensures
        r == (if monitor { Some("@DEFAULT_MONITOR@") } else { None::<&'static str> }),
{
    if monitor {
        Some("@DEFAULT_MONITOR@")
    } else {
        None
    }
}

/// Where the video comes from.
#[derive(Debug, Clone, Copy, PartialEq, Eq, Structural)]
pub enum VideoSource {
    /// A ScreenCast portal session (PipeWire).
    Portal,
    /// The X11 screen.
    X11,
    /// A Wayland session without the portal cannot record.
    Unavailable,
}

pub open spec fn video_source_spec(portal_available: bool, session_type: Seq<char>) -> VideoSource {
    if portal_available {
        VideoSource::Portal
    } else if session_type == "wayland"@ {
        VideoSource::Unavailable
    } else {
        VideoSource::X11
    }
}

/// The portal when it answers; otherwise X11, except on Wayland.
/// `session_type` is the lowercased session type.
pub fn video_source(portal_available: bool, session_type: &str) -> (r: VideoSource)
    ensures
        r == video_source_spec(portal_available, session_type@),
{
    if portal_available {
        VideoSource::Portal
    } else if str_eq(session_type, "wayland") {
        VideoSource::Unavailable
    } else {
        VideoSource::X11
    }
}

/// A user cancel in the portal is passed on; any other portal failure falls
/// back to X11 outside Wayland and is passed on under Wayland.
pub fn fall_back_to_x11(cancelled: bool, session_type: &str) -> (r: bool)
    ensures
        r == (!cancelled && session_type@ != "wayland"@),
{
    !cancelled && !str_eq(session_type, "wayland")
}

/// Lowercase text, as `str::to_lowercase` gives it.
pub uninterp spec fn lowercase(s: Seq<char>) -> Seq<char>;

/// `str::to_lowercase`; its result is named by `lowercase`.
#[verifier::external_body]
fn to_lowercase(s: &str) -> (r: String)
    ensures
        r@ == lowercase(s@),
{
    s.to_lowercase()
}

/// The session type, lowercased; "x11" when it is not set.
pub fn session_type(raw: Option<&str>) -> (r: String)
    ensures
        r@ == lowercase(
            match raw {
                Some(s) => s@,
                None => "x11"@,
            },
        ),
{
    match raw {
        Some(s) => to_lowercase(s),
        None => to_lowercase("x11"),
    }
}

/// The cursor is embedded in the stream when it is to be captured.
pub fn cursor_mode(cursor: bool) -> (r: CursorMode)
    ensures
        r == (if cursor { CursorMode::Embedded } else { CursorMode::Hidden }),
{
    if cursor {
        CursorMode::Embedded
    } else {
        CursorMode::Hidden
    }
}

/// A window is requested for the window scope, a monitor otherwise.
pub fn source_type(scope: Scope) -> (r: SourceType)
    ensures
        r == (if scope == Scope::Window { SourceType::Window } else { SourceType::Monitor }),
{
    if scope == Scope::Window {
        SourceType::Window
    } else {
        SourceType::Monitor
    }
}

/// How the PipeWire streams are turned into one video.
#[derive(Debug, Clone, Copy, PartialEq, Eq, Structural)]
pub enum StreamLayout {
    /// "Portal returned no streams"
    NoStreams,
    Single,
    /// Several monitors side by side in a compositor.
    Composited,
}

pub fn stream_layout(count: usize) -> (r: StreamLayout)
    ensures
        r == (if count == 0 {
            StreamLayout::NoStreams
        } else if count == 1 {
            StreamLayout::Single
        } else {
            StreamLayout::Composited
        }),
{
    if count == 0 {
        StreamLayout::NoStreams
    } else if count == 1 {
        StreamLayout::Single
    } else {
        StreamLayout::Composited
    }
}

pub open spec fn offsets_defined(streams: Seq<Stream>) -> bool {
    forall|i: int|
        0 <= i < streams.len() ==> ((#[trigger] streams[i]).position.0 % 2 != 0
            ==> streams[i].position.0 < i32::MAX) && (streams[i].position.1 % 2 != 0
            ==> streams[i].position.1 < i32::MAX)
}

/// The compositor offsets of the streams: each stream's position, rounded
/// up to even coordinates.
pub fn compositor_offsets(streams: &Vec<Stream>) -> (r: Vec<(i32, i32)>)
    requires
        offsets_defined(streams@),
    ensures
        r@.len() == streams@.len(),
        forall|i: int|
            0 <= i < r@.len() ==> (#[trigger] r@[i]).0 == round_to_even_spec(
                streams@[i].position.0 as int,
            ) && r@[i].1 == round_to_even_spec(streams@[i].position.1 as int),
{
    let mut r: Vec<(i32, i32)> = Vec::new();
    let mut i: usize = 0;
    while i < streams.len()
        invariant
            i <= streams@.len(),
            offsets_defined(streams@),
            r@.len() == i,
            forall|j: int|
                0 <= j < i ==> (#[trigger] r@[j]).0 == round_to_even_spec(
                    streams@[j].position.0 as int,
                ) && r@[j].1 == round_to_even_spec(streams@[j].position.1 as int),
        decreases streams.len() - i,
    {
        let p = streams[i].position;
        r.push((round_to_even(p.0), round_to_even(p.1)));
        i = i + 1;
    }
    r
}

/// The fallback media directory variable for a kind of capture.
pub fn xdg_dir_var(kind: &str) -> (r: &'static str)
    ensures
        r == (if kind@ == "videos"@ {
            "XDG_VIDEOS_DIR"
        } else if kind@ == "music"@ {
            "XDG_MUSIC_DIR"
        } else {
            "XDG_PICTURES_DIR"
        }),
{
    if str_eq(kind, "videos") {
        "XDG_VIDEOS_DIR"
    } else if str_eq(kind, "music") {
        "XDG_MUSIC_DIR"
    } else {
        "XDG_PICTURES_DIR"
    }
}

pub open spec fn media_folder(kind: Seq<char>) -> Seq<char> {
    if kind == "videos"@ {
        "/Videos"@
    } else if kind == "music"@ {
        "/Music"@
    } else {
        "/Pictures"@
    }
}

pub open spec fn dirs_next_spec(kind: Seq<char>, home: Option<Seq<char>>, xdg: Option<Seq<char>>) -> Seq<char> {
    match xdg {
        Some(d) => d,
        None => {
            let h = match home {
                Some(h) => h,
                None => "/tmp"@,
            };
            h + media_folder(kind)
        },
    }
}

/// The default directory for a kind of capture ("videos", "music", or
/// pictures otherwise): the XDG variable's value when set, else the
/// matching folder in the home directory ("/tmp" without a home).
pub fn dirs_next(kind: &str, home: Option<&str>, xdg: Option<&str>) -> (r: String)
    ensures
        r@ == dirs_next_spec(
            kind@,
            match home {
                Some(h) => Some(h@),
                None => None,
            },
            match xdg {
                Some(d) => Some(d@),
                None => None,
            },
        ),
{
    match xdg {
        Some(d) => d.to_owned(),
        None => {
            let mut r = match home {
                Some(h) => h.to_owned(),
                None => "/tmp".to_owned(),
            };
            if str_eq(kind, "videos") {
                r.append("/Videos");
            } else if str_eq(kind, "music") {
                r.append("/Music");
            } else {
                r.append("/Pictures");
            }
            r
        },
    }
}

/// The timestamp in file names: seconds since the epoch, 0 when the clock
/// is before it.
pub fn chrono_stamp(secs: Option<u64>) -> (r: String)
    ensures
        r@ == dec_nat(
            match secs {
                Some(s) => s as nat,
                None => 0,
            },
        ),
{
    match secs {
        Some(s) => format_u64(s),
        None => format_u64(0),
    }
}

/// `name` appended to the directory `dir` as a path (`Path::join`): an
/// absolute name replaces the directory, and a separator is put between
/// them unless the directory is empty or already ends with one.
pub open spec fn join_path_spec(dir: Seq<char>, name: Seq<char>) -> Seq<char> {
    if name.len() > 0 && name[0] == '/' {
        name
    } else if dir.len() == 0 || dir.last() == '/' {
        dir + name
    } else {
        dir + seq!['/'] + name
    }
}

pub fn join_path(dir: &str, name: &str) -> (r: String)
    ensures
        r@ == join_path_spec(dir@, name@),
{
    let n = name.unicode_len();
    if n > 0 && name.get_char(0) == '/' {
        return name.to_owned();
    }
    let d = dir.unicode_len();
    let mut r = dir.to_owned();
    if !(d == 0 || dir.get_char(d - 1) == '/') {
        push_char(&mut r, '/');
    }
    r.append(name);
    r
}

/// A capture's file name: "mediasnare-", the timestamp, a dot and the
/// extension.
pub open spec fn capture_file_name(stamp: Seq<char>, extension: Seq<char>) -> Seq<char> {
    "mediasnare-"@ + stamp + "."@ + extension
}

/// The timestamped output path in a directory.
pub fn output_path(dir: &str, secs: Option<u64>, extension: &str) -> (r: String)
    ensures
        r@ == join_path_spec(
            dir@,
            capture_file_name(
                dec_nat(
                    match secs {
                        Some(s) => s as nat,
                        None => 0,
                    },
                ),
                extension@,
            ),
        ),
{
    let mut name = "mediasnare-".to_owned();
    name.append(chrono_stamp(secs).as_str());
    name.append(".");
    name.append(extension);
    join_path(dir, name.as_str())
}

/// The directory a capture is saved in: the configured one, else the
/// default.
pub fn save_dir(configured: Option<&str>, default_dir: &str) -> (r: String)
    ensures
        r@ == (match configured {
            Some(c) => c@,
            None => default_dir@,
        }),
{
    match configured {
        Some(c) => c.to_owned(),
        None => default_dir.to_owned(),
    }
}

/// Output file names are relative, so they always land inside the save
/// directory.
pub proof fn lemma_output_inside_dir(dir: Seq<char>, stamp: Seq<char>, ext: Seq<char>)
    ensures
        join_path_spec(dir, capture_file_name(stamp, ext)).take(dir.len() as int) == dir,
        join_path_spec(dir, capture_file_name(stamp, ext)).len() > dir.len(),
{
    reveal_strlit("mediasnare-");
    let name = capture_file_name(stamp, ext);
    assert(name[0] == 'm');
    let j = join_path_spec(dir, name);
    assert(j.take(dir.len() as int) =~= dir);
}

} // verus!
