//! Output format profiles: the thread placeholder in encoder descriptions,
//! keeping only the profiles this system can run, and lookup by id.
use vstd::prelude::*;

use crate::text::{
    dec_nat, format_u64, is_digit, lemma_dec_nat_digits, lemma_replace_all_leaves_no_pattern, occurs_at,
    replace_all, replace_str, str_eq,
};

verus! {

/// A video profile as written in the profiles file.
#[derive(Debug)]
pub struct RawVideoProfile {
    pub id: String,
    pub name: String,
    pub extension: String,
    pub videoenc: String,
    pub audioenc: String,
    pub muxer: String,
    /// Needs the VA-API encoder rather than a software pipeline.
    pub vaapi: bool,
}

/// An audio profile as written in the profiles file.
#[derive(Debug)]
pub struct RawAudioProfile {
    pub id: String,
    pub name: String,
    pub extension: String,
    pub audioenc: String,
    pub muxer: String,
}

/// The profiles file: video and audio profiles, each list possibly empty.
#[derive(Debug)]
pub struct ProfilesFile {
    pub video: Vec<RawVideoProfile>,
    pub audio: Vec<RawAudioProfile>,
}

/// A video output profile confirmed available on this system.
#[derive(Debug, Clone)]
pub struct VideoProfile {
    pub id: String,
    pub name: String,
    pub extension: String,
    /// Encoder pipeline string with ${N_THREADS} substituted.
    pub videoenc: String,
    /// Encoder pipeline string with ${N_THREADS} substituted.
    pub audioenc: String,
    pub muxer: String,
    pub vaapi: bool,
}

/// An audio output profile confirmed available on this system.
#[derive(Debug, Clone)]
pub struct AudioProfile {
    pub id: String,
    pub name: String,
    pub extension: String,
    pub audioenc: String,
    /// Empty for self-framing formats (e.g. mp3).
    pub muxer: String,
}

#[derive(Debug, Clone)]
pub struct Profiles {
    pub video: Vec<VideoProfile>,
    pub audio: Vec<AudioProfile>,
}

/// The placeholder for the encoder thread count.
pub open spec fn threads_placeholder() -> Seq<char> {
    "${N_THREADS}"@
}

/// An encoder description with every thread placeholder replaced by the
/// decimal thread count.
pub open spec fn with_threads(s: Seq<char>, n: nat) -> Seq<char> {
    replace_all(s, threads_placeholder(), dec_nat(n))
}

pub fn substitute_threads(s: &str, n: usize) -> (r: String)
    ensures
        r@ == with_threads(s@, n as nat),
{
    proof {
        reveal_strlit("${N_THREADS}");
    }
    let count = format_u64(n as u64);
    replace_str(s, "${N_THREADS}", count.as_str())
}

/// Once the thread count is put in, no thread placeholder is left in an
/// encoder description.
pub proof fn lemma_no_placeholder_left(s: Seq<char>, n: nat, i: int)
    ensures
        !occurs_at(with_threads(s, n), threads_placeholder(), i),
{
    reveal_strlit("${N_THREADS}");
    let pat = threads_placeholder();
    let rep = dec_nat(n);
    lemma_dec_nat_digits(n);
    assert(pat.len() == 12);
    assert forall|j: int| 1 <= j < pat.len() implies #[trigger] pat[j] != pat[0] by {}
    assert forall|j: int, k: int| 0 <= j < pat.len() && 0 <= k < rep.len() implies #[trigger] pat[j]
        != #[trigger] rep[k] by {
        assert(is_digit(rep[k]));
    }
    lemma_replace_all_leaves_no_pattern(s, pat, rep, i);
}

/// The encoder thread count: the available parallelism (4 when unknown),
/// capped at 16.
pub fn thread_count(available: Option<usize>) -> (r: usize)
    ensures
        r == (match available {
            Some(n) => if n < 16 { n } else { 16 },
            None => 4,
        }),
        r <= 16,
{
    let n = match available {
        Some(n) => n,
        None => 4,
    };
    if n < 16 {
        n
    } else {
        16
    }
}

/// A video profile's contents.
pub struct VideoProfileView {
    pub id: Seq<char>,
    pub name: Seq<char>,
    pub extension: Seq<char>,
    pub videoenc: Seq<char>,
    pub audioenc: Seq<char>,
    pub muxer: Seq<char>,
    pub vaapi: bool,
}

/// An audio profile's contents.
pub struct AudioProfileView {
    pub id: Seq<char>,
    pub name: Seq<char>,
    pub extension: Seq<char>,
    pub audioenc: Seq<char>,
    pub muxer: Seq<char>,
}

pub open spec fn video_view(p: VideoProfile) -> VideoProfileView {
    VideoProfileView {
        id: p.id@,
        name: p.name@,
        extension: p.extension@,
        videoenc: p.videoenc@,
        audioenc: p.audioenc@,
        muxer: p.muxer@,
        vaapi: p.vaapi,
    }
}

pub open spec fn audio_view(p: AudioProfile) -> AudioProfileView {
    AudioProfileView {
        id: p.id@,
        name: p.name@,
        extension: p.extension@,
        audioenc: p.audioenc@,
        muxer: p.muxer@,
    }
}

/// The profile made from a raw one: encoders with the thread count put in.
pub open spec fn video_from_raw(p: RawVideoProfile, threads: nat) -> VideoProfileView {
    VideoProfileView {
        id: p.id@,
        name: p.name@,
        extension: p.extension@,
        videoenc: with_threads(p.videoenc@, threads),
        audioenc: with_threads(p.audioenc@, threads),
        muxer: p.muxer@,
        vaapi: p.vaapi,
    }
}

pub open spec fn audio_from_raw(p: RawAudioProfile, threads: nat) -> AudioProfileView {
    AudioProfileView {
        id: p.id@,
        name: p.name@,
        extension: p.extension@,
        audioenc: with_threads(p.audioenc@, threads),
        muxer: p.muxer@,
    }
}

/// Whether a raw video profile can run: a VA-API profile when the VA-API
/// encoder is present, a software profile when its encoder pipeline (with
/// the thread count put in) was found to parse.
pub open spec fn video_runs(p: RawVideoProfile, vaapi: bool, pipeline_ok: bool) -> bool {
    if p.vaapi {
        vaapi
    } else {
        pipeline_ok
    }
}

/// The runnable video profiles, in file order.
pub open spec fn selected_video(
    raw: Seq<RawVideoProfile>,
    threads: nat,
    vaapi: bool,
    pipeline_ok: Seq<bool>,
) -> Seq<VideoProfileView>
    decreases raw.len(),
{
    if raw.len() == 0 {
        seq![]
    } else {
        let rest = selected_video(raw.drop_last(), threads, vaapi, pipeline_ok.drop_last());
        if video_runs(raw.last(), vaapi, pipeline_ok.last()) {
            rest.push(video_from_raw(raw.last(), threads))
        } else {
            rest
        }
    }
}

/// The audio profiles whose encoder pipeline parses, in file order.
pub open spec fn selected_audio(raw: Seq<RawAudioProfile>, threads: nat, pipeline_ok: Seq<bool>) -> Seq<
    AudioProfileView,
>
    decreases raw.len(),
{
    if raw.len() == 0 {
        seq![]
    } else {
        let rest = selected_audio(raw.drop_last(), threads, pipeline_ok.drop_last());
        if pipeline_ok.last() {
            rest.push(audio_from_raw(raw.last(), threads))
        } else {
            rest
        }
    }
}

/// Keeps the profiles this system can run. `video_pipeline_ok[i]` tells
/// whether the encoder pipeline of software profile `i` (with the thread
/// count put in) parses, and `audio_pipeline_ok[i]` the same for audio
/// profile `i`; `vaapi` whether the VA-API encoder is present.
pub fn select_profiles(
    raw: ProfilesFile,
    threads: usize,
    vaapi: bool,
    video_pipeline_ok: &Vec<bool>,
    audio_pipeline_ok: &Vec<bool>,
) -> (r: Profiles)
    requires
        video_pipeline_ok@.len() == raw.video@.len(),
        audio_pipeline_ok@.len() == raw.audio@.len(),
    ensures
        r.video@.map_values(|p: VideoProfile| video_view(p)) == selected_video(
            raw.video@,
            threads as nat,
            vaapi,
            video_pipeline_ok@,
        ),
        r.audio@.map_values(|p: AudioProfile| audio_view(p)) == selected_audio(
            raw.audio@,
            threads as nat,
            audio_pipeline_ok@,
        ),
{
    let mut video: Vec<VideoProfile> = Vec::new();
    let mut i: usize = 0;
    while i < raw.video.len()
        invariant
            i <= raw.video@.len(),
            video_pipeline_ok@.len() == raw.video@.len(),
            video@.map_values(|p: VideoProfile| video_view(p)) == selected_video(
                raw.video@.subrange(0, i as int),
                threads as nat,
                vaapi,
                video_pipeline_ok@.subrange(0, i as int),
            ),
        decreases raw.video.len() - i,
    {
        let p = &raw.video[i];
        let ghost prefix = raw.video@.subrange(0, i + 1);
        let ghost oks = video_pipeline_ok@.subrange(0, i + 1);
        assert(prefix.drop_last() =~= raw.video@.subrange(0, i as int));
        assert(oks.drop_last() =~= video_pipeline_ok@.subrange(0, i as int));
        let ghost before = video@;
        let keep = if p.vaapi {
            vaapi
        } else {
            video_pipeline_ok[i]
        };
        if keep {
            video.push(
                VideoProfile {
                    id: p.id.clone(),
                    name: p.name.clone(),
                    extension: p.extension.clone(),
                    videoenc: substitute_threads(p.videoenc.as_str(), threads),
                    audioenc: substitute_threads(p.audioenc.as_str(), threads),
                    muxer: p.muxer.clone(),
                    vaapi: p.vaapi,
                },
            );
            assert(video@.map_values(|p: VideoProfile| video_view(p)) =~= before.map_values(
                |p: VideoProfile| video_view(p),
            ).push(video_from_raw(raw.video@[i as int], threads as nat)));
        }
        i = i + 1;
    }
    assert(raw.video@.subrange(0, raw.video@.len() as int) =~= raw.video@);
    assert(video_pipeline_ok@.subrange(0, raw.video@.len() as int) =~= video_pipeline_ok@);
    let mut audio: Vec<AudioProfile> = Vec::new();
    let mut j: usize = 0;
    while j < raw.audio.len()
        invariant
            j <= raw.audio@.len(),
            audio_pipeline_ok@.len() == raw.audio@.len(),
            audio@.map_values(|p: AudioProfile| audio_view(p)) == selected_audio(
                raw.audio@.subrange(0, j as int),
                threads as nat,
                audio_pipeline_ok@.subrange(0, j as int),
            ),
        decreases raw.audio.len() - j,
    {
        let p = &raw.audio[j];
        let ghost prefix = raw.audio@.subrange(0, j + 1);
        let ghost oks = audio_pipeline_ok@.subrange(0, j + 1);
        assert(prefix.drop_last() =~= raw.audio@.subrange(0, j as int));
        assert(oks.drop_last() =~= audio_pipeline_ok@.subrange(0, j as int));
        let ghost before = audio@;
        if audio_pipeline_ok[j] {
            audio.push(
                AudioProfile {
                    id: p.id.clone(),
                    name: p.name.clone(),
                    extension: p.extension.clone(),
                    audioenc: substitute_threads(p.audioenc.as_str(), threads),
                    muxer: p.muxer.clone(),
                },
            );
            assert(audio@.map_values(|p: AudioProfile| audio_view(p)) =~= before.map_values(
                |p: AudioProfile| audio_view(p),
            ).push(audio_from_raw(raw.audio@[j as int], threads as nat)));
        }
        j = j + 1;
    }
    assert(raw.audio@.subrange(0, raw.audio@.len() as int) =~= raw.audio@);
    assert(audio_pipeline_ok@.subrange(0, raw.audio@.len() as int) =~= audio_pipeline_ok@);
    Profiles { video, audio }
}

/// Every profile this system can run is offered: a software profile whose
/// encoder pipeline parses, whether or not the VA-API encoder is present,
/// and a VA-API profile whenever that encoder is present.
pub proof fn lemma_runnable_profile_offered(
    raw: Seq<RawVideoProfile>,
    threads: nat,
    vaapi: bool,
    pipeline_ok: Seq<bool>,
    i: int,
)
    requires
        pipeline_ok.len() == raw.len(),
        0 <= i < raw.len(),
        (!raw[i].vaapi && pipeline_ok[i]) || (raw[i].vaapi && vaapi),
    ensures
        selected_video(raw, threads, vaapi, pipeline_ok).contains(video_from_raw(raw[i], threads)),
    decreases raw.len(),
{
    let all = selected_video(raw, threads, vaapi, pipeline_ok);
    let rest = selected_video(raw.drop_last(), threads, vaapi, pipeline_ok.drop_last());
    let v = video_from_raw(raw[i], threads);
    if i == raw.len() - 1 {
        assert(all[all.len() - 1] == v);
    } else {
        lemma_runnable_profile_offered(raw.drop_last(), threads, vaapi, pipeline_ok.drop_last(), i);
        assert(raw.drop_last()[i] == raw[i]);
        let k = choose|k: int| 0 <= k < rest.len() && rest[k] == v;
        assert(all[k] == v);
    }
}

/// From a file without VA-API profiles the same profiles are offered
/// whether or not the VA-API encoder is present.
pub proof fn lemma_software_selection_ignores_vaapi(
    raw: Seq<RawVideoProfile>,
    threads: nat,
    pipeline_ok: Seq<bool>,
)
    requires
        forall|i: int| 0 <= i < raw.len() ==> !(#[trigger] raw[i]).vaapi,
    ensures
        selected_video(raw, threads, true, pipeline_ok) == selected_video(raw, threads, false, pipeline_ok),
    decreases raw.len(),
{
    if raw.len() > 0 {
        assert forall|i: int| 0 <= i < raw.drop_last().len() implies !(#[trigger] raw.drop_last()[i]).vaapi by {
            assert(raw.drop_last()[i] == raw[i]);
        }
        lemma_software_selection_ignores_vaapi(raw.drop_last(), threads, pipeline_ok.drop_last());
        assert(!raw[raw.len() - 1].vaapi);
    }
}

/// Without the VA-API encoder no VA-API profile is offered.
pub proof fn lemma_no_vaapi_profile_without_vaapi(
    raw: Seq<RawVideoProfile>,
    threads: nat,
    pipeline_ok: Seq<bool>,
)
    ensures
        forall|k: int|
            0 <= k < selected_video(raw, threads, false, pipeline_ok).len() ==> !(#[trigger] selected_video(
                raw,
                threads,
                false,
                pipeline_ok,
            )[k]).vaapi,
    decreases raw.len(),
{
    if raw.len() > 0 {
        lemma_no_vaapi_profile_without_vaapi(raw.drop_last(), threads, pipeline_ok.drop_last());
        let rest = selected_video(raw.drop_last(), threads, false, pipeline_ok.drop_last());
        let all = selected_video(raw, threads, false, pipeline_ok);
        assert forall|k: int| 0 <= k < all.len() implies !(#[trigger] all[k]).vaapi by {
            if k < rest.len() {
                assert(all[k] == rest[k]);
            }
        }
    }
}

/// Every offered profile comes from the file: the selection is never longer
/// than the list it was taken from.
pub proof fn lemma_selection_within_file(
    raw: Seq<RawVideoProfile>,
    threads: nat,
    vaapi: bool,
    pipeline_ok: Seq<bool>,
)
    ensures
        selected_video(raw, threads, vaapi, pipeline_ok).len() <= raw.len(),
    decreases raw.len(),
{
    if raw.len() > 0 {
        lemma_selection_within_file(raw.drop_last(), threads, vaapi, pipeline_ok.drop_last());
    }
}

/// The position of the first profile with the given id.
pub open spec fn first_video_with_id(v: Seq<VideoProfile>, id: Seq<char>) -> Option<int>
    decreases v.len(),
{
    if v.len() == 0 {
        None
    } else if v[0].id@ == id {
        Some(0)
    } else {
        match first_video_with_id(v.drop_first(), id) {
            Some(k) => Some(k + 1),
            None => None,
        }
    }
}

pub open spec fn first_audio_with_id(v: Seq<AudioProfile>, id: Seq<char>) -> Option<int>
    decreases v.len(),
{
    if v.len() == 0 {
        None
    } else if v[0].id@ == id {
        Some(0)
    } else {
        match first_audio_with_id(v.drop_first(), id) {
            Some(k) => Some(k + 1),
            None => None,
        }
    }
}

proof fn lemma_first_video_at(v: Seq<VideoProfile>, id: Seq<char>, i: int)
    requires
        0 <= i <= v.len(),
        forall|j: int| 0 <= j < i ==> v[j].id@ != id,
    ensures
        first_video_with_id(v, id) == (match first_video_with_id(v.skip(i), id) {
            Some(k) => Some(k + i),
            None => None,
        }),
    decreases i,
{
    if i > 0 {
        assert(v.skip(1).skip(i - 1) =~= v.skip(i));
        lemma_first_video_at(v.drop_first(), id, i - 1);
        assert(v.skip(1) =~= v.drop_first());
    } else {
        assert(v.skip(0) =~= v);
    }
}

proof fn lemma_first_audio_at(v: Seq<AudioProfile>, id: Seq<char>, i: int)
    requires
        0 <= i <= v.len(),
        forall|j: int| 0 <= j < i ==> v[j].id@ != id,
    ensures
        first_audio_with_id(v, id) == (match first_audio_with_id(v.skip(i), id) {
            Some(k) => Some(k + i),
            None => None,
        }),
    decreases i,
{
    if i > 0 {
        assert(v.skip(1).skip(i - 1) =~= v.skip(i));
        lemma_first_audio_at(v.drop_first(), id, i - 1);
        assert(v.skip(1) =~= v.drop_first());
    } else {
        assert(v.skip(0) =~= v);
    }
}

/// The video profile with the given id, if the profiles loaded and one has
/// it (the first such).
pub fn video<'a>(profiles: Option<&'a Profiles>, id: &str) -> (r: Option<&'a VideoProfile>)
    ensures
        match profiles {
            None => r is None,
            Some(ps) => match first_video_with_id(ps.video@, id@) {
                Some(k) => r is Some && *r->Some_0 == ps.video@[k],
                None => r is None,
            },
        },
{
    let ps = match profiles {
        Some(ps) => ps,
        None => {
            return None;
        },
    };
    let mut i: usize = 0;
    while i < ps.video.len()
        invariant
            profiles == Some(ps),
            i <= ps.video@.len(),
            forall|j: int| 0 <= j < i ==> ps.video@[j].id@ != id@,
        decreases ps.video.len() - i,
    {
        if str_eq(ps.video[i].id.as_str(), id) {
            proof {
                lemma_first_video_at(ps.video@, id@, i as int);
                assert(ps.video@.skip(i as int)[0] == ps.video@[i as int]);
                assert(first_video_with_id(ps.video@.skip(i as int), id@) == Some(0int));
            }
            return Some(&ps.video[i]);
        }
        i = i + 1;
    }
    proof {
        lemma_first_video_at(ps.video@, id@, i as int);
    }
    None
}

/// The audio profile with the given id, if the profiles loaded and one has
/// it (the first such).
pub fn audio<'a>(profiles: Option<&'a Profiles>, id: &str) -> (r: Option<&'a AudioProfile>)
    ensures
        match profiles {
            None => r is None,
            Some(ps) => match first_audio_with_id(ps.audio@, id@) {
                Some(k) => r is Some && *r->Some_0 == ps.audio@[k],
                None => r is None,
            },
        },
{
    let ps = match profiles {
        Some(ps) => ps,
        None => {
            return None;
        },
    };
    let mut i: usize = 0;
    while i < ps.audio.len()
        invariant
            profiles == Some(ps),
            i <= ps.audio@.len(),
            forall|j: int| 0 <= j < i ==> ps.audio@[j].id@ != id@,
        decreases ps.audio.len() - i,
    {
        if str_eq(ps.audio[i].id.as_str(), id) {
            proof {
                lemma_first_audio_at(ps.audio@, id@, i as int);
                assert(ps.audio@.skip(i as int)[0] == ps.audio@[i as int]);
                assert(first_audio_with_id(ps.audio@.skip(i as int), id@) == Some(0int));
            }
            return Some(&ps.audio[i]);
        }
        i = i + 1;
    }
    proof {
        lemma_first_audio_at(ps.audio@, id@, i as int);
    }
    None
}

} // verus!
