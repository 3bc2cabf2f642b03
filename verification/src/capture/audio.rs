//! Standalone audio recording: which sources are recorded.
use vstd::prelude::*;

use crate::capture::pipeline::{audio_branch_spec, AudioBranch};
use crate::text::str_eq;

verus! {

/// Audio mode was started without an audio source.
#[derive(Debug, Clone, Copy, PartialEq, Eq, Structural)]
pub struct NoAudioSource;

impl NoAudioSource {
    pub fn message(&self) -> (r: &'static str)
        ensures
            r@ == "Audio mode requires an audio source — select Desktop, Mic, or Both"@,
    {
        "Audio mode requires an audio source — select Desktop, Mic, or Both"
    }
}

/// The sources of an audio recording: "none" cannot record; "both" mixes
/// the desktop monitor and the microphone; "desktop" is the monitor alone;
/// anything else the microphone alone.
pub fn recording_sources(source: &str) -> (r: Result<AudioBranch, NoAudioSource>)
    ensures
        r == (if source@ == "none"@ {
            Err(NoAudioSource)
        } else {
            Ok(audio_branch_spec(source@))
        }),
{
    if str_eq(source, "none") {
        Err(NoAudioSource)
    } else if str_eq(source, "both") {
        Ok(AudioBranch::Mixed)
    } else {
        Ok(AudioBranch::Single { monitor: str_eq(source, "desktop") })
    }
}

} // verus!
