use mediasnare::capture::profile::{
    audio, select_profiles, substitute_threads, thread_count, video, AudioProfile, Profiles,
    ProfilesFile, RawAudioProfile, RawVideoProfile, VideoProfile,
};

fn raw_video(id: &str, videoenc: &str, vaapi: bool) -> RawVideoProfile {
    RawVideoProfile {
        id: id.to_string(),
        name: id.to_uppercase(),
        extension: "mp4".to_string(),
        videoenc: videoenc.to_string(),
        audioenc: "lamemp3enc".to_string(),
        muxer: "mp4mux fragment-duration=1000".to_string(),
        vaapi,
    }
}

fn raw_audio(id: &str, audioenc: &str, muxer: &str) -> RawAudioProfile {
    RawAudioProfile {
        id: id.to_string(),
        name: id.to_uppercase(),
        extension: id.to_string(),
        audioenc: audioenc.to_string(),
        muxer: muxer.to_string(),
    }
}

#[test]
fn substitute_threads_replaces_every_placeholder() {
    assert_eq!(
        substitute_threads("x264enc threads=${N_THREADS} ! queue threads=${N_THREADS}", 8),
        "x264enc threads=8 ! queue threads=8"
    );
}

#[test]
fn substitute_threads_without_placeholder_is_unchanged() {
    assert_eq!(substitute_threads("vp8enc deadline=1", 12), "vp8enc deadline=1");
    assert_eq!(substitute_threads("", 3), "");
    assert_eq!(substitute_threads("${N_THREADS", 3), "${N_THREADS");
}

#[test]
fn substitute_threads_multi_digit() {
    assert_eq!(substitute_threads("${N_THREADS}${N_THREADS}", 16), "1616");
    assert_eq!(substitute_threads("$${N_THREADS}}", 0), "$0}");
}

#[test]
fn thread_count_caps_and_defaults() {
    assert_eq!(thread_count(Some(2)), 2);
    assert_eq!(thread_count(Some(16)), 16);
    assert_eq!(thread_count(Some(64)), 16);
    assert_eq!(thread_count(None), 4);
}

#[test]
fn select_profiles_drops_unavailable_and_keeps_order() {
    let raw = ProfilesFile {
        video: vec![
            raw_video("mp4", "x264enc threads=${N_THREADS}", false),
            raw_video("mkv", "x264enc threads=${N_THREADS}", false),
            raw_video("va-h264", "vah264enc", true),
            raw_video("webm-vp8", "vp8enc threads=${N_THREADS}", false),
        ],
        audio: vec![
            raw_audio("opus", "opusenc", "oggmux"),
            raw_audio("mp3", "lamemp3enc", ""),
        ],
    };
    let profiles = select_profiles(raw, 6, false, &vec![true, false, true, true], &vec![false, true]);
    let ids: Vec<&str> = profiles.video.iter().map(|p| p.id.as_str()).collect();
    assert_eq!(ids, vec!["mp4", "webm-vp8"]);
    assert_eq!(profiles.video[0].videoenc, "x264enc threads=6");
    assert_eq!(profiles.video[1].videoenc, "vp8enc threads=6");
    assert_eq!(profiles.video[0].muxer, "mp4mux fragment-duration=1000");
    assert_eq!(profiles.audio.len(), 1);
    assert_eq!(profiles.audio[0].id, "mp3");
    assert_eq!(profiles.audio[0].muxer, "");
}

#[test]
fn select_profiles_keeps_vaapi_profile_when_encoder_present() {
    let raw = ProfilesFile {
        video: vec![raw_video("va-h264", "vah264enc", true)],
        audio: vec![],
    };
    let profiles = select_profiles(raw, 4, true, &vec![false], &vec![]);
    assert_eq!(profiles.video.len(), 1);
    assert!(profiles.video[0].vaapi);
    assert_eq!(profiles.video[0].name, "VA-H264");
}

fn sample_profiles() -> Profiles {
    let v = |id: &str, name: &str| VideoProfile {
        id: id.to_string(),
        name: name.to_string(),
        extension: "mp4".to_string(),
        videoenc: String::new(),
        audioenc: String::new(),
        muxer: String::new(),
        vaapi: false,
    };
    Profiles {
        video: vec![v("mp4", "MP4"), v("mkv", "MKV"), v("mp4", "MP4 duplicate")],
        audio: vec![AudioProfile {
            id: "opus".to_string(),
            name: "OGG / Opus".to_string(),
            extension: "ogg".to_string(),
            audioenc: "opusenc".to_string(),
            muxer: "oggmux".to_string(),
        }],
    }
}

#[test]
fn video_finds_first_profile_by_id() {
    let ps = sample_profiles();
    assert_eq!(video(Some(&ps), "mp4").unwrap().name, "MP4");
    assert_eq!(video(Some(&ps), "mkv").unwrap().name, "MKV");
    assert!(video(Some(&ps), "webm-vp8").is_none());
    assert!(video(None, "mp4").is_none());
}

#[test]
fn audio_finds_profile_by_id() {
    let ps = sample_profiles();
    assert_eq!(audio(Some(&ps), "opus").unwrap().extension, "ogg");
    assert!(audio(Some(&ps), "mp3").is_none());
    assert!(audio(None, "opus").is_none());
}
