use mediasnare::capture::recording::RecordingState;
use mediasnare::window::main_window::{
    audio_source_as_setting, audio_source_from_setting, audio_toggle, controls_page, report,
    AudioToggle, CaptureOutcome, CommandMsg, ControlsPage, Effect, MainPage, MainWindow,
    MainWindowMsg, Mode, RecordingJob, Scope, UpdateContext,
};
use mediasnare::window::preferences::{
    directory_display, home_or_tmp, image_format_at, image_format_index, profile_row,
};
use mediasnare::window::recording_bar::BarState;
use mediasnare::window::region_selector::SelectorKind;

fn cx() -> UpdateContext {
    UpdateContext {
        selector_rect: None,
        copy_to_clipboard: true,
        ask_save_name: false,
        notify_on_complete: true,
        video_profile: "mp4".to_string(),
        audio_profile: "opus".to_string(),
    }
}

fn window(mode: &str, scope: &str) -> MainWindow {
    MainWindow::init(mode, scope, "desktop").0
}

fn names(fx: &[Effect]) -> Vec<String> {
    fx.iter()
        .map(|e| match e {
            Effect::ShowControls(p) => format!("controls:{}", p.name()),
            Effect::SaveCaptureMode(s) => format!("save-mode:{s}"),
            Effect::SaveCaptureScope(s) => format!("save-scope:{s}"),
            Effect::SaveAudioSource(s) => format!("save-audio:{s}"),
            Effect::HideRoot => "hide".to_string(),
            Effect::After { delay_ms, msg } => format!("after:{delay_ms}:{}", msg_name(msg)),
            Effect::Input(msg) => format!("input:{}", msg_name(msg)),
            Effect::PresentSelector(k) => format!("selector:{k:?}"),
            Effect::ForgetSelector => "forget-selector".to_string(),
            Effect::CloseSelector => "close-selector".to_string(),
            Effect::DispatchImageCapture { scope, timer_secs } => format!("image:{scope:?}:{timer_secs}"),
            Effect::DispatchImageCaptureRegion { region, timer_secs } => format!("image-region:{region:?}:{timer_secs}"),
            Effect::PausePipeline => "pause".to_string(),
            Effect::ResumePipeline => "resume".to_string(),
            Effect::SetBarState(s) => format!("bar:{s:?}"),
            Effect::OpenBar(r) => format!("open-bar:{r:?}"),
            Effect::SaveAndCloseBar => "close-bar".to_string(),
            Effect::SignalStop => "stop".to_string(),
            Effect::ReleasePipeline => "release-pipeline".to_string(),
            Effect::ShowPage(p) => format!("page:{}", p.name()),
            Effect::PresentRoot => "present".to_string(),
            Effect::StartRecording(job) => match job {
                RecordingJob::Video { profile_id, audio_source, scope, region } => {
                    format!("record-video:{profile_id}:{audio_source}:{scope:?}:{region:?}")
                }
                RecordingJob::Audio { audio_source, profile_id } => format!("record-audio:{audio_source}:{profile_id}"),
                RecordingJob::NoCapture => "record-nothing".to_string(),
            },
            Effect::CopyToClipboard(p) => format!("clipboard:{p}"),
            Effect::ShowSaveAs(p) => format!("save-as:{p}"),
            Effect::NotifyThenPresent(p) => format!("notify:{p}"),
            Effect::ShowError(m) => format!("error:{m}"),
            Effect::ShowPreferences => "preferences".to_string(),
        })
        .collect()
}

fn msg_name(m: &MainWindowMsg) -> String {
    match m {
        MainWindowMsg::HideFlushed => "HideFlushed".to_string(),
        MainWindowMsg::DispatchImageRegion(r) => format!("DispatchImageRegion{r:?}"),
        MainWindowMsg::ReadyToRecord(r) => format!("ReadyToRecord({r:?})"),
        MainWindowMsg::StartRecordingNow => "StartRecordingNow".to_string(),
        _ => "other".to_string(),
    }
}

#[test]
fn settings_mappings() {
    assert_eq!(Mode::from_setting("video"), Mode::Video);
    assert_eq!(Mode::from_setting("audio"), Mode::Audio);
    assert_eq!(Mode::from_setting("bogus"), Mode::Image);
    assert_eq!(Scope::from_setting("fullscreen"), Scope::Full);
    assert_eq!(Scope::from_setting("region"), Scope::Region);
    assert_eq!(Scope::from_setting("window"), Scope::Window);
    assert_eq!(Scope::Full.as_setting(), "fullscreen");
    assert_eq!(Mode::Audio.as_setting(), "audio");
    assert_eq!(audio_source_from_setting("microphone"), "mic");
    assert_eq!(audio_source_from_setting("desktop"), "desktop");
    assert_eq!(audio_source_as_setting("mic"), "microphone");
    assert_eq!(audio_source_as_setting("both"), "both");
    assert_eq!(audio_source_as_setting("weird"), "none");
    for a in ["desktop", "mic", "both", "none"] {
        assert_eq!(audio_source_from_setting(audio_source_as_setting(a)), a);
    }
    for m in [Mode::Image, Mode::Video, Mode::Audio] {
        assert_eq!(Mode::from_setting(m.as_setting()), m);
    }
    for s in [Scope::Full, Scope::Region, Scope::Window] {
        assert_eq!(Scope::from_setting(s.as_setting()), s);
    }
}

#[test]
fn init_restores_state() {
    let (w, view) = MainWindow::init("video", "region", "microphone");
    assert_eq!(w.mode, Mode::Video);
    assert_eq!(w.scope, Scope::Region);
    assert_eq!(w.audio_source, "mic");
    assert_eq!(w.recording_state, RecordingState::Idle);
    assert!(w.snare_sensitive);
    assert_eq!(view.controls, ControlsPage::Video);
    assert_eq!(view.video_scope_toggle, Scope::Region);
    assert_eq!(view.audio_toggle, AudioToggle::Mic);
    let (_, view) = MainWindow::init("image", "window", "none");
    assert_eq!(view.video_scope_toggle, Scope::Full);
    assert_eq!(view.scope_toggle, Scope::Window);
    assert_eq!(view.audio_toggle, AudioToggle::Silent);
    assert_eq!(audio_toggle("both"), AudioToggle::Both);
    assert_eq!(controls_page(Mode::Audio).name(), "audio_controls");
}

#[test]
fn elapsed_formatting() {
    let mut w = window("audio", "fullscreen");
    assert_eq!(w.elapsed_formatted(), "0:00");
    w.elapsed_secs = 65;
    assert_eq!(w.elapsed_formatted(), "1:05");
    w.elapsed_secs = 3600 + 59;
    assert_eq!(w.elapsed_formatted(), "60:59");
}

#[test]
fn set_mode_scope_audio_persist() {
    let mut w = window("image", "fullscreen");
    let fx = w.update(MainWindowMsg::SetMode(Mode::Video), &cx());
    assert_eq!(names(&fx), vec!["controls:video_controls", "save-mode:video"]);
    let fx = w.update(MainWindowMsg::SetScope(Scope::Region), &cx());
    assert_eq!(names(&fx), vec!["save-scope:region"]);
    let fx = w.update(MainWindowMsg::SetAudioSource("mic".to_string()), &cx());
    assert_eq!(names(&fx), vec!["save-audio:microphone"]);
    assert_eq!(w.audio_source, "mic");
    assert!(w.update(MainWindowMsg::SetTimer(5), &cx()).is_empty());
    assert_eq!(w.timer_secs, 5);
}

#[test]
fn image_full_capture_flow() {
    let mut w = window("image", "fullscreen");
    w.update(MainWindowMsg::SetTimer(3), &cx());
    let fx = w.update(MainWindowMsg::Snare, &cx());
    assert_eq!(names(&fx), vec!["hide", "after:300:HideFlushed"]);
    assert!(!w.snare_sensitive);
    let fx = w.update(MainWindowMsg::HideFlushed, &cx());
    assert_eq!(names(&fx), vec!["image:Full:3"]);
    let cmd = report(CaptureOutcome::Saved("/p/a.png".to_string()));
    let fx = w.update(w.update_cmd(cmd), &cx());
    assert_eq!(names(&fx), vec!["page:capture", "clipboard:/p/a.png", "notify:/p/a.png"]);
    assert!(w.snare_sensitive);
    assert_eq!(w.recording_state, RecordingState::Idle);
}

#[test]
fn image_region_flow() {
    let mut w = window("image", "region");
    w.update(MainWindowMsg::Snare, &cx());
    let fx = w.update(MainWindowMsg::HideFlushed, &cx());
    assert_eq!(names(&fx), vec!["selector:Image"]);
    assert!(w.has_region_selector);
    let fx = w.update(MainWindowMsg::RegionConfirmed((1, 2, 30, 40)), &cx());
    assert_eq!(names(&fx), vec!["forget-selector", "after:300:DispatchImageRegion(1, 2, 30, 40)"]);
    assert!(!w.has_region_selector);
    let fx = w.update(MainWindowMsg::DispatchImageRegion((1, 2, 30, 40)), &cx());
    assert_eq!(names(&fx), vec!["image-region:(1, 2, 30, 40):0"]);
    let fx = w.update(MainWindowMsg::CaptureCancelled, &cx());
    assert_eq!(names(&fx), vec!["page:capture", "present"]);
}

#[test]
fn video_region_recording_flow() {
    let mut w = window("video", "region");
    w.update(MainWindowMsg::Snare, &cx());
    let fx = w.update(MainWindowMsg::HideFlushed, &cx());
    assert_eq!(names(&fx), vec!["selector:Video"]);
    let fx = w.update(MainWindowMsg::RegionReady((10, 10, 200, 100)), &cx());
    assert_eq!(names(&fx), vec!["input:ReadyToRecord(Some((10, 10, 200, 100)))"]);
    let fx = w.update(MainWindowMsg::ReadyToRecord(Some((10, 10, 200, 100))), &cx());
    assert_eq!(names(&fx), vec!["open-bar:Some((10, 10, 200, 100))"]);
    assert_eq!(w.recording_state, RecordingState::Ready);
    let mut c = cx();
    c.selector_rect = Some((12, 14, 300, 150));
    let fx = w.update(MainWindowMsg::Record, &c);
    assert_eq!(names(&fx), vec!["close-selector", "after:250:StartRecordingNow"]);
    assert_eq!(w.recording_region, Some((12, 14, 300, 150)));
    let fx = w.update(MainWindowMsg::StartRecordingNow, &cx());
    assert_eq!(names(&fx), vec!["record-video:mp4:desktop:Region:Some((12, 14, 300, 150))"]);
    assert!(w.has_stop_signal && w.has_pipeline);
    let fx = w.update(MainWindowMsg::CaptureStarted, &cx());
    assert_eq!(names(&fx), vec!["page:recording", "bar:Recording"]);
    w.update(MainWindowMsg::Tick, &cx());
    w.update(MainWindowMsg::Tick, &cx());
    assert_eq!(w.elapsed_secs, 2);
    let fx = w.update(MainWindowMsg::Pause, &cx());
    assert_eq!(names(&fx), vec!["pause", "bar:Paused"]);
    w.update(MainWindowMsg::Tick, &cx());
    assert_eq!(w.elapsed_secs, 2);
    let fx = w.update(MainWindowMsg::Record, &cx());
    assert_eq!(names(&fx), vec!["resume", "bar:Recording"]);
    assert_eq!(w.recording_state, RecordingState::Recording);
    let fx = w.update(MainWindowMsg::Stop, &cx());
    assert_eq!(names(&fx), vec!["stop"]);
    assert_eq!(w.recording_state, RecordingState::Flushing);
    let mut c = cx();
    c.notify_on_complete = false;
    c.ask_save_name = true;
    let fx = w.update(MainWindowMsg::CaptureDone("/v/m.mp4".to_string()), &c);
    assert_eq!(names(&fx), vec!["close-bar", "page:capture", "save-as:/v/m.mp4", "present"]);
    assert_eq!(w.recording_region, None);
    assert_eq!(w.elapsed_secs, 0);
    assert!(!w.is_recording());
}

#[test]
fn audio_recording_flow_and_error() {
    let mut w = window("audio", "fullscreen");
    w.update(MainWindowMsg::Snare, &cx());
    let fx = w.update(MainWindowMsg::HideFlushed, &cx());
    assert_eq!(names(&fx), vec!["input:ReadyToRecord(None)"]);
    w.update(MainWindowMsg::ReadyToRecord(None), &cx());
    assert!(w.is_recording());
    let fx = w.update(MainWindowMsg::Record, &cx());
    assert_eq!(names(&fx), vec!["record-audio:desktop:opus"]);
    let fx = w.update(MainWindowMsg::CaptureError("boom".to_string()), &cx());
    assert_eq!(names(&fx), vec!["close-bar", "page:capture", "present", "error:boom"]);
    assert!(w.snare_sensitive);
}

#[test]
fn stop_when_ready_cancels() {
    let mut w = window("audio", "fullscreen");
    w.update(MainWindowMsg::ReadyToRecord(None), &cx());
    let fx = w.update(MainWindowMsg::Stop, &cx());
    assert_eq!(names(&fx), vec!["close-bar", "page:capture", "present"]);
    assert_eq!(w.recording_state, RecordingState::Idle);
    assert!(w.snare_sensitive);
}

#[test]
fn stop_after_record_before_start_releases_pipeline() {
    let mut w = window("audio", "fullscreen");
    w.update(MainWindowMsg::ReadyToRecord(None), &cx());
    w.update(MainWindowMsg::Record, &cx());
    assert!(w.has_stop_signal && w.has_pipeline);
    assert_eq!(w.recording_state, RecordingState::Ready);
    let fx = w.update(MainWindowMsg::Stop, &cx());
    assert_eq!(names(&fx), vec!["close-bar", "release-pipeline", "page:capture", "present"]);
    assert!(w.has_stop_signal && !w.has_pipeline);
    assert_eq!(w.recording_state, RecordingState::Idle);
}

#[test]
fn pause_and_record_ignored_when_idle() {
    let mut w = window("video", "fullscreen");
    assert!(w.update(MainWindowMsg::Pause, &cx()).is_empty());
    assert!(w.update(MainWindowMsg::Record, &cx()).is_empty());
    assert!(w.update(MainWindowMsg::StartRecordingNow, &cx()).is_empty());
    assert_eq!(w.recording_state, RecordingState::Idle);
    assert_eq!(names(&w.update(MainWindowMsg::OpenPreferences, &cx())), vec!["preferences"]);
    assert_eq!(names(&w.update(MainWindowMsg::PresentWindow, &cx())), vec!["present"]);
}

#[test]
fn commands_become_messages() {
    let w = window("image", "fullscreen");
    assert!(matches!(w.update_cmd(CommandMsg::Tick), MainWindowMsg::Tick));
    assert!(matches!(w.update_cmd(report(CaptureOutcome::Cancelled)), MainWindowMsg::CaptureCancelled));
    match w.update_cmd(report(CaptureOutcome::Failed("e".to_string()))) {
        MainWindowMsg::CaptureError(e) => assert_eq!(e, "e"),
        _ => panic!("wrong message"),
    }
}

#[test]
fn preference_values() {
    assert_eq!(image_format_index("png"), 0);
    assert_eq!(image_format_index("jpeg"), 1);
    assert_eq!(image_format_index("webp"), 2);
    assert_eq!(image_format_at(1), "jpg");
    assert_eq!(image_format_at(7), "png");
    for i in 0..3 {
        assert_eq!(image_format_index(image_format_at(i)), i);
    }
    let ids = vec!["mp4".to_string(), "mkv".to_string()];
    assert_eq!(profile_row(&ids, "mkv"), Some(1));
    assert_eq!(profile_row(&ids, "webm"), None);
    assert_eq!(home_or_tmp(None), "/tmp");
    assert_eq!(directory_display(None, "/home/a", "Videos"), "/home/a/Videos");
    assert_eq!(directory_display(Some("/d"), "/home/a", "Videos"), "/d");
    let _ = (BarState::Ready, SelectorKind::Image, MainPage::Capture);
}
