//! The main window's logic as a state machine: each message moves the model
//! to its next state and yields the effects the UI layer performs, in order.
use vstd::prelude::*;

use crate::capture::recording::RecordingState;
use crate::text::{dec_nat, format_u64, push_char, str_eq};
use crate::window::recording_bar::BarState;
use crate::window::region_selector::SelectorKind;

verus! {

/// A screen rectangle `(x, y, width, height)` in pixels.
pub type Rect = (i32, i32, i32, i32);

#[derive(Debug, Clone, Copy, PartialEq, Eq, Structural)]
pub enum Mode {
    Image,
    Video,
    Audio,
}

#[derive(Debug, Clone, Copy, PartialEq, Eq, Structural)]
pub enum Scope {
    Full,
    Region,
    Window,
}

/// The stored setting value of a mode.
pub open spec fn mode_setting(m: Mode) -> &'static str {
    match m {
        Mode::Image => "image",
        Mode::Video => "video",
        Mode::Audio => "audio",
    }
}

/// The mode a stored setting names; anything unknown is the image mode.
pub open spec fn mode_from_setting(s: Seq<char>) -> Mode {
    if s == "video"@ {
        Mode::Video
    } else if s == "audio"@ {
        Mode::Audio
    } else {
        Mode::Image
    }
}

/// The stored setting value of a scope (the schema's choices are
/// "fullscreen", "region" and "window").
pub open spec fn scope_setting(s: Scope) -> &'static str {
    match s {
        Scope::Full => "fullscreen",
        Scope::Region => "region",
        Scope::Window => "window",
    }
}

/// The scope a stored setting names; anything unknown is the full screen.
pub open spec fn scope_from_setting(s: Seq<char>) -> Scope {
    if s == "region"@ {
        Scope::Region
    } else if s == "window"@ {
        Scope::Window
    } else {
        Scope::Full
    }
}

impl Mode {
    pub fn from_setting(s: &str) -> (m: Mode)
        ensures
            m == mode_from_setting(s@),
    {
        if str_eq(s, "video") {
            Mode::Video
        } else if str_eq(s, "audio") {
            Mode::Audio
        } else {
            Mode::Image
        }
    }

    pub fn as_setting(&self) -> (r: &'static str)
        ensures
            r == mode_setting(*self),
    {
        match self {
            Mode::Image => "image",
            Mode::Video => "video",
            Mode::Audio => "audio",
        }
    }
}

impl Scope {
    pub fn from_setting(s: &str) -> (r: Scope)
        ensures
            r == scope_from_setting(s@),
    {
        if str_eq(s, "region") {
            Scope::Region
        } else if str_eq(s, "window") {
            Scope::Window
        } else {
            Scope::Full
        }
    }

    pub fn as_setting(&self) -> (r: &'static str)
        ensures
            r == scope_setting(*self),
    {
        match self {
            Scope::Full => "fullscreen",
            Scope::Region => "region",
            Scope::Window => "window",
        }
    }
}

/// The UI name of a stored audio source: the schema says "microphone" where
/// the UI says "mic"; every other value is kept.
pub open spec fn audio_source_from_setting_spec(s: Seq<char>) -> Seq<char> {
    if s == "microphone"@ {
        "mic"@
    } else {
        s
    }
}

/// The schema value of a UI audio source; anything unknown is "none".
pub open spec fn audio_setting_spec(s: Seq<char>) -> &'static str {
    if s == "desktop"@ {
        "desktop"
    } else if s == "mic"@ {
        "microphone"
    } else if s == "both"@ {
        "both"
    } else {
        "none"
    }
}

pub fn audio_source_from_setting(s: &str) -> (r: String)
    ensures
        r@ == audio_source_from_setting_spec(s@),
{
    if str_eq(s, "microphone") {
        "mic".to_owned()
    } else {
        s.to_owned()
    }
}

pub fn audio_source_as_setting(s: &str) -> (r: &'static str)
    ensures
        r == audio_setting_spec(s@),
{
    if str_eq(s, "desktop") {
        "desktop"
    } else if str_eq(s, "mic") {
        "microphone"
    } else if str_eq(s, "both") {
        "both"
    } else {
        "none"
    }
}

/// A stored mode or scope reads back as the mode or scope that was stored.
pub proof fn lemma_mode_scope_settings_round_trip(m: Mode, s: Scope)
    ensures
        mode_from_setting(mode_setting(m)@) == m,
        scope_from_setting(scope_setting(s)@) == s,
{
    reveal_strlit("image");
    reveal_strlit("video");
    reveal_strlit("audio");
    reveal_strlit("fullscreen");
    reveal_strlit("region");
    reveal_strlit("window");
    assert("image"@[0] != "video"@[0]);
    assert("image"@[0] != "audio"@[0]);
    assert("fullscreen"@[0] != "region"@[0]);
    assert("fullscreen"@[0] != "window"@[0]);
    assert("audio"@[0] != "video"@[0]);
    assert("region"@[0] != "window"@[0]);
}

/// Each audio source the UI offers ("desktop", "mic", "both", "none") is
/// stored as a schema value that reads back as the same UI source.
pub proof fn lemma_audio_source_round_trip(a: Seq<char>)
    requires
        a == "desktop"@ || a == "mic"@ || a == "both"@ || a == "none"@,
    ensures
        audio_source_from_setting_spec(audio_setting_spec(a)@) == a,
{
    reveal_strlit("desktop");
    reveal_strlit("mic");
    reveal_strlit("microphone");
    reveal_strlit("both");
    reveal_strlit("none");
    assert("desktop"@.len() != "microphone"@.len());
    assert("both"@.len() != "microphone"@.len());
    assert("none"@.len() != "microphone"@.len());
    assert("desktop"@[0] != "mic"@[0]);
    assert("desktop"@[0] != "both"@[0]);
    assert("mic"@[0] != "both"@[0]);
    assert("none"@[0] != "desktop"@[0]);
    assert("none"@[0] != "mic"@[0]);
    assert("none"@[0] != "both"@[0]);
}

/// The page of the controls stack shown for each mode.
#[derive(Debug, Clone, Copy, PartialEq, Eq, Structural)]
pub enum ControlsPage {
    Image,
    Video,
    Audio,
}

pub open spec fn controls_page_spec(m: Mode) -> ControlsPage {
    match m {
        Mode::Image => ControlsPage::Image,
        Mode::Video => ControlsPage::Video,
        Mode::Audio => ControlsPage::Audio,
    }
}

pub fn controls_page(m: Mode) -> (r: ControlsPage)
    ensures
        r == controls_page_spec(m),
{
    match m {
        Mode::Image => ControlsPage::Image,
        Mode::Video => ControlsPage::Video,
        Mode::Audio => ControlsPage::Audio,
    }
}

impl ControlsPage {
    /// The stack child name of the page.
    pub fn name(&self) -> (r: &'static str)
        ensures
            r == (match *self {
                ControlsPage::Image => "image_controls",
                ControlsPage::Video => "video_controls",
                ControlsPage::Audio => "audio_controls",
            }),
    {
        match self {
            ControlsPage::Image => "image_controls",
            ControlsPage::Video => "video_controls",
            ControlsPage::Audio => "audio_controls",
        }
    }
}

/// The page of the main stack: the capture controls or the recording view.
#[derive(Debug, Clone, Copy, PartialEq, Eq, Structural)]
pub enum MainPage {
    Capture,
    Recording,
}

impl MainPage {
    /// The stack child name of the page.
    pub fn name(&self) -> (r: &'static str)
        ensures
            r == (match *self {
                MainPage::Capture => "capture",
                MainPage::Recording => "recording",
            }),
    {
        match self {
            MainPage::Capture => "capture",
            MainPage::Recording => "recording",
        }
    }
}

/// The messages the main window handles.
#[derive(Debug)]
pub enum MainWindowMsg {
    SetMode(Mode),
    SetScope(Scope),
    SetTimer(u32),
    SetAudioSource(String),
    Snare,
    HideFlushed,
    RegionConfirmed(Rect),
    RegionReady(Rect),
    DispatchImageRegion(Rect),
    ReadyToRecord(Option<Rect>),
    Record,
    StartRecordingNow,
    Pause,
    Stop,
    CaptureStarted,
    /// The path of the saved capture.
    CaptureDone(String),
    CaptureCancelled,
    PresentWindow,
    CaptureError(String),
    Tick,
    OpenPreferences,
}

/// Messages from the asynchronous capture commands.
#[derive(Debug)]
pub enum CommandMsg {
    CaptureStarted,
    CaptureDone(String),
    CaptureCancelled,
    CaptureError(String),
    Tick,
}

/// What a recording command runs.
pub enum RecordingJob {
    Video { profile_id: String, audio_source: String, scope: Scope, region: Option<Rect> },
    Audio { audio_source: String, profile_id: String },
    /// The image mode records nothing: the command only reports its start.
    NoCapture,
}

/// An effect on the UI or the outside world, performed in order.
pub enum Effect {
    /// Show a page of the controls stack.
    ShowControls(ControlsPage),
    SaveCaptureMode(&'static str),
    SaveCaptureScope(&'static str),
    SaveAudioSource(&'static str),
    /// Hide the main window.
    HideRoot,
    /// Deliver a message after a delay on the main loop.
    After { delay_ms: u32, msg: MainWindowMsg },
    /// Deliver a message to this window right away.
    Input(MainWindowMsg),
    /// Open the region selector overlay and keep its handle (a previous
    /// handle is dropped).
    PresentSelector(SelectorKind),
    /// Drop the selector handle; the overlay has closed itself.
    ForgetSelector,
    /// Close the selector overlay and drop its handle.
    CloseSelector,
    /// Start an image capture after `timer_secs` seconds.
    DispatchImageCapture { scope: Scope, timer_secs: u32 },
    /// Start an image capture of a region after `timer_secs` seconds.
    DispatchImageCaptureRegion { region: Rect, timer_secs: u32 },
    PausePipeline,
    ResumePipeline,
    SetBarState(BarState),
    /// Create and show a recording bar (a previous handle is dropped).
    OpenBar(Option<Rect>),
    /// Save the bar's position, close it and drop its handle.
    SaveAndCloseBar,
    /// Tell the running recording to stop, and drop the stop channel.
    SignalStop,
    /// Drop the pipeline handle.
    ReleasePipeline,
    ShowPage(MainPage),
    /// Make the main window visible and present it.
    PresentRoot,
    /// Create a stop channel and a pipeline handle, then run the job.
    StartRecording(RecordingJob),
    CopyToClipboard(String),
    ShowSaveAs(String),
    /// Send a "Capture saved" notification with the path, then present the
    /// window (at most half a second later).
    NotifyThenPresent(String),
    ShowError(String),
    ShowPreferences,
}

/// What the update reads from outside the model: the region selector's
/// current rectangle and the stored preferences.
pub struct UpdateContext {
    pub selector_rect: Option<Rect>,
    pub copy_to_clipboard: bool,
    pub ask_save_name: bool,
    pub notify_on_complete: bool,
    pub video_profile: String,
    pub audio_profile: String,
}

/// The main window's model.
pub struct MainWindow {
    pub mode: Mode,
    pub scope: Scope,
    pub timer_secs: u32,
    pub audio_source: String,
    pub recording_state: RecordingState,
    pub elapsed_secs: u64,
    pub snare_sensitive: bool,
    /// A stop channel to the running recording exists.
    pub has_stop_signal: bool,
    /// A pipeline handle for pause and resume exists.
    pub has_pipeline: bool,
    pub recording_region: Option<Rect>,
    pub has_recording_bar: bool,
    pub has_region_selector: bool,
}

pub open spec fn opt_effect(cond: bool, e: Effect) -> Seq<Effect> {
    if cond {
        seq![e]
    } else {
        seq![]
    }
}

/// Starting a recording: the timer restarts, a stop channel and a pipeline
/// handle are created, and the job follows the mode.
pub open spec fn start_recording_spec(m: MainWindow, cx: UpdateContext) -> (MainWindow, Seq<Effect>) {
    let job = match m.mode {
        Mode::Video => RecordingJob::Video {
            profile_id: cx.video_profile,
            audio_source: m.audio_source,
            scope: m.scope,
            region: m.recording_region,
        },
        Mode::Audio => RecordingJob::Audio {
            audio_source: m.audio_source,
            profile_id: cx.audio_profile,
        },
        Mode::Image => RecordingJob::NoCapture,
    };
    (
        MainWindow { elapsed_secs: 0, has_stop_signal: true, has_pipeline: true, ..m },
        seq![Effect::StartRecording(job)],
    )
}

/// The model once a capture has ended (saved, cancelled or failed).
pub open spec fn ended(m: MainWindow) -> MainWindow {
    MainWindow {
        recording_state: RecordingState::Idle,
        elapsed_secs: 0,
        snare_sensitive: true,
        has_stop_signal: false,
        has_pipeline: false,
        has_recording_bar: false,
        ..m
    }
}


/// After the window has hidden: open the selector for a region, capture an
/// image right away, or get ready to record.
pub open spec fn step_hide_flushed(m: MainWindow) -> (MainWindow, Seq<Effect>) {
    if m.mode == Mode::Image && m.scope == Scope::Region {
        (
            MainWindow { has_region_selector: true, ..m },
            seq![Effect::PresentSelector(SelectorKind::Image)],
        )
    } else if m.mode == Mode::Image {
        (m, seq![Effect::DispatchImageCapture { scope: m.scope, timer_secs: m.timer_secs }])
    } else if m.mode == Mode::Video && m.scope == Scope::Region {
        (
            MainWindow { has_region_selector: true, ..m },
            seq![Effect::PresentSelector(SelectorKind::Video)],
        )
    } else {
        (m, seq![Effect::Input(MainWindowMsg::ReadyToRecord(None))])
    }
}

/// Pause acts only while recording.
pub open spec fn step_pause(m: MainWindow) -> (MainWindow, Seq<Effect>) {
    if m.recording_state == RecordingState::Recording {
        (
            MainWindow { recording_state: RecordingState::Paused, ..m },
            opt_effect(m.has_pipeline, Effect::PausePipeline) + opt_effect(
                m.has_recording_bar,
                Effect::SetBarState(BarState::Paused),
            ),
        )
    } else {
        (m, seq![])
    }
}

/// Stop before recording started cancels and re-arms, releasing the
/// pipeline handle a Record may already have created; otherwise it signals
/// the recording to stop and waits for it to drain.
pub open spec fn step_stop(m: MainWindow) -> (MainWindow, Seq<Effect>) {
    if m.recording_state == RecordingState::Ready {
        (
            MainWindow {
                recording_state: RecordingState::Idle,
                snare_sensitive: true,
                recording_region: None,
                has_region_selector: false,
                has_recording_bar: false,
                has_pipeline: false,
                ..m
            },
            opt_effect(m.has_region_selector, Effect::CloseSelector) + opt_effect(
                m.has_recording_bar,
                Effect::SaveAndCloseBar,
            ) + opt_effect(m.has_pipeline, Effect::ReleasePipeline) + seq![
                Effect::ShowPage(MainPage::Capture),
                Effect::PresentRoot,
            ],
        )
    } else {
        (
            MainWindow { recording_state: RecordingState::Flushing, has_stop_signal: false, ..m },
            opt_effect(m.has_stop_signal, Effect::SignalStop),
        )
    }
}

/// Record starts a ready recording (first closing a live region selector and
/// taking its final rectangle) or resumes a paused one.
pub open spec fn step_record(m: MainWindow, cx: UpdateContext) -> (MainWindow, Seq<Effect>) {
    if m.recording_state == RecordingState::Ready {
        if m.has_region_selector {
            let region = match cx.selector_rect {
                Some(rect) => Some(rect),
                None => m.recording_region,
            };
            (
                MainWindow { has_region_selector: false, recording_region: region, ..m },
                seq![
                    Effect::CloseSelector,
                    Effect::After { delay_ms: 250, msg: MainWindowMsg::StartRecordingNow },
                ],
            )
        } else {
            start_recording_spec(m, cx)
        }
    } else if m.recording_state == RecordingState::Paused {
        (
            MainWindow { recording_state: RecordingState::Recording, ..m },
            opt_effect(m.has_pipeline, Effect::ResumePipeline) + opt_effect(
                m.has_recording_bar,
                Effect::SetBarState(BarState::Recording),
            ),
        )
    } else {
        (m, seq![])
    }
}

/// A saved capture: back to idle, then clipboard, Save As, and notification
/// or presenting, as the preferences say.
pub open spec fn step_capture_done(m: MainWindow, path: String, cx: UpdateContext) -> (MainWindow, Seq<Effect>) {
    (
        MainWindow { recording_region: None, ..ended(m) },
        opt_effect(m.has_recording_bar, Effect::SaveAndCloseBar) + seq![
            Effect::ShowPage(MainPage::Capture),
        ] + opt_effect(m.mode == Mode::Image && cx.copy_to_clipboard, Effect::CopyToClipboard(path))
            + opt_effect(cx.ask_save_name, Effect::ShowSaveAs(path)) + (if cx.notify_on_complete {
            seq![Effect::NotifyThenPresent(path)]
        } else {
            seq![Effect::PresentRoot]
        }),
    )
}

/// A cancelled (`error` is `None`) or failed capture: back to idle with the
/// selector and bar closed and the window presented; a failure is shown.
pub open spec fn step_capture_ended(m: MainWindow, error: Option<String>) -> (MainWindow, Seq<Effect>) {
    (
        MainWindow { has_region_selector: false, ..ended(m) },
        opt_effect(m.has_region_selector, Effect::CloseSelector) + opt_effect(
            m.has_recording_bar,
            Effect::SaveAndCloseBar,
        ) + seq![Effect::ShowPage(MainPage::Capture), Effect::PresentRoot] + match error {
            Some(text) => seq![Effect::ShowError(text)],
            None => seq![],
        },
    )
}

/// The transition of the main window on a message.
pub open spec fn step(m: MainWindow, msg: MainWindowMsg, cx: UpdateContext) -> (MainWindow, Seq<Effect>) {
    match msg {
        MainWindowMsg::SetMode(md) => (
            MainWindow { mode: md, ..m },
            seq![Effect::ShowControls(controls_page_spec(md)), Effect::SaveCaptureMode(mode_setting(md))],
        ),
        MainWindowMsg::SetScope(s) => (
            MainWindow { scope: s, ..m },
            seq![Effect::SaveCaptureScope(scope_setting(s))],
        ),
        MainWindowMsg::SetTimer(t) => (MainWindow { timer_secs: t, ..m }, seq![]),
        MainWindowMsg::SetAudioSource(a) => (
            MainWindow { audio_source: a, ..m },
            seq![Effect::SaveAudioSource(audio_setting_spec(a@))],
        ),
        MainWindowMsg::Snare => (
            MainWindow { snare_sensitive: false, ..m },
            seq![Effect::HideRoot, Effect::After { delay_ms: 300, msg: MainWindowMsg::HideFlushed }],
        ),
        MainWindowMsg::HideFlushed => step_hide_flushed(m),
        MainWindowMsg::RegionConfirmed(c) => (
            MainWindow { has_region_selector: false, ..m },
            seq![
                Effect::ForgetSelector,
                Effect::After { delay_ms: 300, msg: MainWindowMsg::DispatchImageRegion(c) },
            ],
        ),
        MainWindowMsg::DispatchImageRegion(c) => (
            m,
            seq![Effect::DispatchImageCaptureRegion { region: c, timer_secs: m.timer_secs }],
        ),
        MainWindowMsg::RegionReady(c) => (m, seq![Effect::Input(MainWindowMsg::ReadyToRecord(Some(c)))]),
        MainWindowMsg::Pause => step_pause(m),
        MainWindowMsg::Stop => step_stop(m),
        MainWindowMsg::ReadyToRecord(r) => (
            MainWindow {
                recording_state: RecordingState::Ready,
                recording_region: r,
                has_recording_bar: true,
                ..m
            },
            seq![Effect::OpenBar(r)],
        ),
        MainWindowMsg::Record => step_record(m, cx),
        MainWindowMsg::StartRecordingNow => {
            if m.recording_state == RecordingState::Ready {
                start_recording_spec(m, cx)
            } else {
                (m, seq![])
            }
        },
        MainWindowMsg::CaptureStarted => (
            MainWindow { recording_state: RecordingState::Recording, ..m },
            seq![Effect::ShowPage(MainPage::Recording)] + opt_effect(
                m.has_recording_bar,
                Effect::SetBarState(BarState::Recording),
            ),
        ),
        MainWindowMsg::CaptureDone(path) => step_capture_done(m, path, cx),
        MainWindowMsg::CaptureCancelled => step_capture_ended(m, None),
        MainWindowMsg::PresentWindow => (m, seq![Effect::PresentRoot]),
        MainWindowMsg::CaptureError(text) => step_capture_ended(m, Some(text)),
        MainWindowMsg::Tick => {
            if m.recording_state == RecordingState::Recording {
                (MainWindow { elapsed_secs: (m.elapsed_secs + 1) as u64, ..m }, seq![])
            } else {
                (m, seq![])
            }
        },
        MainWindowMsg::OpenPreferences => (m, seq![Effect::ShowPreferences]),
    }
}

/// The inputs on which a step is defined: the elapsed-time counter does
/// not overflow on a tick while recording.
pub open spec fn step_defined(m: MainWindow, msg: MainWindowMsg) -> bool {
    (msg is Tick && m.recording_state == RecordingState::Recording) ==> m.elapsed_secs < u64::MAX
}


impl MainWindow {
    fn start_recording(&mut self, cx: &UpdateContext) -> (fx: Vec<Effect>)
        ensures
            (*final(self), fx@) == start_recording_spec(*old(self), *cx),
    {
        let job = match self.mode {
            Mode::Video => RecordingJob::Video {
                profile_id: cx.video_profile.clone(),
                audio_source: self.audio_source.clone(),
                scope: self.scope,
                region: self.recording_region,
            },
            Mode::Audio => RecordingJob::Audio {
                audio_source: self.audio_source.clone(),
                profile_id: cx.audio_profile.clone(),
            },
            Mode::Image => RecordingJob::NoCapture,
        };
        self.elapsed_secs = 0;
        self.has_stop_signal = true;
        self.has_pipeline = true;
        let mut fx: Vec<Effect> = Vec::new();
        fx.push(Effect::StartRecording(job));
        fx
    }

    fn end_capture(&mut self)
        ensures
            *final(self) == ended(*old(self)),
    {
        self.recording_state = RecordingState::Idle;
        self.elapsed_secs = 0;
        self.snare_sensitive = true;
        self.has_stop_signal = false;
        self.has_pipeline = false;
        self.has_recording_bar = false;
    }

    fn on_hide_flushed(&mut self) -> (fx: Vec<Effect>)
        ensures
            (*final(self), fx@) == step_hide_flushed(*old(self)),
    {
        let mut fx: Vec<Effect> = Vec::new();
        if self.mode == Mode::Image && self.scope == Scope::Region {
            self.has_region_selector = true;
            fx.push(Effect::PresentSelector(SelectorKind::Image));
        } else if self.mode == Mode::Image {
            fx.push(Effect::DispatchImageCapture { scope: self.scope, timer_secs: self.timer_secs });
        } else if self.mode == Mode::Video && self.scope == Scope::Region {
            self.has_region_selector = true;
            fx.push(Effect::PresentSelector(SelectorKind::Video));
        } else {
            fx.push(Effect::Input(MainWindowMsg::ReadyToRecord(None)));
        }
        fx
    }

    fn on_pause(&mut self) -> (fx: Vec<Effect>)
        ensures
            (*final(self), fx@) == step_pause(*old(self)),
    {
        let mut fx: Vec<Effect> = Vec::new();
        if self.recording_state == RecordingState::Recording {
            self.recording_state = RecordingState::Paused;
            if self.has_pipeline {
                fx.push(Effect::PausePipeline);
            }
            if self.has_recording_bar {
                fx.push(Effect::SetBarState(BarState::Paused));
            }
        }
        assert(fx@ =~= step_pause(*old(self)).1);
        fx
    }

    fn on_stop(&mut self) -> (fx: Vec<Effect>)
        ensures
            (*final(self), fx@) == step_stop(*old(self)),
    {
        let mut fx: Vec<Effect> = Vec::new();
        if self.recording_state == RecordingState::Ready {
            self.recording_state = RecordingState::Idle;
            self.snare_sensitive = true;
            self.recording_region = None;
            if self.has_region_selector {
                self.has_region_selector = false;
                fx.push(Effect::CloseSelector);
            }
            if self.has_recording_bar {
                self.has_recording_bar = false;
                fx.push(Effect::SaveAndCloseBar);
            }
            if self.has_pipeline {
                self.has_pipeline = false;
                fx.push(Effect::ReleasePipeline);
            }
            fx.push(Effect::ShowPage(MainPage::Capture));
            fx.push(Effect::PresentRoot);
        } else {
            if self.has_stop_signal {
                self.has_stop_signal = false;
                fx.push(Effect::SignalStop);
            }
            self.recording_state = RecordingState::Flushing;
        }
        assert(fx@ =~= step_stop(*old(self)).1);
        fx
    }

    fn on_record(&mut self, cx: &UpdateContext) -> (fx: Vec<Effect>)
        ensures
            (*final(self), fx@) == step_record(*old(self), *cx),
    {
        let mut fx: Vec<Effect> = Vec::new();
        if self.recording_state == RecordingState::Ready {
            if self.has_region_selector {
                self.has_region_selector = false;
                if let Some(rect) = cx.selector_rect {
                    self.recording_region = Some(rect);
                }
                fx.push(Effect::CloseSelector);
                fx.push(Effect::After { delay_ms: 250, msg: MainWindowMsg::StartRecordingNow });
            } else {
                fx = self.start_recording(cx);
            }
        } else if self.recording_state == RecordingState::Paused {
            self.recording_state = RecordingState::Recording;
            if self.has_pipeline {
                fx.push(Effect::ResumePipeline);
            }
            if self.has_recording_bar {
                fx.push(Effect::SetBarState(BarState::Recording));
            }
            assert(fx@ =~= step_record(*old(self), *cx).1);
        }
        fx
    }

    fn on_capture_done(&mut self, path: String, cx: &UpdateContext) -> (fx: Vec<Effect>)
        ensures
            (*final(self), fx@) == step_capture_done(*old(self), path, *cx),
    {
        let mut fx: Vec<Effect> = Vec::new();
        if self.has_recording_bar {
            fx.push(Effect::SaveAndCloseBar);
        }
        self.end_capture();
        self.recording_region = None;
        fx.push(Effect::ShowPage(MainPage::Capture));
        if self.mode == Mode::Image && cx.copy_to_clipboard {
            fx.push(Effect::CopyToClipboard(path.clone()));
        }
        if cx.ask_save_name {
            fx.push(Effect::ShowSaveAs(path.clone()));
        }
        if cx.notify_on_complete {
            fx.push(Effect::NotifyThenPresent(path));
        } else {
            fx.push(Effect::PresentRoot);
        }
        assert(fx@ =~= step_capture_done(*old(self), path, *cx).1);
        fx
    }

    fn on_capture_ended(&mut self, error: Option<String>) -> (fx: Vec<Effect>)
        ensures
            (*final(self), fx@) == step_capture_ended(*old(self), error),
    {
        let mut fx: Vec<Effect> = Vec::new();
        if self.has_region_selector {
            self.has_region_selector = false;
            fx.push(Effect::CloseSelector);
        }
        if self.has_recording_bar {
            fx.push(Effect::SaveAndCloseBar);
        }
        self.end_capture();
        fx.push(Effect::ShowPage(MainPage::Capture));
        fx.push(Effect::PresentRoot);
        match error {
            Some(text) => fx.push(Effect::ShowError(text)),
            None => {},
        }
        assert(fx@ =~= step_capture_ended(*old(self), error).1);
        fx
    }

    /// Applies a message to the model and returns the effects to perform.
    pub fn update(&mut self, msg: MainWindowMsg, cx: &UpdateContext) -> (fx: Vec<Effect>)
        requires
            step_defined(*old(self), msg),
        ensures
            (*final(self), fx@) == step(*old(self), msg, *cx),
    {
        let mut fx: Vec<Effect> = Vec::new();
        match msg {
            MainWindowMsg::SetMode(md) => {
                self.mode = md;
                fx.push(Effect::ShowControls(controls_page(md)));
                fx.push(Effect::SaveCaptureMode(md.as_setting()));
            },
            MainWindowMsg::SetScope(sc) => {
                self.scope = sc;
                fx.push(Effect::SaveCaptureScope(sc.as_setting()));
            },
            MainWindowMsg::SetTimer(t) => {
                self.timer_secs = t;
            },
            MainWindowMsg::SetAudioSource(a) => {
                fx.push(Effect::SaveAudioSource(audio_source_as_setting(a.as_str())));
                self.audio_source = a;
            },
            MainWindowMsg::Snare => {
                self.snare_sensitive = false;
                fx.push(Effect::HideRoot);
                fx.push(Effect::After { delay_ms: 300, msg: MainWindowMsg::HideFlushed });
            },
            MainWindowMsg::HideFlushed => {
                fx = self.on_hide_flushed();
            },
            MainWindowMsg::RegionConfirmed(c) => {
                self.has_region_selector = false;
                fx.push(Effect::ForgetSelector);
                fx.push(Effect::After { delay_ms: 300, msg: MainWindowMsg::DispatchImageRegion(c) });
            },
            MainWindowMsg::DispatchImageRegion(c) => {
                fx.push(Effect::DispatchImageCaptureRegion { region: c, timer_secs: self.timer_secs });
            },
            MainWindowMsg::RegionReady(c) => {
                fx.push(Effect::Input(MainWindowMsg::ReadyToRecord(Some(c))));
            },
            MainWindowMsg::Pause => {
                fx = self.on_pause();
            },
            MainWindowMsg::Stop => {
                fx = self.on_stop();
            },
            MainWindowMsg::ReadyToRecord(r) => {
                self.recording_state = RecordingState::Ready;
                self.recording_region = r;
                self.has_recording_bar = true;
                fx.push(Effect::OpenBar(r));
            },
            MainWindowMsg::Record => {
                fx = self.on_record(cx);
            },
            MainWindowMsg::StartRecordingNow => {
                if self.recording_state == RecordingState::Ready {
                    fx = self.start_recording(cx);
                }
            },
            MainWindowMsg::CaptureStarted => {
                self.recording_state = RecordingState::Recording;
                fx.push(Effect::ShowPage(MainPage::Recording));
                if self.has_recording_bar {
                    fx.push(Effect::SetBarState(BarState::Recording));
                }
            },
            MainWindowMsg::CaptureDone(path) => {
                fx = self.on_capture_done(path, cx);
            },
            MainWindowMsg::CaptureCancelled => {
                fx = self.on_capture_ended(None);
            },
            MainWindowMsg::PresentWindow => {
                fx.push(Effect::PresentRoot);
            },
            MainWindowMsg::CaptureError(text) => {
                fx = self.on_capture_ended(Some(text));
            },
            MainWindowMsg::Tick => {
                if self.recording_state == RecordingState::Recording {
                    self.elapsed_secs = self.elapsed_secs + 1;
                }
            },
            MainWindowMsg::OpenPreferences => {
                fx.push(Effect::ShowPreferences);
            },
        }
        proof {
            let ghost s = step(*old(self), msg, *cx);
            if msg is CaptureStarted {
                assert(fx@ =~= s.1);
            }
        }
        fx
    }
}


/// A number below 100 rendered with at least two digits.
pub open spec fn pad2(n: nat) -> Seq<char> {
    if n < 10 {
        seq!['0'] + dec_nat(n)
    } else {
        dec_nat(n)
    }
}

/// Elapsed time as minutes, a colon, and two-digit seconds ("1:05").
pub open spec fn elapsed_text(secs: nat) -> Seq<char> {
    dec_nat(secs / 60) + seq![':'] + pad2(secs % 60)
}

/// The audio-source toggle button that is active for a UI audio source.
#[derive(Debug, Clone, Copy, PartialEq, Eq, Structural)]
pub enum AudioToggle {
    Silent,
    Desktop,
    Mic,
    Both,
}

pub open spec fn audio_toggle_spec(s: Seq<char>) -> AudioToggle {
    if s == "desktop"@ {
        AudioToggle::Desktop
    } else if s == "mic"@ {
        AudioToggle::Mic
    } else if s == "both"@ {
        AudioToggle::Both
    } else {
        AudioToggle::Silent
    }
}

pub fn audio_toggle(s: &str) -> (r: AudioToggle)
    ensures
        r == audio_toggle_spec(s@),
{
    if str_eq(s, "desktop") {
        AudioToggle::Desktop
    } else if str_eq(s, "mic") {
        AudioToggle::Mic
    } else if str_eq(s, "both") {
        AudioToggle::Both
    } else {
        AudioToggle::Silent
    }
}

/// Which widgets the restored state activates when the window opens.
#[derive(Debug, Clone, Copy, PartialEq, Eq, Structural)]
pub struct InitialView {
    /// The side tab of the restored mode.
    pub tab: Mode,
    pub controls: ControlsPage,
    /// The image scope toggle.
    pub scope_toggle: Scope,
    /// The video scope toggle: region for the region scope, full otherwise.
    pub video_scope_toggle: Scope,
    /// The audio toggles of the video and audio pages.
    pub audio_toggle: AudioToggle,
}

/// What the window should do with the outcome of a capture command.
pub enum CaptureOutcome {
    Saved(String),
    Cancelled,
    Failed(String),
}

/// The command message that reports an outcome: a saved path, a quiet
/// cancel, or an error text.
pub fn report(outcome: CaptureOutcome) -> (r: CommandMsg)
    ensures
        r == (match outcome {
            CaptureOutcome::Saved(p) => CommandMsg::CaptureDone(p),
            CaptureOutcome::Cancelled => CommandMsg::CaptureCancelled,
            CaptureOutcome::Failed(e) => CommandMsg::CaptureError(e),
        }),
{
    match outcome {
        CaptureOutcome::Saved(p) => CommandMsg::CaptureDone(p),
        CaptureOutcome::Cancelled => CommandMsg::CaptureCancelled,
        CaptureOutcome::Failed(e) => CommandMsg::CaptureError(e),
    }
}

impl MainWindow {
    /// The model restored from the stored mode, scope and audio source,
    /// with nothing in progress, and the widgets to activate.
    pub fn init(capture_mode: &str, capture_scope: &str, audio_source: &str) -> (r: (MainWindow, InitialView))
        ensures
            r.0.mode == mode_from_setting(capture_mode@),
            r.0.scope == scope_from_setting(capture_scope@),
            r.0.audio_source@ == audio_source_from_setting_spec(audio_source@),
            r.0.timer_secs == 0,
            r.0.recording_state == RecordingState::Idle,
            r.0.elapsed_secs == 0,
            r.0.snare_sensitive,
            !r.0.has_stop_signal,
            !r.0.has_pipeline,
            r.0.recording_region is None,
            !r.0.has_recording_bar,
            !r.0.has_region_selector,
            r.1 == (InitialView {
                tab: r.0.mode,
                controls: controls_page_spec(r.0.mode),
                scope_toggle: r.0.scope,
                video_scope_toggle: if r.0.scope == Scope::Region { Scope::Region } else { Scope::Full },
                audio_toggle: audio_toggle_spec(r.0.audio_source@),
            }),
    {
        let mode = Mode::from_setting(capture_mode);
        let scope = Scope::from_setting(capture_scope);
        let audio = audio_source_from_setting(audio_source);
        let toggle = audio_toggle(audio.as_str());
        let view = InitialView {
            tab: mode,
            controls: controls_page(mode),
            scope_toggle: scope,
            video_scope_toggle: if scope == Scope::Region { Scope::Region } else { Scope::Full },
            audio_toggle: toggle,
        };
        let model = MainWindow {
            mode,
            scope,
            timer_secs: 0,
            audio_source: audio,
            recording_state: RecordingState::Idle,
            elapsed_secs: 0,
            snare_sensitive: true,
            has_stop_signal: false,
            has_pipeline: false,
            recording_region: None,
            has_recording_bar: false,
            has_region_selector: false,
        };
        (model, view)
    }

    /// The recording time shown in the recording view.
    pub fn elapsed_formatted(&self) -> (r: String)
        ensures
            r@ == elapsed_text(self.elapsed_secs as nat),
    {
        let m = self.elapsed_secs / 60;
        let s = self.elapsed_secs % 60;
        let mut r = format_u64(m);
        push_char(&mut r, ':');
        if s < 10 {
            push_char(&mut r, '0');
        }
        let sec = format_u64(s);
        r.append(sec.as_str());
        assert(r@ =~= elapsed_text(self.elapsed_secs as nat));
        r
    }

    /// Whether a capture is under way (anything but idle); the side tabs are
    /// locked meanwhile.
    pub fn is_recording(&self) -> (r: bool)
        ensures
            r == (self.recording_state != RecordingState::Idle),
    {
        match self.recording_state {
            RecordingState::Ready | RecordingState::Recording | RecordingState::Paused
            | RecordingState::Delayed | RecordingState::Flushing => true,
            RecordingState::Idle => false,
        }
    }

    /// The window message a command message is delivered as.
    pub fn update_cmd(&self, msg: CommandMsg) -> (r: MainWindowMsg)
        ensures
            r == (match msg {
                CommandMsg::CaptureStarted => MainWindowMsg::CaptureStarted,
                CommandMsg::CaptureDone(p) => MainWindowMsg::CaptureDone(p),
                CommandMsg::CaptureCancelled => MainWindowMsg::CaptureCancelled,
                CommandMsg::CaptureError(e) => MainWindowMsg::CaptureError(e),
                CommandMsg::Tick => MainWindowMsg::Tick,
            }),
    {
        match msg {
            CommandMsg::CaptureStarted => MainWindowMsg::CaptureStarted,
            CommandMsg::CaptureDone(p) => MainWindowMsg::CaptureDone(p),
            CommandMsg::CaptureCancelled => MainWindowMsg::CaptureCancelled,
            CommandMsg::CaptureError(e) => MainWindowMsg::CaptureError(e),
            CommandMsg::Tick => MainWindowMsg::Tick,
        }
    }
}

/// Pausing a recording and pressing Record again returns the model to where
/// it was: the pipeline is paused and then resumed, and the bar follows.
pub proof fn lemma_pause_then_record_resumes(m: MainWindow, cx: UpdateContext)
    requires
        m.recording_state == RecordingState::Recording,
    ensures
        ({
            let (m1, f1) = step(m, MainWindowMsg::Pause, cx);
            let (m2, f2) = step(m1, MainWindowMsg::Record, cx);
            &&& m1.recording_state == RecordingState::Paused
            &&& m2 == m
            &&& f1 == opt_effect(m.has_pipeline, Effect::PausePipeline) + opt_effect(
                m.has_recording_bar,
                Effect::SetBarState(BarState::Paused),
            )
            &&& f2 == opt_effect(m.has_pipeline, Effect::ResumePipeline) + opt_effect(
                m.has_recording_bar,
                Effect::SetBarState(BarState::Recording),
            )
        }),
{
}

/// Pause does nothing unless a recording is running.
pub proof fn lemma_pause_only_while_recording(m: MainWindow, cx: UpdateContext)
    requires
        m.recording_state != RecordingState::Recording,
    ensures
        step(m, MainWindowMsg::Pause, cx) == (m, Seq::<Effect>::empty()),
{
}

/// The recording clock advances by one second per tick while recording and
/// stands still otherwise; a tick has no other effect.
pub proof fn lemma_tick_counts_only_while_recording(m: MainWindow, cx: UpdateContext)
    requires
        step_defined(m, MainWindowMsg::Tick),
    ensures
        step(m, MainWindowMsg::Tick, cx).1 == Seq::<Effect>::empty(),
        step(m, MainWindowMsg::Tick, cx).0.elapsed_secs == (if m.recording_state
            == RecordingState::Recording {
            m.elapsed_secs + 1
        } else {
            m.elapsed_secs as int
        }),
        step(m, MainWindowMsg::Tick, cx).0.recording_state == m.recording_state,
{
}

/// However a capture ends (saved, cancelled or failed), the window is idle
/// again: Snare is re-enabled, the clock is reset, no stop channel, pipeline
/// handle or bar remains, and the capture page comes back with the window.
pub proof fn lemma_capture_end_rearms(m: MainWindow, msg: MainWindowMsg, cx: UpdateContext)
    requires
        msg is CaptureDone || msg is CaptureCancelled || msg is CaptureError,
    ensures
        ({
            let (n, f) = step(m, msg, cx);
            &&& n.recording_state == RecordingState::Idle
            &&& n.snare_sensitive
            &&& n.elapsed_secs == 0
            &&& !n.has_stop_signal
            &&& !n.has_pipeline
            &&& !n.has_recording_bar
            &&& f.contains(Effect::ShowPage(MainPage::Capture))
            &&& (f.contains(Effect::PresentRoot) || exists|i: int|
                0 <= i < f.len() && #[trigger] f[i] is NotifyThenPresent)
            &&& (m.has_recording_bar <==> f.contains(Effect::SaveAndCloseBar))
        }),
{
    let (n, f) = step(m, msg, cx);
    match msg {
        MainWindowMsg::CaptureDone(path) => {
            let k: int = if m.has_recording_bar { 1 } else { 0 };
            assert(f[k] == Effect::ShowPage(MainPage::Capture));
            if cx.notify_on_complete {
                assert(f[f.len() - 1] == Effect::NotifyThenPresent(path));
            } else {
                assert(f[f.len() - 1] == Effect::PresentRoot);
            }
            if m.has_recording_bar {
                assert(f[0] == Effect::SaveAndCloseBar);
            }
        },
        MainWindowMsg::CaptureCancelled | MainWindowMsg::CaptureError(_) => {
            let k: int = (if m.has_region_selector { 1int } else { 0int }) + (if m.has_recording_bar {
                1int
            } else {
                0int
            });
            assert(f[k] == Effect::ShowPage(MainPage::Capture));
            assert(f[k + 1] == Effect::PresentRoot);
            if m.has_recording_bar {
                assert(f[k - 1] == Effect::SaveAndCloseBar);
            }
        },
        _ => {},
    }
}

/// Stop before recording has begun cancels the armed capture: the window is
/// idle with Snare re-enabled; the region, selector and bar are gone; the
/// pipeline handle is released (when a Record created it); nothing is
/// signalled to the recording.
pub proof fn lemma_stop_when_ready_cancels(m: MainWindow, cx: UpdateContext)
    requires
        m.recording_state == RecordingState::Ready,
    ensures
        ({
            let (n, f) = step(m, MainWindowMsg::Stop, cx);
            &&& n.recording_state == RecordingState::Idle
            &&& n.snare_sensitive
            &&& n.recording_region is None
            &&& !n.has_region_selector
            &&& !n.has_recording_bar
            &&& !n.has_pipeline
            &&& n.has_stop_signal == m.has_stop_signal
            &&& f.contains(Effect::ReleasePipeline) == m.has_pipeline
            &&& !f.contains(Effect::SignalStop)
        }),
{
    let (n, f) = step(m, MainWindowMsg::Stop, cx);
    assert forall|i: int| 0 <= i < f.len() implies f[i] != Effect::SignalStop by {}
    let k: int = (if m.has_region_selector { 1int } else { 0int }) + (if m.has_recording_bar { 1int } else { 0int });
    if m.has_pipeline {
        assert(f[k] == Effect::ReleasePipeline);
    } else {
        assert forall|i: int| 0 <= i < f.len() implies f[i] != Effect::ReleasePipeline by {}
    }
}

/// Stop during a recording signals the pipeline to finish (when a stop
/// channel exists) and leaves the window flushing until the capture ends.
pub proof fn lemma_stop_while_recording_flushes(m: MainWindow, cx: UpdateContext)
    requires
        m.recording_state != RecordingState::Ready,
    ensures
        ({
            let (n, f) = step(m, MainWindowMsg::Stop, cx);
            &&& n.recording_state == RecordingState::Flushing
            &&& !n.has_stop_signal
            &&& f == opt_effect(m.has_stop_signal, Effect::SignalStop)
        }),
{
}

/// Snare disables itself and hides the window; the capture continues only
/// after the hide has been flushed (300 ms later).
pub proof fn lemma_snare_hides_first(m: MainWindow, cx: UpdateContext)
    ensures
        ({
            let (n, f) = step(m, MainWindowMsg::Snare, cx);
            &&& !n.snare_sensitive
            &&& n.recording_state == m.recording_state
            &&& f == seq![
                Effect::HideRoot,
                Effect::After { delay_ms: 300, msg: MainWindowMsg::HideFlushed },
            ]
        }),
{
}

/// The last used mode, scope and audio source are stored when chosen and
/// restored at the next launch.
pub proof fn lemma_choices_restored_on_launch(md: Mode, sc: Scope, a: Seq<char>)
    requires
        a == "desktop"@ || a == "mic"@ || a == "both"@ || a == "none"@,
    ensures
        mode_from_setting(mode_setting(md)@) == md,
        scope_from_setting(scope_setting(sc)@) == sc,
        audio_source_from_setting_spec(audio_setting_spec(a)@) == a,
{
    lemma_mode_scope_settings_round_trip(md, sc);
    lemma_audio_source_round_trip(a);
}

/// After the window has hidden, an image capture of a full screen or a
/// window is dispatched right away, of the chosen scope and with the chosen
/// timer; a region is first drawn in the selector of the capture's kind; a
/// video of the full screen or a window, and any audio recording, go
/// straight to the armed bar.
pub proof fn lemma_hide_flushed_dispatch(m: MainWindow, cx: UpdateContext)
    ensures
        ({
            let (n, f) = step(m, MainWindowMsg::HideFlushed, cx);
            &&& (m.mode == Mode::Image && m.scope != Scope::Region) ==> n == m && f == seq![
                Effect::DispatchImageCapture { scope: m.scope, timer_secs: m.timer_secs },
            ]
            &&& (m.mode == Mode::Image && m.scope == Scope::Region) ==> n.has_region_selector && f
                == seq![Effect::PresentSelector(SelectorKind::Image)]
            &&& (m.mode == Mode::Video && m.scope == Scope::Region) ==> n.has_region_selector && f
                == seq![Effect::PresentSelector(SelectorKind::Video)]
            &&& (m.mode == Mode::Audio || (m.mode == Mode::Video && m.scope != Scope::Region)) ==> n
                == m && f == seq![Effect::Input(MainWindowMsg::ReadyToRecord(None))]
        }),
{
}

/// The follow-ups of a saved capture, in every mode: Save As is offered
/// exactly when asked for, the image goes to the clipboard exactly for an
/// image with copying on, and the window comes back through a notification
/// exactly when notifying is on, and directly otherwise.
pub proof fn lemma_capture_done_follow_ups(m: MainWindow, path: String, cx: UpdateContext)
    ensures
        ({
            let f = step(m, MainWindowMsg::CaptureDone(path), cx).1;
            &&& f.contains(Effect::ShowSaveAs(path)) <==> cx.ask_save_name
            &&& f.contains(Effect::CopyToClipboard(path)) <==> (m.mode == Mode::Image
                && cx.copy_to_clipboard)
            &&& f.contains(Effect::NotifyThenPresent(path)) <==> cx.notify_on_complete
            &&& f.contains(Effect::PresentRoot) <==> !cx.notify_on_complete
        }),
{
    let f = step(m, MainWindowMsg::CaptureDone(path), cx).1;
    let a = opt_effect(m.has_recording_bar, Effect::SaveAndCloseBar);
    let b = opt_effect(m.mode == Mode::Image && cx.copy_to_clipboard, Effect::CopyToClipboard(path));
    let c = opt_effect(cx.ask_save_name, Effect::ShowSaveAs(path));
    let d = if cx.notify_on_complete {
        seq![Effect::NotifyThenPresent(path)]
    } else {
        seq![Effect::PresentRoot]
    };
    let head = a + seq![Effect::ShowPage(MainPage::Capture)];
    assert(f =~= head + b + c + d);
    let hb = head.len() as int;
    let hc = hb + b.len();
    let hd = hc + c.len();
    assert forall|i: int| 0 <= i < f.len() implies (#[trigger] f[i]) == (if i < hb {
        head[i]
    } else if i < hc {
        b[i - hb]
    } else if i < hd {
        c[i - hc]
    } else {
        d[i - hd]
    }) by {}
    if cx.ask_save_name {
        assert(f[hc] == Effect::ShowSaveAs(path));
    } else {
        assert forall|i: int| 0 <= i < f.len() implies f[i] != Effect::ShowSaveAs(path) by {}
    }
    if m.mode == Mode::Image && cx.copy_to_clipboard {
        assert(f[hb] == Effect::CopyToClipboard(path));
    } else {
        assert forall|i: int| 0 <= i < f.len() implies f[i] != Effect::CopyToClipboard(path) by {}
    }
    assert(f[hd] == d[0]);
    if cx.notify_on_complete {
        assert forall|i: int| 0 <= i < f.len() implies f[i] != Effect::PresentRoot by {}
    } else {
        assert forall|i: int| 0 <= i < f.len() implies f[i] != Effect::NotifyThenPresent(path) by {}
    }
}

/// The audio buttons activated at launch are those of the restored source:
/// Desktop, Mic and Both for "desktop", "mic" and "both" (the stored
/// "microphone" restoring to Mic), and None for anything else.
pub proof fn lemma_restored_audio_toggle(a: Seq<char>)
    ensures
        audio_toggle_spec("desktop"@) == AudioToggle::Desktop,
        audio_toggle_spec("mic"@) == AudioToggle::Mic,
        audio_toggle_spec("both"@) == AudioToggle::Both,
        audio_toggle_spec(a) == AudioToggle::Silent <==> (a != "desktop"@ && a != "mic"@ && a
            != "both"@),
        audio_toggle_spec(audio_source_from_setting_spec("desktop"@)) == AudioToggle::Desktop,
        audio_toggle_spec(audio_source_from_setting_spec("microphone"@)) == AudioToggle::Mic,
        audio_toggle_spec(audio_source_from_setting_spec("both"@)) == AudioToggle::Both,
        audio_toggle_spec(audio_source_from_setting_spec("none"@)) == AudioToggle::Silent,
{
    reveal_strlit("desktop");
    reveal_strlit("mic");
    reveal_strlit("microphone");
    reveal_strlit("both");
    reveal_strlit("none");
    assert("desktop"@[0] != "mic"@[0]);
    assert("desktop"@[0] != "both"@[0]);
    assert("mic"@[0] != "both"@[0]);
    assert("none"@[0] != "desktop"@[0]);
    assert("none"@[0] != "mic"@[0]);
    assert("none"@[0] != "both"@[0]);
    assert("desktop"@.len() != "microphone"@.len());
    assert("both"@.len() != "microphone"@.len());
    assert("none"@.len() != "microphone"@.len());
}

} // verus!
