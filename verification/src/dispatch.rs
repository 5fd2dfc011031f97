//! What a press of a hotkey sets off.
//!
//! A press of the capture hotkey starts a run: a capture, a prompt where
//! the profile asks for one, the analysis, and the delivery of the answer. A
//! `CaptureRun` says after each event what is to be done next; the caller
//! does it and reports back. Runs do not know of each other: a press while
//! a run is under way starts another.

use crate::analysis::{AnalysisError, AnalysisErrorView};
use crate::profile::{OutputMode, Profile, ProfileView, PromptMode, PromptModeView};
use crate::text::{chars_of, join_texts, trim, trim_bounds};
use vstd::prelude::*;

verus! {

/// The two hotkeys.
#[derive(Clone, Copy, Debug, PartialEq, Eq, Structural)]
pub enum Trigger {
    /// Capture a region of the screen and analyse it.
    Capture,
    /// Go on to the next profile.
    SwitchProfile,
}

/// The two states of a key.
#[derive(Clone, Copy, Debug, PartialEq, Eq, Structural)]
pub enum KeyState {
    Pressed,
    Released,
}

/// The kinds of dialog.
#[derive(Clone, Copy, Debug, PartialEq, Eq, Structural)]
pub enum DialogKind {
    Info,
    Error,
}

/// The two sounds.
#[derive(Clone, Copy, Debug, PartialEq, Eq, Structural)]
pub enum SoundKind {
    Success,
    Error,
}

/// What happened since the last step of a run.
#[derive(Debug, PartialEq, Eq)]
pub enum DispatchEvent {
    /// The capture gave this image.
    Captured(String),
    /// The user gave up the capture.
    CaptureCancelled,
    /// The capture failed.
    CaptureFailed(String),
    /// The user entered this prompt.
    PromptEntered(String),
    /// The user gave up the prompt, or the dialog failed.
    PromptCancelled,
    /// The analysis gave this text.
    Analyzed(String),
    /// The analysis failed.
    AnalysisFailed(AnalysisError),
}

/// What a `DispatchEvent` holds.
pub enum DispatchEventView {
    Captured(Seq<char>),
    CaptureCancelled,
    CaptureFailed(Seq<char>),
    PromptEntered(Seq<char>),
    PromptCancelled,
    Analyzed(Seq<char>),
    AnalysisFailed(AnalysisErrorView),
}

impl View for DispatchEvent {
    type V = DispatchEventView;

    open spec fn view(&self) -> DispatchEventView {
        match self {
            DispatchEvent::Captured(image) => DispatchEventView::Captured(image@),
            DispatchEvent::CaptureCancelled => DispatchEventView::CaptureCancelled,
            DispatchEvent::CaptureFailed(m) => DispatchEventView::CaptureFailed(m@),
            DispatchEvent::PromptEntered(p) => DispatchEventView::PromptEntered(p@),
            DispatchEvent::PromptCancelled => DispatchEventView::PromptCancelled,
            DispatchEvent::Analyzed(text) => DispatchEventView::Analyzed(text@),
            DispatchEvent::AnalysisFailed(e) => DispatchEventView::AnalysisFailed(e@),
        }
    }
}

/// What is to be done, in the order given. Where one of these fails the
/// rest is still done.
#[derive(Debug, PartialEq, Eq)]
pub enum DispatchAction {
    /// Ask the user for a prompt, and report `PromptEntered` or
    /// `PromptCancelled`.
    AskPrompt { title: String, default_text: String },
    /// Analyse the image with the prompt, and report `Analyzed` or
    /// `AnalysisFailed`.
    Analyze { image: String, prompt: String },
    /// Put the text on the clipboard.
    CopyToClipboard(String),
    /// Show a dialog.
    ShowDialog { title: String, message: String, kind: DialogKind },
    /// Play a sound.
    PlaySound(SoundKind),
    /// Tell the other parts of the program.
    Emit { event: String, payload: String },
}

/// What a `DispatchAction` holds.
pub enum DispatchActionView {
    AskPrompt { title: Seq<char>, default_text: Seq<char> },
    Analyze { image: Seq<char>, prompt: Seq<char> },
    CopyToClipboard(Seq<char>),
    ShowDialog { title: Seq<char>, message: Seq<char>, kind: DialogKind },
    PlaySound(SoundKind),
    Emit { event: Seq<char>, payload: Seq<char> },
}

impl View for DispatchAction {
    type V = DispatchActionView;

    open spec fn view(&self) -> DispatchActionView {
        match self {
            DispatchAction::AskPrompt { title, default_text } => DispatchActionView::AskPrompt {
                title: title@,
                default_text: default_text@,
            },
            DispatchAction::Analyze { image, prompt } => DispatchActionView::Analyze {
                image: image@,
                prompt: prompt@,
            },
            DispatchAction::CopyToClipboard(text) => DispatchActionView::CopyToClipboard(text@),
            DispatchAction::ShowDialog { title, message, kind } => DispatchActionView::ShowDialog {
                title: title@,
                message: message@,
                kind: *kind,
            },
            DispatchAction::PlaySound(kind) => DispatchActionView::PlaySound(*kind),
            DispatchAction::Emit { event, payload } => DispatchActionView::Emit {
                event: event@,
                payload: payload@,
            },
        }
    }
}

/// What a list of actions holds.
pub open spec fn action_views(actions: Seq<DispatchAction>) -> Seq<DispatchActionView> {
    actions.map_values(|a: DispatchAction| a@)
}

/// Where a run stands. It holds what it needs of the profile and of the
/// settings as they were when the hotkey was pressed.
#[derive(Debug)]
pub enum CaptureRun {
    /// The capture is under way.
    Capturing { prompt_mode: PromptMode, output_mode: OutputMode, sound_enabled: bool },
    /// The user is asked for a prompt.
    Prompting { image: String, output_mode: OutputMode, sound_enabled: bool },
    /// The analysis is under way.
    Analyzing { output_mode: OutputMode, sound_enabled: bool },
    /// The run has ended.
    Finished,
}

/// What a `CaptureRun` holds.
pub enum CaptureRunView {
    Capturing { prompt_mode: PromptModeView, output_mode: OutputMode, sound_enabled: bool },
    Prompting { image: Seq<char>, output_mode: OutputMode, sound_enabled: bool },
    Analyzing { output_mode: OutputMode, sound_enabled: bool },
    Finished,
}

impl View for CaptureRun {
    type V = CaptureRunView;

    open spec fn view(&self) -> CaptureRunView {
        match self {
            CaptureRun::Capturing { prompt_mode, output_mode, sound_enabled } =>
                CaptureRunView::Capturing {
                    prompt_mode: prompt_mode@,
                    output_mode: *output_mode,
                    sound_enabled: *sound_enabled,
                },
            CaptureRun::Prompting { image, output_mode, sound_enabled } =>
                CaptureRunView::Prompting {
                    image: image@,
                    output_mode: *output_mode,
                    sound_enabled: *sound_enabled,
                },
            CaptureRun::Analyzing { output_mode, sound_enabled } => CaptureRunView::Analyzing {
                output_mode: *output_mode,
                sound_enabled: *sound_enabled,
            },
            CaptureRun::Finished => CaptureRunView::Finished,
        }
    }
}

/// The sound, where sounds are switched on.
pub open spec fn sound_actions(enabled: bool, kind: SoundKind) -> Seq<DispatchActionView> {
    if enabled {
        seq![DispatchActionView::PlaySound(kind)]
    } else {
        Seq::empty()
    }
}

/// What follows a failure: the error sound where sounds are switched on, a
/// dialog with `shown`, and the event `event` with `shown`.
pub open spec fn failure_actions(sound_enabled: bool, event: Seq<char>, shown: Seq<char>) -> Seq<
    DispatchActionView,
> {
    sound_actions(sound_enabled, SoundKind::Error) + seq![
        DispatchActionView::ShowDialog {
            title: "MathImage Error"@,
            message: shown,
            kind: DialogKind::Error,
        },
        DispatchActionView::Emit { event, payload: shown },
    ]
}

/// The delivery of an answer: to the clipboard or into a dialog.
pub open spec fn output_action(mode: OutputMode, text: Seq<char>) -> DispatchActionView {
    match mode {
        OutputMode::Clipboard => DispatchActionView::CopyToClipboard(text),
        OutputMode::Dialog => DispatchActionView::ShowDialog {
            title: "MathImage Analysis Result"@,
            message: text,
            kind: DialogKind::Info,
        },
    }
}

/// What follows an answer: its delivery, the success sound where sounds are
/// switched on, and the event `analysis_result` with the answer.
pub open spec fn success_actions(mode: OutputMode, sound_enabled: bool, text: Seq<char>) -> Seq<
    DispatchActionView,
> {
    seq![output_action(mode, text)] + sound_actions(sound_enabled, SoundKind::Success) + seq![
        DispatchActionView::Emit { event: "analysis_result"@, payload: text },
    ]
}

/// The question for a prompt.
pub open spec fn ask_prompt_action() -> DispatchActionView {
    DispatchActionView::AskPrompt {
        title: "Enter your prompt:"@,
        default_text: "请输入分析图片的提示词..."@,
    }
}

impl CaptureRunView {
    /// The run that a press of the capture hotkey starts under a profile.
    pub open spec fn start(profile: ProfileView, sound_enabled: bool) -> CaptureRunView {
        CaptureRunView::Capturing {
            prompt_mode: profile.prompt_mode,
            output_mode: profile.output_mode,
            sound_enabled,
        }
    }

    /// The run after an event, and what is to be done. An event that does
    /// not answer what the run waits for changes nothing and asks for
    /// nothing.
    ///
    /// A capture or a prompt that the user gave up ends the run in silence,
    /// and so does a prompt that is empty but for white space.
    pub open spec fn stepped(self, event: DispatchEventView) -> (
        CaptureRunView,
        Seq<DispatchActionView>,
    ) {
        match (self, event) {
            (
                CaptureRunView::Capturing { prompt_mode, output_mode, sound_enabled },
                DispatchEventView::Captured(image),
            ) => match prompt_mode {
                PromptModeView::Predefined(prompt) => (
                    CaptureRunView::Analyzing { output_mode, sound_enabled },
                    seq![DispatchActionView::Analyze { image, prompt }],
                ),
                PromptModeView::UserInput => (
                    CaptureRunView::Prompting { image, output_mode, sound_enabled },
                    seq![ask_prompt_action()],
                ),
            },
            (CaptureRunView::Capturing { .. }, DispatchEventView::CaptureCancelled) => (
                CaptureRunView::Finished,
                Seq::empty(),
            ),
            (
                CaptureRunView::Capturing { sound_enabled, .. },
                DispatchEventView::CaptureFailed(message),
            ) => (
                CaptureRunView::Finished,
                failure_actions(sound_enabled, "screenshot_error"@, message),
            ),
            (
                CaptureRunView::Prompting { image, output_mode, sound_enabled },
                DispatchEventView::PromptEntered(prompt),
            ) => if trim(prompt).len() > 0 {
                (
                    CaptureRunView::Analyzing { output_mode, sound_enabled },
                    seq![DispatchActionView::Analyze { image, prompt }],
                )
            } else {
                (CaptureRunView::Finished, Seq::empty())
            },
            (CaptureRunView::Prompting { .. }, DispatchEventView::PromptCancelled) => (
                CaptureRunView::Finished,
                Seq::empty(),
            ),
            (
                CaptureRunView::Analyzing { output_mode, sound_enabled },
                DispatchEventView::Analyzed(text),
            ) => (CaptureRunView::Finished, success_actions(output_mode, sound_enabled, text)),
            (
                CaptureRunView::Analyzing { sound_enabled, .. },
                DispatchEventView::AnalysisFailed(error),
            ) => (
                CaptureRunView::Finished,
                failure_actions(sound_enabled, "analysis_error"@, error.shown()),
            ),
            _ => (self, Seq::empty()),
        }
    }
}

/// The event that tells of a switch to a profile, and what it carries.
pub open spec fn switch_event(profile: ProfileView) -> DispatchActionView {
    DispatchActionView::Emit { event: "profile-switched"@, payload: "Profile: "@ + profile.name }
}

/// Appends the sound, where sounds are switched on.
fn push_sound(actions: &mut Vec<DispatchAction>, enabled: bool, kind: SoundKind)
    ensures
        action_views(final(actions)@) == action_views(old(actions)@) + sound_actions(enabled, kind),
{
    if enabled {
        actions.push(DispatchAction::PlaySound(kind));
    }
}

/// What follows a failure.
fn failure(sound_enabled: bool, event: &str, shown: String) -> (actions: Vec<DispatchAction>)
    ensures
        action_views(actions@) == failure_actions(sound_enabled, event@, shown@),
{
    let mut actions: Vec<DispatchAction> = Vec::new();
    push_sound(&mut actions, sound_enabled, SoundKind::Error);
    actions.push(
        DispatchAction::ShowDialog {
            title: "MathImage Error".to_string(),
            message: shown.clone(),
            kind: DialogKind::Error,
        },
    );
    actions.push(DispatchAction::Emit { event: event.to_string(), payload: shown });
    actions
}

/// What follows an answer.
fn success(mode: OutputMode, sound_enabled: bool, text: String) -> (actions: Vec<DispatchAction>)
    ensures
        action_views(actions@) == success_actions(mode, sound_enabled, text@),
{
    let mut actions: Vec<DispatchAction> = Vec::new();
    match mode {
        OutputMode::Clipboard => {
            actions.push(DispatchAction::CopyToClipboard(text.clone()));
        },
        OutputMode::Dialog => {
            actions.push(
                DispatchAction::ShowDialog {
                    title: "MathImage Analysis Result".to_string(),
                    message: text.clone(),
                    kind: DialogKind::Info,
                },
            );
        },
    }
    assert(action_views(actions@) =~= seq![output_action(mode, text@)]);
    push_sound(&mut actions, sound_enabled, SoundKind::Success);
    actions.push(DispatchAction::Emit { event: "analysis_result".to_string(), payload: text });
    actions
}

/// No actions.
fn nothing() -> (actions: Vec<DispatchAction>)
    ensures
        action_views(actions@) == Seq::<DispatchActionView>::empty(),
{
    let actions: Vec<DispatchAction> = Vec::new();
    actions
}

/// One action.
fn only(action: DispatchAction) -> (actions: Vec<DispatchAction>)
    ensures
        action_views(actions@) == seq![action@],
{
    let mut actions: Vec<DispatchAction> = Vec::new();
    actions.push(action);
    actions
}

impl CaptureRun {
    /// The run that a press of the capture hotkey starts under a profile.
    /// The capture is the first thing to be done.
    pub fn start(profile: &Profile, sound_enabled: bool) -> (run: CaptureRun)
        ensures
            run@ == CaptureRunView::start(profile@, sound_enabled),
    {
        CaptureRun::Capturing {
            prompt_mode: profile.prompt_mode.clone(),
            output_mode: profile.output_mode,
            sound_enabled,
        }
    }

    /// Whether the run has ended.
    pub fn is_finished(&self) -> (finished: bool)
        ensures
            finished == (self@ is Finished),
    {
        match self {
            CaptureRun::Finished => true,
            _ => false,
        }
    }

    /// The run after an event, and what is to be done, in this order.
    pub fn step(self, event: DispatchEvent) -> (next: (CaptureRun, Vec<DispatchAction>))
        ensures
            next.0@ == self@.stepped(event@).0,
            action_views(next.1@) == self@.stepped(event@).1,
    {
        match self {
            CaptureRun::Capturing { prompt_mode, output_mode, sound_enabled } => match event {
                DispatchEvent::Captured(image) => match prompt_mode {
                    PromptMode::Predefined(prompt) => (
                        CaptureRun::Analyzing { output_mode, sound_enabled },
                        only(DispatchAction::Analyze { image, prompt }),
                    ),
                    PromptMode::UserInput => (
                        CaptureRun::Prompting { image, output_mode, sound_enabled },
                        only(
                            DispatchAction::AskPrompt {
                                title: "Enter your prompt:".to_string(),
                                default_text: "请输入分析图片的提示词...".to_string(),
                            },
                        ),
                    ),
                },
                DispatchEvent::CaptureCancelled => (CaptureRun::Finished, nothing()),
                DispatchEvent::CaptureFailed(message) => (
                    CaptureRun::Finished,
                    failure(sound_enabled, "screenshot_error", message),
                ),
                _ => (CaptureRun::Capturing { prompt_mode, output_mode, sound_enabled }, nothing()),
            },
            CaptureRun::Prompting { image, output_mode, sound_enabled } => match event {
                DispatchEvent::PromptEntered(prompt) => {
                    let chars = chars_of(prompt.as_str());
                    let (start, end) = trim_bounds(chars.as_slice());
                    if start < end {
                        (
                            CaptureRun::Analyzing { output_mode, sound_enabled },
                            only(DispatchAction::Analyze { image, prompt }),
                        )
                    } else {
                        (CaptureRun::Finished, nothing())
                    }
                },
                DispatchEvent::PromptCancelled => (CaptureRun::Finished, nothing()),
                _ => (CaptureRun::Prompting { image, output_mode, sound_enabled }, nothing()),
            },
            CaptureRun::Analyzing { output_mode, sound_enabled } => match event {
                DispatchEvent::Analyzed(text) => (
                    CaptureRun::Finished,
                    success(output_mode, sound_enabled, text),
                ),
                DispatchEvent::AnalysisFailed(error) => (
                    CaptureRun::Finished,
                    failure(sound_enabled, "analysis_error", error.shown()),
                ),
                _ => (CaptureRun::Analyzing { output_mode, sound_enabled }, nothing()),
            },
            CaptureRun::Finished => (CaptureRun::Finished, nothing()),
        }
    }
}

/// How many runs each hotkey has under way.
pub struct DispatcherView {
    pub capture_runs: nat,
    pub switch_runs: nat,
}

impl DispatcherView {
    /// No run under way.
    pub open spec fn idle() -> DispatcherView {
        DispatcherView { capture_runs: 0, switch_runs: 0 }
    }

    /// The runs that a hotkey has under way.
    pub open spec fn running(self, which: Trigger) -> nat {
        match which {
            Trigger::Capture => self.capture_runs,
            Trigger::SwitchProfile => self.switch_runs,
        }
    }

    /// The runs with those of one hotkey set to `runs`.
    pub open spec fn with_running(self, which: Trigger, runs: nat) -> DispatcherView {
        match which {
            Trigger::Capture => DispatcherView { capture_runs: runs, ..self },
            Trigger::SwitchProfile => DispatcherView { switch_runs: runs, ..self },
        }
    }

    /// The runs after a hotkey changed its state: a press starts a run,
    /// whether or not others are under way; a release starts nothing. The
    /// count stops at the largest number that it can hold.
    pub open spec fn after_key(self, which: Trigger, state: KeyState) -> DispatcherView {
        match state {
            KeyState::Pressed => if self.running(which) < u64::MAX {
                self.with_running(which, self.running(which) + 1)
            } else {
                self
            },
            KeyState::Released => self,
        }
    }

    /// The runs after a run of a hotkey has ended.
    pub open spec fn after_run(self, which: Trigger) -> DispatcherView {
        if self.running(which) > 0 {
            self.with_running(which, (self.running(which) - 1) as nat)
        } else {
            self
        }
    }
}

/// The two hotkeys and the runs that they have under way. A hotkey is idle
/// while it has none.
#[derive(Debug)]
pub struct HotkeyDispatcher {
    capture_runs: u64,
    switch_runs: u64,
}

impl View for HotkeyDispatcher {
    type V = DispatcherView;

    closed spec fn view(&self) -> DispatcherView {
        DispatcherView {
            capture_runs: self.capture_runs as nat,
            switch_runs: self.switch_runs as nat,
        }
    }
}

impl HotkeyDispatcher {
    /// A dispatcher with no run under way.
    pub fn new() -> (dispatcher: HotkeyDispatcher)
        ensures
            dispatcher@ == DispatcherView::idle(),
    {
        HotkeyDispatcher { capture_runs: 0, switch_runs: 0 }
    }

    /// The runs that a hotkey has under way.
    pub fn running(&self, which: Trigger) -> (runs: u64)
        ensures
            runs == self@.running(which),
    {
        match which {
            Trigger::Capture => self.capture_runs,
            Trigger::SwitchProfile => self.switch_runs,
        }
    }

    /// Whether a hotkey has no run under way.
    pub fn is_idle(&self, which: Trigger) -> (idle: bool)
        ensures
            idle == (self@.running(which) == 0),
    {
        self.running(which) == 0
    }

    /// Takes a change of a hotkey's state, and says whether a run is to be
    /// started: on every press, and only on a press.
    pub fn on_key(&mut self, which: Trigger, state: KeyState) -> (start: bool)
        ensures
            start == (state == KeyState::Pressed),
            final(self)@ == old(self)@.after_key(which, state),
    {
        match state {
            KeyState::Pressed => {
                match which {
                    Trigger::Capture => {
                        if self.capture_runs < u64::MAX {
                            self.capture_runs = self.capture_runs + 1;
                        }
                    },
                    Trigger::SwitchProfile => {
                        if self.switch_runs < u64::MAX {
                            self.switch_runs = self.switch_runs + 1;
                        }
                    },
                }
                true
            },
            KeyState::Released => false,
        }
    }

    /// Takes the end of a run.
    pub fn on_run_ended(&mut self, which: Trigger)
        ensures
            final(self)@ == old(self)@.after_run(which),
    {
        match which {
            Trigger::Capture => {
                if self.capture_runs > 0 {
                    self.capture_runs = self.capture_runs - 1;
                }
            },
            Trigger::SwitchProfile => {
                if self.switch_runs > 0 {
                    self.switch_runs = self.switch_runs - 1;
                }
            },
        }
    }
}

/// The event that tells of a switch to a profile.
pub fn profile_switched(profile: &Profile) -> (action: DispatchAction)
    ensures
        action@ == switch_event(profile@),
{
    DispatchAction::Emit {
        event: "profile-switched".to_string(),
        payload: join_texts("Profile: ", profile.name.as_str()),
    }
}

} // verus!
