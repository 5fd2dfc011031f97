use mathimage::dispatch::profile_switched;
use mathimage::{
    AnalysisError, CaptureRun, DialogKind, DispatchAction, DispatchEvent, OutputMode, Profile,
    PromptMode, SoundKind,
};

fn profile(prompt_mode: PromptMode, output_mode: OutputMode) -> Profile {
    let mut profile = Profile::fresh("id".to_string(), "work".to_string());
    profile.prompt_mode = prompt_mode;
    profile.output_mode = output_mode;
    profile
}

fn analyze(image: &str, prompt: &str) -> DispatchAction {
    DispatchAction::Analyze { image: image.to_string(), prompt: prompt.to_string() }
}

fn emit(event: &str, payload: &str) -> DispatchAction {
    DispatchAction::Emit { event: event.to_string(), payload: payload.to_string() }
}

#[test]
fn a_run_with_a_predefined_prompt_ends_on_the_clipboard() {
    let run = CaptureRun::start(&profile(PromptMode::Predefined("read".to_string()), OutputMode::Clipboard), true);
    assert!(!run.is_finished());
    let (run, actions) = run.step(DispatchEvent::Captured("img".to_string()));
    assert_eq!(actions, vec![analyze("img", "read")]);
    assert!(!run.is_finished());
    let (run, actions) = run.step(DispatchEvent::Analyzed("E = mc^2".to_string()));
    assert_eq!(
        actions,
        vec![
            DispatchAction::CopyToClipboard("E = mc^2".to_string()),
            DispatchAction::PlaySound(SoundKind::Success),
            emit("analysis_result", "E = mc^2"),
        ]
    );
    assert!(run.is_finished());
}

#[test]
fn a_run_that_asks_for_a_prompt_ends_in_a_dialog() {
    let run = CaptureRun::start(&profile(PromptMode::UserInput, OutputMode::Dialog), false);
    let (run, actions) = run.step(DispatchEvent::Captured("img".to_string()));
    assert_eq!(
        actions,
        vec![DispatchAction::AskPrompt {
            title: "Enter your prompt:".to_string(),
            default_text: "请输入分析图片的提示词...".to_string(),
        }]
    );
    let (run, actions) = run.step(DispatchEvent::PromptEntered(" what is this? ".to_string()));
    assert_eq!(actions, vec![analyze("img", " what is this? ")]);
    let (run, actions) = run.step(DispatchEvent::Analyzed("a cat".to_string()));
    assert_eq!(
        actions,
        vec![
            DispatchAction::ShowDialog {
                title: "MathImage Analysis Result".to_string(),
                message: "a cat".to_string(),
                kind: DialogKind::Info,
            },
            emit("analysis_result", "a cat"),
        ]
    );
    assert!(run.is_finished());
}

#[test]
fn a_cancelled_capture_or_prompt_ends_the_run_in_silence() {
    let run = CaptureRun::start(&profile(PromptMode::UserInput, OutputMode::Dialog), true);
    let (run, actions) = run.step(DispatchEvent::CaptureCancelled);
    assert_eq!(actions, vec![]);
    assert!(run.is_finished());

    for event in [DispatchEvent::PromptCancelled, DispatchEvent::PromptEntered(" \n".to_string()), DispatchEvent::PromptEntered(String::new())] {
        let run = CaptureRun::start(&profile(PromptMode::UserInput, OutputMode::Dialog), true);
        let (run, _) = run.step(DispatchEvent::Captured("img".to_string()));
        let (run, actions) = run.step(event);
        assert_eq!(actions, vec![]);
        assert!(run.is_finished());
    }
}

#[test]
fn a_failed_capture_is_shown() {
    let run = CaptureRun::start(&profile(PromptMode::UserInput, OutputMode::Dialog), true);
    let (run, actions) = run.step(DispatchEvent::CaptureFailed("Screenshot file too large".to_string()));
    assert_eq!(
        actions,
        vec![
            DispatchAction::PlaySound(SoundKind::Error),
            DispatchAction::ShowDialog {
                title: "MathImage Error".to_string(),
                message: "Screenshot file too large".to_string(),
                kind: DialogKind::Error,
            },
            emit("screenshot_error", "Screenshot file too large"),
        ]
    );
    assert!(run.is_finished());
}

#[test]
fn a_failed_analysis_is_shown_by_its_category() {
    let run = CaptureRun::start(&profile(PromptMode::Predefined("p".to_string()), OutputMode::Clipboard), false);
    let (run, _) = run.step(DispatchEvent::Captured("img".to_string()));
    let (run, actions) = run.step(DispatchEvent::AnalysisFailed(AnalysisError::HttpStatus(401, "secret".to_string())));
    assert_eq!(
        actions,
        vec![
            DispatchAction::ShowDialog {
                title: "MathImage Error".to_string(),
                message: "Authentication failed".to_string(),
                kind: DialogKind::Error,
            },
            emit("analysis_error", "Authentication failed"),
        ]
    );
    assert!(run.is_finished());
}

#[test]
fn what_is_missing_in_the_profile_is_shown_in_words() {
    let run = CaptureRun::start(&profile(PromptMode::Predefined("p".to_string()), OutputMode::Clipboard), true);
    let (run, _) = run.step(DispatchEvent::Captured("img".to_string()));
    let (run, actions) = run.step(DispatchEvent::AnalysisFailed(AnalysisError::MissingModel));
    assert_eq!(
        actions,
        vec![
            DispatchAction::PlaySound(SoundKind::Error),
            DispatchAction::ShowDialog {
                title: "MathImage Error".to_string(),
                message: "Please select a model first".to_string(),
                kind: DialogKind::Error,
            },
            emit("analysis_error", "Please select a model first"),
        ]
    );
    assert!(run.is_finished());
    assert_eq!(AnalysisError::MissingCredentials.shown(), "API key and base URL are required");
    assert_eq!(AnalysisError::EmptyResponse.shown(), "Request failed");
    assert_eq!(
        AnalysisError::AllAttemptsFailed("operation timeout".to_string()).shown(),
        "Network connection failed"
    );
}

#[test]
fn an_event_out_of_turn_asks_for_nothing() {
    let run = CaptureRun::start(&profile(PromptMode::Predefined("p".to_string()), OutputMode::Clipboard), true);
    let (run, actions) = run.step(DispatchEvent::Analyzed("x".to_string()));
    assert_eq!(actions, vec![]);
    assert!(!run.is_finished());
    let (run, actions) = run.step(DispatchEvent::PromptEntered("x".to_string()));
    assert_eq!(actions, vec![]);
    let (run, _) = run.step(DispatchEvent::Captured("img".to_string()));
    let (run, actions) = run.step(DispatchEvent::Captured("img".to_string()));
    assert_eq!(actions, vec![]);
    let (run, _) = run.step(DispatchEvent::Analyzed("x".to_string()));
    assert!(run.is_finished());
    let (run, actions) = run.step(DispatchEvent::Analyzed("y".to_string()));
    assert_eq!(actions, vec![]);
    assert!(run.is_finished());
}

#[test]
fn a_switch_is_told_with_the_name_of_the_profile() {
    assert_eq!(
        profile_switched(&profile(PromptMode::UserInput, OutputMode::Dialog)),
        emit("profile-switched", "Profile: work")
    );
}
