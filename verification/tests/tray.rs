use mathimage::tray::{
    global_hotkey_label, is_checked, model_item_id, model_title, profile_item_id, profile_title,
    sound_label, switch_hotkey_label, tray_command, TrayCommand,
};
use mathimage::{Config, HotkeyDispatcher, KeyState, Trigger};

#[test]
fn the_identifier_of_an_entry_says_what_is_asked_for() {
    assert_eq!(tray_command("settings"), TrayCommand::Settings);
    assert_eq!(tray_command("load_models"), TrayCommand::LoadModels);
    assert_eq!(tray_command("toggle_sound"), TrayCommand::ToggleSound);
    assert_eq!(tray_command("quit"), TrayCommand::Quit);
    assert_eq!(tray_command("profile_7f-1c"), TrayCommand::SelectProfile("7f-1c".to_string()));
    assert_eq!(tray_command("profile_"), TrayCommand::SelectProfile(String::new()));
    assert_eq!(tray_command("model_gpt-4o"), TrayCommand::SelectModel("gpt-4o".to_string()));
    assert_eq!(tray_command("model_model_x"), TrayCommand::SelectModel("model_x".to_string()));
    assert_eq!(tray_command("profile"), TrayCommand::Unknown);
    assert_eq!(tray_command("Settings"), TrayCommand::Unknown);
    assert_eq!(tray_command("global_hotkey_info"), TrayCommand::Unknown);
    assert_eq!(tray_command(""), TrayCommand::Unknown);
    assert_eq!(tray_command(&profile_item_id("work")), TrayCommand::SelectProfile("work".to_string()));
    assert_eq!(tray_command(&model_item_id("m1")), TrayCommand::SelectModel("m1".to_string()));
}

#[test]
fn entries_are_labelled() {
    assert_eq!(profile_title("work"), "Profile: work");
    assert_eq!(model_title("gpt-4o"), "Model: gpt-4o");
    assert_eq!(global_hotkey_label("cmd+shift+m"), "Global: Cmd+Shift+m");
    assert_eq!(switch_hotkey_label("ctrl+alt+p"), "Switch: Ctrl+Alt+p");
    assert_eq!(sound_label(true), "Sound: Enabled");
    assert_eq!(sound_label(false), "Sound: Disabled");
    assert!(is_checked(&"a".to_string(), &"a".to_string()));
    assert!(!is_checked(&"a".to_string(), &"b".to_string()));
}

#[test]
fn the_shown_model_is_that_of_the_named_profile() {
    let mut config = Config::initial("A".to_string());
    assert_eq!(config.shown_profile_name(), Some("默认配置".to_string()));
    assert_eq!(config.shown_model(), "Not Selected");
    config.profiles[0].api_config.model = "gpt-4o".to_string();
    assert_eq!(config.shown_model(), "gpt-4o");
    config.active_profile_id = Some("gone".to_string());
    assert_eq!(config.shown_profile_name(), None);
    assert_eq!(config.shown_model(), "Not Selected");
    config.active_profile_id = None;
    assert_eq!(config.shown_model(), "Not Selected");
}

#[test]
fn every_press_starts_a_run() {
    let mut dispatcher = HotkeyDispatcher::new();
    assert!(dispatcher.is_idle(Trigger::Capture));
    assert!(dispatcher.on_key(Trigger::Capture, KeyState::Pressed));
    assert!(!dispatcher.on_key(Trigger::Capture, KeyState::Released));
    assert!(!dispatcher.is_idle(Trigger::Capture));
    assert!(dispatcher.is_idle(Trigger::SwitchProfile));
    assert!(dispatcher.on_key(Trigger::Capture, KeyState::Pressed));
    assert_eq!(dispatcher.running(Trigger::Capture), 2);
    assert!(dispatcher.on_key(Trigger::SwitchProfile, KeyState::Pressed));
    assert_eq!(dispatcher.running(Trigger::SwitchProfile), 1);
    dispatcher.on_run_ended(Trigger::Capture);
    assert!(!dispatcher.is_idle(Trigger::Capture));
    dispatcher.on_run_ended(Trigger::Capture);
    assert!(dispatcher.is_idle(Trigger::Capture));
    dispatcher.on_run_ended(Trigger::Capture);
    assert!(dispatcher.is_idle(Trigger::Capture));
    assert_eq!(dispatcher.running(Trigger::SwitchProfile), 1);
}
