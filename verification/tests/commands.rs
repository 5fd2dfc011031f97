use mathimage::{
    Config, ConfigError, ConfigUpdates, JsonValue, OutputMode, ProfileConfigUpdate, PromptMode,
};

const DEFAULT_PROMPT: &str = "识别公式和文字，返回使用pandoc语法的markdown排版内容。公式请用katex语法包裹，文字内容不要丢失。只返回内容不需要其他解释。";

fn sent(text: &str) -> JsonValue {
    JsonValue::parse(text).unwrap()
}

#[test]
fn sent_fields_become_an_update() {
    let update = ProfileConfigUpdate::from_json(&sent(
        r#"{"profileName": "  work ", "apiBaseUrl": "http://h", "apiKey": "", "model": "m",
            "promptMode": "predefined", "prompt": "read", "outputMode": "dialog"}"#,
    ));
    assert_eq!(
        update,
        ProfileConfigUpdate {
            name: Some("work".to_string()),
            base_url: Some("http://h".to_string()),
            api_key: Some(String::new()),
            model: Some("m".to_string()),
            prompt_mode: Some(PromptMode::Predefined("read".to_string())),
            output_mode: Some(OutputMode::Dialog),
        }
    );
}

#[test]
fn missing_fields_change_nothing() {
    assert_eq!(ProfileConfigUpdate::from_json(&sent("{}")), ProfileConfigUpdate::default());
    assert_eq!(ProfileConfigUpdate::from_json(&sent("[1]")), ProfileConfigUpdate::default());
    assert_eq!(
        ProfileConfigUpdate::from_json(&sent(r#"{"profileName": " \t ", "model": 3, "prompt": "p"}"#)),
        ProfileConfigUpdate::default()
    );
}

#[test]
fn modes_fall_back_to_their_defaults() {
    let update = ProfileConfigUpdate::from_json(&sent(r#"{"promptMode": "user_input", "prompt": "p", "outputMode": "clipboard"}"#));
    assert_eq!(update.prompt_mode, Some(PromptMode::UserInput));
    assert_eq!(update.output_mode, Some(OutputMode::Clipboard));
    let update = ProfileConfigUpdate::from_json(&sent(r#"{"promptMode": "other", "outputMode": "other"}"#));
    assert_eq!(update.prompt_mode, Some(PromptMode::Predefined(DEFAULT_PROMPT.to_string())));
    assert_eq!(update.output_mode, Some(OutputMode::Clipboard));
}

#[test]
fn the_sound_setting_is_sent_beside_the_profile() {
    assert_eq!(ConfigUpdates::from_json(&sent("{}")), None);
    assert_eq!(ConfigUpdates::from_json(&sent(r#"{"soundEnabled": "yes"}"#)), None);
    assert_eq!(
        ConfigUpdates::from_json(&sent(r#"{"soundEnabled": false}"#)),
        Some(ConfigUpdates {
            active_profile_id: None,
            sound_enabled: Some(false),
            global_hotkey: None,
            switch_profile_hotkey: None,
        })
    );
}

#[test]
fn a_sent_object_updates_profile_and_settings() {
    let mut config = Config::initial("id".to_string());
    let data = sent(r#"{"model": "gpt-4o", "soundEnabled": false}"#);
    assert_eq!(config.update_active_profile(&data), Ok(()));
    assert_eq!(config.profiles[0].api_config.model, "gpt-4o");
    assert_eq!(config.profiles[0].name, "默认配置");
    assert!(!config.sound_enabled);

    config.active_profile_id = None;
    let before = config.clone();
    let data = sent(r#"{"model": "other", "soundEnabled": true}"#);
    assert_eq!(config.update_active_profile(&data), Err(ConfigError::NoActiveProfile));
    assert_eq!(config, before);
}

#[test]
fn a_sent_object_names_the_profile_to_create() {
    let mut config = Config::initial("id".to_string());
    assert_eq!(
        config.insert_profile_from(&sent(r#"{"name": "work"}"#), "id-2".to_string()),
        Ok("id-2".to_string())
    );
    assert_eq!(config.profiles[1].name, "work");
    assert_eq!(config.active_profile_id, Some("id-2".to_string()));
    let before = config.clone();
    assert_eq!(
        config.insert_profile_from(&sent(r#"{"name": 5}"#), "id-3".to_string()),
        Err(ConfigError::EmptyName)
    );
    assert_eq!(
        config.insert_profile_from(&sent(r#"{"name": "work"}"#), "id-3".to_string()),
        Err(ConfigError::NameCollision)
    );
    assert_eq!(config, before);
}
