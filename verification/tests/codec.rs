use mathimage::{
    ApiConfig, Config, JsonValue, OutputMode, Profile, PromptMode,
};

fn sample() -> Config {
    let mut config = Config::initial("id-1".to_string());
    config.profiles.push(Profile {
        id: "id-2".to_string(),
        name: "问 \"quoted\"\n".to_string(),
        api_config: ApiConfig {
            base_url: "https://api/v1".to_string(),
            api_key: "sk-\\x".to_string(),
            model: "gpt-4o".to_string(),
        },
        prompt_mode: PromptMode::UserInput,
        output_mode: OutputMode::Dialog,
    });
    config.sound_enabled = false;
    config
}

#[test]
fn a_configuration_is_read_back_from_its_text() {
    let config = sample();
    let text = config.to_document();
    assert_eq!(Config::from_document(&text), Some(config));

    let mut config = sample();
    config.active_profile_id = None;
    config.profiles.clear();
    assert_eq!(Config::from_document(&config.to_document()), Some(config));
}

#[test]
fn a_configuration_is_read_back_from_its_document() {
    let config = sample();
    assert_eq!(Config::from_json(&config.to_json()), Some(config));
    for profile in sample().profiles {
        assert_eq!(Profile::from_json(&profile.to_json()), Some(profile));
    }
    for mode in [OutputMode::Clipboard, OutputMode::Dialog] {
        assert_eq!(OutputMode::from_json(&mode.to_json()), Some(mode));
    }
    for mode in [PromptMode::UserInput, PromptMode::Predefined("p".to_string())] {
        assert_eq!(PromptMode::from_json(&mode.to_json()), Some(mode));
    }
}

#[test]
fn the_document_of_a_configuration_names_its_members() {
    let config = Config::initial("id-1".to_string());
    let doc = config.to_json();
    assert_eq!(doc.text_at("global_hotkey"), Some(&"cmd+shift+m".to_string()));
    assert_eq!(doc.text_at("switch_profile_hotkey"), Some(&"cmd+shift+p".to_string()));
    assert_eq!(doc.text_at("active_profile_id"), Some(&"id-1".to_string()));
    assert_eq!(doc.bool_at("sound_enabled"), Some(true));
    let profiles = doc.array_at("profiles").unwrap();
    assert_eq!(profiles.len(), 1);
    assert_eq!(profiles[0].text_at("id"), Some(&"id-1".to_string()));
    assert_eq!(profiles[0].text_at("name"), Some(&"默认配置".to_string()));
    assert_eq!(profiles[0].text_at("output_mode"), Some(&"Clipboard".to_string()));
    assert_eq!(
        profiles[0].get("api_config").unwrap().text_at("base_url"),
        Some(&"http://210.126.8.197:11434/v1".to_string())
    );
    assert!(profiles[0].get("prompt_mode").unwrap().text_at("Predefined").is_some());
    let mut none = Config::initial("x".to_string());
    none.active_profile_id = None;
    assert_eq!(none.to_json().get("active_profile_id"), Some(&JsonValue::Null));
}

#[test]
fn a_kept_text_is_read_as_a_configuration() {
    let text = r#"{
  "global_hotkey": "cmd+shift+m",
  "switch_profile_hotkey": "cmd+shift+p",
  "profiles": [
    {
      "id": "7f1c",
      "name": "work",
      "api_config": { "base_url": "http://h/v1", "api_key": "k", "model": "m" },
      "prompt_mode": { "Predefined": "read" },
      "output_mode": "Dialog",
      "extra": 1
    },
    {
      "id": "9b2d",
      "name": "ask",
      "api_config": { "base_url": "", "api_key": "", "model": "" },
      "prompt_mode": "UserInput",
      "output_mode": "Clipboard"
    }
  ],
  "active_profile_id": null,
  "sound_enabled": false
}"#;
    let config = Config::from_document(text).unwrap();
    assert_eq!(config.profiles.len(), 2);
    assert_eq!(config.profiles[0].prompt_mode, PromptMode::Predefined("read".to_string()));
    assert_eq!(config.profiles[0].output_mode, OutputMode::Dialog);
    assert_eq!(config.profiles[1].prompt_mode, PromptMode::UserInput);
    assert_eq!(config.active_profile_id, None);
    assert!(!config.sound_enabled);
    let without = text.replace("\"active_profile_id\": null,", "");
    assert_eq!(Config::from_document(&without), Some(config));
}

#[test]
fn a_text_that_is_no_configuration_is_refused() {
    assert_eq!(Config::from_document(""), None);
    assert_eq!(Config::from_document("{"), None);
    assert_eq!(Config::from_document("[]"), None);
    assert_eq!(Config::from_document("{}"), None);
    let good = sample().to_document();
    assert!(Config::from_document(&good).is_some());
    assert_eq!(Config::from_document(&good.replace("\"sound_enabled\": false", "\"sound_enabled\": 0")), None);
    assert_eq!(Config::from_document(&good.replace("\"Dialog\"", "\"Window\"")), None);
    assert_eq!(Config::from_document(&good.replace("\"UserInput\"", "\"userinput\"")), None);
    assert_eq!(Config::from_document(&good.replace("\"active_profile_id\": \"id-1\"", "\"active_profile_id\": 3")), None);
    assert_eq!(Config::from_document(&good.replace("\"model\"", "\"modell\"")), None);
    assert_eq!(Config::from_document(&good.replace("\"global_hotkey\"", "\"hotkey\"")), None);
}

#[test]
fn a_run_starts_with_the_kept_configuration_or_the_initial_one() {
    let config = sample();
    assert_eq!(Config::load(Some(&config.to_document())), config);
    let mut empty = sample();
    empty.profiles.clear();
    let empty = empty.to_document();
    assert!(Config::from_document(&empty).is_some());
    for text in [None, Some("not json"), Some("{}"), Some(empty.as_str())] {
        let fresh = Config::load(text);
        assert_eq!(fresh, Config::initial(fresh.profiles[0].id.clone()));
        assert_eq!(fresh.profiles[0].id.len(), 36);
    }
}
