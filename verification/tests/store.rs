use mathimage::{
    Config, ConfigError, ConfigMutation, ConfigStore, ConfigUpdates, Profile, ProfileConfigUpdate,
    SaveStep,
};

fn three() -> Config {
    let mut config = Config::initial("A".to_string());
    config.profiles = vec![
        Profile::fresh("A".to_string(), "a".to_string()),
        Profile::fresh("B".to_string(), "b".to_string()),
        Profile::fresh("C".to_string(), "c".to_string()),
    ];
    config
}

#[test]
fn a_change_that_is_written_out_is_kept() {
    let mut store = ConfigStore::new(three());
    let transaction = store.begin(ConfigMutation::SetActiveProfile("B".to_string())).unwrap();
    let written = transaction.document().clone();
    assert_eq!(Config::from_document(&written).as_ref(), Some(store.config()));
    assert_eq!(
        transaction.steps(),
        vec![SaveStep::WriteTemporary(written), SaveStep::ReplaceKept]
    );
    store.settle(transaction, true);
    assert_eq!(store.config().active_profile_id, Some("B".to_string()));
    assert_eq!(store.get_active_profile().unwrap().id, "B");
    assert_eq!(store.get_next_profile_id(), Ok("C".to_string()));
}

#[test]
fn a_change_that_is_not_written_out_is_undone() {
    let mut store = ConfigStore::new(three());
    let before = store.snapshot();
    let transaction = store.begin(ConfigMutation::DeleteProfile("B".to_string())).unwrap();
    assert_eq!(store.config().profiles.len(), 2);
    store.settle(transaction, false);
    assert_eq!(store.config(), &before);
}

#[test]
fn a_refused_change_changes_nothing() {
    let mut store = ConfigStore::new(Config::initial("A".to_string()));
    let before = store.snapshot();
    assert_eq!(store.begin(ConfigMutation::DeleteProfile("A".to_string())).unwrap_err(), ConfigError::LastProfile);
    assert_eq!(store.begin(ConfigMutation::SetActiveProfile("Z".to_string())).unwrap_err(), ConfigError::NotFound);
    assert_eq!(
        store
            .begin(ConfigMutation::CreateProfile { name: "默认配置".to_string(), id: "x".to_string() })
            .unwrap_err(),
        ConfigError::NameCollision
    );
    assert_eq!(
        store.begin(ConfigMutation::CreateProfile { name: String::new(), id: "x".to_string() }).unwrap_err(),
        ConfigError::EmptyName
    );
    assert_eq!(store.config(), &before);
}

#[test]
fn every_kind_of_change_is_made() {
    let mut config = three();
    assert_eq!(config.apply(ConfigMutation::CreateProfile { name: "d".to_string(), id: "D".to_string() }), Ok(()));
    assert_eq!(config.active_profile_id, Some("D".to_string()));
    assert_eq!(config.apply(ConfigMutation::SwitchToNext), Ok(()));
    assert_eq!(config.active_profile_id, Some("A".to_string()));
    let update = ProfileConfigUpdate { model: Some("m".to_string()), ..ProfileConfigUpdate::default() };
    assert_eq!(config.apply(ConfigMutation::UpdateActiveProfile(update)), Ok(()));
    assert_eq!(config.profiles[0].api_config.model, "m");
    let sent = mathimage::JsonValue::parse("{\"apiKey\": \"k\", \"soundEnabled\": false}").unwrap();
    assert_eq!(config.apply(ConfigMutation::UpdateSent(sent)), Ok(()));
    assert_eq!(config.profiles[0].api_config.api_key, "k");
    assert!(!config.sound_enabled);
    assert_eq!(config.apply(ConfigMutation::ToggleSound), Ok(()));
    assert!(config.sound_enabled);
    assert_eq!(config.apply(ConfigMutation::ToggleSound), Ok(()));
    assert!(!config.sound_enabled);
    let settings = ConfigUpdates {
        active_profile_id: None,
        sound_enabled: Some(true),
        global_hotkey: None,
        switch_profile_hotkey: None,
    };
    assert_eq!(config.apply(ConfigMutation::UpdateSettings(settings)), Ok(()));
    assert!(config.sound_enabled);
    assert_eq!(
        config.apply(ConfigMutation::SetHotkeys { global_hotkey: "g".to_string(), switch_hotkey: "s".to_string() }),
        Ok(())
    );
    assert_eq!(config.apply(ConfigMutation::SetGlobalHotkey("h".to_string())), Ok(()));
    assert_eq!((config.global_hotkey.as_str(), config.switch_profile_hotkey.as_str()), ("h", "s"));
    assert_eq!(config.apply(ConfigMutation::DeleteProfile("A".to_string())), Ok(()));
    assert_eq!(config.active_profile_id, Some("B".to_string()));
    assert_eq!(config.apply(ConfigMutation::Replace(three())), Ok(()));
    assert_eq!(config, three());
    let mut empty = three();
    empty.profiles.clear();
    assert_eq!(config.apply(ConfigMutation::Replace(empty)), Err(ConfigError::NoActiveProfile));
    assert_eq!(config, three());
}

#[test]
fn the_store_creates_and_switches() {
    let mut store = ConfigStore::new(three());
    let (id, transaction) = store.create_profile("d".to_string()).unwrap();
    store.settle(transaction, true);
    assert_eq!(store.config().profiles.len(), 4);
    assert_eq!(store.config().active_profile_id, Some(id));
    assert_eq!(store.create_profile("d".to_string()).unwrap_err(), ConfigError::NameCollision);
    assert_eq!(store.create_profile(String::new()).unwrap_err(), ConfigError::EmptyName);
    let (profile, transaction) = store.switch_to_next().unwrap();
    assert_eq!(profile.id, "A");
    store.settle(transaction, false);
    assert_eq!(store.get_active_profile().unwrap().name, "d");
}

#[test]
fn the_store_creates_the_profile_that_a_sent_object_names() {
    let mut store = ConfigStore::new(three());
    let data = mathimage::JsonValue::parse("{\"name\": \"d\"}").unwrap();
    let (id, transaction) = store.create_profile_from(&data).unwrap();
    store.settle(transaction, true);
    assert_eq!(store.config().profiles[3].name, "d");
    assert_eq!(store.config().profiles[3].id, id);
    let nameless = mathimage::JsonValue::parse("{\"title\": \"d\"}").unwrap();
    assert_eq!(store.create_profile_from(&nameless).unwrap_err(), ConfigError::EmptyName);
    assert_eq!(store.create_profile_from(&data).unwrap_err(), ConfigError::NameCollision);
}

#[test]
fn an_identifier_is_never_given_out_twice() {
    let mut store = ConfigStore::new(three());
    assert!(store.knows(&"B".to_string()));
    assert!(!store.knows(&"D".to_string()));
    let transaction = store.begin(ConfigMutation::DeleteProfile("B".to_string())).unwrap();
    store.settle(transaction, true);
    assert_eq!(store.config().position_of(&"B".to_string()), 2);
    assert!(store.knows(&"B".to_string()));
    assert_eq!(store.set_apart("B".to_string()), "B0");
    assert_eq!(store.set_apart("A".to_string()), "A0");
    assert_eq!(store.set_apart("D".to_string()), "D");
    assert_eq!(store.set_apart(String::new()), "");

    let transaction = store
        .begin(ConfigMutation::CreateProfile { name: "e".to_string(), id: "B0".to_string() })
        .unwrap();
    store.settle(transaction, false);
    assert_eq!(store.config().profiles.len(), 2);
    assert!(store.knows(&"B0".to_string()));
    assert_eq!(store.set_apart("B".to_string()), "B00");

    let transaction = store.begin(ConfigMutation::Replace(Config::initial("Z".to_string()))).unwrap();
    store.settle(transaction, true);
    for id in ["A", "B", "C", "B0", "Z"] {
        assert!(store.knows(&id.to_string()));
    }
    assert_eq!(store.set_apart("C".to_string()), "C0");
}

#[test]
fn a_created_profile_has_an_identifier_of_its_own() {
    let mut store = ConfigStore::new(three());
    let mut given = Vec::new();
    for round in 0..5 {
        let (id, transaction) = store.create_profile(format!("p{}", round)).unwrap();
        store.settle(transaction, true);
        assert!(mathimage::ids::is_random_id_text(&id));
        assert!(!given.contains(&id));
        assert!(store.knows(&id));
        let transaction = store.begin(ConfigMutation::DeleteProfile(id.clone())).unwrap();
        store.settle(transaction, true);
        assert!(store.knows(&id));
        given.push(id);
    }
    assert_eq!(store.config().profiles.len(), 3);
}
