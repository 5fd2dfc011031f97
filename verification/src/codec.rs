//! The configuration as a JSON document, as it is kept between runs, and
//! the list of model identifiers that is kept beside it.
//!
//! A configuration is an object with the members `global_hotkey`,
//! `switch_profile_hotkey`, `profiles`, `active_profile_id` and
//! `sound_enabled`. A profile is an object with the members `id`, `name`,
//! `api_config`, `prompt_mode` and `output_mode`. A prompt mode is the
//! string `UserInput` or an object with the one member `Predefined`; an
//! output mode is the string `Clipboard` or `Dialog`.

use crate::config::{profile_views, Config, ConfigView};
use crate::json::{
    item_views, json_document, json_pretty_text, lemma_item_views, lemma_member_views,
    lemma_position_of_key_unique, lemma_written_items, lemma_written_members, member_views,
    push_item, push_member, written, written_items, written_members, JsonDoc, JsonValue,
};
use crate::profile::{
    ApiConfig, ApiConfigView, OutputMode, Profile, ProfileView, PromptMode, PromptModeView,
};
use crate::text::same_text;
use vstd::prelude::*;

verus! {

/// An endpoint as a document.
pub open spec fn api_config_doc(api: ApiConfigView) -> JsonDoc {
    JsonDoc::Object(
        seq![
            ("base_url"@, JsonDoc::Text(api.base_url)),
            ("api_key"@, JsonDoc::Text(api.api_key)),
            ("model"@, JsonDoc::Text(api.model)),
        ],
    )
}

/// A prompt mode as a document.
pub open spec fn prompt_mode_doc(mode: PromptModeView) -> JsonDoc {
    match mode {
        PromptModeView::Predefined(text) => JsonDoc::Object(
            seq![("Predefined"@, JsonDoc::Text(text))],
        ),
        PromptModeView::UserInput => JsonDoc::Text("UserInput"@),
    }
}

/// An output mode as a document.
pub open spec fn output_mode_doc(mode: OutputMode) -> JsonDoc {
    match mode {
        OutputMode::Clipboard => JsonDoc::Text("Clipboard"@),
        OutputMode::Dialog => JsonDoc::Text("Dialog"@),
    }
}

/// A profile as a document.
pub open spec fn profile_doc(profile: ProfileView) -> JsonDoc {
    JsonDoc::Object(
        seq![
            ("id"@, JsonDoc::Text(profile.id)),
            ("name"@, JsonDoc::Text(profile.name)),
            ("api_config"@, api_config_doc(profile.api_config)),
            ("prompt_mode"@, prompt_mode_doc(profile.prompt_mode)),
            ("output_mode"@, output_mode_doc(profile.output_mode)),
        ],
    )
}

/// Profiles as documents, one for one.
pub open spec fn profile_docs(profiles: Seq<ProfileView>) -> Seq<JsonDoc> {
    Seq::new(profiles.len(), |i: int| profile_doc(profiles[i]))
}

/// An optional string as a document: the string, or `null`.
pub open spec fn optional_text_doc(text: Option<Seq<char>>) -> JsonDoc {
    match text {
        Some(t) => JsonDoc::Text(t),
        None => JsonDoc::Null,
    }
}

/// A configuration as a document.
pub open spec fn config_doc(config: ConfigView) -> JsonDoc {
    JsonDoc::Object(
        seq![
            ("global_hotkey"@, JsonDoc::Text(config.global_hotkey)),
            ("switch_profile_hotkey"@, JsonDoc::Text(config.switch_profile_hotkey)),
            ("profiles"@, JsonDoc::Array(profile_docs(config.profiles))),
            ("active_profile_id"@, optional_text_doc(config.active_profile_id)),
            ("sound_enabled"@, JsonDoc::Bool(config.sound_enabled)),
        ],
    )
}

/// The endpoint that a document stands for: an object with the three
/// strings.
pub open spec fn api_config_of(doc: JsonDoc) -> Option<ApiConfigView> {
    match (doc.text_at("base_url"@), doc.text_at("api_key"@), doc.text_at("model"@)) {
        (Some(base_url), Some(api_key), Some(model)) => Some(
            ApiConfigView { base_url, api_key, model },
        ),
        _ => None,
    }
}

/// The prompt mode that a document stands for.
pub open spec fn prompt_mode_of(doc: JsonDoc) -> Option<PromptModeView> {
    match doc {
        JsonDoc::Text(t) => if t == "UserInput"@ {
            Some(PromptModeView::UserInput)
        } else {
            None
        },
        JsonDoc::Object(members) => if members.len() == 1 && members[0].0 == "Predefined"@ {
            match members[0].1 {
                JsonDoc::Text(text) => Some(PromptModeView::Predefined(text)),
                _ => None,
            }
        } else {
            None
        },
        _ => None,
    }
}

/// The output mode that a document stands for.
pub open spec fn output_mode_of(doc: JsonDoc) -> Option<OutputMode> {
    match doc {
        JsonDoc::Text(t) => if t == "Clipboard"@ {
            Some(OutputMode::Clipboard)
        } else if t == "Dialog"@ {
            Some(OutputMode::Dialog)
        } else {
            None
        },
        _ => None,
    }
}

/// The member under `key`, read by `read`.
pub open spec fn member_of<T>(doc: JsonDoc, key: Seq<char>, read: spec_fn(JsonDoc) -> Option<T>)
    -> Option<T> {
    match doc.member(key) {
        Some(value) => read(value),
        None => None,
    }
}

/// The profile that a document stands for: an object that holds each
/// member of a profile in its form. Further members are passed over.
pub open spec fn profile_of(doc: JsonDoc) -> Option<ProfileView> {
    match (
        doc.text_at("id"@),
        doc.text_at("name"@),
        member_of(doc, "api_config"@, |d: JsonDoc| api_config_of(d)),
        member_of(doc, "prompt_mode"@, |d: JsonDoc| prompt_mode_of(d)),
        member_of(doc, "output_mode"@, |d: JsonDoc| output_mode_of(d)),
    ) {
        (Some(id), Some(name), Some(api_config), Some(prompt_mode), Some(output_mode)) => Some(
            ProfileView { id, name, api_config, prompt_mode, output_mode },
        ),
        _ => None,
    }
}

/// The profiles that documents stand for, or `None` where one of them
/// stands for no profile.
pub open spec fn profiles_of(items: Seq<JsonDoc>) -> Option<Seq<ProfileView>>
    decreases items.len(),
{
    if items.len() == 0 {
        Some(Seq::empty())
    } else {
        match (profiles_of(items.drop_last()), profile_of(items.last())) {
            (Some(profiles), Some(profile)) => Some(profiles.push(profile)),
            _ => None,
        }
    }
}

/// The optional string that the member under `key` stands for: the string,
/// or nothing where the member is `null` or missing. `None` where the
/// member is anything else.
pub open spec fn optional_text_at(doc: JsonDoc, key: Seq<char>) -> Option<Option<Seq<char>>> {
    match doc.member(key) {
        None => Some(None),
        Some(JsonDoc::Null) => Some(None),
        Some(JsonDoc::Text(t)) => Some(Some(t)),
        Some(_) => None,
    }
}

/// The profiles that the member `profiles` stands for.
pub open spec fn profiles_at(doc: JsonDoc) -> Option<Seq<ProfileView>> {
    match doc.array_at("profiles"@) {
        Some(items) => profiles_of(items),
        None => None,
    }
}

/// The configuration that a document stands for: an object that holds each
/// member of a configuration in its form, where the active identifier may
/// be `null` or missing. Further members are passed over.
pub open spec fn config_of(doc: JsonDoc) -> Option<ConfigView> {
    match (
        doc.text_at("global_hotkey"@),
        doc.text_at("switch_profile_hotkey"@),
        profiles_at(doc),
        optional_text_at(doc, "active_profile_id"@),
        doc.bool_at("sound_enabled"@),
    ) {
        (
            Some(global_hotkey),
            Some(switch_profile_hotkey),
            Some(profiles),
            Some(active_profile_id),
            Some(sound_enabled),
        ) => Some(
            ConfigView {
                global_hotkey,
                switch_profile_hotkey,
                profiles,
                active_profile_id,
                sound_enabled,
            },
        ),
        _ => None,
    }
}

/// The configuration that a text stands for, given the document that the
/// text reads as.
pub open spec fn config_of_document(document: Option<JsonDoc>) -> Option<ConfigView> {
    match document {
        Some(doc) => config_of(doc),
        None => None,
    }
}

/// A member whose key no earlier member has is the member under its key.
pub proof fn lemma_member_at(members: Seq<(Seq<char>, JsonDoc)>, at: int)
    requires
        0 <= at < members.len(),
        forall|j: int| 0 <= j < at ==> members[j].0 != members[at].0,
    ensures
        JsonDoc::Object(members).member(members[at].0) == Some(members[at].1),
{
    lemma_position_of_key_unique(members, members[at].0, at);
}

/// The keys of the members of a configuration, of a profile and of an
/// endpoint differ from each other.
pub proof fn lemma_keys_differ()
    ensures
        "global_hotkey"@ != "switch_profile_hotkey"@,
        "global_hotkey"@ != "profiles"@,
        "global_hotkey"@ != "active_profile_id"@,
        "global_hotkey"@ != "sound_enabled"@,
        "switch_profile_hotkey"@ != "profiles"@,
        "switch_profile_hotkey"@ != "active_profile_id"@,
        "switch_profile_hotkey"@ != "sound_enabled"@,
        "profiles"@ != "active_profile_id"@,
        "profiles"@ != "sound_enabled"@,
        "active_profile_id"@ != "sound_enabled"@,
        "id"@ != "name"@,
        "id"@ != "api_config"@,
        "id"@ != "prompt_mode"@,
        "id"@ != "output_mode"@,
        "name"@ != "api_config"@,
        "name"@ != "prompt_mode"@,
        "name"@ != "output_mode"@,
        "api_config"@ != "prompt_mode"@,
        "api_config"@ != "output_mode"@,
        "prompt_mode"@ != "output_mode"@,
        "base_url"@ != "api_key"@,
        "base_url"@ != "model"@,
        "api_key"@ != "model"@,
        "Clipboard"@ != "Dialog"@,
{
    reveal_strlit("global_hotkey");
    reveal_strlit("switch_profile_hotkey");
    reveal_strlit("profiles");
    reveal_strlit("active_profile_id");
    reveal_strlit("sound_enabled");
    reveal_strlit("id");
    reveal_strlit("name");
    reveal_strlit("api_config");
    reveal_strlit("prompt_mode");
    reveal_strlit("output_mode");
    reveal_strlit("base_url");
    reveal_strlit("api_key");
    reveal_strlit("model");
    reveal_strlit("Clipboard");
    reveal_strlit("Dialog");
    assert("switch_profile_hotkey"@.len() == 21);
    assert("profiles"@.len() == 8);
    assert("active_profile_id"@.len() == 17);
    assert("sound_enabled"@.len() == 13 && "sound_enabled"@[0] == 's');
    assert("name"@.len() == 4);
    assert("api_config"@.len() == 10);
    assert("prompt_mode"@.len() == 11 && "prompt_mode"@[0] == 'p');
    assert("output_mode"@.len() == 11 && "output_mode"@[0] == 'o');
    assert("api_key"@.len() == 7);
    assert("model"@.len() == 5);
    assert("Dialog"@.len() == 6);
}

/// An endpoint is read back from its document.
pub proof fn lemma_api_config_round_trip(api: ApiConfigView)
    ensures
        api_config_of(api_config_doc(api)) == Some(api),
{
    lemma_keys_differ();
    let members = api_config_doc(api)->Object_0;
    lemma_member_at(members, 0);
    lemma_member_at(members, 1);
    lemma_member_at(members, 2);
}

/// A prompt mode is read back from its document.
pub proof fn lemma_prompt_mode_round_trip(mode: PromptModeView)
    ensures
        prompt_mode_of(prompt_mode_doc(mode)) == Some(mode),
{
}

/// An output mode is read back from its document.
pub proof fn lemma_output_mode_round_trip(mode: OutputMode)
    ensures
        output_mode_of(output_mode_doc(mode)) == Some(mode),
{
    lemma_keys_differ();
}

/// A profile is read back from its document.
pub proof fn lemma_profile_round_trip(profile: ProfileView)
    ensures
        profile_of(profile_doc(profile)) == Some(profile),
{
    lemma_keys_differ();
    lemma_api_config_round_trip(profile.api_config);
    lemma_prompt_mode_round_trip(profile.prompt_mode);
    lemma_output_mode_round_trip(profile.output_mode);
    let members = profile_doc(profile)->Object_0;
    lemma_member_at(members, 0);
    lemma_member_at(members, 1);
    lemma_member_at(members, 2);
    lemma_member_at(members, 3);
    lemma_member_at(members, 4);
}

/// Profiles are read back from their documents.
pub proof fn lemma_profiles_round_trip(profiles: Seq<ProfileView>)
    ensures
        profiles_of(profile_docs(profiles)) == Some(profiles),
    decreases profiles.len(),
{
    let docs = profile_docs(profiles);
    if profiles.len() > 0 {
        assert(docs.drop_last() =~= profile_docs(profiles.drop_last()));
        lemma_profiles_round_trip(profiles.drop_last());
        lemma_profile_round_trip(profiles.last());
    }
}

/// Round trip: a configuration is read back from its document as it was.
pub proof fn lemma_config_round_trip(config: ConfigView)
    ensures
        config_of(config_doc(config)) == Some(config),
{
    lemma_keys_differ();
    lemma_profiles_round_trip(config.profiles);
    let members = config_doc(config)->Object_0;
    lemma_member_at(members, 0);
    lemma_member_at(members, 1);
    lemma_member_at(members, 2);
    lemma_member_at(members, 3);
    lemma_member_at(members, 4);
}

/// The document of a profile holds no number, and so is written as it
/// stands.
pub proof fn lemma_profile_doc_written(profile: ProfileView)
    ensures
        written(profile_doc(profile)) == profile_doc(profile),
{
    let api = api_config_doc(profile.api_config)->Object_0;
    lemma_written_members(api);
    assert(written_members(api) =~= api);
    match profile.prompt_mode {
        PromptModeView::Predefined(text) => {
            let mode = prompt_mode_doc(profile.prompt_mode)->Object_0;
            lemma_written_members(mode);
            assert(written_members(mode) =~= mode);
        },
        PromptModeView::UserInput => {},
    }
    let members = profile_doc(profile)->Object_0;
    lemma_written_members(members);
    assert(written_members(members) =~= members);
}

/// The document of a configuration holds no number, and so is written as
/// it stands.
pub proof fn lemma_config_doc_written(config: ConfigView)
    ensures
        written(config_doc(config)) == config_doc(config),
{
    let docs = profile_docs(config.profiles);
    lemma_written_items(docs);
    assert forall|i: int| 0 <= i < docs.len() implies written(docs[i]) == docs[i] by {
        lemma_profile_doc_written(config.profiles[i]);
    }
    assert(written_items(docs) =~= docs);
    let members = config_doc(config)->Object_0;
    lemma_written_members(members);
    assert(written_members(members) =~= members);
}

/// Where the documents up to some index stand for no profiles, all of them
/// stand for none.
pub proof fn lemma_profiles_of_prefix(items: Seq<JsonDoc>, upto: int)
    requires
        0 <= upto <= items.len(),
        profiles_of(items.take(upto)) is None,
    ensures
        profiles_of(items) is None,
    decreases items.len() - upto,
{
    if upto < items.len() {
        assert(items.take(upto + 1).drop_last() =~= items.take(upto));
        lemma_profiles_of_prefix(items, upto + 1);
    } else {
        assert(items.take(upto) =~= items);
    }
}

impl ApiConfig {
    /// The endpoint as a document.
    pub fn to_json(&self) -> (doc: JsonValue)
        ensures
            doc@ == api_config_doc(self@),
    {
        let mut members: Vec<(String, JsonValue)> = Vec::new();
        push_member(&mut members, "base_url", JsonValue::Text(self.base_url.clone()));
        push_member(&mut members, "api_key", JsonValue::Text(self.api_key.clone()));
        push_member(&mut members, "model", JsonValue::Text(self.model.clone()));
        assert(member_views(members@) =~= api_config_doc(self@)->Object_0);
        JsonValue::object(members)
    }

    /// The endpoint that a document stands for.
    pub fn from_json(doc: &JsonValue) -> (api: Option<ApiConfig>)
        ensures
            match api {
                Some(a) => api_config_of(doc@) == Some(a@),
                None => api_config_of(doc@) is None,
            },
    {
        match (doc.text_at("base_url"), doc.text_at("api_key"), doc.text_at("model")) {
            (Some(base_url), Some(api_key), Some(model)) => Some(
                ApiConfig {
                    base_url: base_url.clone(),
                    api_key: api_key.clone(),
                    model: model.clone(),
                },
            ),
            _ => None,
        }
    }
}

impl PromptMode {
    /// The prompt mode as a document.
    pub fn to_json(&self) -> (doc: JsonValue)
        ensures
            doc@ == prompt_mode_doc(self@),
    {
        match self {
            PromptMode::Predefined(text) => {
                let mut members: Vec<(String, JsonValue)> = Vec::new();
                push_member(&mut members, "Predefined", JsonValue::Text(text.clone()));
                JsonValue::object(members)
            },
            PromptMode::UserInput => JsonValue::text("UserInput"),
        }
    }

    /// The prompt mode that a document stands for.
    pub fn from_json(doc: &JsonValue) -> (mode: Option<PromptMode>)
        ensures
            match mode {
                Some(m) => prompt_mode_of(doc@) == Some(m@),
                None => prompt_mode_of(doc@) is None,
            },
    {
        match doc {
            JsonValue::Text(t) => if same_text(t.as_str(), "UserInput") {
                Some(PromptMode::UserInput)
            } else {
                None
            },
            JsonValue::Object(members) => {
                proof {
                    lemma_member_views(members@);
                }
                if members.len() == 1 && same_text(members[0].0.as_str(), "Predefined") {
                    match &members[0].1 {
                        JsonValue::Text(text) => Some(PromptMode::Predefined(text.clone())),
                        _ => None,
                    }
                } else {
                    None
                }
            },
            _ => None,
        }
    }
}

impl OutputMode {
    /// The output mode as a document.
    pub fn to_json(&self) -> (doc: JsonValue)
        ensures
            doc@ == output_mode_doc(*self),
    {
        match self {
            OutputMode::Clipboard => JsonValue::text("Clipboard"),
            OutputMode::Dialog => JsonValue::text("Dialog"),
        }
    }

    /// The output mode that a document stands for.
    pub fn from_json(doc: &JsonValue) -> (mode: Option<OutputMode>)
        ensures
            mode == output_mode_of(doc@),
    {
        match doc {
            JsonValue::Text(t) => if same_text(t.as_str(), "Clipboard") {
                Some(OutputMode::Clipboard)
            } else if same_text(t.as_str(), "Dialog") {
                Some(OutputMode::Dialog)
            } else {
                None
            },
            _ => None,
        }
    }
}

impl Profile {
    /// The profile as a document.
    pub fn to_json(&self) -> (doc: JsonValue)
        ensures
            doc@ == profile_doc(self@),
    {
        let mut members: Vec<(String, JsonValue)> = Vec::new();
        push_member(&mut members, "id", JsonValue::Text(self.id.clone()));
        push_member(&mut members, "name", JsonValue::Text(self.name.clone()));
        push_member(&mut members, "api_config", self.api_config.to_json());
        push_member(&mut members, "prompt_mode", self.prompt_mode.to_json());
        push_member(&mut members, "output_mode", self.output_mode.to_json());
        assert(member_views(members@) =~= profile_doc(self@)->Object_0);
        JsonValue::object(members)
    }

    /// The profile that a document stands for.
    pub fn from_json(doc: &JsonValue) -> (profile: Option<Profile>)
        ensures
            match profile {
                Some(p) => profile_of(doc@) == Some(p@),
                None => profile_of(doc@) is None,
            },
    {
        let id = match doc.text_at("id") {
            Some(id) => id.clone(),
            None => {
                return None;
            },
        };
        let name = match doc.text_at("name") {
            Some(name) => name.clone(),
            None => {
                return None;
            },
        };
        let api_config = match doc.get("api_config") {
            Some(value) => match ApiConfig::from_json(value) {
                Some(api_config) => api_config,
                None => {
                    return None;
                },
            },
            None => {
                return None;
            },
        };
        let prompt_mode = match doc.get("prompt_mode") {
            Some(value) => match PromptMode::from_json(value) {
                Some(prompt_mode) => prompt_mode,
                None => {
                    return None;
                },
            },
            None => {
                return None;
            },
        };
        let output_mode = match doc.get("output_mode") {
            Some(value) => match OutputMode::from_json(value) {
                Some(output_mode) => output_mode,
                None => {
                    return None;
                },
            },
            None => {
                return None;
            },
        };
        Some(Profile { id, name, api_config, prompt_mode, output_mode })
    }
}

impl Config {
    /// The configuration as a document.
    pub fn to_json(&self) -> (doc: JsonValue)
        ensures
            doc@ == config_doc(self@),
    {
        let mut items: Vec<JsonValue> = Vec::new();
        let mut at: usize = 0;
        while at < self.profiles.len()
            invariant
                at <= self.profiles@.len(),
                item_views(items@) == profile_docs(profile_views(self.profiles@).take(at as int)),
            decreases self.profiles@.len() - at,
        {
            push_item(&mut items, self.profiles[at].to_json());
            at += 1;
        }
        proof {
            let views = profile_views(self.profiles@);
            assert(views.take(at as int) =~= views);
        }
        let active = match &self.active_profile_id {
            Some(id) => JsonValue::Text(id.clone()),
            None => JsonValue::Null,
        };
        let mut members: Vec<(String, JsonValue)> = Vec::new();
        push_member(&mut members, "global_hotkey", JsonValue::Text(self.global_hotkey.clone()));
        push_member(
            &mut members,
            "switch_profile_hotkey",
            JsonValue::Text(self.switch_profile_hotkey.clone()),
        );
        push_member(&mut members, "profiles", JsonValue::array(items));
        push_member(&mut members, "active_profile_id", active);
        push_member(&mut members, "sound_enabled", JsonValue::Bool(self.sound_enabled));
        assert(member_views(members@) =~= config_doc(self@)->Object_0);
        JsonValue::object(members)
    }

    /// The configuration that a document stands for.
    pub fn from_json(doc: &JsonValue) -> (config: Option<Config>)
        ensures
            match config {
                Some(c) => config_of(doc@) == Some(c@),
                None => config_of(doc@) is None,
            },
    {
        let global_hotkey = match doc.text_at("global_hotkey") {
            Some(hotkey) => hotkey.clone(),
            None => {
                return None;
            },
        };
        let switch_profile_hotkey = match doc.text_at("switch_profile_hotkey") {
            Some(hotkey) => hotkey.clone(),
            None => {
                return None;
            },
        };
        let items = match doc.array_at("profiles") {
            Some(items) => items,
            None => {
                return None;
            },
        };
        let mut profiles: Vec<Profile> = Vec::new();
        let mut at: usize = 0;
        proof {
            lemma_item_views(items@);
        }
        while at < items.len()
            invariant
                at <= items@.len(),
                doc@.array_at("profiles"@) == Some(item_views(items@)),
                item_views(items@).len() == items@.len(),
                forall|i: int| 0 <= i < items@.len() ==> (#[trigger] item_views(items@)[i])
                    == items@[i]@,
                profiles_of(item_views(items@).take(at as int)) == Some(
                    profile_views(profiles@),
                ),
            decreases items@.len() - at,
        {
            let ghost docs = item_views(items@);
            proof {
                assert(docs.take(at + 1).drop_last() =~= docs.take(at as int));
            }
            match Profile::from_json(&items[at]) {
                Some(profile) => {
                    profiles.push(profile);
                },
                None => {
                    proof {
                        lemma_profiles_of_prefix(docs, at + 1);
                    }
                    return None;
                },
            }
            at += 1;
        }
        proof {
            assert(item_views(items@).take(at as int) =~= item_views(items@));
        }
        let active_profile_id = match doc.get("active_profile_id") {
            None => None,
            Some(JsonValue::Null) => None,
            Some(JsonValue::Text(id)) => Some(id.clone()),
            Some(_) => {
                return None;
            },
        };
        let sound_enabled = match doc.bool_at("sound_enabled") {
            Some(enabled) => enabled,
            None => {
                return None;
            },
        };
        Some(
            Config {
                global_hotkey,
                switch_profile_hotkey,
                profiles,
                active_profile_id,
                sound_enabled,
            },
        )
    }

    /// The text under which the configuration is kept.
    pub fn to_document(&self) -> (text: String)
        ensures
            text@ == json_pretty_text(config_doc(self@)),
    {
        proof {
            lemma_config_doc_written(self@);
        }
        self.to_json().render_pretty()
    }

    /// The configuration that a text stands for; `None` where the text is
    /// no JSON document or the document no configuration.
    pub fn from_document(text: &str) -> (config: Option<Config>)
        ensures
            match config {
                Some(c) => config_of_document(json_document(text@)) == Some(c@),
                None => config_of_document(json_document(text@)) is None,
            },
    {
        match JsonValue::parse(text) {
            Some(doc) => Config::from_json(&doc),
            None => None,
        }
    }
}

} // verus!
