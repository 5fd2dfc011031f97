//! Profiles: a named bundle of API endpoint, model, prompt behaviour and
//! output behaviour, and the partial updates that change one.

use vstd::prelude::*;

verus! {

/// The endpoint that is used when a profile is created.
pub open spec fn default_base_url() -> Seq<char> {
    "http://210.126.8.197:11434/v1"@
}

/// The prompt that is used when a profile is created, and when nothing else
/// gives one.
pub open spec fn default_prompt() -> Seq<char> {
    "识别公式和文字，返回使用pandoc语法的markdown排版内容。公式请用katex语法包裹，文字内容不要丢失。只返回内容不需要其他解释。"@
}

/// The key that the profile of a fresh configuration holds: the service at
/// the default endpoint asks for a key and takes any.
pub open spec fn default_api_key() -> Seq<char> {
    "ollama"@
}

/// The name of the profile that a fresh configuration holds.
pub open spec fn default_profile_name() -> Seq<char> {
    "默认配置"@
}

/// The prompt that is used when a profile is created, and when nothing else
/// gives one.
pub fn default_prompt_text() -> (prompt: String)
    ensures
        prompt@ == default_prompt(),
{
    "识别公式和文字，返回使用pandoc语法的markdown排版内容。公式请用katex语法包裹，文字内容不要丢失。只返回内容不需要其他解释。".to_string()
}

/// The view of an optional string.
pub open spec fn text_of(value: Option<String>) -> Option<Seq<char>> {
    match value {
        Some(s) => Some(s@),
        None => None,
    }
}

/// A copy of an optional string.
pub fn clone_text(value: &Option<String>) -> (copy: Option<String>)
    ensures
        text_of(copy) == text_of(*value),
{
    match value {
        Some(s) => Some(s.clone()),
        None => None,
    }
}

/// Where requests go and which model answers them.
#[derive(Debug, PartialEq, Eq)]
pub struct ApiConfig {
    pub base_url: String,
    pub api_key: String,
    pub model: String,
}

/// What an `ApiConfig` holds.
pub struct ApiConfigView {
    pub base_url: Seq<char>,
    pub api_key: Seq<char>,
    pub model: Seq<char>,
}

impl View for ApiConfig {
    type V = ApiConfigView;

    open spec fn view(&self) -> ApiConfigView {
        ApiConfigView { base_url: self.base_url@, api_key: self.api_key@, model: self.model@ }
    }
}

impl Clone for ApiConfig {
    fn clone(&self) -> (copy: Self)
        ensures
            copy@ == self@,
    {
        ApiConfig {
            base_url: self.base_url.clone(),
            api_key: self.api_key.clone(),
            model: self.model.clone(),
        }
    }
}

/// Where the prompt of a request comes from.
#[derive(Debug, PartialEq, Eq)]
pub enum PromptMode {
    /// The profile holds the prompt.
    Predefined(String),
    /// The user is asked for the prompt at each request.
    UserInput,
}

/// What a `PromptMode` holds.
pub enum PromptModeView {
    Predefined(Seq<char>),
    UserInput,
}

impl View for PromptMode {
    type V = PromptModeView;

    open spec fn view(&self) -> PromptModeView {
        match self {
            PromptMode::Predefined(text) => PromptModeView::Predefined(text@),
            PromptMode::UserInput => PromptModeView::UserInput,
        }
    }
}

impl Clone for PromptMode {
    fn clone(&self) -> (copy: Self)
        ensures
            copy@ == self@,
    {
        match self {
            PromptMode::Predefined(text) => PromptMode::Predefined(text.clone()),
            PromptMode::UserInput => PromptMode::UserInput,
        }
    }
}

/// Where the text of an answer goes.
#[derive(Clone, Copy, Debug, PartialEq, Eq, Structural)]
pub enum OutputMode {
    Clipboard,
    Dialog,
}

/// A named bundle of endpoint, model, prompt behaviour and output behaviour.
#[derive(Debug, PartialEq, Eq)]
pub struct Profile {
    pub id: String,
    pub name: String,
    pub api_config: ApiConfig,
    pub prompt_mode: PromptMode,
    pub output_mode: OutputMode,
}

/// What a `Profile` holds.
pub struct ProfileView {
    pub id: Seq<char>,
    pub name: Seq<char>,
    pub api_config: ApiConfigView,
    pub prompt_mode: PromptModeView,
    pub output_mode: OutputMode,
}

impl View for Profile {
    type V = ProfileView;

    open spec fn view(&self) -> ProfileView {
        ProfileView {
            id: self.id@,
            name: self.name@,
            api_config: self.api_config@,
            prompt_mode: self.prompt_mode@,
            output_mode: self.output_mode,
        }
    }
}

impl Clone for Profile {
    fn clone(&self) -> (copy: Self)
        ensures
            copy@ == self@,
    {
        Profile {
            id: self.id.clone(),
            name: self.name.clone(),
            api_config: self.api_config.clone(),
            prompt_mode: self.prompt_mode.clone(),
            output_mode: self.output_mode,
        }
    }
}

impl ProfileView {
    /// The profile that is created under `name` with the identifier `id`: the
    /// default endpoint, no key, no model, the default prompt, and the
    /// clipboard as output.
    pub open spec fn fresh(id: Seq<char>, name: Seq<char>) -> ProfileView {
        ProfileView {
            id,
            name,
            api_config: ApiConfigView {
                base_url: default_base_url(),
                api_key: Seq::empty(),
                model: Seq::empty(),
            },
            prompt_mode: PromptModeView::Predefined(default_prompt()),
            output_mode: OutputMode::Clipboard,
        }
    }

    /// The profile that a fresh configuration holds under the identifier
    /// `id`: the default name, the default endpoint and the default key, no
    /// model, the default prompt, and the clipboard as output. All that it
    /// lacks for an analysis is the model.
    pub open spec fn initial(id: Seq<char>) -> ProfileView {
        ProfileView {
            api_config: ApiConfigView {
                base_url: default_base_url(),
                api_key: default_api_key(),
                model: Seq::empty(),
            },
            ..ProfileView::fresh(id, default_profile_name())
        }
    }

    /// This profile after a partial update: each field that the update holds
    /// replaces the profile's, every other field stays.
    pub open spec fn updated(self, update: ProfileConfigUpdateView) -> ProfileView {
        ProfileView {
            id: self.id,
            name: match update.name {
                Some(name) => name,
                None => self.name,
            },
            api_config: ApiConfigView {
                base_url: match update.base_url {
                    Some(base_url) => base_url,
                    None => self.api_config.base_url,
                },
                api_key: match update.api_key {
                    Some(api_key) => api_key,
                    None => self.api_config.api_key,
                },
                model: match update.model {
                    Some(model) => model,
                    None => self.api_config.model,
                },
            },
            prompt_mode: match update.prompt_mode {
                Some(prompt_mode) => prompt_mode,
                None => self.prompt_mode,
            },
            output_mode: match update.output_mode {
                Some(output_mode) => output_mode,
                None => self.output_mode,
            },
        }
    }
}

impl Profile {
    /// The profile that is created under `name` with the identifier `id`.
    pub fn fresh(id: String, name: String) -> (profile: Profile)
        ensures
            profile@ == ProfileView::fresh(id@, name@),
    {
        Profile {
            id,
            name,
            api_config: ApiConfig {
                base_url: "http://210.126.8.197:11434/v1".to_string(),
                api_key: String::new(),
                model: String::new(),
            },
            prompt_mode: PromptMode::Predefined(default_prompt_text()),
            output_mode: OutputMode::Clipboard,
        }
    }

    /// The profile that a fresh configuration holds under the identifier
    /// `id`.
    pub fn initial(id: String) -> (profile: Profile)
        ensures
            profile@ == ProfileView::initial(id@),
    {
        let mut profile = Profile::fresh(id, "默认配置".to_string());
        profile.api_config.api_key = "ollama".to_string();
        profile
    }

    /// Applies a partial update: each field that the update holds replaces
    /// the profile's, every other field stays.
    pub fn apply(&mut self, update: ProfileConfigUpdate)
        ensures
            final(self)@ == old(self)@.updated(update@),
    {
        if let Some(name) = update.name {
            self.name = name;
        }
        if let Some(base_url) = update.base_url {
            self.api_config.base_url = base_url;
        }
        if let Some(api_key) = update.api_key {
            self.api_config.api_key = api_key;
        }
        if let Some(model) = update.model {
            self.api_config.model = model;
        }
        if let Some(prompt_mode) = update.prompt_mode {
            self.prompt_mode = prompt_mode;
        }
        if let Some(output_mode) = update.output_mode {
            self.output_mode = output_mode;
        }
    }
}

/// A model that the service offers.
#[derive(Debug, PartialEq, Eq)]
pub struct ModelInfo {
    pub id: String,
    pub object: String,
}

/// What a `ModelInfo` holds.
pub struct ModelInfoView {
    pub id: Seq<char>,
    pub object: Seq<char>,
}

impl View for ModelInfo {
    type V = ModelInfoView;

    open spec fn view(&self) -> ModelInfoView {
        ModelInfoView { id: self.id@, object: self.object@ }
    }
}

impl Clone for ModelInfo {
    fn clone(&self) -> (copy: Self)
        ensures
            copy@ == self@,
    {
        ModelInfo { id: self.id.clone(), object: self.object.clone() }
    }
}

/// A partial update of the settings that all profiles share. A field that is
/// `None` leaves the setting as it is.
#[derive(Debug, PartialEq, Eq)]
pub struct ConfigUpdates {
    pub active_profile_id: Option<String>,
    pub sound_enabled: Option<bool>,
    pub global_hotkey: Option<String>,
    pub switch_profile_hotkey: Option<String>,
}

/// What a `ConfigUpdates` holds.
pub struct ConfigUpdatesView {
    pub active_profile_id: Option<Seq<char>>,
    pub sound_enabled: Option<bool>,
    pub global_hotkey: Option<Seq<char>>,
    pub switch_profile_hotkey: Option<Seq<char>>,
}

impl View for ConfigUpdates {
    type V = ConfigUpdatesView;

    open spec fn view(&self) -> ConfigUpdatesView {
        ConfigUpdatesView {
            active_profile_id: text_of(self.active_profile_id),
            sound_enabled: self.sound_enabled,
            global_hotkey: text_of(self.global_hotkey),
            switch_profile_hotkey: text_of(self.switch_profile_hotkey),
        }
    }
}

impl Clone for ConfigUpdates {
    fn clone(&self) -> (copy: Self)
        ensures
            copy@ == self@,
    {
        ConfigUpdates {
            active_profile_id: clone_text(&self.active_profile_id),
            sound_enabled: self.sound_enabled,
            global_hotkey: clone_text(&self.global_hotkey),
            switch_profile_hotkey: clone_text(&self.switch_profile_hotkey),
        }
    }
}

/// A partial update of a profile. A field that is `None` leaves the
/// profile's field as it is.
#[derive(Debug, PartialEq, Eq)]
pub struct ProfileConfigUpdate {
    pub name: Option<String>,
    pub base_url: Option<String>,
    pub api_key: Option<String>,
    pub model: Option<String>,
    pub prompt_mode: Option<PromptMode>,
    pub output_mode: Option<OutputMode>,
}

/// What a `ProfileConfigUpdate` holds.
pub struct ProfileConfigUpdateView {
    pub name: Option<Seq<char>>,
    pub base_url: Option<Seq<char>>,
    pub api_key: Option<Seq<char>>,
    pub model: Option<Seq<char>>,
    pub prompt_mode: Option<PromptModeView>,
    pub output_mode: Option<OutputMode>,
}

impl ProfileConfigUpdateView {
    /// The update that changes nothing.
    pub open spec fn none() -> ProfileConfigUpdateView {
        ProfileConfigUpdateView {
            name: None,
            base_url: None,
            api_key: None,
            model: None,
            prompt_mode: None,
            output_mode: None,
        }
    }
}

impl View for ProfileConfigUpdate {
    type V = ProfileConfigUpdateView;

    open spec fn view(&self) -> ProfileConfigUpdateView {
        ProfileConfigUpdateView {
            name: text_of(self.name),
            base_url: text_of(self.base_url),
            api_key: text_of(self.api_key),
            model: text_of(self.model),
            prompt_mode: match self.prompt_mode {
                Some(mode) => Some(mode@),
                None => None,
            },
            output_mode: self.output_mode,
        }
    }
}

impl Default for ProfileConfigUpdate {
    fn default() -> (update: Self)
        ensures
            update@ == ProfileConfigUpdateView::none(),
    {
        ProfileConfigUpdate {
            name: None,
            base_url: None,
            api_key: None,
            model: None,
            prompt_mode: None,
            output_mode: None,
        }
    }
}

} // verus!
