//! What the settings page sends: the fields of a profile and of the shared
//! settings as a JSON object, read into the updates that they stand for.

use crate::config::{Config, ConfigError, ConfigView};
use crate::json::{JsonDoc, JsonValue};
use crate::profile::{
    default_prompt, default_prompt_text, ConfigUpdates, ConfigUpdatesView, OutputMode,
    ProfileConfigUpdate, ProfileConfigUpdateView, PromptMode, PromptModeView,
};
use crate::text::{chars_of, same_text, string_from_chars, trim, trim_chars};
use vstd::prelude::*;

verus! {

/// The name that a sent name stands for: the name without the white space
/// around it, or nothing where nothing is left.
pub open spec fn sent_name(name: Option<Seq<char>>) -> Option<Seq<char>> {
    match name {
        Some(text) => if trim(text).len() > 0 {
            Some(trim(text))
        } else {
            None
        },
        None => None,
    }
}

/// The prompt mode that the sent fields stand for: `user_input` asks the
/// user; anything else holds the sent prompt, or the default prompt where
/// none is sent.
pub open spec fn sent_prompt_mode(mode: Option<Seq<char>>, prompt: Option<Seq<char>>) -> Option<
    PromptModeView,
> {
    match mode {
        Some(m) => if m == "user_input"@ {
            Some(PromptModeView::UserInput)
        } else {
            Some(
                PromptModeView::Predefined(
                    match prompt {
                        Some(text) => text,
                        None => default_prompt(),
                    },
                ),
            )
        },
        None => None,
    }
}

/// The output mode that a sent field stands for: `dialog` is the dialog,
/// anything else the clipboard.
pub open spec fn sent_output_mode(mode: Option<Seq<char>>) -> Option<OutputMode> {
    match mode {
        Some(m) => if m == "dialog"@ {
            Some(OutputMode::Dialog)
        } else {
            Some(OutputMode::Clipboard)
        },
        None => None,
    }
}

/// The update of a profile that a sent object stands for. A field that is
/// missing, or that is no string, changes nothing.
pub open spec fn sent_profile_update(doc: JsonDoc) -> ProfileConfigUpdateView {
    ProfileConfigUpdateView {
        name: sent_name(doc.text_at("profileName"@)),
        base_url: doc.text_at("apiBaseUrl"@),
        api_key: doc.text_at("apiKey"@),
        model: doc.text_at("model"@),
        prompt_mode: sent_prompt_mode(doc.text_at("promptMode"@), doc.text_at("prompt"@)),
        output_mode: sent_output_mode(doc.text_at("outputMode"@)),
    }
}

/// The update of the shared settings that a sent object stands for: the
/// sound setting, where the object holds one.
pub open spec fn sent_settings_update(doc: JsonDoc) -> Option<ConfigUpdatesView> {
    match doc.bool_at("soundEnabled"@) {
        Some(enabled) => Some(
            ConfigUpdatesView {
                active_profile_id: None,
                sound_enabled: Some(enabled),
                global_hotkey: None,
                switch_profile_hotkey: None,
            },
        ),
        None => None,
    }
}

/// The configuration after the settings page has sent an object: the
/// active profile is updated, and then the shared settings where the object
/// holds any. Refused, with nothing changed, where the profile cannot be
/// updated.
pub open spec fn sent_update_applied(config: ConfigView, doc: JsonDoc) -> Result<
    ConfigView,
    ConfigError,
> {
    match config.profile_updated(sent_profile_update(doc)) {
        Ok(after) => match sent_settings_update(doc) {
            Some(settings) => Ok(after.settings_updated(settings)),
            None => Ok(after),
        },
        Err(e) => Err(e),
    }
}

/// Creating the profile that a sent object names: refused as without a
/// name where the object holds no name.
pub open spec fn sent_profile_created(config: ConfigView, doc: JsonDoc, id: Seq<char>) -> Result<
    ConfigView,
    ConfigError,
> {
    match doc.text_at("name"@) {
        Some(name) => config.created(name, id),
        None => Err(ConfigError::EmptyName),
    }
}

/// A copy of an optional reference to a string.
fn owned(text: Option<&String>) -> (copy: Option<String>)
    ensures
        match (text, copy) {
            (Some(t), Some(c)) => t@ == c@,
            (None, None) => true,
            _ => false,
        },
{
    match text {
        Some(t) => Some(t.clone()),
        None => None,
    }
}

impl ProfileConfigUpdate {
    /// The update of a profile that a sent object stands for.
    pub fn from_json(doc: &JsonValue) -> (update: ProfileConfigUpdate)
        ensures
            update@ == sent_profile_update(doc@),
    {
        let name = match doc.text_at("profileName") {
            Some(text) => {
                let chars = chars_of(text.as_str());
                let trimmed = trim_chars(chars.as_slice());
                if trimmed.len() > 0 {
                    Some(string_from_chars(trimmed.as_slice()))
                } else {
                    None
                }
            },
            None => None,
        };
        let prompt_mode = match doc.text_at("promptMode") {
            Some(mode) => if same_text(mode.as_str(), "user_input") {
                Some(PromptMode::UserInput)
            } else {
                match doc.text_at("prompt") {
                    Some(prompt) => Some(PromptMode::Predefined(prompt.clone())),
                    None => Some(PromptMode::Predefined(default_prompt_text())),
                }
            },
            None => None,
        };
        let output_mode = match doc.text_at("outputMode") {
            Some(mode) => if same_text(mode.as_str(), "dialog") {
                Some(OutputMode::Dialog)
            } else {
                Some(OutputMode::Clipboard)
            },
            None => None,
        };
        ProfileConfigUpdate {
            name,
            base_url: owned(doc.text_at("apiBaseUrl")),
            api_key: owned(doc.text_at("apiKey")),
            model: owned(doc.text_at("model")),
            prompt_mode,
            output_mode,
        }
    }
}

impl ConfigUpdates {
    /// The update of the shared settings that a sent object stands for.
    pub fn from_json(doc: &JsonValue) -> (update: Option<ConfigUpdates>)
        ensures
            match update {
                Some(u) => sent_settings_update(doc@) == Some(u@),
                None => sent_settings_update(doc@) is None,
            },
    {
        match doc.bool_at("soundEnabled") {
            Some(enabled) => Some(
                ConfigUpdates {
                    active_profile_id: None,
                    sound_enabled: Some(enabled),
                    global_hotkey: None,
                    switch_profile_hotkey: None,
                },
            ),
            None => None,
        }
    }
}

impl Config {
    /// Takes what the settings page has sent: updates the active profile,
    /// and then the shared settings where any are sent. Refused, with
    /// nothing changed, where no active identifier is set or no profile has
    /// it.
    pub fn update_active_profile(&mut self, data: &JsonValue) -> (result: Result<(), ConfigError>)
        ensures
            match sent_update_applied(old(self)@, data@) {
                Ok(after) => final(self)@ == after && result.is_ok(),
                Err(e) => final(self)@ == old(self)@ && result == Err::<(), ConfigError>(e),
            },
    {
        let update = ProfileConfigUpdate::from_json(data);
        match self.update_active_profile_config(update) {
            Ok(()) => {},
            Err(e) => {
                return Err(e);
            },
        }
        match ConfigUpdates::from_json(data) {
            Some(settings) => {
                self.update_multiple_settings(settings);
            },
            None => {},
        }
        Ok(())
    }

    /// Creates the profile that a sent object names, under the identifier
    /// `id`. Refused where the object holds no name, the name is empty, or
    /// a profile of that name exists.
    pub fn insert_profile_from(&mut self, data: &JsonValue, id: String) -> (result: Result<
        String,
        ConfigError,
    >)
        ensures
            match sent_profile_created(old(self)@, data@, id@) {
                Ok(after) => final(self)@ == after && result.is_ok() && result.unwrap()@ == id@,
                Err(e) => final(self)@ == old(self)@ && result == Err::<String, ConfigError>(e),
            },
    {
        match data.text_at("name") {
            Some(name) => self.insert_profile(name.clone(), id),
            None => Err(ConfigError::EmptyName),
        }
    }
}

} // verus!
