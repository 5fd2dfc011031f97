//! The tray menu: what the identifier of a chosen entry asks for, and the
//! texts of the entries.

use crate::config::{position_of_id, Config, ConfigView};
use crate::hotkey::{format_hotkey_for_display, hotkey_display};
use crate::profile::text_of;
use crate::text::{
    chars_of, copy_range, join_texts, matches_at, same_chars, starts_with, string_from_chars,
};
use vstd::prelude::*;

verus! {

/// What a chosen entry of the tray menu asks for.
#[derive(Debug, PartialEq, Eq)]
pub enum TrayCommand {
    /// Show the settings window.
    Settings,
    /// Ask the service for its models.
    LoadModels,
    /// Switch the sound on or off.
    ToggleSound,
    /// End the program.
    Quit,
    /// Make the profile with this identifier the active one.
    SelectProfile(String),
    /// Use this model in the active profile.
    SelectModel(String),
    /// Nothing that is known.
    Unknown,
}

/// What a `TrayCommand` holds.
pub enum TrayCommandView {
    Settings,
    LoadModels,
    ToggleSound,
    Quit,
    SelectProfile(Seq<char>),
    SelectModel(Seq<char>),
    Unknown,
}

impl View for TrayCommand {
    type V = TrayCommandView;

    open spec fn view(&self) -> TrayCommandView {
        match self {
            TrayCommand::Settings => TrayCommandView::Settings,
            TrayCommand::LoadModels => TrayCommandView::LoadModels,
            TrayCommand::ToggleSound => TrayCommandView::ToggleSound,
            TrayCommand::Quit => TrayCommandView::Quit,
            TrayCommand::SelectProfile(id) => TrayCommandView::SelectProfile(id@),
            TrayCommand::SelectModel(id) => TrayCommandView::SelectModel(id@),
            TrayCommand::Unknown => TrayCommandView::Unknown,
        }
    }
}

/// What the identifier of an entry asks for. The entry of a profile is
/// `profile_` and the profile's identifier, that of a model `model_` and the
/// model's.
pub open spec fn tray_command_of(id: Seq<char>) -> TrayCommandView {
    if id == "settings"@ {
        TrayCommandView::Settings
    } else if id == "load_models"@ {
        TrayCommandView::LoadModels
    } else if id == "toggle_sound"@ {
        TrayCommandView::ToggleSound
    } else if id == "quit"@ {
        TrayCommandView::Quit
    } else if starts_with(id, "profile_"@) {
        TrayCommandView::SelectProfile(id.skip(8))
    } else if starts_with(id, "model_"@) {
        TrayCommandView::SelectModel(id.skip(6))
    } else {
        TrayCommandView::Unknown
    }
}

/// How a model is shown: by its name, or as not selected where there is
/// none.
pub open spec fn model_display(model: Seq<char>) -> Seq<char> {
    if model.len() == 0 {
        "Not Selected"@
    } else {
        model
    }
}

/// The model that the menu shows for a configuration: that of the profile
/// named by the active identifier, or none where no identifier is set or no
/// profile has it.
pub open spec fn shown_model(config: ConfigView) -> Seq<char> {
    match config.active_profile_id {
        Some(id) => if config.has_id(id) {
            model_display(config.profiles[position_of_id(config.profiles, id)].api_config.model)
        } else {
            "Not Selected"@
        },
        None => "Not Selected"@,
    }
}

/// The name that the menu shows for a configuration: that of the profile
/// named by the active identifier; `None` where no identifier is set or no
/// profile has it.
pub open spec fn shown_profile_name(config: ConfigView) -> Option<Seq<char>> {
    match config.active_profile_id {
        Some(id) => if config.has_id(id) {
            Some(config.profiles[position_of_id(config.profiles, id)].name)
        } else {
            None
        },
        None => None,
    }
}

/// The text of the entry for the sound.
pub open spec fn sound_label_text(enabled: bool) -> Seq<char> {
    if enabled {
        "Sound: Enabled"@
    } else {
        "Sound: Disabled"@
    }
}

/// What the identifier of an entry asks for.
pub fn tray_command(id: &str) -> (command: TrayCommand)
    ensures
        command@ == tray_command_of(id@),
{
    let chars = chars_of(id);
    let text = chars.as_slice();
    proof {
        reveal_strlit("profile_");
        reveal_strlit("model_");
    }
    if same_chars(text, chars_of("settings").as_slice()) {
        TrayCommand::Settings
    } else if same_chars(text, chars_of("load_models").as_slice()) {
        TrayCommand::LoadModels
    } else if same_chars(text, chars_of("toggle_sound").as_slice()) {
        TrayCommand::ToggleSound
    } else if same_chars(text, chars_of("quit").as_slice()) {
        TrayCommand::Quit
    } else if matches_at(text, chars_of("profile_").as_slice(), 0) {
        let rest = copy_range(text, 8, text.len());
        TrayCommand::SelectProfile(string_from_chars(rest.as_slice()))
    } else if matches_at(text, chars_of("model_").as_slice(), 0) {
        let rest = copy_range(text, 6, text.len());
        TrayCommand::SelectModel(string_from_chars(rest.as_slice()))
    } else {
        TrayCommand::Unknown
    }
}

/// The identifier of the entry of a profile.
pub fn profile_item_id(profile_id: &str) -> (id: String)
    ensures
        id@ == "profile_"@ + profile_id@,
{
    join_texts("profile_", profile_id)
}

/// The identifier of the entry of a model.
pub fn model_item_id(model: &str) -> (id: String)
    ensures
        id@ == "model_"@ + model@,
{
    join_texts("model_", model)
}

/// The title of the profiles' submenu.
pub fn profile_title(name: &str) -> (title: String)
    ensures
        title@ == "Profile: "@ + name@,
{
    join_texts("Profile: ", name)
}

/// The title of the models' submenu.
pub fn model_title(model: &str) -> (title: String)
    ensures
        title@ == "Model: "@ + model@,
{
    join_texts("Model: ", model)
}

/// The text of the entry that shows the capture hotkey.
pub fn global_hotkey_label(hotkey: &str) -> (label: String)
    ensures
        label@ == "Global: "@ + hotkey_display(hotkey@),
{
    let shown = format_hotkey_for_display(hotkey);
    join_texts("Global: ", shown.as_str())
}

/// The text of the entry that shows the hotkey for the next profile.
pub fn switch_hotkey_label(hotkey: &str) -> (label: String)
    ensures
        label@ == "Switch: "@ + hotkey_display(hotkey@),
{
    let shown = format_hotkey_for_display(hotkey);
    join_texts("Switch: ", shown.as_str())
}

/// The text of the entry for the sound.
pub fn sound_label(enabled: bool) -> (label: String)
    ensures
        label@ == sound_label_text(enabled),
{
    if enabled {
        "Sound: Enabled".to_string()
    } else {
        "Sound: Disabled".to_string()
    }
}

/// Whether the entry of `item` is the checked one when `selected` is
/// chosen: of the entries of a submenu exactly the chosen one is checked.
pub fn is_checked(item: &String, selected: &String) -> (checked: bool)
    ensures
        checked == (item@ == selected@),
{
    *item == *selected
}

impl Config {
    /// The name that the menu shows: that of the profile named by the
    /// active identifier, if there is one.
    pub fn shown_profile_name(&self) -> (name: Option<String>)
        ensures
            text_of(name) == shown_profile_name(self@),
    {
        match &self.active_profile_id {
            Some(id) => {
                let at = self.position_of(id);
                if at < self.profiles.len() {
                    Some(self.profiles[at].name.clone())
                } else {
                    None
                }
            },
            None => None,
        }
    }

    /// The model that the menu shows: that of the profile named by the
    /// active identifier, or `Not Selected`.
    pub fn shown_model(&self) -> (model: String)
        ensures
            model@ == shown_model(self@),
    {
        match &self.active_profile_id {
            Some(id) => {
                let at = self.position_of(id);
                if at < self.profiles.len() {
                    if self.profiles[at].api_config.model.as_str().is_empty() {
                        "Not Selected".to_string()
                    } else {
                        self.profiles[at].api_config.model.clone()
                    }
                } else {
                    "Not Selected".to_string()
                }
            },
            None => "Not Selected".to_string(),
        }
    }
}

} // verus!
