//! The configuration: the profiles in their order, which of them is active,
//! and the settings that all profiles share; and the operations that change
//! it. Every operation either succeeds or leaves the configuration as it was.

use crate::analysis::{
    lemma_initial_profile_lacks_model, validation_error, AnalysisErrorView,
};
use crate::ids::{is_random_id, random_id};
use crate::profile::{
    clone_text, text_of, ConfigUpdates, ConfigUpdatesView, Profile,
    ProfileConfigUpdate, ProfileConfigUpdateView, ProfileView,
};
use vstd::prelude::*;

verus! {

/// Why an operation on the configuration was refused.
#[derive(Clone, Copy, Debug, PartialEq, Eq, Structural)]
pub enum ConfigError {
    /// A profile cannot be created without a name.
    EmptyName,
    /// A profile of this name exists already.
    NameCollision,
    /// No profile has this identifier.
    NotFound,
    /// The only profile cannot be deleted.
    LastProfile,
    /// No profile is active, or there is no profile at all.
    NoActiveProfile,
}

/// The refusal in words.
pub open spec fn config_error_message(error: ConfigError) -> Seq<char> {
    match error {
        ConfigError::EmptyName => "Profile name is required"@,
        ConfigError::NameCollision => "Profile name already exists"@,
        ConfigError::NotFound => "Profile not found"@,
        ConfigError::LastProfile => "Cannot delete the last profile"@,
        ConfigError::NoActiveProfile => "No active profile"@,
    }
}

impl ConfigError {
    /// The refusal in words.
    pub fn message(self) -> (message: String)
        ensures
            message@ == config_error_message(self),
    {
        match self {
            ConfigError::EmptyName => "Profile name is required".to_string(),
            ConfigError::NameCollision => "Profile name already exists".to_string(),
            ConfigError::NotFound => "Profile not found".to_string(),
            ConfigError::LastProfile => "Cannot delete the last profile".to_string(),
            ConfigError::NoActiveProfile => "No active profile".to_string(),
        }
    }
}

/// The profiles, the active one, and the shared settings.
#[derive(Debug, PartialEq, Eq)]
pub struct Config {
    pub global_hotkey: String,
    pub switch_profile_hotkey: String,
    pub profiles: Vec<Profile>,
    pub active_profile_id: Option<String>,
    pub sound_enabled: bool,
}

/// What a `Config` holds.
pub struct ConfigView {
    pub global_hotkey: Seq<char>,
    pub switch_profile_hotkey: Seq<char>,
    pub profiles: Seq<ProfileView>,
    pub active_profile_id: Option<Seq<char>>,
    pub sound_enabled: bool,
}

/// What a sequence of profiles holds.
pub open spec fn profile_views(profiles: Seq<Profile>) -> Seq<ProfileView> {
    profiles.map_values(|p: Profile| p@)
}

impl View for Config {
    type V = ConfigView;

    open spec fn view(&self) -> ConfigView {
        ConfigView {
            global_hotkey: self.global_hotkey@,
            switch_profile_hotkey: self.switch_profile_hotkey@,
            profiles: profile_views(self.profiles@),
            active_profile_id: text_of(self.active_profile_id),
            sound_enabled: self.sound_enabled,
        }
    }
}

/// The index of the first profile with the identifier `id`, or the number of
/// profiles if none has it.
pub open spec fn position_of_id(profiles: Seq<ProfileView>, id: Seq<char>) -> int
    decreases profiles.len(),
{
    if profiles.len() == 0 || profiles[0].id == id {
        0
    } else {
        1 + position_of_id(profiles.skip(1), id)
    }
}

/// The position of an identifier lies within the profiles or just behind
/// them, holds the identifier, and no earlier profile has it.
pub proof fn lemma_position_of_id(profiles: Seq<ProfileView>, id: Seq<char>)
    ensures
        0 <= position_of_id(profiles, id) <= profiles.len(),
        position_of_id(profiles, id) < profiles.len() ==> profiles[position_of_id(profiles, id)].id
            == id,
        forall|i: int| 0 <= i < position_of_id(profiles, id) ==> profiles[i].id != id,
    decreases profiles.len(),
{
    if profiles.len() > 0 && profiles[0].id != id {
        let rest = profiles.skip(1);
        lemma_position_of_id(rest, id);
        assert forall|i: int| 0 <= i < position_of_id(profiles, id) implies profiles[i].id
            != id by {
            if i > 0 {
                assert(rest[i - 1] == profiles[i]);
            }
        }
    }
}

/// An index that holds the identifier, with no earlier profile that has it,
/// is the position of the identifier.
pub proof fn lemma_position_of_id_unique(profiles: Seq<ProfileView>, id: Seq<char>, at: int)
    requires
        0 <= at <= profiles.len(),
        at < profiles.len() ==> profiles[at].id == id,
        forall|i: int| 0 <= i < at ==> profiles[i].id != id,
    ensures
        position_of_id(profiles, id) == at,
    decreases profiles.len(),
{
    if profiles.len() > 0 && profiles[0].id != id {
        let rest = profiles.skip(1);
        lemma_position_of_id_unique(rest, id, at - 1);
    }
}

impl ConfigView {
    /// The configuration that a first start begins with: one profile with
    /// the default name and the identifier `id`, which is active; the two
    /// default hotkeys; sound switched on.
    pub open spec fn initial(id: Seq<char>) -> ConfigView {
        ConfigView {
            global_hotkey: "cmd+shift+m"@,
            switch_profile_hotkey: "cmd+shift+p"@,
            profiles: seq![ProfileView::initial(id)],
            active_profile_id: Some(id),
            sound_enabled: true,
        }
    }

    /// Some profile has the identifier `id`.
    pub open spec fn has_id(self, id: Seq<char>) -> bool {
        position_of_id(self.profiles, id) < self.profiles.len()
    }

    /// Some profile has the name `name`.
    pub open spec fn has_name(self, name: Seq<char>) -> bool {
        exists|i: int| 0 <= i < self.profiles.len() && #[trigger] self.profiles[i].name == name
    }

    /// No two profiles share an identifier.
    pub open spec fn ids_distinct(self) -> bool {
        forall|i: int, j: int|
            0 <= i < j < self.profiles.len() ==> #[trigger] self.profiles[i].id
                != #[trigger] self.profiles[j].id
    }

    /// No two profiles share a name.
    pub open spec fn names_distinct(self) -> bool {
        forall|i: int, j: int|
            0 <= i < j < self.profiles.len() ==> #[trigger] self.profiles[i].name
                != #[trigger] self.profiles[j].name
    }

    /// There is a profile. Every operation keeps it so.
    pub open spec fn wf(self) -> bool {
        self.profiles.len() > 0
    }

    /// The active identifier, where one is set, is that of a profile.
    pub open spec fn active_resolves(self) -> bool {
        match self.active_profile_id {
            Some(id) => self.has_id(id),
            None => true,
        }
    }

    /// The index of the active profile: that of the profile named by the
    /// active identifier, or of the first profile where no identifier is set
    /// or no profile has it.
    pub open spec fn active_index(self) -> int {
        match self.active_profile_id {
            Some(id) => if self.has_id(id) {
                position_of_id(self.profiles, id)
            } else {
                0
            },
            None => 0,
        }
    }

    /// The index of the profile that follows the active one, the first
    /// following the last.
    pub open spec fn next_index(self) -> int {
        (self.active_index() + 1) % (self.profiles.len() as int)
    }

    /// This configuration with another active identifier.
    pub open spec fn with_active(self, id: Option<Seq<char>>) -> ConfigView {
        ConfigView { active_profile_id: id, ..self }
    }

    /// This configuration with other profiles.
    pub open spec fn with_profiles(self, profiles: Seq<ProfileView>) -> ConfigView {
        ConfigView { profiles, ..self }
    }

    /// Creating a profile: refused without a name or where the name is
    /// taken; else the new profile is appended and becomes the active one.
    pub open spec fn created(self, name: Seq<char>, id: Seq<char>) -> Result<
        ConfigView,
        ConfigError,
    > {
        if name.len() == 0 {
            Err(ConfigError::EmptyName)
        } else if self.has_name(name) {
            Err(ConfigError::NameCollision)
        } else {
            Ok(
                self.with_profiles(self.profiles.push(ProfileView::fresh(id, name))).with_active(
                    Some(id),
                ),
            )
        }
    }

    /// Updating the active profile: refused where no active identifier is
    /// set or no profile has it; else the fields that the update holds
    /// replace those of that profile.
    pub open spec fn profile_updated(self, update: ProfileConfigUpdateView) -> Result<
        ConfigView,
        ConfigError,
    > {
        match self.active_profile_id {
            None => Err(ConfigError::NoActiveProfile),
            Some(id) => if !self.has_id(id) {
                Err(ConfigError::NotFound)
            } else {
                let at = position_of_id(self.profiles, id);
                Ok(self.with_profiles(self.profiles.update(at, self.profiles[at].updated(update))))
            },
        }
    }

    /// Updating the shared settings: each setting that the update holds
    /// replaces the configuration's.
    pub open spec fn settings_updated(self, update: ConfigUpdatesView) -> ConfigView {
        ConfigView {
            global_hotkey: match update.global_hotkey {
                Some(hotkey) => hotkey,
                None => self.global_hotkey,
            },
            switch_profile_hotkey: match update.switch_profile_hotkey {
                Some(hotkey) => hotkey,
                None => self.switch_profile_hotkey,
            },
            profiles: self.profiles,
            active_profile_id: match update.active_profile_id {
                Some(id) => Some(id),
                None => self.active_profile_id,
            },
            sound_enabled: match update.sound_enabled {
                Some(enabled) => enabled,
                None => self.sound_enabled,
            },
        }
    }

    /// Deleting a profile: refused where at most one profile is left or no
    /// profile has the identifier; else the first profile that has it is
    /// removed, and where it was named by the active identifier the first of
    /// the remaining profiles becomes the active one.
    pub open spec fn deleted(self, id: Seq<char>) -> Result<ConfigView, ConfigError> {
        if self.profiles.len() <= 1 {
            Err(ConfigError::LastProfile)
        } else if !self.has_id(id) {
            Err(ConfigError::NotFound)
        } else {
            let rest = self.profiles.remove(position_of_id(self.profiles, id));
            if self.active_profile_id == Some(id) {
                Ok(self.with_profiles(rest).with_active(Some(rest[0].id)))
            } else {
                Ok(self.with_profiles(rest))
            }
        }
    }

    /// Making a profile the active one: refused where no profile has the
    /// identifier.
    pub open spec fn activated(self, id: Seq<char>) -> Result<ConfigView, ConfigError> {
        if self.has_id(id) {
            Ok(self.with_active(Some(id)))
        } else {
            Err(ConfigError::NotFound)
        }
    }

    /// Going on to the next profile: refused where there is no profile.
    pub open spec fn switched(self) -> Result<ConfigView, ConfigError> {
        if self.profiles.len() == 0 {
            Err(ConfigError::NoActiveProfile)
        } else {
            Ok(self.with_active(Some(self.profiles[self.next_index()].id)))
        }
    }
}

/// The length of the longest identifier among the profiles.
pub open spec fn longest_id(profiles: Seq<ProfileView>) -> nat
    decreases profiles.len(),
{
    if profiles.len() == 0 {
        0
    } else {
        let rest = longest_id(profiles.drop_last());
        if profiles.last().id.len() > rest {
            profiles.last().id.len()
        } else {
            rest
        }
    }
}

/// No identifier among the profiles is longer than the longest.
pub proof fn lemma_longest_id(profiles: Seq<ProfileView>, i: int)
    requires
        0 <= i < profiles.len(),
    ensures
        profiles[i].id.len() <= longest_id(profiles),
    decreases profiles.len(),
{
    if i < profiles.len() - 1 {
        lemma_longest_id(profiles.drop_last(), i);
    }
}

/// The index that follows `current` among `count` indices, the first
/// following the last.
pub proof fn lemma_next_index(current: int, count: int)
    requires
        0 <= current < count,
    ensures
        (current + 1) % count == if current + 1 == count {
            0
        } else {
            current + 1
        },
{
    if current + 1 == count {
        vstd::arithmetic::div_mod::lemma_mod_self_0(count);
    } else {
        vstd::arithmetic::div_mod::lemma_small_mod((current + 1) as nat, count as nat);
    }
}

/// The position of an identifier lies within the profiles exactly where
/// some profile has the identifier.
pub proof fn lemma_has_id(config: ConfigView, id: Seq<char>)
    ensures
        config.has_id(id) <==> exists|i: int|
            0 <= i < config.profiles.len() && #[trigger] config.profiles[i].id == id,
{
    lemma_position_of_id(config.profiles, id);
}

/// Where a name is given, creating a profile under it leaves the name
/// taken: a second creation under the same name is refused as a collision,
/// whatever the identifiers, and so changes nothing.
pub proof fn lemma_create_twice_collides(
    config: ConfigView,
    name: Seq<char>,
    first_id: Seq<char>,
    second_id: Seq<char>,
)
    requires
        name.len() > 0,
    ensures
        match config.created(name, first_id) {
            Ok(after) => {
                &&& after.profiles.len() == config.profiles.len() + 1
                &&& after.profiles.last() == ProfileView::fresh(first_id, name)
                &&& after.created(name, second_id) == Err::<ConfigView, ConfigError>(
                    ConfigError::NameCollision,
                )
            },
            Err(e) => {
                &&& e == ConfigError::NameCollision
                &&& config.created(name, second_id) == Err::<ConfigView, ConfigError>(
                    ConfigError::NameCollision,
                )
            },
        },
{
    match config.created(name, first_id) {
        Ok(after) => {
            assert(after.profiles[config.profiles.len() as int].name == name);
        },
        Err(e) => {},
    }
}

/// A configuration with exactly one profile refuses every deletion with
/// `LastProfile`.
pub proof fn lemma_last_profile_stays(config: ConfigView, id: Seq<char>)
    requires
        config.profiles.len() == 1,
    ensures
        config.deleted(id) == Err::<ConfigView, ConfigError>(ConfigError::LastProfile),
{
}

/// The initial configuration is well-formed, and its one profile is the
/// active one.
pub proof fn lemma_initial_wf(id: Seq<char>)
    ensures
        ConfigView::initial(id).wf(),
        ConfigView::initial(id).ids_distinct(),
        ConfigView::initial(id).names_distinct(),
        ConfigView::initial(id).active_resolves(),
        ConfigView::initial(id).active_index() == 0,
{
}

/// Creating a profile keeps the earlier profiles as they are. Under an
/// identifier that no profile has, it keeps the identifiers apart, and the
/// new profile is the active one.
pub proof fn lemma_created_wf(config: ConfigView, name: Seq<char>, id: Seq<char>)
    ensures
        match config.created(name, id) {
            Ok(after) => {
                &&& after.wf()
                &&& forall|i: int|
                    0 <= i < config.profiles.len() ==> after.profiles[i] == config.profiles[i]
                &&& !config.has_id(id) ==> {
                    &&& after.active_resolves()
                    &&& after.active_index() == after.profiles.len() - 1
                    &&& config.ids_distinct() ==> after.ids_distinct()
                }
            },
            Err(_) => true,
        },
{
    if let Ok(after) = config.created(name, id) {
        if !config.has_id(id) {
            lemma_position_of_id(config.profiles, id);
            lemma_position_of_id_unique(after.profiles, id, config.profiles.len() as int);
        }
    }
}

/// Creating a profile keeps the names of the profiles apart.
pub proof fn lemma_created_names(config: ConfigView, name: Seq<char>, id: Seq<char>)
    requires
        config.names_distinct(),
    ensures
        match config.created(name, id) {
            Ok(after) => after.names_distinct(),
            Err(_) => true,
        },
{
}

/// Updating the active profile changes no identifier and no other profile,
/// and so keeps the configuration well-formed.
pub proof fn lemma_updated_keeps_ids(config: ConfigView, update: ProfileConfigUpdateView)
    ensures
        match config.profile_updated(update) {
            Ok(after) => {
                &&& after.profiles.len() == config.profiles.len()
                &&& forall|i: int|
                    0 <= i < config.profiles.len() ==> (#[trigger] after.profiles[i]).id
                        == config.profiles[i].id
                &&& forall|i: int|
                    0 <= i < config.profiles.len() && i != config.active_index()
                        ==> #[trigger] after.profiles[i] == config.profiles[i]
                &&& after.active_profile_id == config.active_profile_id
                &&& after.wf()
                &&& config.ids_distinct() ==> after.ids_distinct()
                &&& after.active_resolves()
            },
            Err(_) => true,
        },
{
    if let Ok(after) = config.profile_updated(update) {
        let id = config.active_profile_id->Some_0;
        let at = position_of_id(config.profiles, id);
        lemma_position_of_id(config.profiles, id);
        lemma_position_of_id_unique(after.profiles, id, at);
    }
}

/// Deleting a profile leaves a profile, keeps every other profile in its
/// order, and keeps the active identifier resolved where it was. Where the
/// identifiers were apart they stay so, and the deleted one is gone.
pub proof fn lemma_deleted_wf(config: ConfigView, id: Seq<char>)
    ensures
        match config.deleted(id) {
            Ok(after) => {
                &&& after.wf()
                &&& after.profiles.len() == config.profiles.len() - 1
                &&& after.profiles == config.profiles.remove(position_of_id(config.profiles, id))
                &&& config.active_resolves() ==> after.active_resolves()
                &&& config.ids_distinct() ==> after.ids_distinct() && !after.has_id(id)
            },
            Err(_) => true,
        },
{
    if let Ok(after) = config.deleted(id) {
        let at = position_of_id(config.profiles, id);
        lemma_position_of_id(config.profiles, id);
        let rest = config.profiles.remove(at);
        if config.ids_distinct() {
            lemma_has_id(after, id);
        }
        if config.active_resolves() {
            match after.active_profile_id {
                Some(active) => {
                    if config.active_profile_id == Some(id) {
                        lemma_position_of_id_unique(rest, active, 0);
                    } else {
                        let p = position_of_id(config.profiles, active);
                        lemma_position_of_id(config.profiles, active);
                        lemma_has_id(after, active);
                        if p < at {
                            assert(rest[p].id == active);
                        } else {
                            assert(rest[p - 1].id == active);
                        }
                    }
                },
                None => {},
            }
        }
    }
}

/// Making a profile the active one leaves the profiles as they are, and the
/// active profile is then the first that has the identifier.
pub proof fn lemma_activated(config: ConfigView, id: Seq<char>)
    ensures
        match config.activated(id) {
            Ok(after) => {
                &&& config.has_id(id)
                &&& after.profiles == config.profiles
                &&& after.active_resolves()
                &&& after.active_index() == position_of_id(config.profiles, id)
            },
            Err(e) => !config.has_id(id) && e == ConfigError::NotFound,
        },
{
}

/// Going on to the next profile follows the cyclic order: where there is a
/// profile and the identifiers are apart, the active index moves on by one,
/// and from the last profile to the first.
pub proof fn lemma_switched_cycles(config: ConfigView)
    requires
        config.wf(),
        config.ids_distinct(),
    ensures
        0 <= config.active_index() < config.profiles.len(),
        0 <= config.next_index() < config.profiles.len(),
        config.next_index() == if config.active_index() + 1 == config.profiles.len() {
            0
        } else {
            config.active_index() + 1
        },
        match config.switched() {
            Ok(after) => {
                &&& after.profiles == config.profiles
                &&& after.active_resolves()
                &&& after.active_index() == config.next_index()
            },
            Err(_) => false,
        },
{
    match config.active_profile_id {
        Some(id) => {
            lemma_position_of_id(config.profiles, id);
        },
        None => {},
    }
    lemma_next_index(config.active_index(), config.profiles.len() as int);
    let next = config.next_index();
    lemma_position_of_id_unique(config.profiles, config.profiles[next].id, next);
}

/// The view of a pushed profile list is the pushed view.
pub proof fn lemma_views_push(profiles: Seq<Profile>, profile: Profile)
    ensures
        profile_views(profiles.push(profile)) == profile_views(profiles).push(profile@),
{
}

/// The view of a profile list without one profile is the view without it.
pub proof fn lemma_views_remove(profiles: Seq<Profile>, at: int)
    requires
        0 <= at < profiles.len(),
    ensures
        profile_views(profiles.remove(at)) == profile_views(profiles).remove(at),
{
}

impl Clone for Config {
    fn clone(&self) -> (copy: Self)
        ensures
            copy@ == self@,
    {
        let mut profiles: Vec<Profile> = Vec::new();
        let mut at: usize = 0;
        while at < self.profiles.len()
            invariant
                at <= self.profiles@.len(),
                profile_views(profiles@) == profile_views(self.profiles@).take(at as int),
            decreases self.profiles@.len() - at,
        {
            let profile = self.profiles[at].clone();
            proof {
                lemma_views_push(profiles@, profile);
            }
            profiles.push(profile);
            at += 1;
        }
        proof {
            assert(profile_views(self.profiles@).take(at as int) =~= profile_views(
                self.profiles@,
            ));
        }
        Config {
            global_hotkey: self.global_hotkey.clone(),
            switch_profile_hotkey: self.switch_profile_hotkey.clone(),
            profiles,
            active_profile_id: clone_text(&self.active_profile_id),
            sound_enabled: self.sound_enabled,
        }
    }
}

impl Default for Config {
    /// The configuration that a first start begins with. The identifier of
    /// its profile is drawn at random.
    fn default() -> (config: Self)
        ensures
            config.profiles@.len() == 1,
            config@ == ConfigView::initial(config.profiles@[0].id@),
            is_random_id(config.profiles@[0].id@),
            validation_error(config@.profiles[0]) == Some(AnalysisErrorView::MissingModel),
    {
        Config::initial(random_id())
    }
}

impl Config {
    /// The configuration that a first start begins with, its one profile
    /// under the identifier `id`.
    pub fn initial(id: String) -> (config: Config)
        ensures
            config@ == ConfigView::initial(id@),
            config.profiles@.len() == 1,
            config.profiles@[0].id@ == id@,
            validation_error(config@.profiles[0]) == Some(AnalysisErrorView::MissingModel),
    {
        proof {
            lemma_initial_profile_lacks_model(id@, ProfileConfigUpdateView::none());
        }
        let profile = Profile::initial(id.clone());
        let mut profiles: Vec<Profile> = Vec::new();
        profiles.push(profile);
        let config = Config {
            global_hotkey: "cmd+shift+m".to_string(),
            switch_profile_hotkey: "cmd+shift+p".to_string(),
            profiles,
            active_profile_id: Some(id),
            sound_enabled: true,
        };
        assert(config@.profiles =~= seq![ProfileView::initial(id@)]);
        config
    }

    /// Switches the sound on where it was off, and off where it was on.
    /// Returns the new setting.
    pub fn toggle_sound(&mut self) -> (enabled: bool)
        ensures
            enabled == !old(self).sound_enabled,
            final(self)@ == (ConfigView { sound_enabled: enabled, ..old(self)@ }),
    {
        self.sound_enabled = !self.sound_enabled;
        self.sound_enabled
    }

    /// Sets both hotkeys.
    pub fn set_hotkeys(&mut self, global_hotkey: String, switch_hotkey: String)
        ensures
            final(self)@ == (ConfigView {
                global_hotkey: global_hotkey@,
                switch_profile_hotkey: switch_hotkey@,
                ..old(self)@
            }),
    {
        self.global_hotkey = global_hotkey;
        self.switch_profile_hotkey = switch_hotkey;
    }

    /// Sets the hotkey that starts a capture.
    pub fn set_global_hotkey(&mut self, hotkey: String)
        ensures
            final(self)@ == (ConfigView { global_hotkey: hotkey@, ..old(self)@ }),
    {
        self.global_hotkey = hotkey;
    }

    /// The index of the first profile with the identifier `id`, or the
    /// number of profiles if none has it.
    pub fn position_of(&self, id: &String) -> (at: usize)
        ensures
            at == position_of_id(self@.profiles, id@),
            at <= self.profiles@.len(),
            (at < self.profiles@.len()) == self@.has_id(id@),
    {
        let mut at: usize = 0;
        while at < self.profiles.len() && self.profiles[at].id != *id
            invariant
                at <= self.profiles@.len(),
                forall|i: int| 0 <= i < at ==> self.profiles@[i].id@ != id@,
            decreases self.profiles@.len() - at,
        {
            at += 1;
        }
        proof {
            lemma_position_of_id_unique(self@.profiles, id@, at as int);
        }
        at
    }

    /// Whether some profile has the name `name`.
    pub fn has_name(&self, name: &String) -> (found: bool)
        ensures
            found == self@.has_name(name@),
    {
        let mut at: usize = 0;
        while at < self.profiles.len()
            invariant
                at <= self.profiles@.len(),
                forall|i: int| 0 <= i < at ==> self@.profiles[i].name != name@,
            decreases self.profiles@.len() - at,
        {
            if self.profiles[at].name == *name {
                assert(self@.profiles[at as int].name == name@);
                return true;
            }
            at += 1;
        }
        false
    }

    /// The active profile: the one named by the active identifier, or the
    /// first profile where no identifier is set or no profile has it. Fails
    /// only where there is no profile at all.
    pub fn get_active_profile(&self) -> (result: Result<Profile, ConfigError>)
        ensures
            match result {
                Ok(profile) => self@.profiles.len() > 0 && profile@
                    == self@.profiles[self@.active_index()],
                Err(e) => self@.profiles.len() == 0 && e == ConfigError::NoActiveProfile,
            },
    {
        if self.profiles.len() == 0 {
            return Err(ConfigError::NoActiveProfile);
        }
        let at = self.active_position();
        Ok(self.profiles[at].clone())
    }

    /// The index of the active profile.
    fn active_position(&self) -> (at: usize)
        requires
            self.profiles@.len() > 0,
        ensures
            at == self@.active_index(),
            at < self.profiles@.len(),
    {
        match &self.active_profile_id {
            Some(id) => {
                let at = self.position_of(id);
                if at < self.profiles.len() {
                    at
                } else {
                    0
                }
            },
            None => 0,
        }
    }

    /// Creates a profile under `name` with the identifier `id` and makes it
    /// the active one. Refused without a name, or where a profile of that
    /// name exists.
    pub fn insert_profile(&mut self, name: String, id: String) -> (result: Result<
        String,
        ConfigError,
    >)
        ensures
            match old(self)@.created(name@, id@) {
                Ok(after) => final(self)@ == after && result.is_ok() && result.unwrap()@ == id@,
                Err(e) => final(self)@ == old(self)@ && result == Err::<String, ConfigError>(e),
            },
    {
        if name.as_str().is_empty() {
            return Err(ConfigError::EmptyName);
        }
        if self.has_name(&name) {
            return Err(ConfigError::NameCollision);
        }
        let profile = Profile::fresh(id.clone(), name);
        proof {
            lemma_views_push(self.profiles@, profile);
        }
        self.profiles.push(profile);
        self.active_profile_id = Some(id.clone());
        Ok(id)
    }

    /// Applies a partial update to the active profile. Refused where no
    /// active identifier is set, or where no profile has it.
    pub fn update_active_profile_config(&mut self, updates: ProfileConfigUpdate) -> (result:
        Result<(), ConfigError>)
        ensures
            match old(self)@.profile_updated(updates@) {
                Ok(after) => final(self)@ == after && result.is_ok(),
                Err(e) => final(self)@ == old(self)@ && result == Err::<(), ConfigError>(e),
            },
    {
        let at = match &self.active_profile_id {
            None => {
                return Err(ConfigError::NoActiveProfile);
            },
            Some(id) => self.position_of(id),
        };
        if at >= self.profiles.len() {
            return Err(ConfigError::NotFound);
        }
        let ghost before = self.profiles@;
        self.profiles[at].apply(updates);
        proof {
            assert(profile_views(self.profiles@) =~= profile_views(before).update(
                at as int,
                profile_views(before)[at as int].updated(updates@),
            ));
        }
        Ok(())
    }

    /// Applies a partial update to the shared settings.
    pub fn update_multiple_settings(&mut self, updates: ConfigUpdates)
        ensures
            final(self)@ == old(self)@.settings_updated(updates@),
    {
        if let Some(active_id) = updates.active_profile_id {
            self.active_profile_id = Some(active_id);
        }
        if let Some(sound_enabled) = updates.sound_enabled {
            self.sound_enabled = sound_enabled;
        }
        if let Some(global_hotkey) = updates.global_hotkey {
            self.global_hotkey = global_hotkey;
        }
        if let Some(switch_hotkey) = updates.switch_profile_hotkey {
            self.switch_profile_hotkey = switch_hotkey;
        }
    }

    /// Deletes the profile with the identifier `id`. Refused where at most
    /// one profile is left, or where no profile has the identifier.
    pub fn delete_profile(&mut self, id: &String) -> (result: Result<(), ConfigError>)
        ensures
            match old(self)@.deleted(id@) {
                Ok(after) => final(self)@ == after && result.is_ok(),
                Err(e) => final(self)@ == old(self)@ && result == Err::<(), ConfigError>(e),
            },
    {
        if self.profiles.len() <= 1 {
            return Err(ConfigError::LastProfile);
        }
        let at = self.position_of(id);
        if at >= self.profiles.len() {
            return Err(ConfigError::NotFound);
        }
        proof {
            lemma_views_remove(self.profiles@, at as int);
        }
        let was_active = match &self.active_profile_id {
            Some(active) => *active == *id,
            None => false,
        };
        self.profiles.remove(at);
        if was_active {
            self.active_profile_id = Some(self.profiles[0].id.clone());
        }
        Ok(())
    }

    /// Makes the profile with the identifier `id` the active one. Refused
    /// where no profile has the identifier.
    pub fn set_active_profile(&mut self, id: String) -> (result: Result<(), ConfigError>)
        ensures
            match old(self)@.activated(id@) {
                Ok(after) => final(self)@ == after && result.is_ok(),
                Err(e) => final(self)@ == old(self)@ && result == Err::<(), ConfigError>(e),
            },
    {
        if self.position_of(&id) >= self.profiles.len() {
            return Err(ConfigError::NotFound);
        }
        self.active_profile_id = Some(id);
        Ok(())
    }

    /// The identifier of the profile that follows the active one, the first
    /// following the last. Fails only where there is no profile at all.
    pub fn get_next_profile_id(&self) -> (result: Result<String, ConfigError>)
        ensures
            match result {
                Ok(id) => self@.profiles.len() > 0 && id@
                    == self@.profiles[self@.next_index()].id,
                Err(e) => self@.profiles.len() == 0 && e == ConfigError::NoActiveProfile,
            },
    {
        if self.profiles.len() == 0 {
            return Err(ConfigError::NoActiveProfile);
        }
        let current = self.active_position();
        let next = if current + 1 == self.profiles.len() {
            0
        } else {
            current + 1
        };
        proof {
            lemma_next_index(current as int, self.profiles@.len() as int);
        }
        Ok(self.profiles[next].id.clone())
    }

    /// Goes on to the next profile and returns it. Fails only where there is
    /// no profile at all.
    pub fn switch_to_next(&mut self) -> (result: Result<Profile, ConfigError>)
        ensures
            match old(self)@.switched() {
                Ok(after) => final(self)@ == after && result.is_ok() && result.unwrap()@
                    == after.profiles[after.active_index()],
                Err(e) => final(self)@ == old(self)@ && result == Err::<Profile, ConfigError>(e),
            },
    {
        let next = match self.get_next_profile_id() {
            Ok(id) => id,
            Err(e) => {
                return Err(e);
            },
        };
        proof {
            lemma_position_of_id(self@.profiles, next@);
        }
        match self.set_active_profile(next) {
            Ok(()) => {},
            Err(e) => {
                return Err(e);
            },
        }
        self.get_active_profile()
    }
}

} // verus!
