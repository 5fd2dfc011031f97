//! The store: the one owner of the configuration. A change is made in
//! memory first and kept only once it has been written out; a change that
//! is refused, or that cannot be written out, leaves the store as it was.
//!
//! Writing out is not done here. `begin` makes the change and hands back
//! the text to write; `settle` is told whether the text was written.

use crate::analysis::{lemma_initial_profile_lacks_model, validation_error, AnalysisErrorView};
use crate::codec::{config_doc, config_of_document};
use crate::commands::{sent_profile_created, sent_profile_update, sent_update_applied};
use crate::config::{
    lemma_created_wf, lemma_deleted_wf, lemma_has_id, lemma_longest_id, lemma_position_of_id,
    lemma_updated_keeps_ids, longest_id, position_of_id, Config, ConfigError, ConfigView,
};
use crate::ids::{is_made_id, is_random_id, random_id};
use crate::json::{json_document, json_pretty_text, JsonDoc, JsonValue};
use crate::profile::{
    ConfigUpdates, ConfigUpdatesView, Profile, ProfileConfigUpdate, ProfileConfigUpdateView,
    ProfileView,
};
use crate::text::{chars_of, string_from_chars};
use vstd::prelude::*;

verus! {

/// A change of the configuration.
#[derive(Debug)]
pub enum ConfigMutation {
    /// Create a profile under this name and identifier, and make it active.
    CreateProfile { name: String, id: String },
    /// Update the active profile.
    UpdateActiveProfile(ProfileConfigUpdate),
    /// Update the shared settings.
    UpdateSettings(ConfigUpdates),
    /// Take what the settings page has sent: update the active profile,
    /// and the shared settings where any are sent.
    UpdateSent(JsonValue),
    /// Delete the profile with this identifier.
    DeleteProfile(String),
    /// Make the profile with this identifier the active one.
    SetActiveProfile(String),
    /// Go on to the next profile.
    SwitchToNext,
    /// Switch the sound on or off.
    ToggleSound,
    /// Set both hotkeys.
    SetHotkeys { global_hotkey: String, switch_hotkey: String },
    /// Set the hotkey that starts a capture.
    SetGlobalHotkey(String),
    /// Put another configuration in place of this one. Refused where the
    /// other configuration holds no profile.
    Replace(Config),
}

/// What a `ConfigMutation` holds.
pub enum ConfigMutationView {
    CreateProfile { name: Seq<char>, id: Seq<char> },
    UpdateActiveProfile(ProfileConfigUpdateView),
    UpdateSettings(ConfigUpdatesView),
    UpdateSent(JsonDoc),
    DeleteProfile(Seq<char>),
    SetActiveProfile(Seq<char>),
    SwitchToNext,
    ToggleSound,
    SetHotkeys { global_hotkey: Seq<char>, switch_hotkey: Seq<char> },
    SetGlobalHotkey(Seq<char>),
    Replace(ConfigView),
}

impl View for ConfigMutation {
    type V = ConfigMutationView;

    open spec fn view(&self) -> ConfigMutationView {
        match self {
            ConfigMutation::CreateProfile { name, id } => ConfigMutationView::CreateProfile {
                name: name@,
                id: id@,
            },
            ConfigMutation::UpdateActiveProfile(update) => ConfigMutationView::UpdateActiveProfile(
                update@,
            ),
            ConfigMutation::UpdateSettings(update) => ConfigMutationView::UpdateSettings(update@),
            ConfigMutation::UpdateSent(data) => ConfigMutationView::UpdateSent(data@),
            ConfigMutation::DeleteProfile(id) => ConfigMutationView::DeleteProfile(id@),
            ConfigMutation::SetActiveProfile(id) => ConfigMutationView::SetActiveProfile(id@),
            ConfigMutation::SwitchToNext => ConfigMutationView::SwitchToNext,
            ConfigMutation::ToggleSound => ConfigMutationView::ToggleSound,
            ConfigMutation::SetHotkeys { global_hotkey, switch_hotkey } =>
                ConfigMutationView::SetHotkeys {
                    global_hotkey: global_hotkey@,
                    switch_hotkey: switch_hotkey@,
                },
            ConfigMutation::SetGlobalHotkey(hotkey) => ConfigMutationView::SetGlobalHotkey(
                hotkey@,
            ),
            ConfigMutation::Replace(config) => ConfigMutationView::Replace(config@),
        }
    }
}

impl ConfigView {
    /// The configuration after a change, or why the change is refused.
    pub open spec fn applied(self, mutation: ConfigMutationView) -> Result<
        ConfigView,
        ConfigError,
    > {
        match mutation {
            ConfigMutationView::CreateProfile { name, id } => self.created(name, id),
            ConfigMutationView::UpdateActiveProfile(update) => self.profile_updated(update),
            ConfigMutationView::UpdateSettings(update) => Ok(self.settings_updated(update)),
            ConfigMutationView::UpdateSent(data) => sent_update_applied(self, data),
            ConfigMutationView::DeleteProfile(id) => self.deleted(id),
            ConfigMutationView::SetActiveProfile(id) => self.activated(id),
            ConfigMutationView::SwitchToNext => self.switched(),
            ConfigMutationView::ToggleSound => Ok(
                ConfigView { sound_enabled: !self.sound_enabled, ..self },
            ),
            ConfigMutationView::SetHotkeys { global_hotkey, switch_hotkey } => Ok(
                ConfigView { global_hotkey, switch_profile_hotkey: switch_hotkey, ..self },
            ),
            ConfigMutationView::SetGlobalHotkey(hotkey) => Ok(
                ConfigView { global_hotkey: hotkey, ..self },
            ),
            ConfigMutationView::Replace(config) => if config.profiles.len() == 0 {
                Err(ConfigError::NoActiveProfile)
            } else {
                Ok(config)
            },
        }
    }
}

/// Every change leaves a profile where there was one. Every change but
/// the putting of another configuration in place keeps the identifiers
/// apart, as long as a created profile comes with an identifier that no
/// profile has, and keeps the active identifier that of a profile, as long
/// as the shared settings are not given an identifier that no profile has.
pub proof fn lemma_applied_wf(config: ConfigView, mutation: ConfigMutationView)
    requires
        config.wf(),
    ensures
        match config.applied(mutation) {
            Ok(after) => {
                &&& after.wf()
                &&& {
                    &&& config.ids_distinct()
                    &&& !(mutation is Replace)
                    &&& mutation matches ConfigMutationView::CreateProfile { id, .. }
                        ==> !config.has_id(id)
                } ==> after.ids_distinct()
                &&& {
                    &&& config.active_resolves()
                    &&& !(mutation is Replace)
                    &&& mutation matches ConfigMutationView::CreateProfile { id, .. }
                        ==> !config.has_id(id)
                    &&& mutation matches ConfigMutationView::UpdateSettings(update) ==> (
                    update.active_profile_id matches Some(id) ==> config.has_id(id))
                } ==> after.active_resolves()
            },
            Err(_) => true,
        },
{
    match mutation {
        ConfigMutationView::CreateProfile { name, id } => {
            lemma_created_wf(config, name, id);
        },
        ConfigMutationView::UpdateActiveProfile(update) => {
            lemma_updated_keeps_ids(config, update);
        },
        ConfigMutationView::UpdateSent(data) => {
            lemma_updated_keeps_ids(config, sent_profile_update(data));
        },
        ConfigMutationView::DeleteProfile(id) => {
            lemma_deleted_wf(config, id);
        },
        ConfigMutationView::SwitchToNext => {
            let after = config.switched()->Ok_0;
            match config.active_profile_id {
                Some(id) => {
                    lemma_position_of_id(config.profiles, id);
                },
                None => {},
            }
            lemma_has_id(after, config.profiles[config.next_index()].id);
        },
        _ => {},
    }
}

/// A change that is made and then not written out leaves the store as it
/// was, and so does a change that is refused.
pub proof fn lemma_unwritten_change_is_undone(config: ConfigView, mutation: ConfigMutationView)
    ensures
        match config.applied(mutation) {
            Ok(after) => (TransactionView {
                before: config,
                document: json_pretty_text(config_doc(after)),
            }).settled(after, false) == config,
            Err(_) => true,
        },
{
}

/// The configuration that a run takes from a kept text, given the
/// document that the text reads as: the configuration that the document
/// stands for, where it holds a profile.
pub open spec fn kept_config(document: Option<JsonDoc>) -> Option<ConfigView> {
    match config_of_document(document) {
        Some(config) => if config.wf() {
            Some(config)
        } else {
            None
        },
        None => None,
    }
}

impl TransactionView {
    /// The store after the change has ended: as it is where the text was
    /// written out, as it was before the change where it was not.
    pub open spec fn settled(self, current: ConfigView, persisted: bool) -> ConfigView {
        if persisted {
            current
        } else {
            self.before
        }
    }
}

impl Config {
    /// Makes a change. A change that is refused changes nothing.
    pub fn apply(&mut self, mutation: ConfigMutation) -> (result: Result<(), ConfigError>)
        ensures
            match old(self)@.applied(mutation@) {
                Ok(after) => final(self)@ == after && result.is_ok(),
                Err(e) => final(self)@ == old(self)@ && result == Err::<(), ConfigError>(e),
            },
            old(self)@.wf() ==> final(self)@.wf(),
    {
        proof {
            if self@.wf() {
                lemma_applied_wf(self@, mutation@);
            }
        }
        match mutation {
            ConfigMutation::CreateProfile { name, id } => match self.insert_profile(name, id) {
                Ok(_) => Ok(()),
                Err(e) => Err(e),
            },
            ConfigMutation::UpdateActiveProfile(update) => self.update_active_profile_config(
                update,
            ),
            ConfigMutation::UpdateSettings(update) => {
                self.update_multiple_settings(update);
                Ok(())
            },
            ConfigMutation::UpdateSent(data) => self.update_active_profile(&data),
            ConfigMutation::DeleteProfile(id) => self.delete_profile(&id),
            ConfigMutation::SetActiveProfile(id) => self.set_active_profile(id),
            ConfigMutation::SwitchToNext => match self.switch_to_next() {
                Ok(_) => Ok(()),
                Err(e) => Err(e),
            },
            ConfigMutation::ToggleSound => {
                self.toggle_sound();
                Ok(())
            },
            ConfigMutation::SetHotkeys { global_hotkey, switch_hotkey } => {
                self.set_hotkeys(global_hotkey, switch_hotkey);
                Ok(())
            },
            ConfigMutation::SetGlobalHotkey(hotkey) => {
                self.set_global_hotkey(hotkey);
                Ok(())
            },
            ConfigMutation::Replace(config) => {
                if config.profiles.len() == 0 {
                    return Err(ConfigError::NoActiveProfile);
                }
                *self = config;
                Ok(())
            },
        }
    }

    /// The configuration that a run starts with: the one that the kept text
    /// stands for, or the initial one, with an identifier drawn at random,
    /// where there is no text or the text stands for no configuration with
    /// a profile.
    pub fn load(document: Option<&str>) -> (config: Config)
        ensures
            config@.wf(),
            match document {
                Some(text) => match kept_config(json_document(text@)) {
                    Some(kept) => config@ == kept,
                    None => config.is_initial(),
                },
                None => config.is_initial(),
            },
            config.is_initial() ==> validation_error(config@.profiles[0]) == Some(
                AnalysisErrorView::MissingModel,
            ),
    {
        let kept = match document {
            Some(text) => Config::from_document(text),
            None => None,
        };
        match kept {
            Some(config) => if config.profiles.len() > 0 {
                proof {
                    lemma_initial_profile_lacks_model(
                        config.profiles@[0].id@,
                        ProfileConfigUpdateView::none(),
                    );
                }
                config
            } else {
                Config::initial(random_id())
            },
            None => Config::initial(random_id()),
        }
    }

    /// This is the initial configuration, under a random identifier. An
    /// analysis under its profile lacks nothing but the model.
    pub open spec fn is_initial(self) -> bool {
        &&& self.profiles@.len() == 1
        &&& self@ == ConfigView::initial(self.profiles@[0].id@)
        &&& is_random_id(self.profiles@[0].id@)
    }
}

/// A change that was made in memory and is to be written out.
#[derive(Debug)]
pub struct Transaction {
    before: Config,
    document: String,
}

/// What a `Transaction` holds: the configuration before the change, and
/// the text of the configuration after it.
pub struct TransactionView {
    pub before: ConfigView,
    pub document: Seq<char>,
}

impl View for Transaction {
    type V = TransactionView;

    closed spec fn view(&self) -> TransactionView {
        TransactionView { before: self.before@, document: self.document@ }
    }
}

/// A step of writing a text out. The text is written to a temporary file
/// first, and that file is then put in place of the kept one, so that the
/// kept file holds the whole of the earlier text or the whole of the new
/// one at every moment.
#[derive(Debug, PartialEq, Eq)]
pub enum SaveStep {
    /// Write the text to the temporary file.
    WriteTemporary(String),
    /// Put the temporary file in place of the kept file.
    ReplaceKept,
}

/// What a `SaveStep` holds.
pub enum SaveStepView {
    WriteTemporary(Seq<char>),
    ReplaceKept,
}

impl View for SaveStep {
    type V = SaveStepView;

    open spec fn view(&self) -> SaveStepView {
        match self {
            SaveStep::WriteTemporary(text) => SaveStepView::WriteTemporary(text@),
            SaveStep::ReplaceKept => SaveStepView::ReplaceKept,
        }
    }
}

/// What a list of steps holds.
pub open spec fn step_views(steps: Seq<SaveStep>) -> Seq<SaveStepView> {
    steps.map_values(|s: SaveStep| s@)
}

/// The steps that write a text out.
pub open spec fn save_steps(document: Seq<char>) -> Seq<SaveStepView> {
    seq![SaveStepView::WriteTemporary(document), SaveStepView::ReplaceKept]
}

/// The two files as far as their texts go.
pub struct Files {
    pub kept: Option<Seq<char>>,
    pub temporary: Option<Seq<char>>,
}

impl Files {
    /// The files after a step that went through. Putting a temporary file
    /// in place that is not there changes nothing.
    pub open spec fn after(self, step: SaveStepView) -> Files {
        match step {
            SaveStepView::WriteTemporary(text) => Files { kept: self.kept, temporary: Some(text) },
            SaveStepView::ReplaceKept => match self.temporary {
                Some(text) => Files { kept: Some(text), temporary: None },
                None => self,
            },
        }
    }

    /// The files after these steps, in their order.
    pub open spec fn after_all(self, steps: Seq<SaveStepView>) -> Files
        decreases steps.len(),
    {
        if steps.len() == 0 {
            self
        } else {
            self.after(steps[0]).after_all(steps.skip(1))
        }
    }
}

/// Atomicity: however many of the steps of writing a text out went through
/// before the writing broke off, the kept file holds the earlier text as a
/// whole, and once all went through it holds the new text as a whole.
pub proof fn lemma_save_is_atomic(files: Files, document: Seq<char>, done: int)
    requires
        0 <= done <= 2,
    ensures
        files.after_all(save_steps(document).take(done)).kept == if done == 2 {
            Some(document)
        } else {
            files.kept
        },
{
    let steps = save_steps(document).take(done);
    if done == 1 {
        assert(files.after(steps[0]).after_all(steps.skip(1)) == files.after(steps[0]));
    } else if done == 2 {
        let written = files.after(steps[0]);
        assert(written.after_all(steps.skip(1)) == written.after(steps.skip(1)[0]).after_all(
            steps.skip(1).skip(1),
        ));
    }
}

impl Transaction {
    /// The steps that write the change out. Where one of them fails the
    /// change is not written out.
    pub fn steps(&self) -> (steps: Vec<SaveStep>)
        ensures
            step_views(steps@) == save_steps(self@.document),
    {
        let mut steps: Vec<SaveStep> = Vec::new();
        steps.push(SaveStep::WriteTemporary(self.document.clone()));
        steps.push(SaveStep::ReplaceKept);
        steps
    }

    /// The text to write out.
    pub fn document(&self) -> (text: &String)
        ensures
            text@ == self@.document,
    {
        &self.document
    }
}

/// What a list of identifiers holds.
pub open spec fn id_views(ids: Seq<String>) -> Seq<Seq<char>> {
    ids.map_values(|id: String| id@)
}

/// The length of the longest of some texts.
pub open spec fn longest_text(texts: Seq<Seq<char>>) -> nat
    decreases texts.len(),
{
    if texts.len() == 0 {
        0
    } else {
        let rest = longest_text(texts.drop_last());
        if texts.last().len() > rest {
            texts.last().len()
        } else {
            rest
        }
    }
}

/// None of the texts is longer than the longest.
pub proof fn lemma_longest_text(texts: Seq<Seq<char>>, i: int)
    requires
        0 <= i < texts.len(),
    ensures
        texts[i].len() <= longest_text(texts),
    decreases texts.len(),
{
    if i < texts.len() - 1 {
        lemma_longest_text(texts.drop_last(), i);
    }
}

/// An identifier is taken: it was given out before, or a profile has it.
pub open spec fn taken(issued: Seq<Seq<char>>, profiles: Seq<ProfileView>, id: Seq<char>) -> bool {
    issued.contains(id) || position_of_id(profiles, id) < profiles.len()
}

/// An identifier set apart from every identifier that is taken: the
/// identifier itself where it is not taken, else the identifier with as
/// many `0` behind it as it takes.
pub open spec fn set_apart_from(
    issued: Seq<Seq<char>>,
    profiles: Seq<ProfileView>,
    id: Seq<char>,
) -> Seq<char>
    decreases longest_text(issued) + longest_id(profiles) + 1 - id.len(),
{
    if taken(issued, profiles, id) && id.len() <= longest_text(issued) + longest_id(profiles) {
        set_apart_from(issued, profiles, id.push('0'))
    } else {
        id
    }
}

/// A taken identifier is no longer than the longest that was given out and
/// the longest of a profile together.
pub proof fn lemma_taken_is_short(
    issued: Seq<Seq<char>>,
    profiles: Seq<ProfileView>,
    id: Seq<char>,
)
    requires
        taken(issued, profiles, id),
    ensures
        id.len() <= longest_text(issued) + longest_id(profiles),
{
    if issued.contains(id) {
        let i = choose|i: int| 0 <= i < issued.len() && issued[i] == id;
        lemma_longest_text(issued, i);
    } else {
        lemma_position_of_id(profiles, id);
        lemma_longest_id(profiles, position_of_id(profiles, id));
    }
}

/// An identifier that is set apart is not taken, and it is the identifier
/// that was given with nothing but `0` behind it.
pub proof fn lemma_set_apart_from(
    issued: Seq<Seq<char>>,
    profiles: Seq<ProfileView>,
    id: Seq<char>,
)
    ensures
        !taken(issued, profiles, set_apart_from(issued, profiles, id)),
        set_apart_from(issued, profiles, id).len() >= id.len(),
        set_apart_from(issued, profiles, id).take(id.len() as int) == id,
        forall|k: int|
            id.len() <= k < set_apart_from(issued, profiles, id).len() ==> set_apart_from(
                issued,
                profiles,
                id,
            )[k] == '0',
    decreases longest_text(issued) + longest_id(profiles) + 1 - id.len(),
{
    if taken(issued, profiles, id) {
        lemma_taken_is_short(issued, profiles, id);
        let longer = id.push('0');
        lemma_set_apart_from(issued, profiles, longer);
        let apart = set_apart_from(issued, profiles, longer);
        assert(apart[id.len() as int] == apart.take(longer.len() as int)[id.len() as int]);
    }
}

/// Nothing is ever forgotten: what a store remembers it still remembers
/// two steps on, and so after any number of steps. An identifier that was
/// given out once is for that reason never given out again, whatever has
/// become of its profile.
pub proof fn lemma_nothing_forgotten(
    first: ConfigStore,
    second: ConfigStore,
    third: ConfigStore,
    id: Seq<char>,
)
    requires
        second.remembers_on(&first),
        third.remembers_on(&second),
        first.remembers(id),
    ensures
        second.remembers(id),
        third.remembers(id),
{
}

/// The one owner of the configuration. It remembers every identifier that
/// one of its profiles had, so that none is given out a second time.
#[derive(Debug)]
pub struct ConfigStore {
    config: Config,
    issued: Vec<String>,
}

impl View for ConfigStore {
    type V = ConfigView;

    closed spec fn view(&self) -> ConfigView {
        self.config@
    }
}

impl ConfigStore {
    /// The identifiers of profiles that the store has held before now.
    pub closed spec fn issued(&self) -> Seq<Seq<char>> {
        id_views(self.issued@)
    }

    /// The store remembers an identifier: a profile has it now, or one had
    /// it before.
    pub open spec fn remembers(&self, id: Seq<char>) -> bool {
        taken(self.issued(), self@.profiles, id)
    }

    /// What the store remembers after a step: what it remembered before,
    /// and the identifiers of the profiles that it then holds. Nothing is
    /// ever forgotten.
    pub open spec fn remembers_on(&self, before: &ConfigStore) -> bool {
        forall|id: Seq<char>| #[trigger]
            self.remembers(id) <==> before.remembers(id) || self@.has_id(id)
    }

    /// A store that holds `config`, and remembers no identifiers but those
    /// of its profiles.
    pub fn new(config: Config) -> (store: ConfigStore)
        ensures
            store@ == config@,
            store.issued() == Seq::<Seq<char>>::empty(),
    {
        let store = ConfigStore { config, issued: Vec::new() };
        store
    }

    /// Whether an identifier is among those of profiles held before.
    fn was_issued(&self, id: &String) -> (found: bool)
        ensures
            found == self.issued().contains(id@),
    {
        let mut at: usize = 0;
        while at < self.issued.len()
            invariant
                at <= self.issued@.len(),
                forall|i: int| 0 <= i < at ==> self.issued()[i] != id@,
            decreases self.issued@.len() - at,
        {
            if self.issued[at] == *id {
                assert(self.issued()[at as int] == id@);
                return true;
            }
            at += 1;
        }
        false
    }

    /// Whether the store remembers an identifier.
    pub fn knows(&self, id: &String) -> (known: bool)
        ensures
            known == self.remembers(id@),
    {
        self.was_issued(id) || self.config.position_of(id) < self.config.profiles.len()
    }

    /// Takes the identifiers of the present profiles among those that were
    /// held before, so that they stay remembered whatever becomes of the
    /// profiles.
    fn remember_present(&mut self)
        ensures
            final(self)@ == old(self)@,
            forall|id: Seq<char>| #[trigger]
                final(self).issued().contains(id) <==> old(self).remembers(id),
    {
        let mut at: usize = 0;
        while at < self.config.profiles.len()
            invariant
                at <= self.config.profiles@.len(),
                self@ == old(self)@,
                forall|id: Seq<char>| #[trigger]
                    self.issued().contains(id) <==> old(self).issued().contains(id) || exists|
                        k: int,
                    |
                        0 <= k < at && #[trigger] self@.profiles[k].id == id,
            decreases self.config.profiles@.len() - at,
        {
            let ghost before = self.issued();
            if !self.was_issued(&self.config.profiles[at].id) {
                let id = self.config.profiles[at].id.clone();
                self.issued.push(id);
                assert(self.issued() =~= before.push(id@));
                assert forall|x: Seq<char>| #[trigger]
                    self.issued().contains(x) <==> before.contains(x) || x == id@ by {
                    if before.contains(x) {
                        let i = choose|i: int| 0 <= i < before.len() && before[i] == x;
                        assert(self.issued()[i] == x);
                    }
                    if x == id@ {
                        assert(self.issued()[before.len() as int] == x);
                    }
                }
            }
            assert(self@.profiles[at as int].id == self.config.profiles@[at as int].id@);
            at += 1;
        }
        proof {
            assert forall|id: Seq<char>| #[trigger]
                self.issued().contains(id) <==> old(self).remembers(id) by {
                lemma_has_id(self@, id);
            }
        }
    }

    /// Sets an identifier apart from every identifier that the store
    /// remembers: where it is one of them, `0` is put behind it until it is
    /// none of them.
    pub fn set_apart(&self, id: String) -> (apart: String)
        ensures
            apart@ == set_apart_from(self.issued(), self@.profiles, id@),
            !self.remembers(apart@),
    {
        let mut chars = chars_of(id.as_str());
        let mut apart = id;
        proof {
            lemma_set_apart_from(self.issued(), self@.profiles, id@);
        }
        while self.knows(&apart)
            invariant
                apart@ == chars@,
                set_apart_from(self.issued(), self@.profiles, chars@) == set_apart_from(
                    self.issued(),
                    self@.profiles,
                    id@,
                ),
            decreases longest_text(self.issued()) + longest_id(self@.profiles) + 1 - chars@.len(),
        {
            proof {
                lemma_taken_is_short(self.issued(), self@.profiles, apart@);
            }
            chars.push('0');
            apart = string_from_chars(chars.as_slice());
        }
        apart
    }

    /// The configuration.
    pub fn config(&self) -> (config: &Config)
        ensures
            config@ == self@,
    {
        &self.config
    }

    /// A copy of the configuration.
    pub fn snapshot(&self) -> (config: Config)
        ensures
            config@ == self@,
    {
        self.config.clone()
    }

    /// The active profile. Fails only where there is no profile at all.
    pub fn get_active_profile(&self) -> (result: Result<Profile, ConfigError>)
        ensures
            match result {
                Ok(profile) => self@.profiles.len() > 0 && profile@
                    == self@.profiles[self@.active_index()],
                Err(e) => self@.profiles.len() == 0 && e == ConfigError::NoActiveProfile,
            },
    {
        self.config.get_active_profile()
    }

    /// The identifier of the profile that follows the active one. Fails only
    /// where there is no profile at all.
    pub fn get_next_profile_id(&self) -> (result: Result<String, ConfigError>)
        ensures
            match result {
                Ok(id) => self@.profiles.len() > 0 && id@
                    == self@.profiles[self@.next_index()].id,
                Err(e) => self@.profiles.len() == 0 && e == ConfigError::NoActiveProfile,
            },
    {
        self.config.get_next_profile_id()
    }

    /// Makes a change in memory and hands back what is to be written out. A
    /// change that is refused changes nothing, and nothing is to be written.
    pub fn begin(&mut self, mutation: ConfigMutation) -> (result: Result<Transaction, ConfigError>)
        ensures
            match old(self)@.applied(mutation@) {
                Ok(after) => {
                    &&& final(self)@ == after
                    &&& result.is_ok()
                    &&& result.unwrap()@ == (TransactionView {
                        before: old(self)@,
                        document: json_pretty_text(config_doc(after)),
                    })
                },
                Err(e) => final(self)@ == old(self)@ && result.is_err() && result.unwrap_err()
                    == e,
            },
            old(self)@.wf() ==> final(self)@.wf(),
            final(self).remembers_on(old(self)),
    {
        self.remember_present();
        let ghost issued = self.issued();
        let before = self.config.clone();
        let applied = self.config.apply(mutation);
        proof {
            assert forall|id: Seq<char>| #[trigger]
                self.remembers(id) <==> old(self).remembers(id) || self@.has_id(id) by {
                assert(issued.contains(id) <==> old(self).remembers(id));
            }
        }
        match applied {
            Ok(()) => Ok(Transaction { before, document: self.config.to_document() }),
            Err(e) => Err(e),
        }
    }

    /// Ends a change: kept where its text was written out, undone where it
    /// was not. The identifiers of profiles that are undone stay
    /// remembered.
    pub fn settle(&mut self, transaction: Transaction, persisted: bool)
        ensures
            final(self)@ == transaction@.settled(old(self)@, persisted),
            old(self)@.wf() && transaction@.before.wf() ==> final(self)@.wf(),
            final(self).remembers_on(old(self)),
    {
        if !persisted {
            self.remember_present();
            let ghost issued = self.issued();
            self.config = transaction.before;
            proof {
                assert forall|id: Seq<char>| #[trigger]
                    self.remembers(id) <==> old(self).remembers(id) || self@.has_id(id) by {
                    assert(issued.contains(id) <==> old(self).remembers(id));
                }
            }
        }
    }

    /// Creates a profile under `name` and makes it the active one. Its
    /// identifier is one that the store does not remember: no profile has
    /// it, and none had it before. Returns the new identifier and what is
    /// to be written out.
    pub fn create_profile(&mut self, name: String) -> (result: Result<
        (String, Transaction),
        ConfigError,
    >)
        ensures
            match result {
                Ok((id, transaction)) => {
                    &&& is_made_id(id@)
                    &&& !old(self).remembers(id@)
                    &&& !old(self)@.has_id(id@)
                    &&& final(self).remembers(id@)
                    &&& old(self)@.created(name@, id@) == Ok::<ConfigView, ConfigError>(
                        final(self)@,
                    )
                    &&& transaction@ == (TransactionView {
                        before: old(self)@,
                        document: json_pretty_text(config_doc(final(self)@)),
                    })
                },
                Err(e) => final(self)@ == old(self)@ && (e == ConfigError::EmptyName || e
                    == ConfigError::NameCollision),
            },
            name@.len() == 0 <==> result.is_err() && result.unwrap_err()
                == ConfigError::EmptyName,
            name@.len() > 0 && old(self)@.has_name(name@) <==> result.is_err()
                && result.unwrap_err() == ConfigError::NameCollision,
            old(self)@.ids_distinct() ==> final(self)@.ids_distinct(),
            final(self).remembers_on(old(self)),
    {
        let drawn = random_id();
        proof {
            lemma_set_apart_from(self.issued(), self@.profiles, drawn@);
        }
        let id = self.set_apart(drawn);
        proof {
            lemma_created_wf(self@, name@, id@);
        }
        match self.begin(ConfigMutation::CreateProfile { name, id: id.clone() }) {
            Ok(transaction) => Ok((id, transaction)),
            Err(e) => Err(e),
        }
    }

    /// Creates the profile that a sent object names, with an identifier
    /// that the store does not remember. Refused as without a name where
    /// the object holds no name.
    pub fn create_profile_from(&mut self, data: &JsonValue) -> (result: Result<
        (String, Transaction),
        ConfigError,
    >)
        ensures
            match result {
                Ok((id, transaction)) => {
                    &&& is_made_id(id@)
                    &&& !old(self).remembers(id@)
                    &&& !old(self)@.has_id(id@)
                    &&& final(self).remembers(id@)
                    &&& sent_profile_created(old(self)@, data@, id@) == Ok::<
                        ConfigView,
                        ConfigError,
                    >(final(self)@)
                    &&& transaction@ == (TransactionView {
                        before: old(self)@,
                        document: json_pretty_text(config_doc(final(self)@)),
                    })
                },
                Err(e) => {
                    &&& final(self)@ == old(self)@
                    &&& forall|id: Seq<char>|
                        sent_profile_created(old(self)@, data@, id) == Err::<
                            ConfigView,
                            ConfigError,
                        >(e)
                },
            },
            old(self)@.ids_distinct() ==> final(self)@.ids_distinct(),
            final(self).remembers_on(old(self)),
    {
        match data.text_at("name") {
            Some(name) => self.create_profile(name.clone()),
            None => Err(ConfigError::EmptyName),
        }
    }

    /// Goes on to the next profile. Returns the profile that is then active
    /// and what is to be written out.
    pub fn switch_to_next(&mut self) -> (result: Result<(Profile, Transaction), ConfigError>)
        ensures
            match old(self)@.switched() {
                Ok(after) => {
                    &&& final(self)@ == after
                    &&& result.is_ok()
                    &&& result.unwrap().0@ == after.profiles[after.active_index()]
                    &&& result.unwrap().1@ == (TransactionView {
                        before: old(self)@,
                        document: json_pretty_text(config_doc(after)),
                    })
                },
                Err(e) => final(self)@ == old(self)@ && result.is_err() && result.unwrap_err()
                    == e,
            },
            final(self).remembers_on(old(self)),
    {
        let transaction = match self.begin(ConfigMutation::SwitchToNext) {
            Ok(transaction) => transaction,
            Err(e) => {
                return Err(e);
            },
        };
        match self.config.get_active_profile() {
            Ok(profile) => Ok((profile, transaction)),
            Err(e) => Err(e),
        }
    }
}

} // verus!
