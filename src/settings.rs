//! The singleton settings row and its repository.
use vstd::prelude::*;

use crate::db::Database;

verus! {

/// The user's settings: one row, keyed by id 0.
#[derive(Debug, Clone)]
pub struct UserSettings {
    pub id: u8,
    pub theme: String,
    pub show_app_in_system_tray: bool,
    pub notify_on_timer_complete: bool,
    pub created_at: String,
    pub modified_at: String,
}

/// The settings a caller submits; each field replaces the stored one.
#[derive(Debug, Clone)]
pub struct UserSettingsInput {
    pub theme: String,
    pub show_app_in_system_tray: bool,
    pub notify_on_timer_complete: bool,
}

/// Why the settings cannot be read.
#[derive(Debug, Clone, Copy, PartialEq, Eq, Structural)]
pub enum SettingsError {
    /// The singleton row is absent: the schema has not been migrated.
    Missing,
}

/// The text of an optional string field, empty when it was omitted.
pub open spec fn text_or_empty(v: Option<String>) -> Seq<char> {
    match v {
        Some(t) => t@,
        None => Seq::empty(),
    }
}

/// `input` is what a submission with these possibly omitted fields amounts to:
/// each omitted field takes its type's zero value, not the stored one.
pub open spec fn resolves_to(
    theme: Option<String>,
    show_app_in_system_tray: Option<bool>,
    notify_on_timer_complete: Option<bool>,
    input: UserSettingsInput,
) -> bool {
    &&& input.theme@ == text_or_empty(theme)
    &&& input.show_app_in_system_tray == show_app_in_system_tray.unwrap_or(false)
    &&& input.notify_on_timer_complete == notify_on_timer_complete.unwrap_or(false)
}

/// `after` is `before` with the settings row overwritten by `input` at time `now`,
/// or unchanged, with `applied` false, when there is no row.
pub open spec fn settings_updated(
    before: Database,
    after: Database,
    input: UserSettingsInput,
    now: String,
    applied: bool,
) -> bool {
    &&& applied == before.settings is Some
    &&& after.ledger@ == before.ledger@
    &&& after.workspaces@ == before.workspaces@
    &&& after.chronographs@ == before.chronographs@
    &&& match before.settings {
        None => after.settings is None,
        Some(s) => after.settings matches Some(t) && t.id == s.id && t.theme == input.theme
            && t.show_app_in_system_tray == input.show_app_in_system_tray
            && t.notify_on_timer_complete == input.notify_on_timer_complete && t.created_at
            == s.created_at && t.modified_at == now,
    }
}

impl UserSettingsInput {
    /// Builds a submission from fields a caller may have omitted; an omitted
    /// field becomes its type's zero value (empty text, false).
    pub fn from_optional_fields(
        theme: Option<String>,
        show_app_in_system_tray: Option<bool>,
        notify_on_timer_complete: Option<bool>,
    ) -> (r: UserSettingsInput)
        ensures
            resolves_to(theme, show_app_in_system_tray, notify_on_timer_complete, r),
    {
        UserSettingsInput {
            theme: match theme {
                Some(t) => t,
                None => String::new(),
            },
            show_app_in_system_tray: match show_app_in_system_tray {
                Some(b) => b,
                None => false,
            },
            notify_on_timer_complete: match notify_on_timer_complete {
                Some(b) => b,
                None => false,
            },
        }
    }
}

impl UserSettings {
    /// An identical copy of the row.
    pub fn duplicate(&self) -> (r: UserSettings)
        ensures
            r == *self,
    {
        UserSettings {
            id: self.id,
            theme: self.theme.clone(),
            show_app_in_system_tray: self.show_app_in_system_tray,
            notify_on_timer_complete: self.notify_on_timer_complete,
            created_at: self.created_at.clone(),
            modified_at: self.modified_at.clone(),
        }
    }
}

/// The singleton settings row; an error when the schema has not seeded it.
pub fn fetch_user_settings(db: &Database) -> (r: Result<UserSettings, SettingsError>)
    ensures
        match db.settings {
            Some(s) => r == Ok::<UserSettings, SettingsError>(s),
            None => r == Err::<UserSettings, SettingsError>(SettingsError::Missing),
        },
{
    match &db.settings {
        Some(s) => Ok(s.duplicate()),
        None => Err(SettingsError::Missing),
    }
}

/// Overwrites every field of the settings row with `settings`; false, with
/// nothing changed, when the row is absent.
pub fn update_user_settings(db: &mut Database, settings: UserSettingsInput, now: String) -> (r:
    bool)
    requires
        old(db).wf(),
    ensures
        final(db).wf(),
        settings_updated(*old(db), *final(db), settings, now, r),
{
    match &db.settings {
        None => false,
        Some(s) => {
            let t = UserSettings {
                id: s.id,
                theme: settings.theme,
                show_app_in_system_tray: settings.show_app_in_system_tray,
                notify_on_timer_complete: settings.notify_on_timer_complete,
                created_at: s.created_at.clone(),
                modified_at: now,
            };
            db.settings = Some(t);
            true
        },
    }
}

/// Submitting settings without a theme resets the stored theme to empty text,
/// whatever it was: omitted fields overwrite, they do not merge.
pub proof fn lemma_omitted_theme_resets(
    show_app_in_system_tray: Option<bool>,
    notify_on_timer_complete: Option<bool>,
    input: UserSettingsInput,
    before: Database,
    after: Database,
    now: String,
    applied: bool,
)
    requires
        before.settings is Some,
        resolves_to(None, show_app_in_system_tray, notify_on_timer_complete, input),
        settings_updated(before, after, input, now, applied),
    ensures
        applied,
        after.settings matches Some(t) && t.theme@.len() == 0,
{
}

} // verus!
