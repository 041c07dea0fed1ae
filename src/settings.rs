//! User settings, and the rule that a silent start needs the tray: without it
//! the application could not be reached.
use vstd::prelude::*;

verus! {

/// The user's preferences.
#[derive(PartialEq, Eq, Structural, Clone, Copy, Debug)]
pub struct AppSettings {
    pub system_tray_enabled: bool,
    /// Start hidden, in the tray.
    pub silent_start_enabled: bool,
    /// Write debug-level logs.
    pub debug_mode: bool,
    /// Obscure email addresses and user names where they are shown.
    pub private_mode: bool,
}

/// Privacy is on unless the user turns it off.
pub fn default_private_mode() -> (r: bool)
    ensures
        r,
{
    true
}

pub open spec fn default_settings() -> AppSettings {
    AppSettings {
        system_tray_enabled: false,
        silent_start_enabled: false,
        debug_mode: false,
        private_mode: true,
    }
}

impl Default for AppSettings {
    fn default() -> (r: AppSettings)
        ensures
            r == default_settings(),
    {
        AppSettings {
            system_tray_enabled: false,
            silent_start_enabled: false,
            debug_mode: false,
            private_mode: default_private_mode(),
        }
    }
}

/// The settings with a silent start that has no tray turned off.
pub open spec fn validated(s: AppSettings) -> AppSettings {
    if s.silent_start_enabled && !s.system_tray_enabled {
        AppSettings { silent_start_enabled: false, ..s }
    } else {
        s
    }
}

impl AppSettings {
    /// Corrects a silent start without a tray; returns whether it did.
    pub fn validate(&mut self) -> (changed: bool)
        ensures
            *final(self) == validated(*old(self)),
            changed == (old(self).silent_start_enabled && !old(self).system_tray_enabled),
    {
        if self.silent_start_enabled && !self.system_tray_enabled {
            self.silent_start_enabled = false;
            return true;
        }
        false
    }
}

/// The settings that a settings file gave: the defaults where there was none
/// or it could not be read. The fields a file lacks are filled by its reader.
pub fn load_settings_from_disk(read: Option<AppSettings>) -> (r: AppSettings)
    ensures
        r == match read {
            Some(s) => s,
            None => default_settings(),
        },
{
    match read {
        Some(s) => s,
        None => AppSettings::default(),
    }
}

/// One change that the user can make.
#[derive(PartialEq, Eq, Structural, Clone, Copy, Debug)]
pub enum SettingsChange {
    SystemTray(bool),
    SilentStart(bool),
    DebugMode(bool),
    PrivateMode(bool),
}

pub open spec fn changed_settings(s: AppSettings, c: SettingsChange) -> AppSettings {
    match c {
        SettingsChange::SystemTray(b) => AppSettings { system_tray_enabled: b, ..s },
        SettingsChange::SilentStart(b) => AppSettings { silent_start_enabled: b, ..s },
        SettingsChange::DebugMode(b) => AppSettings { debug_mode: b, ..s },
        SettingsChange::PrivateMode(b) => AppSettings { private_mode: b, ..s },
    }
}

/// The settings a manager holds after loading what a file gave.
pub open spec fn loaded_settings(read: Option<AppSettings>) -> AppSettings {
    validated(
        match read {
            Some(s) => s,
            None => default_settings(),
        },
    )
}

/// Holds the current settings, always valid, and the file they are kept in.
pub struct AppSettingsManager {
    settings: AppSettings,
    config_path: String,
}

impl AppSettingsManager {
    pub closed spec fn settings_spec(&self) -> AppSettings {
        self.settings
    }

    pub closed spec fn path_spec(&self) -> Seq<char> {
        self.config_path@
    }

    /// A manager for the settings file at `config_path`, from what reading it
    /// gave, corrected where needed.
    pub fn new(config_path: String, read: Option<AppSettings>) -> (r: AppSettingsManager)
        ensures
            r.settings_spec() == loaded_settings(read),
            r.path_spec() == config_path@,
    {
        let mut settings = load_settings_from_disk(read);
        settings.validate();
        AppSettingsManager { settings, config_path }
    }

    /// A copy of the current settings.
    pub fn get_settings(&self) -> (r: AppSettings)
        ensures
            r == self.settings_spec(),
    {
        self.settings
    }

    /// Where the settings are kept.
    pub fn config_path(&self) -> (r: &String)
        ensures
            r@ == self.path_spec(),
    {
        &self.config_path
    }

    /// Applies one change and corrects the result where needed; returns whether
    /// it was corrected. The settings then held are those to write.
    pub fn update_settings(&mut self, change: SettingsChange) -> (corrected: bool)
        ensures
            final(self).settings_spec() == validated(changed_settings(old(self).settings_spec(), change)),
            corrected == (validated(changed_settings(old(self).settings_spec(), change))
                != changed_settings(old(self).settings_spec(), change)),
            final(self).path_spec() == old(self).path_spec(),
    {
        match change {
            SettingsChange::SystemTray(b) => self.settings.system_tray_enabled = b,
            SettingsChange::SilentStart(b) => self.settings.silent_start_enabled = b,
            SettingsChange::DebugMode(b) => self.settings.debug_mode = b,
            SettingsChange::PrivateMode(b) => self.settings.private_mode = b,
        }
        self.settings.validate()
    }
}

/// Settings written to the file and loaded back are those written, except that
/// a silent start without a tray comes back turned off; what a manager writes
/// (always corrected) comes back unchanged.
pub proof fn lemma_settings_round_trip(s: AppSettings)
    ensures
        !(s.silent_start_enabled && !s.system_tray_enabled) ==> loaded_settings(Some(s)) == s,
        s.silent_start_enabled && !s.system_tray_enabled ==> loaded_settings(Some(s)) == (
        AppSettings { silent_start_enabled: false, ..s }),
        loaded_settings(Some(validated(s))) == validated(s),
{
}

} // verus!
