//! The settings that outlive a restart.

use crate::schedule::StealthSchedule;
use vstd::prelude::*;
use vstd::string::*;

verus! {

/// Switches that can be flipped while the service runs.
#[derive(Debug, Clone, Copy, PartialEq, Eq, Structural)]
pub struct Settings {
    pub monitoring_enabled: bool,
    pub auto_pause: bool,
}

/// All that the settings file holds.
#[derive(Debug, PartialEq)]
pub struct SettingsFile {
    pub settings: Settings,
    pub stealth_schedule: StealthSchedule,
}

/// What became of the attempt to read the settings file.
#[derive(Debug)]
pub enum SettingsRead {
    /// There is no file, or it cannot be read.
    Missing,
    /// There is a file, but no settings can be made of it.
    Invalid,
    /// The file holds these settings.
    Parsed(SettingsFile),
}

/// The settings to start with.
#[derive(Debug)]
pub struct LoadedSettings {
    pub file: SettingsFile,
    /// Whether the file is to be written with them.
    pub write_back: bool,
}

impl Settings {
    /// Everything on.
    pub open spec fn initial() -> Settings {
        Settings { monitoring_enabled: true, auto_pause: true }
    }

    /// Where the settings file is, relative to the working directory.
    pub fn path() -> (r: &'static str)
        ensures
            r@ == "settings.toml"@,
    {
        "settings.toml"
    }

    /// The settings to start with, given what was read: those of the file or, where there are
    /// none, the defaults. A missing file is then created; one that makes no sense is left as
    /// it is.
    pub fn load(read: SettingsRead) -> (r: LoadedSettings)
        ensures
            read matches SettingsRead::Parsed(file) ==> r.file == file,
            read !is Parsed ==> r.file.is_default(),
            r.write_back == (read is Missing),
    {
        match read {
            SettingsRead::Parsed(file) => LoadedSettings { file, write_back: false },
            SettingsRead::Invalid => LoadedSettings {
                file: SettingsFile::default(),
                write_back: false,
            },
            SettingsRead::Missing => LoadedSettings {
                file: SettingsFile::default(),
                write_back: true,
            },
        }
    }

    /// What the settings file is to hold for these switches and this schedule.
    pub fn save(&self, schedule: &StealthSchedule) -> (r: SettingsFile)
        ensures
            r.settings == *self,
            r.stealth_schedule == *schedule,
    {
        SettingsFile { settings: *self, stealth_schedule: schedule.clone() }
    }
}

impl Default for Settings {
    fn default() -> (r: Settings)
        ensures
            r == Settings::initial(),
    {
        Settings { monitoring_enabled: true, auto_pause: true }
    }
}

impl SettingsFile {
    /// Whether this is what a fresh installation starts with.
    pub open spec fn is_default(self) -> bool {
        &&& self.settings == Settings::initial()
        &&& !self.stealth_schedule.enabled
        &&& self.stealth_schedule.off_at@ == "08:00"@
        &&& self.stealth_schedule.on_at@ == "20:00"@
    }
}

impl Default for SettingsFile {
    fn default() -> (r: SettingsFile)
        ensures
            r.is_default(),
    {
        SettingsFile {
            settings: Settings::default(),
            stealth_schedule: StealthSchedule::default(),
        }
    }
}

/// A fresh installation has everything switched on but the schedule, which would go off at eight in
/// the morning and on at eight in the evening.
pub proof fn law_fresh_settings(file: SettingsFile)
    requires
        file.is_default(),
    ensures
        file.settings.monitoring_enabled,
        file.settings.auto_pause,
        !file.stealth_schedule.enabled,
        file.stealth_schedule.off_at@ == "08:00"@,
        file.stealth_schedule.on_at@ == "20:00"@,
{
}

} // verus!
