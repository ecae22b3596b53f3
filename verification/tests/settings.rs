use printer_monitor::schedule::StealthSchedule;
use printer_monitor::settings::{Settings, SettingsFile, SettingsRead};

#[test]
fn default_values() {
    let s = Settings::default();
    assert!(s.monitoring_enabled);
    assert!(s.auto_pause);
}

/// The settings file as TOML.
fn to_toml(file: &SettingsFile) -> String {
    let mut schedule = toml::Table::new();
    schedule.insert("enabled".to_string(), toml::Value::Boolean(file.stealth_schedule.enabled));
    schedule.insert(
        "off_at".to_string(),
        toml::Value::String(file.stealth_schedule.off_at.clone()),
    );
    schedule.insert(
        "on_at".to_string(),
        toml::Value::String(file.stealth_schedule.on_at.clone()),
    );
    let mut table = toml::Table::new();
    table.insert(
        "monitoring_enabled".to_string(),
        toml::Value::Boolean(file.settings.monitoring_enabled),
    );
    table.insert("auto_pause".to_string(), toml::Value::Boolean(file.settings.auto_pause));
    table.insert("stealth_schedule".to_string(), toml::Value::Table(schedule));
    toml::to_string_pretty(&table).unwrap()
}

fn fields(table: &toml::Table) -> Option<SettingsFile> {
    let schedule = table.get("stealth_schedule")?;
    Some(SettingsFile {
        settings: Settings {
            monitoring_enabled: table.get("monitoring_enabled")?.as_bool()?,
            auto_pause: table.get("auto_pause")?.as_bool()?,
        },
        stealth_schedule: StealthSchedule {
            enabled: schedule.get("enabled")?.as_bool()?,
            off_at: schedule.get("off_at")?.as_str()?.to_string(),
            on_at: schedule.get("on_at")?.as_str()?.to_string(),
        },
    })
}

/// What is read of a file with these contents.
fn read(contents: &str) -> SettingsRead {
    match contents.parse::<toml::Table>().ok().as_ref().and_then(fields) {
        Some(file) => SettingsRead::Parsed(file),
        None => SettingsRead::Invalid,
    }
}

#[test]
fn roundtrip() {
    let s = Settings { monitoring_enabled: false, auto_pause: true };
    let toml = to_toml(&s.save(&StealthSchedule::default()));
    let loaded = Settings::load(read(&toml));
    assert_eq!(s, loaded.file.settings);
}

#[test]
fn load_missing_file_returns_default() {
    let loaded = Settings::load(SettingsRead::Missing);
    assert_eq!(loaded.file.settings, Settings::default());
    assert_eq!(loaded.file, SettingsFile::default());
    assert!(loaded.write_back);
}

#[test]
fn load_invalid_toml_returns_default() {
    let loaded = Settings::load(read("not valid { toml"));
    assert_eq!(loaded.file.settings, Settings::default());
    assert_eq!(loaded.file, SettingsFile::default());
    assert!(!loaded.write_back);
}

#[test]
fn save_and_load() {
    let s = Settings { monitoring_enabled: false, auto_pause: false };
    let schedule = StealthSchedule {
        enabled: true,
        off_at: "07:30".to_string(),
        on_at: "21:00".to_string(),
    };
    let loaded = Settings::load(read(&to_toml(&s.save(&schedule))));
    assert_eq!(s, loaded.file.settings);
    assert_eq!(schedule, loaded.file.stealth_schedule);
    assert!(!loaded.write_back);
}

#[test]
fn settings_live_in_the_working_directory() {
    assert_eq!(Settings::path(), "settings.toml");
}
