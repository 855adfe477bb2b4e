use chicken_door::config::ConfigStore;
use chicken_door::door::{get_settings, write_settings, SettingsIOError};
use chicken_door::sensor::LightLevel;
use chicken_door::settings::{LightLevels, Settings, Times};
use chicken_door::time::TimeOfDay;
use chrono::Timelike;

fn custom_settings() -> Settings {
    Settings {
        light_levels: LightLevels {
            close: LightLevel::from_percent(10),
            open: LightLevel::from_percent(60),
        },
        times: Times {
            open: TimeOfDay::from_hms_opt(7, 30, 0).unwrap(),
            close: TimeOfDay::from_hms_opt(20, 15, 30).unwrap(),
        },
    }
}

fn malformed() -> SettingsIOError {
    let error = "times = [".parse::<toml::Table>().unwrap_err();
    SettingsIOError::from(error)
}

fn unreadable() -> SettingsIOError {
    SettingsIOError::from(std::io::Error::new(std::io::ErrorKind::PermissionDenied, "denied"))
}

fn unwritable() -> SettingsIOError {
    SettingsIOError::from(toml::to_string(&7u8).unwrap_err())
}

#[test]
fn default_settings() {
    let settings = Settings::default();
    assert_eq!(settings.times.open, TimeOfDay { secs: 6 * 3600, frac: 0 });
    assert_eq!(settings.times.close, TimeOfDay { secs: 18 * 3600, frac: 0 });
    assert_eq!(settings.light_levels.open, LightLevel { units: 100 * 1024 });
    assert_eq!(settings.light_levels.close, LightLevel { units: 0 });
    assert_eq!(settings.light_levels, LightLevels::default());
    assert_eq!(settings.times, Times::default());
}

#[test]
fn missing_settings_file_gives_the_defaults() {
    let store = ConfigStore::load_or_default(None).unwrap();
    assert_eq!(get_settings(&store), Settings::default());
    assert_eq!(store.get(), Settings::default());
}

#[test]
fn settings_file_is_loaded() {
    let store = ConfigStore::load_or_default(Some(Ok(custom_settings()))).unwrap();
    assert_eq!(get_settings(&store), custom_settings());
}

#[test]
fn settings_file_that_cannot_be_read_gives_no_store() {
    let loaded = ConfigStore::load_or_default(Some(Err(unreadable())));
    assert!(matches!(loaded, Err(SettingsIOError::FileAccess(_))));
    let loaded = ConfigStore::load_or_default(Some(Err(malformed())));
    assert!(matches!(loaded, Err(SettingsIOError::Deserialize(_))));
}

#[test]
fn malformed_settings_file_keeps_the_last_good_settings() {
    let mut store = ConfigStore::new(custom_settings());
    let refused = store.reload(Err(malformed()));
    assert!(matches!(refused, Some(SettingsIOError::Deserialize(_))));
    assert_eq!(get_settings(&store), custom_settings());
    assert_ne!(get_settings(&store), Settings::default());

    let refused = store.reload(Err(unreadable()));
    assert!(matches!(refused, Some(SettingsIOError::FileAccess(_))));
    assert_eq!(get_settings(&store), custom_settings());
}

#[test]
fn changed_settings_file_replaces_the_settings() {
    let mut store = ConfigStore::load_or_default(None).unwrap();
    assert!(store.reload(Ok(custom_settings())).is_none());
    assert_eq!(get_settings(&store), custom_settings());
    assert!(store.reload(Ok(Settings::default())).is_none());
    assert_eq!(get_settings(&store), Settings::default());
}

#[test]
fn replace_puts_the_whole_set_in_force() {
    let mut store = ConfigStore::new(Settings::default());
    store.replace(custom_settings());
    assert_eq!(store.get(), custom_settings());
}

#[test]
fn get_hands_out_a_copy() {
    let mut store = ConfigStore::new(custom_settings());
    let mut snapshot = store.get();
    snapshot.light_levels.close = LightLevel::from_percent(99);
    assert_eq!(store.get(), custom_settings());
    store.replace(Settings::default());
    assert_eq!(snapshot.times, custom_settings().times);
}

#[test]
fn written_settings_come_into_force() {
    let mut store = ConfigStore::new(Settings::default());
    let written = write_settings(&mut store, custom_settings(), Ok(()));
    assert!(written.is_ok());
    assert_eq!(get_settings(&store), custom_settings());
}

#[test]
fn failed_write_is_surfaced_and_changes_nothing() {
    let mut store = ConfigStore::new(Settings::default());
    let written = write_settings(&mut store, custom_settings(), Err(unreadable()));
    assert!(matches!(written, Err(SettingsIOError::FileAccess(_))));
    assert_eq!(get_settings(&store), Settings::default());

    let written = write_settings(&mut store, custom_settings(), Err(unwritable()));
    assert!(matches!(written, Err(SettingsIOError::Serialize(_))));
    assert_eq!(get_settings(&store), Settings::default());
}

#[test]
fn settings_errors_in_words() {
    assert_eq!(unreadable().message(), "could not access settings.toml");
    assert_eq!(unwritable().message(), "could not serialize settings");
    assert_eq!(malformed().message(), "could deserialize settings.toml");
}

#[test]
fn settings_errors_keep_what_they_wrap() {
    match unreadable() {
        SettingsIOError::FileAccess(error) => {
            assert_eq!(error.kind(), std::io::ErrorKind::PermissionDenied)
        }
        other => panic!("unexpected error: {:?}", other),
    }
    let source = "times = [".parse::<toml::Table>().unwrap_err();
    match malformed() {
        SettingsIOError::Deserialize(error) => assert_eq!(error, source),
        other => panic!("unexpected error: {:?}", other),
    }
    let source = toml::to_string(&7u8).unwrap_err();
    match unwritable() {
        SettingsIOError::Serialize(error) => assert_eq!(error, source),
        other => panic!("unexpected error: {:?}", other),
    }
}

fn file_form(settings: &Settings) -> toml::Table {
    let mut light_levels = toml::Table::new();
    let close = settings.light_levels.close.units as f64 / 1024.0;
    let open = settings.light_levels.open.units as f64 / 1024.0;
    light_levels.insert("close".to_string(), toml::Value::Float(close));
    light_levels.insert("open".to_string(), toml::Value::Float(open));
    let mut times = toml::Table::new();
    for (key, time) in [("open", settings.times.open), ("close", settings.times.close)] {
        let time = chrono::NaiveTime::from_num_seconds_from_midnight_opt(time.secs, time.frac);
        times.insert(key.to_string(), toml::Value::String(time.unwrap().to_string()));
    }
    let mut file = toml::Table::new();
    file.insert("light_levels".to_string(), toml::Value::Table(light_levels));
    file.insert("times".to_string(), toml::Value::Table(times));
    file
}

fn from_file_form(file: &toml::Table) -> Settings {
    let level = |key: &str| {
        let percent = file["light_levels"][key].as_float().unwrap();
        LightLevel { units: (percent * 1024.0) as i64 }
    };
    let time = |key: &str| {
        let text = file["times"][key].as_str().unwrap();
        let time = text.parse::<chrono::NaiveTime>().unwrap();
        TimeOfDay { secs: time.num_seconds_from_midnight(), frac: time.nanosecond() }
    };
    Settings {
        light_levels: LightLevels { close: level("close"), open: level("open") },
        times: Times { open: time("open"), close: time("close") },
    }
}

#[test]
fn settings_survive_the_settings_file() {
    let odd = Settings {
        light_levels: LightLevels {
            close: LightLevel::from_sample(4095),
            open: LightLevel { units: 33 * 1024 + 307 },
        },
        times: Times {
            open: TimeOfDay { secs: 1, frac: 1 },
            close: TimeOfDay { secs: 86_399, frac: 1_999_999_999 },
        },
    };
    for settings in [Settings::default(), custom_settings(), odd] {
        let text = toml::to_string_pretty(&file_form(&settings)).unwrap();
        let read = text.parse::<toml::Table>().unwrap();
        assert_eq!(from_file_form(&read), settings);
    }
}

#[test]
fn default_settings_file_text() {
    let text = toml::to_string_pretty(&file_form(&Settings::default())).unwrap();
    let read = text.parse::<toml::Table>().unwrap();
    assert_eq!(read["light_levels"]["open"].as_float(), Some(100.0));
    assert_eq!(read["light_levels"]["close"].as_float(), Some(0.0));
    assert_eq!(read["times"]["open"].as_str(), Some("06:00:00"));
    assert_eq!(read["times"]["close"].as_str(), Some("18:00:00"));
}
