use blured::config::{config_name_for_file, Config};
use blured::params::Monitor;

#[test]
fn toml_files_name_configs() {
    assert_eq!(config_name_for_file("slideshow.toml"), Some("slideshow".to_string()));
    assert_eq!(config_name_for_file("Custom_Effect.TOML"), Some("custom_effect".to_string()));
    assert_eq!(config_name_for_file("a.b.toml"), Some("a.b".to_string()));
    assert_eq!(config_name_for_file("ÄBC.toml"), Some("äbc".to_string()));
}

#[test]
fn other_files_are_skipped() {
    assert_eq!(config_name_for_file("defaults"), None);
    assert_eq!(config_name_for_file(".toml"), None);
    assert_eq!(config_name_for_file("notes.txt"), None);
    assert_eq!(config_name_for_file("config.toml.bak"), None);
    assert_eq!(config_name_for_file(""), None);
    assert_eq!(config_name_for_file("x.tomlx"), None);
}

#[test]
fn fresh_config_store() {
    let c: Config<u32> = Config::new();
    assert_eq!(c.active_config_name(), "builtin");
    assert_eq!(c.get_monitor(), &Monitor::Auto);
    assert_eq!(c.get_active_config(), None);
    assert_eq!(c.get_config(&"builtin".to_string()), None);
}

#[test]
fn insert_and_read_back() {
    let mut c: Config<u32> = Config::new();
    assert_eq!(c.insert("a".to_string(), 1), None);
    assert_eq!(c.insert("b".to_string(), 2), None);
    assert_eq!(c.insert("a".to_string(), 3), Some(1));
    assert_eq!(c.get_config(&"a".to_string()), Some(&3));
    assert_eq!(c.get_config(&"b".to_string()), Some(&2));
    assert_eq!(c.get_config(&"c".to_string()), None);
}

#[test]
fn first_loaded_config_becomes_active() {
    let mut c: Config<u32> = Config::new();
    c.load_config("night".to_string(), 7);
    c.load_config("day".to_string(), 8);
    assert_eq!(c.active_config_name(), "night");
    assert_eq!(c.get_active_config(), Some(&7));
}

#[test]
fn builtin_replaces_user_builtin_and_arg_wins() {
    let mut c: Config<u32> = Config::new();
    c.load_config("builtin".to_string(), 5);
    assert_eq!(c.active_config_name(), "builtin");
    let replaced = c.install_builtin(0, None);
    assert!(replaced);
    assert_eq!(c.get_active_config(), Some(&0));

    let mut d: Config<u32> = Config::new();
    d.load_config("day".to_string(), 8);
    assert!(!d.install_builtin(0, Some("builtin".to_string())));
    assert_eq!(d.get_active_config(), Some(&0));
}

#[test]
fn no_config_means_builtin() {
    let mut c: Config<u32> = Config::new();
    assert!(!c.install_builtin(42, None));
    assert_eq!(c.get_active_config(), Some(&42));
}

#[test]
fn unknown_active_config_falls_back() {
    let mut c: Config<u32> = Config::new();
    c.install_builtin(42, None);
    c.set_active_config("missing".to_string());
    assert_eq!(c.active_config_name(), "missing");
    assert_eq!(c.get_active_config(), None);
}

#[test]
fn monitor_is_stored() {
    let mut c: Config<u32> = Config::new();
    c.set_monitor(Monitor::Named("DP-1".to_string()));
    assert_eq!(c.get_monitor(), &Monitor::Named("DP-1".to_string()));
}

#[test]
fn invalid_config_is_not_adopted() {
    let mut c: Config<u32> = Config::new();
    assert!(!c.adopt_config("broken".to_string(), 1, false));
    assert_eq!(c.get_config(&"broken".to_string()), None);
    assert_eq!(c.active_config_name(), "builtin");
    c.install_builtin(0, None);
    assert_eq!(c.get_active_config(), Some(&0));
    assert!(c.adopt_config("good".to_string(), 2, true));
    assert_eq!(c.get_config(&"good".to_string()), Some(&2));
    assert_eq!(c.active_config_name(), "good");
}

#[test]
fn valid_config_first_becomes_active() {
    let mut c: Config<u32> = Config::new();
    assert!(c.adopt_config("night".to_string(), 7, true));
    assert_eq!(c.active_config_name(), "night");
}
