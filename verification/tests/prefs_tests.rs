use modpack_sync::prefs::{get_starbound_dir, set_starbound_dir, Settings, STARBOUND_DIR};

fn pair(name: &str, value: &str) -> (String, String) {
    (name.to_string(), value.to_string())
}

#[test]
fn unset_directory_is_not_configured() {
    assert_eq!(STARBOUND_DIR, "starbound_dir");
    assert_eq!(get_starbound_dir(&Settings::new()), Err("Not Configured".to_string()));
    let others = Settings::from_pairs(vec![pair("theme", "dark")]);
    assert_eq!(get_starbound_dir(&others), Err("Not Configured".to_string()));
}

#[test]
fn set_directory_is_read_back() {
    let mut settings = Settings::new();
    set_starbound_dir(&mut settings, "/games/starbound".to_string());
    assert_eq!(get_starbound_dir(&settings), Ok("/games/starbound".to_string()));
    set_starbound_dir(&mut settings, "/other".to_string());
    assert_eq!(get_starbound_dir(&settings), Ok("/other".to_string()));
    assert_eq!(settings.pairs(), vec![pair("starbound_dir", "/other")]);
}

#[test]
fn setting_the_directory_keeps_other_settings() {
    let mut settings = Settings::from_pairs(vec![pair("a", "1"), pair("starbound_dir", "x"), pair("b", "2")]);
    set_starbound_dir(&mut settings, "y".to_string());
    assert_eq!(settings.get("a"), Some("1".to_string()));
    assert_eq!(settings.get("b"), Some("2".to_string()));
    assert_eq!(settings.get("starbound_dir"), Some("y".to_string()));
    assert_eq!(settings.get("c"), None);
    let mut pairs = settings.pairs();
    pairs.sort();
    assert_eq!(pairs, vec![pair("a", "1"), pair("b", "2"), pair("starbound_dir", "y")]);
}

#[test]
fn later_pair_counts_where_a_name_comes_twice() {
    let settings = Settings::from_pairs(vec![pair("k", "first"), pair("k", "second")]);
    assert_eq!(settings.get("k"), Some("second".to_string()));
    assert_eq!(settings.pairs(), vec![pair("k", "second")]);
}

#[test]
fn insert_adds_and_replaces() {
    let mut settings = Settings::new();
    settings.insert("k".to_string(), "v".to_string());
    settings.insert("l".to_string(), "w".to_string());
    settings.insert("k".to_string(), "u".to_string());
    assert_eq!(settings.get("k"), Some("u".to_string()));
    assert_eq!(settings.get("l"), Some("w".to_string()));
    assert_eq!(settings.pairs().len(), 2);
}
