use dotm::config::{Config, ConfigError};

fn names(v: &[&str]) -> Vec<String> {
    v.iter().map(|s| s.to_string()).collect()
}

#[test]
fn parts_round_trip() {
    let c = Config::from_parts("work".to_string(), names(&["home", "work"])).unwrap();
    assert_eq!(c.profile, "work");
    assert_eq!(c.profiles, names(&["home", "work"]));
    let again = Config::from_parts(c.profile.clone(), c.profiles.clone()).unwrap();
    assert_eq!(again.profile, c.profile);
    assert_eq!(again.profiles, c.profiles);
}

#[test]
fn duplicate_names_refused() {
    let r = Config::from_parts("a".to_string(), names(&["a", "b", "a"]));
    assert_eq!(r.err(), Some(ConfigError::DuplicateProfile));
}

#[test]
fn unlisted_active_refused() {
    let r = Config::from_parts("c".to_string(), names(&["a", "b"]));
    assert_eq!(r.err(), Some(ConfigError::UnknownActiveProfile));
}

#[test]
fn empty_config_accepted() {
    let c = Config::from_parts(String::new(), Vec::new()).unwrap();
    assert!(c.profiles.is_empty());
    let r = Config::from_parts("x".to_string(), Vec::new());
    assert_eq!(r.err(), Some(ConfigError::UnknownActiveProfile));
}

#[test]
fn create_if_needed_keeps_existing() {
    let mine = Config::new("default");
    let theirs = Config::new("work");
    let (kept, fresh) = mine.create_if_needed(Some(theirs));
    assert_eq!(kept.profile, "work");
    assert!(!fresh);
    let (made, fresh) = mine.create_if_needed(None);
    assert_eq!(made.profile, "default");
    assert_eq!(made.profiles, names(&["default"]));
    assert!(fresh);
}
