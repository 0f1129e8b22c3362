use dotm::config::Config;
use dotm::engine::LinkState;
use dotm::profile::{create_profile, list, purge_action, remove_profile, select, ProfileError, PurgeAction};

#[test]
fn create_first_profile() {
    let c = create_profile(&None, "work", false).unwrap();
    assert_eq!(c.profile, "work");
    assert_eq!(c.profiles, vec!["work".to_string()]);
}

#[test]
fn create_appends_and_keeps_active() {
    let current = Some(Config::new("home"));
    let c = create_profile(&current, "work", false).unwrap();
    assert_eq!(c.profile, "home");
    assert_eq!(list(&c), vec!["home".to_string(), "work".to_string()]);
}

#[test]
fn create_existing_directory_refused() {
    let current = Some(Config::new("home"));
    let r = create_profile(&current, "work", true);
    assert_eq!(r.err(), Some(ProfileError::ProfileAlreadyExists));
    let c = current.unwrap();
    assert_eq!(c.profile, "home");
    assert_eq!(c.profiles, vec!["home".to_string()]);
}

#[test]
fn create_known_name_refused() {
    let current = Some(Config::new("home"));
    let r = create_profile(&current, "home", false);
    assert_eq!(r.err(), Some(ProfileError::ProfileAlreadyExists));
}

#[test]
fn select_known_and_unknown() {
    let mut c = create_profile(&Some(Config::new("home")), "work", false).unwrap();
    assert_eq!(select(&mut c, "work"), Ok(()));
    assert_eq!(c.profile, "work");
    assert_eq!(select(&mut c, "nope"), Err(ProfileError::UnknownProfile));
    assert_eq!(c.profile, "work");
}

#[test]
fn remove_active_moves_to_first() {
    let mut c = create_profile(&Some(Config::new("home")), "work", false).unwrap();
    assert_eq!(remove_profile(&mut c, "home"), Ok(()));
    assert_eq!(c.profile, "work");
    assert_eq!(c.profiles, vec!["work".to_string()]);
    assert_eq!(remove_profile(&mut c, "home"), Err(ProfileError::UnknownProfile));
    assert_eq!(remove_profile(&mut c, "work"), Ok(()));
    assert_eq!(c.profile, "");
    assert!(c.profiles.is_empty());
}

#[test]
fn purge_restores_only_clean() {
    assert_eq!(purge_action(LinkState::Clean), PurgeAction::Restore);
    assert_eq!(purge_action(LinkState::Conflicted), PurgeAction::Warn);
    assert_eq!(purge_action(LinkState::Dangling), PurgeAction::Warn);
    assert_eq!(purge_action(LinkState::Detached), PurgeAction::Warn);
}
