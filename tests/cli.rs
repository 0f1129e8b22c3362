use dotm::cli::{InitArgs, InitCmdError, ProfileArgs, ProfileCommandError, ProfileCommands, RepoSource};
use dotm::config::Config;

#[test]
fn init_with_url_clones() {
    let args = InitArgs { repo: Some("https://example.org/dots.git".to_string()), profile: "default".to_string() };
    let step = args.run(&None, false).unwrap();
    match step.source {
        RepoSource::Clone(u) => assert_eq!(u, "https://example.org/dots.git"),
        RepoSource::Empty => panic!("expected a clone"),
    }
    assert_eq!(step.config.profile, "default");
}

#[test]
fn init_existing_profile_refused() {
    let args = InitArgs { repo: None, profile: "work".to_string() };
    assert_eq!(args.run(&None, true).err(), Some(InitCmdError::ProfileAlreadyPresent));
    assert_eq!(args.run(&Some(Config::new("work")), false).err(), Some(InitCmdError::ProfileAlreadyPresent));
}

#[test]
fn already_exists_hint_text() {
    let args = InitArgs { repo: None, profile: "work".to_string() };
    let hint = args.already_exists_hint();
    assert_eq!(hint.title, "Profile \"work\" already exists");
    assert_eq!(hint.items.len(), 2);
    assert!(hint.items[0].contains("dotm init (URL) --profile <PROFILE>"));
    assert!(hint.items[1].contains("dotm profile remove work"));
    assert!(hint.items[1].starts_with("Use \""));
}

#[test]
fn profile_info() {
    let args = ProfileArgs { command: ProfileCommands::Info };
    assert_eq!(args.run(&None).err(), Some(ProfileCommandError::NotInitialized));
    assert_eq!(args.run(&Some(Config::new("work"))).unwrap(), "work");
}

#[test]
fn hint_commands_are_coloured() {
    colored::control::set_override(true);
    let args = InitArgs { repo: None, profile: "work".to_string() };
    let hint = args.already_exists_hint();
    assert_ne!(hint.items[0], "Use \"dotm init (URL) --profile <PROFILE>\" to create a new profile");
    assert!(hint.items[0].contains("\x1b["));
    assert!(hint.items[0].contains("dotm init (URL) --profile <PROFILE>"));
    assert!(hint.items[0].ends_with("\" to create a new profile"));
}
