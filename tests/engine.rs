use dotm::cli::{InitArgs, RepoSource};
use dotm::engine::{
    classify, is_inside, mirror_path, plan_add, plan_remove, status, Entry, LinkState, Observation,
    TrackError,
};

const HOME: &str = "/home/u";
const STORE: &str = "/home/u/.local/share/dotm/work";

#[test]
fn mirror_under_home() {
    assert_eq!(
        mirror_path(HOME, STORE, "/home/u/.config/nvim/init.lua"),
        Some("/home/u/.local/share/dotm/work/.config/nvim/init.lua".to_string())
    );
    assert_eq!(mirror_path(HOME, STORE, "/etc/hosts"), None);
    assert_eq!(mirror_path(HOME, STORE, "/home/u"), None);
    assert_eq!(mirror_path(HOME, STORE, "/home/user/.bashrc"), None);
}

#[test]
fn inside_needs_separator() {
    assert!(is_inside("/a", "/a/b"));
    assert!(!is_inside("/a", "/ab"));
    assert!(!is_inside("/a", "/a/"));
}

#[test]
fn add_errors() {
    assert_eq!(plan_add(HOME, STORE, "/home/u/.bashrc", false, false).err(), Some(TrackError::NotFound));
    assert_eq!(plan_add(HOME, STORE, "/tmp/x", true, false).err(), Some(TrackError::OutsideHome));
    assert_eq!(plan_add(HOME, STORE, "/home/u/.bashrc", true, true).err(), Some(TrackError::AlreadyTracked));
}

#[test]
fn add_twice_already_tracked() {
    let first = plan_add(HOME, STORE, "/home/u/.vimrc", true, false).unwrap();
    assert_eq!(first.to, "/home/u/.local/share/dotm/work/.vimrc");
    // After the first add the path resolves through the link and the store path exists.
    let second = plan_add(HOME, STORE, "/home/u/.vimrc", true, true);
    assert_eq!(second.err(), Some(TrackError::AlreadyTracked));
}

#[test]
fn remove_untracked_refused() {
    let e = Entry::File;
    assert_eq!(plan_remove(STORE, "/home/u/.bashrc", &e, false).err(), Some(TrackError::NotTracked));
    let foreign = Entry::Symlink("/opt/other/.bashrc".to_string());
    assert_eq!(plan_remove(STORE, "/home/u/.bashrc", &foreign, false).err(), Some(TrackError::NotTracked));
    assert_eq!(plan_remove(STORE, "/home/u/.bashrc", &Entry::Missing, true).err(), Some(TrackError::NotTracked));
}

#[test]
fn remove_keep_in_store() {
    let link = Entry::Symlink("/home/u/.local/share/dotm/work/.bashrc".to_string());
    let u = plan_remove(STORE, "/home/u/.bashrc", &link, true).unwrap();
    assert_eq!(u.link, "/home/u/.bashrc");
    assert_eq!(u.store_copy, "/home/u/.local/share/dotm/work/.bashrc");
    assert!(u.keep_in_store);
}

#[test]
fn classify_states() {
    let store_path = "/s/.bashrc".to_string();
    assert_eq!(classify(&Entry::Symlink("/s/.bashrc".to_string()), &store_path, true), LinkState::Clean);
    assert_eq!(classify(&Entry::Symlink("/s/.bashrc".to_string()), &store_path, false), LinkState::Dangling);
    assert_eq!(classify(&Entry::Symlink("/t/.bashrc".to_string()), &store_path, true), LinkState::Conflicted);
    assert_eq!(classify(&Entry::File, &store_path, true), LinkState::Conflicted);
    assert_eq!(classify(&Entry::Missing, &store_path, true), LinkState::Detached);
}

#[test]
fn init_add_status_remove_scenario() {
    let args = InitArgs { repo: None, profile: "work".to_string() };
    let step = args.run(&None, false).unwrap();
    assert!(matches!(step.source, RepoSource::Empty));
    assert_eq!(step.config.profiles, vec!["work".to_string()]);

    // An empty profile: the store walk finds nothing.
    assert!(status(HOME, STORE, &Vec::new()).is_empty());

    let mv = plan_add(HOME, STORE, "/home/u/.bashrc", true, false).unwrap();
    assert_eq!(mv.from, "/home/u/.bashrc");
    assert_eq!(mv.to, "/home/u/.local/share/dotm/work/.bashrc");

    let found = vec![Observation { relative: ".bashrc".to_string(), home_entry: Entry::Symlink(mv.to.clone()) }];
    let files = status(HOME, STORE, &found);
    assert_eq!(files.len(), 1);
    assert_eq!(files[0].state, LinkState::Clean);
    assert_eq!(files[0].home_path, "/home/u/.bashrc");
    assert_eq!(files[0].store_path, mv.to);

    let u = plan_remove(STORE, "/home/u/.bashrc", &Entry::Symlink(mv.to.clone()), false).unwrap();
    assert_eq!(u.link, "/home/u/.bashrc");
    assert_eq!(u.store_copy, mv.to);
    assert!(!u.keep_in_store);
    assert!(status(HOME, STORE, &Vec::new()).is_empty());
}
