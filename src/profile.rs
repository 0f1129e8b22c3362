use vstd::prelude::*;
use crate::config::{position_of, same_text, unique_names, Config};
use crate::engine::LinkState;
use crate::hint::{copy_lines, views_of};

verus! {

/// The user errors of profile management.
#[derive(Debug, Clone, Copy, PartialEq, Eq, Structural)]
pub enum ProfileError {
    /// The profile's directory, or its name in the configuration, is taken.
    ProfileAlreadyExists,
    /// No profile of that name is known.
    UnknownProfile,
}

/// What purging a profile does with one of its tracked files.
#[derive(Debug, Clone, Copy, PartialEq, Eq, Structural)]
pub enum PurgeAction {
    /// The home path still resolves into the store: copy the content back.
    Restore,
    /// The entry is no longer bound cleanly: leave it and warn.
    Warn,
}

/// The configuration after creating `name`: a new one with `name` active
/// where there was none, else `name` appended to the known profiles (and made
/// active where no profile was known).
pub open spec fn created(current: Option<(Seq<char>, Seq<Seq<char>>)>, name: Seq<char>) -> (Seq<char>, Seq<Seq<char>>) {
    match current {
        None => (name, seq![name]),
        Some((active, names)) => (if names.len() == 0 { name } else { active }, names.push(name)),
    }
}

/// The model of an optional configuration.
pub open spec fn config_model(c: Option<Config>) -> Option<(Seq<char>, Seq<Seq<char>>)> {
    match c {
        None => None,
        Some(c) => Some((c.active(), c.names())),
    }
}

/// Whether `name` is in the configuration `current`.
pub open spec fn known(current: Option<(Seq<char>, Seq<Seq<char>>)>, name: Seq<char>) -> bool {
    match current {
        None => false,
        Some((_, names)) => names.contains(name),
    }
}

/// The list after `name` is taken out, and the active name after that: kept
/// where it was another profile, else the first that remains, else none.
pub open spec fn removed(active: Seq<char>, names: Seq<Seq<char>>, k: int) -> (Seq<char>, Seq<Seq<char>>) {
    let rest = names.remove(k);
    (if active != names[k] {
        active
    } else if rest.len() > 0 {
        rest[0]
    } else {
        Seq::empty()
    }, rest)
}

proof fn lemma_unique_push(names: Seq<Seq<char>>, name: Seq<char>)
    requires
        unique_names(names),
        !names.contains(name),
    ensures
        unique_names(names.push(name)),
{
    let s = names.push(name);
    assert forall|i: int, j: int| 0 <= i < j < s.len() implies s[i] != s[j] by {
        if j == names.len() {
            assert(names[i] == s[i]);
        }
    }
}

proof fn lemma_unique_remove(names: Seq<Seq<char>>, k: int)
    requires
        unique_names(names),
        0 <= k < names.len(),
    ensures
        unique_names(names.remove(k)),
        !names.remove(k).contains(names[k]),
        forall|m: int| 0 <= m < names.len() && m != k ==> names.remove(k).contains(#[trigger] names[m]),
{
    let s = names.remove(k);
    assert forall|i: int, j: int| 0 <= i < j < s.len() implies s[i] != s[j] by {
        let a = if i < k { i } else { i + 1 };
        let b = if j < k { j } else { j + 1 };
        assert(s[i] == names[a] && s[j] == names[b]);
    }
    if s.contains(names[k]) {
        let i = choose|i: int| 0 <= i < s.len() && s[i] == names[k];
        let a = if i < k { i } else { i + 1 };
        assert(s[i] == names[a]);
    }
    assert forall|m: int| 0 <= m < names.len() && m != k implies s.contains(#[trigger] names[m]) by {
        let i = if m < k { m } else { m - 1 };
        assert(s[i] == names[m]);
    }
}

/// Creates the profile `name` in the configuration `current` (none where no
/// configuration file exists yet). Refused when the profile's directory
/// exists or the name is known; `current` is never changed.
pub fn create_profile(current: &Option<Config>, name: &str, dir_exists: bool) -> (r: Result<Config, ProfileError>)
    requires
        current matches Some(c) ==> c.wf(),
    ensures
        dir_exists ==> r == Err::<Config, ProfileError>(ProfileError::ProfileAlreadyExists),
        !dir_exists && known(config_model(*current), name@) ==> r == Err::<Config, ProfileError>(
            ProfileError::ProfileAlreadyExists,
        ),
        !dir_exists && !known(config_model(*current), name@) ==> (r matches Ok(c) && (c.active(), c.names())
            == created(config_model(*current), name@) && c.wf()),
{
    if dir_exists {
        return Err(ProfileError::ProfileAlreadyExists);
    }
    match current {
        None => Ok(Config::new(name)),
        Some(c) => {
            if c.contains(name) {
                return Err(ProfileError::ProfileAlreadyExists);
            }
            let mut profiles = copy_lines(&c.profiles);
            let ghost old_names = views_of(profiles@);
            profiles.push(String::from_str(name));
            assert(views_of(profiles@) =~= old_names.push(name@));
            proof {
                lemma_unique_push(old_names, name@);
                assert(views_of(profiles@)[old_names.len() as int] == name@);
            }
            let profile = if c.profiles.len() == 0 {
                String::from_str(name)
            } else {
                c.profile.clone()
            };
            let r = Config { profile, profiles };
            proof {
                if old_names.len() > 0 {
                    let k = choose|k: int| 0 <= k < old_names.len() && old_names[k] == c.active();
                    assert(r.names()[k] == c.active());
                }
            }
            Ok(r)
        },
    }
}

/// Makes `name` the active profile.
pub fn select(config: &mut Config, name: &str) -> (r: Result<(), ProfileError>)
    requires
        old(config).wf(),
    ensures
        final(config).wf(),
        final(config).names() == old(config).names(),
        old(config).names().contains(name@) ==> r is Ok && final(config).active() == name@,
        !old(config).names().contains(name@) ==> r == Err::<(), ProfileError>(ProfileError::UnknownProfile)
            && final(config).active() == old(config).active(),
{
    if !config.contains(name) {
        return Err(ProfileError::UnknownProfile);
    }
    config.profile = String::from_str(name);
    Ok(())
}

/// Forgets the profile `name`. Where it was active, the first profile that
/// remains becomes active.
pub fn remove_profile(config: &mut Config, name: &str) -> (r: Result<(), ProfileError>)
    requires
        old(config).wf(),
    ensures
        final(config).wf(),
        !old(config).names().contains(name@) ==> r == Err::<(), ProfileError>(ProfileError::UnknownProfile)
            && final(config).active() == old(config).active() && final(config).names() == old(config).names(),
        old(config).names().contains(name@) ==> r is Ok && exists|k: int|
            0 <= k < old(config).names().len() && old(config).names()[k] == name@
            && (final(config).active(), final(config).names()) == #[trigger] removed(old(config).active(), old(config).names(), k),
{
    let k = match position_of(&config.profiles, name) {
        None => {
            return Err(ProfileError::UnknownProfile);
        },
        Some(k) => k,
    };
    let ghost names = config.names();
    let ghost active = config.active();
    assert(names[k as int] == name@);
    config.profiles.remove(k);
    assert(config.names() =~= names.remove(k as int));
    proof {
        lemma_unique_remove(names, k as int);
    }
    if same_text(config.profile.as_str(), name) {
        if config.profiles.len() > 0 {
            config.profile = config.profiles[0].clone();
            assert(config.names()[0] == config.profile@);
        } else {
            config.profile = String::new();
        }
    } else {
        proof {
            let m = choose|m: int| 0 <= m < names.len() && names[m] == active;
            assert(m != k);
            assert(config.names().contains(names[m]));
        }
    }
    assert((config.active(), config.names()) == removed(active, names, k as int));
    Ok(())
}

/// The known profiles, in the order of the configuration.
pub fn list(config: &Config) -> (r: Vec<String>)
    ensures
        views_of(r@) == config.names(),
{
    copy_lines(&config.profiles)
}

/// What purging does with a tracked file in `state`: only a clean binding
/// is restored.
pub fn purge_action(state: LinkState) -> (r: PurgeAction)
    ensures
        r == (if state == LinkState::Clean { PurgeAction::Restore } else { PurgeAction::Warn }),
{
    match state {
        LinkState::Clean => PurgeAction::Restore,
        _ => PurgeAction::Warn,
    }
}

} // verus!
