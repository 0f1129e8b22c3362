use vstd::prelude::*;
use crate::hint::{copy_lines, views_of};
use vstd::string::StrSliceExecFns;

verus! {

/// Why a configuration read back from its file is refused.
#[derive(Debug, Clone, Copy, PartialEq, Eq, Structural)]
pub enum ConfigError {
    /// A profile name stands twice in the list.
    DuplicateProfile,
    /// The active profile is not in the list.
    UnknownActiveProfile,
}

/// The persisted state: the active profile and the known profiles, in order.
pub struct Config {
    pub profile: String,
    pub profiles: Vec<String>,
}

/// No name stands twice in `names`.
pub open spec fn unique_names(names: Seq<Seq<char>>) -> bool {
    forall|i: int, j: int| 0 <= i < j < names.len() ==> names[i] != names[j]
}

/// A configuration is well formed when its names are unique and the active
/// name is one of them, or there is no profile and no active name.
pub open spec fn config_wf(active: Seq<char>, names: Seq<Seq<char>>) -> bool {
    &&& unique_names(names)
    &&& if names.len() == 0 {
        active.len() == 0
    } else {
        names.contains(active)
    }
}

/// What reading a configuration out of its two parts gives.
pub open spec fn config_from_parts(active: Seq<char>, names: Seq<Seq<char>>) -> Result<(Seq<char>, Seq<Seq<char>>), ConfigError> {
    if !unique_names(names) {
        Err(ConfigError::DuplicateProfile)
    } else if !config_wf(active, names) {
        Err(ConfigError::UnknownActiveProfile)
    } else {
        Ok((active, names))
    }
}

/// Whether `a` and `b` hold the same characters.
pub fn same_text(a: &str, b: &str) -> (r: bool)
    ensures
        r == (a@ == b@),
{
    let n = a.unicode_len();
    if n != b.unicode_len() {
        return false;
    }
    let mut i: usize = 0;
    while i < n
        invariant
            n == a@.len(),
            n == b@.len(),
            i <= n,
            forall|j: int| 0 <= j < i ==> a@[j] == b@[j],
        decreases n - i,
    {
        if a.get_char(i) != b.get_char(i) {
            return false;
        }
        i = i + 1;
    }
    assert(a@ =~= b@);
    true
}

/// Index of the first occurrence of `name` in `v`, if any.
pub fn position_of(v: &Vec<String>, name: &str) -> (r: Option<usize>)
    ensures
        match r {
            Some(i) => i < v@.len() && v@[i as int]@ == name@ && forall|j: int|
                0 <= j < i ==> v@[j]@ != name@,
            None => !views_of(v@).contains(name@),
        },
{
    let mut i: usize = 0;
    while i < v.len()
        invariant
            i <= v.len(),
            forall|j: int| 0 <= j < i ==> v@[j]@ != name@,
        decreases v.len() - i,
    {
        if same_text(v[i].as_str(), name) {
            return Some(i);
        }
        i = i + 1;
    }
    proof {
        if views_of(v@).contains(name@) {
            let k = choose|k: int| 0 <= k < views_of(v@).len() && views_of(v@)[k] == name@;
            assert(v@[k]@ == name@);
        }
    }
    None
}

/// Whether some name stands twice in `v`.
pub fn has_duplicate(v: &Vec<String>) -> (r: bool)
    ensures
        r == !unique_names(views_of(v@)),
{
    let mut i: usize = 0;
    while i < v.len()
        invariant
            i <= v.len(),
            forall|a: int, b: int| 0 <= a < b < i ==> v@[a]@ != v@[b]@,
        decreases v.len() - i,
    {
        let found = position_of(v, v[i].as_str());
        match found {
            Some(j) => {
                if j < i {
                    assert(views_of(v@)[j as int] == views_of(v@)[i as int]);
                    return true;
                }
                assert(j == i) by {
                    if j > i {
                        assert(v@[i as int]@ == v@[i as int]@);
                    }
                }
            },
            None => {
                assert(views_of(v@)[i as int] == v@[i as int]@);
            },
        }
        assert forall|a: int, b: int| 0 <= a < b < i + 1 implies v@[a]@ != v@[b]@ by {
            if b == i {
                assert(found == Some(i));
            }
        }
        i = i + 1;
    }
    assert forall|a: int, b: int| 0 <= a < b < views_of(v@).len() implies views_of(v@)[a]
        != views_of(v@)[b] by {
        assert(v@[a]@ != v@[b]@);
    }
    false
}

impl Config {
    pub open spec fn active(&self) -> Seq<char> {
        self.profile@
    }

    pub open spec fn names(&self) -> Seq<Seq<char>> {
        views_of(self.profiles@)
    }

    pub open spec fn wf(&self) -> bool {
        config_wf(self.active(), self.names())
    }

    /// A configuration that knows `name` alone, with `name` active.
    pub fn new(name: &str) -> (r: Config)
        ensures
            r.active() == name@,
            r.names() == seq![name@],
            r.wf(),
    {
        let mut profiles: Vec<String> = Vec::new();
        profiles.push(String::from_str(name));
        let r = Config { profile: String::from_str(name), profiles };
        assert(r.names() =~= seq![name@]);
        assert(r.names()[0] == name@);
        r
    }

    /// Whether `name` is a known profile.
    pub fn contains(&self, name: &str) -> (r: bool)
        ensures
            r == self.names().contains(name@),
    {
        match position_of(&self.profiles, name) {
            Some(i) => {
                assert(self.names()[i as int] == name@);
                true
            },
            None => false,
        }
    }

    /// Builds a configuration out of what its file holds, refusing repeated
    /// names and an active name that is not listed.
    pub fn from_parts(profile: String, profiles: Vec<String>) -> (r: Result<Config, ConfigError>)
        ensures
            match (r, config_from_parts(profile@, views_of(profiles@))) {
                (Ok(c), Ok((a, n))) => c.active() == a && c.names() == n,
                (Err(e), Err(f)) => e == f,
                _ => false,
            },
            r is Ok ==> r->Ok_0.wf(),
    {
        if has_duplicate(&profiles) {
            return Err(ConfigError::DuplicateProfile);
        }
        if profiles.len() == 0 {
            if profile.as_str().is_empty() {
                Ok(Config { profile, profiles })
            } else {
                Err(ConfigError::UnknownActiveProfile)
            }
        } else if let Some(k) = position_of(&profiles, profile.as_str()) {
            assert(views_of(profiles@)[k as int] == profile@);
            Ok(Config { profile, profiles })
        } else {
            Err(ConfigError::UnknownActiveProfile)
        }
    }

    /// The configuration that stands after making sure that one exists:
    /// `current` where there is one, else `self`; and whether `self` is new
    /// and has to be written.
    pub fn create_if_needed(&self, current: Option<Config>) -> (r: (Config, bool))
        ensures
            match current {
                Some(c) => r.0.active() == c.active() && r.0.names() == c.names() && !r.1,
                None => r.0.active() == self.active() && r.0.names() == self.names() && r.1,
            },
    {
        match current {
            Some(c) => (c, false),
            None => (self.duplicate(), true),
        }
    }

    /// A copy of this configuration.
    pub fn duplicate(&self) -> (r: Config)
        ensures
            r.active() == self.active(),
            r.names() == self.names(),
    {
        Config { profile: self.profile.clone(), profiles: copy_lines(&self.profiles) }
    }
}

/// Reading back what was written gives the same configuration: the parts of a
/// well-formed configuration are accepted as they are.
pub proof fn lemma_config_round_trip(c: Config)
    requires
        c.wf(),
    ensures
        config_from_parts(c.active(), c.names()) == Ok::<(Seq<char>, Seq<Seq<char>>), ConfigError>((c.active(), c.names())),
{
}

} // verus!
