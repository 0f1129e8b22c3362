use vstd::prelude::*;
use vstd::string::{StrSliceExecFns, StringExecFns};

verus! {

/// How a tracked file's home path stands to its store path.
#[derive(Debug, Clone, Copy, PartialEq, Eq, Structural)]
pub enum LinkState {
    /// The home path is a symlink to the store path, which exists.
    Clean,
    /// The home path is that symlink, but the store path is missing.
    Dangling,
    /// Something else stands at the home path.
    Conflicted,
    /// Nothing stands at the home path.
    Detached,
}

/// Why adding or removing a tracked file is refused.
#[derive(Debug, Clone, Copy, PartialEq, Eq, Structural)]
pub enum TrackError {
    /// The path is not an existing regular file or directory.
    NotFound,
    /// The path does not lie under the home directory, so it has no place in
    /// the store.
    OutsideHome,
    /// The store already holds something at the mirrored path.
    AlreadyTracked,
    /// The home path is not a symlink into the store.
    NotTracked,
}

/// What stands at a path, seen without following a symlink.
#[derive(Debug)]
pub enum Entry {
    Missing,
    File,
    Directory,
    Symlink(String),
}

impl Entry {
    /// The target, where the entry is a symlink.
    pub open spec fn link(&self) -> Option<Seq<char>> {
        match self {
            Entry::Symlink(t) => Some(t@),
            _ => None,
        }
    }

    pub open spec fn present(&self) -> bool {
        !(self is Missing)
    }
}

/// Adding a file: move the object at `from` to `to` in the store, then put a
/// symlink to `to` at `from`.
pub struct Move {
    pub from: String,
    pub to: String,
}

/// Removing a file: copy `store_copy` back over the symlink at `link`, then
/// delete `store_copy` unless it is kept.
pub struct Unbind {
    pub link: String,
    pub store_copy: String,
    pub keep_in_store: bool,
}

/// A tracked file as it stands now.
pub struct TrackedFile {
    pub home_path: String,
    pub store_path: String,
    pub state: LinkState,
}

/// A path found by walking the store, relative to the store, and what stands
/// at the matching home path.
pub struct Observation {
    pub relative: String,
    pub home_entry: Entry,
}

/// `p` lies strictly below the directory `dir`.
pub open spec fn inside(dir: Seq<char>, p: Seq<char>) -> bool {
    &&& p.len() > dir.len() + 1
    &&& p.take(dir.len() as int) == dir
    &&& p[dir.len() as int] == '/'
}

/// The store path that mirrors the home path `p`.
pub open spec fn mirrored(home: Seq<char>, store: Seq<char>, p: Seq<char>) -> Option<Seq<char>> {
    if inside(home, p) {
        Some(store + p.skip(home.len() as int))
    } else {
        None
    }
}

/// `rel` placed under the directory `dir`.
pub open spec fn joined(dir: Seq<char>, rel: Seq<char>) -> Seq<char> {
    dir + seq!['/'] + rel
}

/// The outcome of adding `p`, given whether it resolves to a regular file or
/// directory and whether its mirrored store path is taken: the object's move
/// from `p` to the store path.
pub open spec fn decide_add(home: Seq<char>, store: Seq<char>, p: Seq<char>, resolves: bool, store_taken: bool) -> Result<(Seq<char>, Seq<char>), TrackError> {
    if !resolves {
        Err(TrackError::NotFound)
    } else {
        match mirrored(home, store, p) {
            None => Err(TrackError::OutsideHome),
            Some(to) => if store_taken {
                Err(TrackError::AlreadyTracked)
            } else {
                Ok((p, to))
            },
        }
    }
}

/// The outcome of removing `p`, given the target of the symlink at `p`, if
/// it is one: the link, the store copy it points to, and whether that copy
/// stays.
pub open spec fn decide_remove(store: Seq<char>, p: Seq<char>, link: Option<Seq<char>>, keep: bool) -> Result<(Seq<char>, Seq<char>, bool), TrackError> {
    match link {
        Some(t) => if inside(store, t) {
            Ok((p, t, keep))
        } else {
            Err(TrackError::NotTracked)
        },
        None => Err(TrackError::NotTracked),
    }
}

/// The state of a binding from what stands at the home path and whether the
/// store path exists.
pub open spec fn link_state(link: Option<Seq<char>>, present: bool, store_path: Seq<char>, store_present: bool) -> LinkState {
    match link {
        Some(t) => if t != store_path {
            LinkState::Conflicted
        } else if store_present {
            LinkState::Clean
        } else {
            LinkState::Dangling
        },
        None => if present {
            LinkState::Conflicted
        } else {
            LinkState::Detached
        },
    }
}

/// Whether `path` lies strictly below the directory `dir`.
pub fn is_inside(dir: &str, path: &str) -> (r: bool)
    ensures
        r == inside(dir@, path@),
{
    let n = dir.unicode_len();
    let m = path.unicode_len();
    if m <= n || m - n < 2 {
        return false;
    }
    let mut i: usize = 0;
    while i < n
        invariant
            n == dir@.len(),
            m == path@.len(),
            n < m,
            i <= n,
            forall|j: int| 0 <= j < i ==> path@[j] == dir@[j],
        decreases n - i,
    {
        if path.get_char(i) != dir.get_char(i) {
            assert(path@.take(n as int)[i as int] != dir@[i as int]);
            return false;
        }
        i = i + 1;
    }
    assert(path@.take(n as int) =~= dir@);
    path.get_char(n) == '/'
}

/// The store path that mirrors `path`, a path under `home`.
pub fn mirror_path(home: &str, store: &str, path: &str) -> (r: Option<String>)
    ensures
        r matches Some(s) ==> mirrored(home@, store@, path@) == Some(s@),
        r is None ==> mirrored(home@, store@, path@) is None,
{
    if !is_inside(home, path) {
        return None;
    }
    let rest = path.substring_char(home.unicode_len(), path.unicode_len());
    assert(rest@ =~= path@.skip(home@.len() as int));
    Some(String::from_str(store).concat(rest))
}

/// `rel` placed under the directory `dir`.
pub fn join_path(dir: &str, rel: &str) -> (r: String)
    ensures
        r@ == joined(dir@, rel@),
{
    let mut r = String::from_str(dir);
    proof { reveal_strlit("/"); }
    r.append("/");
    r.append(rel);
    r
}

/// Decides how to track `path`: `resolves` says whether it is an existing
/// regular file or directory once symlinks are followed, `store_taken`
/// whether the store already holds its mirrored path. Nothing is moved when
/// this fails.
pub fn plan_add(home: &str, store: &str, path: &str, resolves: bool, store_taken: bool) -> (r: Result<Move, TrackError>)
    ensures
        match (r, decide_add(home@, store@, path@, resolves, store_taken)) {
            (Ok(m), Ok((from, to))) => m.from@ == from && m.to@ == to,
            (Err(e), Err(f)) => e == f,
            _ => false,
        },
{
    if !resolves {
        return Err(TrackError::NotFound);
    }
    match mirror_path(home, store, path) {
        None => Err(TrackError::OutsideHome),
        Some(to) => {
            if store_taken {
                Err(TrackError::AlreadyTracked)
            } else {
                Ok(Move { from: String::from_str(path), to })
            }
        },
    }
}

/// Decides how to stop tracking `path`, given what stands there. Only a
/// symlink into the store is ever undone; anything else is left alone.
pub fn plan_remove(store: &str, path: &str, home_entry: &Entry, keep_in_store: bool) -> (r: Result<Unbind, TrackError>)
    ensures
        match (r, decide_remove(store@, path@, home_entry.link(), keep_in_store)) {
            (Ok(u), Ok((link, copy, keep))) => u.link@ == link && u.store_copy@ == copy && u.keep_in_store == keep,
            (Err(e), Err(f)) => e == f,
            _ => false,
        },
{
    match home_entry {
        Entry::Symlink(t) => {
            if is_inside(store, t.as_str()) {
                Ok(Unbind { link: String::from_str(path), store_copy: t.clone(), keep_in_store })
            } else {
                Err(TrackError::NotTracked)
            }
        },
        _ => Err(TrackError::NotTracked),
    }
}

/// The state of the binding of a home path, seen as `home_entry`, to
/// `store_path`.
pub fn classify(home_entry: &Entry, store_path: &String, store_present: bool) -> (r: LinkState)
    ensures
        r == link_state(home_entry.link(), home_entry.present(), store_path@, store_present),
{
    match home_entry {
        Entry::Symlink(t) => {
            if *t != *store_path {
                LinkState::Conflicted
            } else if store_present {
                LinkState::Clean
            } else {
                LinkState::Dangling
            }
        },
        Entry::Missing => LinkState::Detached,
        _ => LinkState::Conflicted,
    }
}

/// The tracked files of a store, one for each path found by walking it, in
/// the order found.
pub fn status(home: &str, store: &str, found: &Vec<Observation>) -> (r: Vec<TrackedFile>)
    ensures
        r@.len() == found@.len(),
        forall|i: int| 0 <= i < r@.len() ==> {
            &&& (#[trigger] r@[i]).home_path@ == joined(home@, found@[i].relative@)
            &&& r@[i].store_path@ == joined(store@, found@[i].relative@)
            &&& r@[i].state == link_state(found@[i].home_entry.link(), found@[i].home_entry.present(), r@[i].store_path@, true)
        },
{
    let mut r: Vec<TrackedFile> = Vec::new();
    let mut i: usize = 0;
    while i < found.len()
        invariant
            i <= found@.len(),
            r@.len() == i,
            forall|j: int| 0 <= j < i ==> {
                &&& (#[trigger] r@[j]).home_path@ == joined(home@, found@[j].relative@)
                &&& r@[j].store_path@ == joined(store@, found@[j].relative@)
                &&& r@[j].state == link_state(found@[j].home_entry.link(), found@[j].home_entry.present(), r@[j].store_path@, true)
            },
        decreases found@.len() - i,
    {
        let ob = &found[i];
        let home_path = join_path(home, ob.relative.as_str());
        let store_path = join_path(store, ob.relative.as_str());
        let state = classify(&ob.home_entry, &store_path, true);
        r.push(TrackedFile { home_path, store_path, state });
        i = i + 1;
    }
    r
}

/// A node of the file system: a regular file or directory, with its content
/// and permissions, or a symlink.
pub enum Node {
    Object { directory: bool, content: Seq<u8>, mode: nat },
    Link { target: Seq<char> },
}

/// `p` is a regular file or directory, or a symlink to one.
pub open spec fn resolves(fs: Map<Seq<char>, Node>, p: Seq<char>) -> bool {
    fs.contains_key(p) && match fs[p] {
        Node::Object { .. } => true,
        Node::Link { target } => fs.contains_key(target) && fs[target] is Object,
    }
}

/// The target of the symlink at `p`, if there is one.
pub open spec fn link_at(fs: Map<Seq<char>, Node>, p: Seq<char>) -> Option<Seq<char>> {
    if fs.contains_key(p) && fs[p] is Link {
        Some(fs[p]->target)
    } else {
        None
    }
}

/// The file system after a move into the store and the symlink put in its
/// place.
pub open spec fn after_add(fs: Map<Seq<char>, Node>, from: Seq<char>, to: Seq<char>) -> Map<Seq<char>, Node> {
    fs.insert(to, fs[from]).insert(from, Node::Link { target: to })
}

/// The file system after the store copy is put back over the symlink, and
/// deleted unless kept.
pub open spec fn after_remove(fs: Map<Seq<char>, Node>, link: Seq<char>, copy: Seq<char>, keep: bool) -> Map<Seq<char>, Node> {
    if keep {
        fs.insert(link, fs[copy])
    } else {
        fs.insert(link, fs[copy]).remove(copy)
    }
}

/// The outcome of adding `p` to the file system `fs`.
pub open spec fn add_outcome(fs: Map<Seq<char>, Node>, home: Seq<char>, store: Seq<char>, p: Seq<char>) -> Result<(Seq<char>, Seq<char>), TrackError> {
    let taken = match mirrored(home, store, p) {
        Some(to) => fs.contains_key(to),
        None => false,
    };
    decide_add(home, store, p, resolves(fs, p), taken)
}

proof fn lemma_mirror_facts(home: Seq<char>, store: Seq<char>, p: Seq<char>)
    requires
        home != store,
        mirrored(home, store, p) is Some,
    ensures
        inside(store, mirrored(home, store, p)->Some_0),
        mirrored(home, store, p)->Some_0 != p,
{
    let to = store + p.skip(home.len() as int);
    assert(to.take(store.len() as int) =~= store);
    assert(to[store.len() as int] == p[home.len() as int]);
    if to == p {
        assert(p.take(home.len() as int) =~= to.take(store.len() as int));
    }
}

/// Adding a path and then removing it leaves the file system exactly as it
/// was: the same content and permissions at the path, and nothing left in
/// the store.
pub proof fn lemma_add_then_remove(fs: Map<Seq<char>, Node>, home: Seq<char>, store: Seq<char>, p: Seq<char>)
    requires
        home != store,
        add_outcome(fs, home, store, p) is Ok,
    ensures
        ({
            let (from, to) = add_outcome(fs, home, store, p)->Ok_0;
            let fs1 = after_add(fs, from, to);
            &&& decide_remove(store, p, link_at(fs1, p), false) == Ok::<(Seq<char>, Seq<char>, bool), TrackError>((p, to, false))
            &&& after_remove(fs1, p, to, false) == fs
        }),
{
    lemma_mirror_facts(home, store, p);
    let (from, to) = add_outcome(fs, home, store, p)->Ok_0;
    let fs1 = after_add(fs, from, to);
    assert(link_at(fs1, p) == Some(to));
    assert(after_remove(fs1, p, to, false) =~= fs);
}

/// Adding a regular file or directory a second time is refused as already
/// tracked; being refused, it changes nothing.
pub proof fn lemma_add_twice(fs: Map<Seq<char>, Node>, home: Seq<char>, store: Seq<char>, p: Seq<char>)
    requires
        home != store,
        fs.contains_key(p) && fs[p] is Object,
        add_outcome(fs, home, store, p) is Ok,
    ensures
        ({
            let (from, to) = add_outcome(fs, home, store, p)->Ok_0;
            add_outcome(after_add(fs, from, to), home, store, p) == Err::<(Seq<char>, Seq<char>), TrackError>(TrackError::AlreadyTracked)
        }),
{
    lemma_mirror_facts(home, store, p);
    let (from, to) = add_outcome(fs, home, store, p)->Ok_0;
    let fs1 = after_add(fs, from, to);
    assert(fs1.contains_key(to) && fs1[to] == fs[p]);
    assert(resolves(fs1, p));
}

/// Removing a path that is not a symlink into the store is refused as not
/// tracked, whatever stands there; being refused, it changes nothing.
pub proof fn lemma_remove_untracked(fs: Map<Seq<char>, Node>, store: Seq<char>, p: Seq<char>, keep: bool)
    requires
        !(link_at(fs, p) matches Some(t) && inside(store, t)),
    ensures
        decide_remove(store, p, link_at(fs, p), keep) == Err::<(Seq<char>, Seq<char>, bool), TrackError>(TrackError::NotTracked),
{
}

} // verus!
