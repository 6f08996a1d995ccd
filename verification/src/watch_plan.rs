//! Which folders the watch engine watches, and which watched folder a file
//! event belongs to.

use vstd::prelude::*;
use vstd::string::*;
use crate::text::{trim_trailing_separators, trim_trailing_separators_exec};

verus! {

/// How a folder is watched: by native change notifications, or by polling
/// (for network shares).
#[derive(Clone, Copy, Debug, PartialEq, Eq, Structural)]
pub enum WatchMode {
    Native,
    Poll,
}

/// A watched folder as stored in the database.
#[derive(Clone, Copy, Debug, PartialEq, Eq, Structural)]
pub struct FolderRecord {
    pub id: i64,
    pub enabled: bool,
    pub watch_mode: WatchMode,
}

/// A folder to hand to the watch engine: its position in the folder list,
/// its database id and whether it is watched as a network share.
#[derive(Clone, Copy, Debug, PartialEq, Eq, Structural)]
pub struct WatchTarget {
    pub index: usize,
    pub folder_id: i64,
    pub is_network: bool,
}

/// What the watch engine starts with.
#[derive(Debug)]
pub enum WatchPlan {
    /// No folder is stored yet (first run): store the user's Pictures folder
    /// with this label and enabled flag, and watch it (as a network share
    /// when `is_network`).
    AddDefaultFolder { label: &'static str, enabled: bool, is_network: bool },
    /// Watch these folders.
    Folders(Vec<WatchTarget>),
}

/// The label of the folder added on first run.
pub const DEFAULT_FOLDER_LABEL: &'static str = "Pictures";

/// The folders among `folders` that are watched: the enabled ones whose
/// path exists, in order, polled when their mode is `Poll`.
pub open spec fn watch_targets(folders: Seq<FolderRecord>, exists: Seq<bool>) -> Seq<WatchTarget>
    decreases folders.len(),
{
    if folders.len() == 0 {
        seq![]
    } else {
        let i = folders.len() - 1;
        let before = watch_targets(folders.drop_last(), exists);
        if folders[i].enabled && exists[i] {
            before.push(
                WatchTarget {
                    index: i as usize,
                    folder_id: folders[i].id,
                    is_network: folders[i].watch_mode == WatchMode::Poll,
                },
            )
        } else {
            before
        }
    }
}

/// Every planned folder is enabled and exists, carries its record's id, is
/// polled exactly when its mode is `Poll`, and the folders come in the order
/// of the list, each once.
pub proof fn law_watch_targets_are_enabled_existing(folders: Seq<FolderRecord>, exists: Seq<bool>)
    requires
        folders.len() == exists.len(),
        folders.len() <= usize::MAX,
    ensures
        ({
            let t = watch_targets(folders, exists);
            &&& forall|j: int| 0 <= j < t.len() ==> {
                let i = #[trigger] t[j].index as int;
                &&& 0 <= i < folders.len()
                &&& folders[i].enabled && exists[i]
                &&& t[j].folder_id == folders[i].id
                &&& t[j].is_network == (folders[i].watch_mode == WatchMode::Poll)
            }
            &&& forall|j: int, k: int| 0 <= j < k < t.len() ==> t[j].index < t[k].index
        }),
    decreases folders.len(),
{
    if folders.len() > 0 {
        let pre = folders.drop_last();
        law_watch_targets_are_enabled_existing(pre, exists.take(pre.len() as int));
        lemma_watch_targets_prefix(pre, exists);
        let t0 = watch_targets(pre, exists);
        let t = watch_targets(folders, exists);
        assert forall|j: int| 0 <= j < t.len() implies {
            let i = #[trigger] t[j].index as int;
            &&& 0 <= i < folders.len()
            &&& folders[i].enabled && exists[i]
            &&& t[j].folder_id == folders[i].id
            &&& t[j].is_network == (folders[i].watch_mode == WatchMode::Poll)
        } by {
            if j < t0.len() {
                assert(t[j] == t0[j]);
                assert(pre[t0[j].index as int] == folders[t0[j].index as int]);
            }
        }
        assert forall|j: int, k: int| 0 <= j < k < t.len() implies t[j].index < t[k].index by {
            if k < t0.len() {
                assert(t[j] == t0[j] && t[k] == t0[k]);
            } else {
                assert(t[j] == t0[j]);
            }
        }
    }
}

/// Every enabled folder whose path exists is planned: some target carries
/// its index and id.
pub proof fn law_enabled_existing_folders_are_watched(folders: Seq<FolderRecord>, exists: Seq<bool>, i: int)
    requires
        folders.len() == exists.len(),
        folders.len() <= usize::MAX,
        0 <= i < folders.len(),
        folders[i].enabled,
        exists[i],
    ensures
        exists|j: int|
            0 <= j < watch_targets(folders, exists).len() && (#[trigger] watch_targets(folders, exists)[j]).index
                == i && watch_targets(folders, exists)[j].folder_id == folders[i].id,
    decreases folders.len(),
{
    let pre = folders.drop_last();
    let t = watch_targets(folders, exists);
    let t0 = watch_targets(pre, exists);
    if i == folders.len() - 1 {
        assert(t[t.len() - 1].index == i);
    } else {
        lemma_watch_targets_prefix(pre, exists);
        law_enabled_existing_folders_are_watched(pre, exists.take(pre.len() as int), i);
        let j = choose|j: int|
            0 <= j < t0.len() && (#[trigger] t0[j]).index == i && t0[j].folder_id == pre[i].id;
        assert(t[j] == t0[j]);
    }
}

/// The targets of a list depend only on the existence flags of its folders.
proof fn lemma_watch_targets_prefix(folders: Seq<FolderRecord>, exists: Seq<bool>)
    requires
        folders.len() <= exists.len(),
    ensures
        watch_targets(folders, exists) == watch_targets(folders, exists.take(folders.len() as int)),
    decreases folders.len(),
{
    if folders.len() > 0 {
        let pre = folders.drop_last();
        lemma_watch_targets_prefix(pre, exists);
        lemma_watch_targets_prefix(pre, exists.take(folders.len() as int));
        assert(exists.take(folders.len() as int).take(pre.len() as int) =~= exists.take(pre.len() as int));
    }
}

/// Plans the watch engine from the stored folders; `path_exists[i]` tells
/// whether the path of `folders[i]` exists on disk.
pub fn plan_watch_folders(folders: &Vec<FolderRecord>, path_exists: &Vec<bool>) -> (p: WatchPlan)
    requires
        folders@.len() == path_exists@.len(),
    ensures
        folders@.len() == 0 ==> (p matches WatchPlan::AddDefaultFolder { label, enabled, is_network }
            && label@ == "Pictures"@ && enabled && !is_network),
        folders@.len() > 0 ==> (p matches WatchPlan::Folders(t) && t@ == watch_targets(
            folders@,
            path_exists@,
        )),
{
    let n = folders.len();
    if n == 0 {
        return WatchPlan::AddDefaultFolder { label: DEFAULT_FOLDER_LABEL, enabled: true, is_network: false };
    }
    let mut targets: Vec<WatchTarget> = Vec::new();
    let mut i: usize = 0;
    while i < n
        invariant
            n == folders@.len(),
            n == path_exists@.len(),
            i <= n,
            targets@ == watch_targets(folders@.take(i as int), path_exists@),
        decreases n - i,
    {
        let f = folders[i];
        proof {
            let t = folders@.take(i + 1);
            assert(t.drop_last() =~= folders@.take(i as int));
            assert(t[i as int] == f);
        }
        if f.enabled && path_exists[i] {
            let is_network = match f.watch_mode {
                WatchMode::Poll => true,
                WatchMode::Native => false,
            };
            targets.push(WatchTarget { index: i, folder_id: f.id, is_network });
        }
        i = i + 1;
    }
    proof {
        assert(folders@.take(n as int) =~= folders@);
    }
    WatchPlan::Folders(targets)
}

/// The id that `entries` associates with `key`: the last entry with that key.
pub open spec fn lookup_in(entries: Seq<(String, i64)>, key: Seq<char>) -> Option<i64>
    decreases entries.len(),
{
    if entries.len() == 0 {
        None
    } else if entries.last().0@ == key {
        Some(entries.last().1)
    } else {
        lookup_in(entries.drop_last(), key)
    }
}

/// The id of the first path in `chain` that `map` knows.
pub open spec fn first_known(chain: Seq<Seq<char>>, map: FolderMap) -> Option<i64>
    decreases chain.len(),
{
    if chain.len() == 0 {
        None
    } else if map.lookup(chain[0]) is Some {
        map.lookup(chain[0])
    } else {
        first_known(chain.drop_first(), map)
    }
}

/// `a` is a prefix of `b` and shorter than it.
pub open spec fn proper_prefix(a: Seq<char>, b: Seq<char>) -> bool {
    a.len() < b.len() && a == b.take(a.len() as int)
}

/// `chain` starts below `path` and every element is a proper prefix of the
/// one before, hence of `path`: the shape of the sequence of a path's parent
/// directories.
pub open spec fn descending_from(path: Seq<char>, chain: Seq<Seq<char>>) -> bool {
    &&& chain.len() > 0 ==> proper_prefix(chain[0], path)
    &&& forall|i: int| 0 < i < chain.len() ==> proper_prefix(#[trigger] chain[i], chain[i - 1])
    &&& forall|i: int| 0 <= i < chain.len() ==> proper_prefix(#[trigger] chain[i], path)
}

/// The id found for a chain of parent directories belongs to the nearest
/// directory that the map knows: that directory is in the chain and no
/// directory before it is known.
pub proof fn law_first_known_is_nearest(chain: Seq<Seq<char>>, map: FolderMap, id: i64)
    requires
        first_known(chain, map) == Some(id),
    ensures
        exists|i: int|
            0 <= i < chain.len() && map.lookup(#[trigger] chain[i]) == Some(id) && forall|j: int|
                0 <= j < i ==> map.lookup(#[trigger] chain[j]) is None,
    decreases chain.len(),
{
    if map.lookup(chain[0]) is Some {
        assert(map.lookup(chain[0]) == Some(id));
    } else {
        let rest = chain.drop_first();
        law_first_known_is_nearest(rest, map, id);
        let i = choose|i: int|
            0 <= i < rest.len() && map.lookup(#[trigger] rest[i]) == Some(id) && forall|j: int|
                0 <= j < i ==> map.lookup(#[trigger] rest[j]) is None;
        assert(chain[i + 1] == rest[i]);
        assert forall|j: int| 0 <= j < i + 1 implies map.lookup(#[trigger] chain[j]) is None by {
            if j > 0 {
                assert(chain[j] == rest[j - 1]);
            }
        }
    }
}

/// If some directory of `chain` is known to the map, `first_known` finds one.
proof fn lemma_first_known_some(chain: Seq<Seq<char>>, map: FolderMap, i: int)
    requires
        0 <= i < chain.len(),
        map.lookup(chain[i]) is Some,
    ensures
        first_known(chain, map) is Some,
    decreases chain.len(),
{
    if map.lookup(chain[0]) is None {
        let rest = chain.drop_first();
        assert(rest[i - 1] == chain[i]);
        lemma_first_known_some(rest, map, i - 1);
    }
}

/// `first_known` finds nothing exactly when no directory of the chain is known.
pub proof fn law_first_known_none_iff_none_known(chain: Seq<Seq<char>>, map: FolderMap)
    ensures
        first_known(chain, map) is None <==> forall|i: int|
            0 <= i < chain.len() ==> map.lookup(#[trigger] chain[i]) is None,
{
    if first_known(chain, map) is None {
        assert forall|i: int| 0 <= i < chain.len() implies map.lookup(#[trigger] chain[i]) is None by {
            if map.lookup(chain[i]) is Some {
                lemma_first_known_some(chain, map, i);
            }
        }
    } else {
        law_first_known_is_nearest(chain, map, first_known(chain, map)->0);
    }
}

/// A path followed only by separators trims to itself without them.
proof fn lemma_trim_to_key(q: Seq<char>, n: int)
    requires
        0 < n <= q.len(),
        !path_sep(q[n - 1]),
        forall|j: int| n <= j < q.len() ==> path_sep(#[trigger] q[j]),
    ensures
        trim_trailing_separators(q) == q.take(n),
    decreases q.len(),
{
    if q.len() == n {
        assert(q.take(n) =~= q);
    } else {
        assert(q.drop_last().len() == q.len() - 1);
        assert(path_sep(q.last()));
        lemma_trim_to_key(q.drop_last(), n);
        assert(q.drop_last().take(n) =~= q.take(n));
    }
}

/// The walk's first directory no longer than `n` comes right after one
/// longer than `n`.
proof fn lemma_walk_crossing(path: Seq<char>, chain: Seq<Seq<char>>, n: int, start: int) -> (i: int)
    requires
        0 <= start < chain.len(),
        walk_prev(path, chain, start).len() > n,
        chain[chain.len() - 1].len() <= n,
    ensures
        start <= i < chain.len(),
        walk_prev(path, chain, i).len() > n,
        chain[i].len() <= n,
    decreases chain.len() - start,
{
    if chain[start].len() <= n {
        start
    } else {
        lemma_walk_crossing(path, chain, n, start + 1)
    }
}

/// Walking up the parents of a file finds every watched folder above it:
/// when `path` (written with `/` between its directory levels, with no drive
/// and not beginning with two separators) has a known directory
/// `path[..n]` followed by `/` and a further name, the walk resolves to some
/// known directory (by `law_first_known_is_nearest`, the nearest one walked).
#[verifier::spinoff_prover]
#[verifier::rlimit(80)]
pub proof fn law_walk_finds_known_ancestor(path: Seq<char>, chain: Seq<Seq<char>>, map: FolderMap, n: int)
    requires
        descending_from(path, chain),
        full_parent_walk(path, chain),
        !path.contains(':'),
        !starts_with_two_separators(path),
        0 < n < path.len(),
        path[n] == '/',
        !path_sep(path[n - 1]) && path[n - 1] != '.',
        forall|j: int|
            0 <= j < path.len() && #[trigger] path[j] == '.' ==> !((j == 0 || path_sep(path[j - 1])) && (
            j + 1 == path.len() || path_sep(path[j + 1]))),
        exists|j: int| n < j < path.len() && !path_sep(#[trigger] path[j]) && path[j] != '.',
        map.lookup(path.take(n)) is Some,
    ensures
        first_known(chain, map) is Some,
{
    let k = path.take(n);
    let len = chain.len() as int;
    let last = walk_prev(path, chain, len);
    // The walk ends below `path[..n]`: a path that may lack a parent holds
    // no name character, while `path[n - 1]` is one.
    assert(last.len() < n) by {
        if last.len() >= n {
            if len > 0 {
                assert(last == path.take(last.len() as int));
            }
            assert(last[n - 1] == path[n - 1]);
            if last.len() >= 2 {
                assert(last[0] == path[0] && last[1] == path[1]);
            }
            if last.contains(':') {
                let w = choose|w: int| 0 <= w < last.len() && last[w] == ':';
                assert(path[w] == ':');
            }
        }
    }
    assert(len > 0);
    assert(chain[len - 1] == last);
    let i = lemma_walk_crossing(path, chain, n, 0);
    let q = walk_prev(path, chain, i);
    let d = chain[i];
    assert(q == path.take(q.len() as int)) by {
        if i > 0 {
            assert(proper_prefix(chain[i - 1], path));
        } else {
            assert(path.take(path.len() as int) =~= path);
        }
    }
    assert(proper_prefix(d, path));
    if d.len() == n {
        assert(d =~= k);
        lemma_first_known_some(chain, map, i);
    } else {
        assert(!starts_with_two_separators(q)) by {
            if q.len() >= 2 {
                assert(q[0] == path[0] && q[1] == path[1]);
            }
        }
        assert(drops_one_component(d, q));
        let t = q.skip(d.len() as int);
        let a = n - 1 - d.len();
        let c = n - d.len();
        assert(t[a] == path[n - 1]);
        assert(t[c] == path[n]);
        assert(name_char(t, a));
        if exists|bb: int| c < bb < t.len() && name_char(t, bb) {
            let bb = choose|bb: int| c < bb < t.len() && name_char(t, bb);
            assert(t[c] != '/');
        } else if i == 0 {
            let jj = choose|jj: int|
                n < jj < path.len() && !path_sep(#[trigger] path[jj]) && path[jj] != '.';
            assert(q[jj] == path[jj]);
            assert(t[jj - d.len()] == path[jj]);
            assert(name_char(t, jj - d.len()));
        } else {
            let qq = chain[i - 1];
            assert(qq == q);
            // every character after `path[n]` in `q` is a separator
            assert forall|j: int| n <= j < q.len() implies path_sep(#[trigger] q[j]) by {
                if j > n && !path_sep(q[j]) {
                    let bj = j - d.len();
                    assert(t[bj] == q[j]);
                    assert(!name_char(t, bj));
                    assert(q[j] == '.');
                    assert(path[j] == '.');
                    assert(path_sep(t[bj - 1]));
                    assert(t[bj - 1] == path[j - 1]);
                    if j + 1 < q.len() {
                        assert(t[bj + 1] == path[j + 1]);
                    }
                    assert(j + 1 == q.len());
                    assert(!path_sep(path[j + 1]));
                    let pp = walk_prev(path, chain, i - 1);
                    assert(pp == path.take(pp.len() as int)) by {
                        if i - 1 > 0 {
                            assert(proper_prefix(chain[i - 2], path));
                        } else {
                            assert(path.take(path.len() as int) =~= path);
                        }
                    }
                    assert(!starts_with_two_separators(pp)) by {
                        if pp.len() >= 2 {
                            assert(pp[0] == path[0] && pp[1] == path[1]);
                        }
                    }
                    assert(drops_one_component(chain[i - 1], pp));
                    assert(proper_prefix(q, pp));
                    assert(pp.skip(q.len() as int)[0] == path[j + 1]);
                    if q.contains(':') {
                        let w = choose|w: int| 0 <= w < q.len() && q[w] == ':';
                        assert(path[w] == ':');
                    }
                    assert(q.last() == q[j]);
                }
            }
            assert(q.take(n) =~= k);
            lemma_trim_to_key(q, n);
            assert(trim_trailing_separators(k) == k);
            assert(map.lookup(q) == map.lookup(k));
            lemma_first_known_some(chain, map, i - 1);
        }
    }
}

/// A map from the canonical path of a watched folder to its database id.
/// Inserting a path that is present replaces its id.
///
/// Paths are compared as text after their trailing separators (`\` or `/`)
/// are dropped, so `D:\Photos\` and `D:\Photos` are one key, as Windows
/// paths compare. Other spellings of one path (a `/` in place of a `\`
/// inside the path, doubled separators, `.` components) are different keys;
/// the keys are canonical paths, or the stored folder paths when those cannot
/// be canonicalized, and the lookups are parents of paths spelled the same way.
#[derive(Debug)]
pub struct FolderMap {
    entries: Vec<(String, i64)>,
}

impl FolderMap {
    /// The id stored for `key`, if any.
    pub closed spec fn lookup(self, key: Seq<char>) -> Option<i64> {
        lookup_in(self.entries@, trim_trailing_separators(key))
    }

    /// An empty map.
    pub fn new() -> (m: FolderMap)
        ensures
            forall|k: Seq<char>| m.lookup(k) is None,
    {
        FolderMap { entries: Vec::new() }
    }

    /// Associates `key` with `id`, replacing any id stored for `key` or for
    /// a path that differs from it only in trailing separators.
    pub fn insert(&mut self, key: &str, id: i64)
        ensures
            forall|k: Seq<char>|
                trim_trailing_separators(k) == trim_trailing_separators(key@) ==> #[trigger] final(self).lookup(k) == Some(id),
            forall|k: Seq<char>|
                trim_trailing_separators(k) != trim_trailing_separators(key@) ==> #[trigger] final(self).lookup(k) == old(self).lookup(k),
    {
        self.entries.push((trim_trailing_separators_exec(key), id));
        proof {
            assert(self.entries@.drop_last() =~= old(self).entries@);
        }
    }

    /// The id stored for `key`, if any.
    pub fn get(&self, key: &str) -> (r: Option<i64>)
        ensures
            r == self.lookup(key@),
    {
        let wanted = trim_trailing_separators_exec(key);
        let ghost k = trim_trailing_separators(key@);
        let mut i = self.entries.len();
        assert(self.entries@.take(i as int) =~= self.entries@);
        while i > 0
            invariant
                i <= self.entries@.len(),
                wanted@ == k,
                k == trim_trailing_separators(key@),
                lookup_in(self.entries@, k) == lookup_in(self.entries@.take(i as int), k),
            decreases i,
        {
            let e = &self.entries[i - 1];
            proof {
                let t = self.entries@.take(i as int);
                assert(t.drop_last() =~= self.entries@.take(i - 1));
                assert(t.last() == *e);
            }
            if e.0 == wanted {
                return Some(e.1);
            }
            i = i - 1;
        }
        None
    }
}

/// `c` separates path components on some platform (`/` everywhere, `\`
/// on Windows).
pub open spec fn path_sep(c: char) -> bool {
    c == '/' || c == '\\'
}

/// Whether `p` begins with two separators: a Windows UNC, verbatim or
/// device path, about whose parents nothing is claimed.
pub open spec fn starts_with_two_separators(p: Seq<char>) -> bool {
    p.len() >= 2 && path_sep(p[0]) && path_sep(p[1])
}

/// Whether `p` may lack a parent: it is empty, made only of separators and
/// dots (a root), holds a `:` (a Windows drive or prefix), or begins with two
/// separators (a Windows UNC, verbatim or device prefix).
pub open spec fn may_lack_parent(p: Seq<char>) -> bool {
    ||| p.len() == 0
    ||| forall|i: int| 0 <= i < p.len() ==> path_sep(#[trigger] p[i]) || p[i] == '.'
    ||| p.contains(':')
    ||| starts_with_two_separators(p)
}

/// Whether `t[i]` belongs to a component name: it is not a separator and
/// not a lone `.` between separators (the current directory).
pub open spec fn name_char(t: Seq<char>, i: int) -> bool {
    &&& !path_sep(t[i])
    &&& !(t[i] == '.' && (i == 0 || path_sep(t[i - 1])) && (i + 1 == t.len() || path_sep(t[i + 1])))
}

/// `d` is `p` without one final component: `d` is a shorter prefix of `p`,
/// the rest of `p` is cut from `d` at a separator (or `d` is empty, a root or
/// a drive), holds something besides `/`, and holds no `/` between two
/// characters of component names, so it holds a single component.
pub open spec fn drops_one_component(d: Seq<char>, p: Seq<char>) -> bool {
    let t = p.skip(d.len() as int);
    &&& proper_prefix(d, p)
    &&& exists|i: int| 0 <= i < t.len() && #[trigger] t[i] != '/'
    &&& d.len() == 0 || path_sep(d.last()) || d.last() == ':' || path_sep(t[0])
    &&& forall|a: int, b: int, c: int|
        #![trigger name_char(t, a), name_char(t, b), t[c]]
        0 <= a < c < b < t.len() && name_char(t, a) && name_char(t, b) ==> t[c] != '/'
}

/// The directory that comes before `chain[i]` in a walk up from `path`.
pub open spec fn walk_prev(path: Seq<char>, chain: Seq<Seq<char>>, i: int) -> Seq<char> {
    if i == 0 {
        path
    } else {
        chain[i - 1]
    }
}

/// `chain` is the whole walk up the parent directories of `path`: each step
/// drops one final component (where the platform-independent shape of a
/// parent is known), and the walk ends at a path that may have no parent.
pub open spec fn full_parent_walk(path: Seq<char>, chain: Seq<Seq<char>>) -> bool {
    &&& forall|i: int|
        0 <= i < chain.len() ==> starts_with_two_separators(walk_prev(path, chain, i))
            || drops_one_component(#[trigger] chain[i], walk_prev(path, chain, i))
    &&& may_lack_parent(walk_prev(path, chain, chain.len() as int))
}

/// `Path::parent`, converted back to text: the path without its final
/// component (and without the separators and `.` components before it), or
/// `None` when the path ends in a root or prefix or is empty. What is stated
/// holds with `/` or `\` as separators: a parent drops exactly one component
/// (nothing is claimed for paths that begin with two separators, whose
/// verbatim forms do not split at `/`), and a path without a parent is empty,
/// a root, or holds a Windows prefix.
#[verifier::external_body]
fn path_parent(p: &str) -> (r: Option<String>)
    ensures
        r matches Some(d) ==> proper_prefix(d@, p@),
        r matches Some(d) ==> starts_with_two_separators(p@) || drops_one_component(d@, p@),
        r is None ==> may_lack_parent(p@),
{
    match std::path::Path::new(p).parent() {
        Some(d) => Some(d.to_string_lossy().into_owned()),
        None => None,
    }
}

/// The id of the first path of `chain` that `map` knows.
pub fn nearest_folder_id(chain: &Vec<String>, map: &FolderMap) -> (r: Option<i64>)
    ensures
        r == first_known(chain@.map_values(|s: String| s@), *map),
{
    let ghost views = chain@.map_values(|s: String| s@);
    let n = chain.len();
    let mut i: usize = 0;
    assert(views.skip(0) =~= views);
    while i < n
        invariant
            n == chain@.len(),
            i <= n,
            views == chain@.map_values(|s: String| s@),
            first_known(views, *map) == first_known(views.skip(i as int), *map),
        decreases n - i,
    {
        let found = map.get(chain[i].as_str());
        proof {
            let rest = views.skip(i as int);
            assert(rest[0] == chain@[i as int]@);
            assert(rest.drop_first() =~= views.skip(i + 1));
        }
        if found.is_some() {
            return found;
        }
        i = i + 1;
    }
    proof {
        assert(views.skip(n as int) =~= Seq::<Seq<char>>::empty());
    }
    None
}

/// Finds the watched folder that contains the file at `canonical_path` by
/// walking up its parent directories and looking each up in `map`.
#[verifier::spinoff_prover]
#[verifier::rlimit(60)]
pub fn resolve_folder_id(canonical_path: &str, map: &FolderMap) -> (r: Option<i64>)
    ensures
        exists|chain: Seq<Seq<char>>|
            descending_from(canonical_path@, chain) && full_parent_walk(canonical_path@, chain)
                && r == first_known(chain, *map),
{
    let mut chain: Vec<String> = Vec::new();
    let mut dir = path_parent(canonical_path);
    loop
        invariant
            descending_from(canonical_path@, chain@.map_values(|s: String| s@)),
            dir matches Some(d) ==> proper_prefix(d@, canonical_path@) && (chain@.len() > 0
                ==> proper_prefix(d@, chain@.last()@)),
            forall|i: int|
                0 <= i < chain@.len() ==> starts_with_two_separators(
                    walk_prev(canonical_path@, chain@.map_values(|s: String| s@), i),
                ) || drops_one_component(
                    #[trigger] chain@[i]@,
                    walk_prev(canonical_path@, chain@.map_values(|s: String| s@), i),
                ),
            ({
                let last = walk_prev(
                    canonical_path@,
                    chain@.map_values(|s: String| s@),
                    chain@.len() as int,
                );
                &&& dir matches Some(d) ==> starts_with_two_separators(last) || drops_one_component(
                    d@,
                    last,
                )
                &&& dir is None ==> may_lack_parent(last)
            }),
        ensures
            dir is None,
        decreases
            (match dir {
                Some(d) => d@.len() + 1,
                None => 0,
            }),
    {
        match dir {
            None => {
                break;
            },
            Some(d) => {
                let next = path_parent(d.as_str());
                let ghost before = chain@;
                let ghost last_before = walk_prev(
                    canonical_path@,
                    before.map_values(|s: String| s@),
                    before.len() as int,
                );
                let ghost dv = d@;
                chain.push(d);
                proof {
                    let v = chain@.map_values(|s: String| s@);
                    let w = before.map_values(|s: String| s@);
                    assert(v.drop_last() =~= w);
                    assert(v[v.len() - 1] == dv);
                    assert forall|i: int| 0 < i < v.len() implies proper_prefix(
                        #[trigger] v[i],
                        v[i - 1],
                    ) by {
                        if i < v.len() - 1 {
                            assert(v[i] == w[i] && v[i - 1] == w[i - 1]);
                        } else {
                            assert(v[i - 1] == before.last()@);
                        }
                    }
                    assert forall|i: int| 0 <= i < v.len() implies proper_prefix(
                        #[trigger] v[i],
                        canonical_path@,
                    ) by {
                        if i < v.len() - 1 {
                            assert(v[i] == w[i]);
                        }
                    }
                    assert(walk_prev(canonical_path@, v, v.len() as int) == dv);
                    assert forall|i: int|
                        0 <= i < chain@.len() implies starts_with_two_separators(
                        walk_prev(canonical_path@, v, i),
                    ) || drops_one_component(#[trigger] chain@[i]@, walk_prev(canonical_path@, v, i)) by {
                        if i < v.len() - 1 {
                            assert(chain@[i] == before[i]);
                            assert(walk_prev(canonical_path@, v, i) == walk_prev(canonical_path@, w, i));
                        } else {
                            assert(walk_prev(canonical_path@, v, i) == last_before);
                        }
                    }
                    if next is Some {
                        let nd = next->0;
                        let x = nd@;
                        let c = canonical_path@;
                        assert(x == dv.take(x.len() as int));
                        assert(dv == c.take(dv.len() as int));
                        assert(x =~= c.take(x.len() as int));
                    }
                }
                dir = next;
            },
        }
    }
    proof {
        let v = chain@.map_values(|s: String| s@);
        assert forall|i: int|
            0 <= i < v.len() implies starts_with_two_separators(walk_prev(canonical_path@, v, i))
            || drops_one_component(#[trigger] v[i], walk_prev(canonical_path@, v, i)) by {
            assert(v[i] == chain@[i]@);
        }
    }
    nearest_folder_id(&chain, map)
}

} // verus!
