//! The command store: one writable tier of cached commands, with usage
//! statistics and the consent decision recorded for each name.
//!
//! The store is kept in memory. Every mutation hands back the file
//! operations that make the tier's directory agree with it: the script files
//! to write or delete, and a rewrite of the whole store document.

use crate::llm_generator::{
    clone_permissions, permissions_view, GeneratedCommand, GeneratedCommandView,
    PermissionRequest, PermissionRequestView,
};
use crate::providers::TimeProvider;
use vstd::prelude::*;

verus! {

/// The user's answer to a consent request.
#[derive(Debug, Clone, Copy, PartialEq, Eq, Structural)]
pub enum PermissionConsent {
    /// Run this time; ask again next time.
    AcceptOnce,
    /// Run now and later without asking.
    AcceptForever,
    /// Do not run; ask again next time.
    Denied,
}

/// A recorded consent decision: the permissions that were shown, the answer,
/// and when it was given.
#[derive(Debug)]
pub struct PermissionDecision {
    pub permissions: Vec<PermissionRequest>,
    pub consent: PermissionConsent,
    pub decided_at: u64,
}

pub ghost struct PermissionDecisionView {
    pub permissions: Seq<PermissionRequestView>,
    pub consent: PermissionConsent,
    pub decided_at: u64,
}

impl View for PermissionDecision {
    type V = PermissionDecisionView;

    open spec fn view(&self) -> PermissionDecisionView {
        PermissionDecisionView {
            permissions: permissions_view(self.permissions@),
            consent: self.consent,
            decided_at: self.decided_at,
        }
    }
}

impl Clone for PermissionDecision {
    fn clone(&self) -> (r: Self)
        ensures
            r@ == self@,
    {
        PermissionDecision {
            permissions: clone_permissions(&self.permissions),
            consent: self.consent,
            decided_at: self.decided_at,
        }
    }
}

pub open spec fn decision_view(d: Option<PermissionDecision>) -> Option<PermissionDecisionView> {
    match d {
        Some(d) => Some(d@),
        None => None,
    }
}

/// A stored command with its bookkeeping.
#[derive(Debug)]
pub struct CacheEntry {
    pub command: GeneratedCommand,
    pub created_at: u64,
    pub usage_count: u32,
    pub last_used: u64,
    pub permission_decision: Option<PermissionDecision>,
}

pub ghost struct CacheEntryView {
    pub command: GeneratedCommandView,
    pub created_at: u64,
    pub usage_count: u32,
    pub last_used: u64,
    pub permission_decision: Option<PermissionDecisionView>,
}

impl View for CacheEntry {
    type V = CacheEntryView;

    open spec fn view(&self) -> CacheEntryView {
        CacheEntryView {
            command: self.command@,
            created_at: self.created_at,
            usage_count: self.usage_count,
            last_used: self.last_used,
            permission_decision: decision_view(self.permission_decision),
        }
    }
}

impl Clone for CacheEntry {
    fn clone(&self) -> (r: Self)
        ensures
            r@ == self@,
    {
        let permission_decision = match &self.permission_decision {
            Some(d) => Some(d.clone()),
            None => None,
        };
        CacheEntry {
            command: self.command.clone(),
            created_at: self.created_at,
            usage_count: self.usage_count,
            last_used: self.last_used,
            permission_decision,
        }
    }
}

/// The consent policy: whether the user must be asked before `name` runs,
/// given what the store holds.
pub open spec fn needs_consent(store: Map<Seq<char>, CacheEntryView>, name: Seq<char>) -> bool {
    !(store.contains_key(name) && store[name].permission_decision is Some
        && store[name].permission_decision->Some_0.consent == PermissionConsent::AcceptForever)
}

// ---------------------------------------------------------------------------
// A map kept as a sequence of (key, value) pairs with distinct keys.
// ---------------------------------------------------------------------------

pub open spec fn keys_distinct<V>(s: Seq<(Seq<char>, V)>) -> bool {
    forall|i: int, j: int| 0 <= i < s.len() && 0 <= j < s.len() && i != j ==> s[i].0 != s[j].0
}

pub open spec fn has_key<V>(s: Seq<(Seq<char>, V)>, k: Seq<char>) -> bool {
    exists|i: int| 0 <= i < s.len() && s[i].0 == k
}

pub open spec fn key_index<V>(s: Seq<(Seq<char>, V)>, k: Seq<char>) -> int {
    choose|i: int| 0 <= i < s.len() && s[i].0 == k
}

/// The map that a sequence of pairs with distinct keys stands for.
pub open spec fn map_of<V>(s: Seq<(Seq<char>, V)>) -> Map<Seq<char>, V> {
    Map::new(|k: Seq<char>| has_key(s, k), |k: Seq<char>| s[key_index(s, k)].1)
}

proof fn lemma_map_of_index<V>(s: Seq<(Seq<char>, V)>, i: int)
    requires
        keys_distinct(s),
        0 <= i < s.len(),
    ensures
        map_of(s).contains_key(s[i].0),
        map_of(s)[s[i].0] == s[i].1,
{
    assert(has_key(s, s[i].0));
    let j = key_index(s, s[i].0);
    assert(s[j].0 == s[i].0);
}

proof fn lemma_map_of_push<V>(s: Seq<(Seq<char>, V)>, k: Seq<char>, v: V)
    requires
        keys_distinct(s),
        !has_key(s, k),
    ensures
        keys_distinct(s.push((k, v))),
        map_of(s.push((k, v))) == map_of(s).insert(k, v),
{
    let t = s.push((k, v));
    assert(keys_distinct(t));
    assert forall|key: Seq<char>| #[trigger] has_key(t, key) == (has_key(s, key) || key == k) by {
        if has_key(s, key) {
            let i = key_index(s, key);
            assert(t[i].0 == key);
        }
        if key == k {
            assert(t[s.len() as int].0 == k);
        }
        if has_key(t, key) {
            let i = key_index(t, key);
            if i < s.len() {
                assert(s[i].0 == key);
            }
        }
    }
    assert forall|key: Seq<char>| #[trigger] has_key(t, key) implies map_of(t)[key] == map_of(
        s,
    ).insert(k, v)[key] by {
        let i = key_index(t, key);
        if key == k {
            lemma_map_of_index(t, s.len() as int);
        } else {
            lemma_map_of_index(t, i);
            assert(i < s.len());
            assert(s[i] == t[i]);
            lemma_map_of_index(s, i);
        }
    }
    assert(map_of(t) =~= map_of(s).insert(k, v));
}

proof fn lemma_map_of_update<V>(s: Seq<(Seq<char>, V)>, i: int, v: V)
    requires
        keys_distinct(s),
        0 <= i < s.len(),
    ensures
        keys_distinct(s.update(i, (s[i].0, v))),
        map_of(s.update(i, (s[i].0, v))) == map_of(s).insert(s[i].0, v),
{
    let t = s.update(i, (s[i].0, v));
    let k = s[i].0;
    assert(keys_distinct(t));
    assert forall|key: Seq<char>| #[trigger] has_key(t, key) == has_key(s, key) by {
        if has_key(s, key) {
            let j = key_index(s, key);
            assert(t[j].0 == key);
        }
        if has_key(t, key) {
            let j = key_index(t, key);
            assert(s[j].0 == key);
        }
    }
    assert forall|key: Seq<char>| #[trigger] has_key(t, key) implies map_of(t)[key] == map_of(
        s,
    ).insert(k, v)[key] by {
        let j = key_index(t, key);
        lemma_map_of_index(t, j);
        if j != i {
            lemma_map_of_index(s, j);
        }
    }
    assert(map_of(s).contains_key(k)) by {
        lemma_map_of_index(s, i);
    }
    assert(map_of(t) =~= map_of(s).insert(k, v));
}

proof fn lemma_map_of_remove<V>(s: Seq<(Seq<char>, V)>, i: int)
    requires
        keys_distinct(s),
        0 <= i < s.len(),
    ensures
        keys_distinct(s.remove(i)),
        map_of(s.remove(i)) == map_of(s).remove(s[i].0),
{
    let t = s.remove(i);
    let k = s[i].0;
    assert(forall|j: int| 0 <= j < t.len() ==> #[trigger] t[j] == if j < i { s[j] } else { s[j + 1] });
    assert(keys_distinct(t));
    assert forall|key: Seq<char>| #[trigger] has_key(t, key) == (has_key(s, key) && key != k) by {
        if has_key(s, key) && key != k {
            let j = key_index(s, key);
            if j < i {
                assert(t[j].0 == key);
            } else {
                assert(j != i);
                assert(t[j - 1].0 == key);
            }
        }
        if has_key(t, key) {
            let j = key_index(t, key);
            if j < i {
                assert(s[j].0 == key);
            } else {
                assert(s[j + 1].0 == key);
            }
        }
    }
    assert forall|key: Seq<char>| #[trigger] has_key(t, key) implies map_of(t)[key] == map_of(
        s,
    ).remove(k)[key] by {
        let j = key_index(t, key);
        lemma_map_of_index(t, j);
        if j < i {
            lemma_map_of_index(s, j);
        } else {
            lemma_map_of_index(s, j + 1);
        }
    }
    assert(map_of(t) =~= map_of(s).remove(k));
}

// ---------------------------------------------------------------------------
// Paths, errors and the actions handed out by the store.
// ---------------------------------------------------------------------------

/// `file` placed inside `dir`, the way a path is joined from a directory and
/// a relative name.
pub open spec fn path_join(dir: Seq<char>, file: Seq<char>) -> Seq<char> {
    if dir.len() == 0 {
        file
    } else if dir.last() == '/' {
        dir + file
    } else {
        dir + seq!['/'] + file
    }
}

/// Joins a directory and a relative file name.
pub fn join_path(dir: &str, file: &str) -> (r: String)
    ensures
        r@ == path_join(dir@, file@),
{
    let n = dir.unicode_len();
    if n == 0 {
        return String::from_str(file);
    }
    let mut r = String::from_str(dir);
    if dir.get_char(n - 1) != '/' {
        r.append("/");
        proof {
            reveal_strlit("/");
        }
    }
    r.append(file);
    r
}

/// The name of the store document inside a tier directory.
pub open spec fn document_file() -> Seq<char> {
    "commands.json"@
}

/// The script file name under which a command is stored.
pub open spec fn script_file_for(name: Seq<char>) -> Seq<char> {
    name + ".ts"@
}

/// Why a store operation could not be carried out.
#[derive(Debug)]
pub enum CacheError {
    /// No cache tier could be found, not even under the home directory.
    NoHomeDirectory,
    /// No tier holds the script file.
    ScriptNotFound { script_file: String },
    /// Reading or writing a tier failed.
    Io { message: String },
}

/// A file operation that brings the write tier's directory in line with the
/// store.
#[derive(Debug)]
pub enum StoreAction {
    /// Write `content` to the script file at `path`.
    WriteScript { path: String, content: String },
    /// Delete the script file at `path`, if it exists.
    RemoveScript { path: String },
    /// Rewrite the store document at `path` from the store's entries.
    WriteDocument { path: String },
}

pub ghost enum StoreActionView {
    WriteScript { path: Seq<char>, content: Seq<char> },
    RemoveScript { path: Seq<char> },
    WriteDocument { path: Seq<char> },
}

impl View for StoreAction {
    type V = StoreActionView;

    open spec fn view(&self) -> StoreActionView {
        match self {
            StoreAction::WriteScript { path, content } => StoreActionView::WriteScript {
                path: path@,
                content: content@,
            },
            StoreAction::RemoveScript { path } => StoreActionView::RemoveScript { path: path@ },
            StoreAction::WriteDocument { path } => StoreActionView::WriteDocument { path: path@ },
        }
    }
}

pub open spec fn actions_view(a: Seq<StoreAction>) -> Seq<StoreActionView> {
    a.map_values(|x: StoreAction| x@)
}

/// Where the other cache tiers are searched, nearest first.
///
/// The store consults it for names and scripts that the write tier does not
/// hold.
pub trait CachePathResolver {
    /// The directory of the writable tier.
    fn get_write_dir(&self) -> Result<String, CacheError>;

    /// The command stored under `name` in the first tier that has one.
    fn find_command(&self, name: &str) -> Result<Option<GeneratedCommand>, CacheError>;

    /// The content of `script_file` in the first tier that has it.
    fn find_script(&self, script_file: &str) -> Result<Option<String>, CacheError>;
}

/// Turns the outcome of a script search over the tiers into the script's
/// content, or `ScriptNotFound` when no tier has it.
pub fn script_from_lookup(lookup: Result<Option<String>, CacheError>, script_file: &str) -> (r:
    Result<String, CacheError>)
    ensures
        lookup matches Ok(Some(c)) ==> (r matches Ok(s) && s@ == c@),
        lookup matches Ok(None) ==> (r matches Err(CacheError::ScriptNotFound { script_file: f })
            && f@ == script_file@),
        lookup matches Err(e) ==> (r matches Err(e2) && e2 == e),
{
    match lookup {
        Ok(Some(content)) => Ok(content),
        Ok(None) => Err(CacheError::ScriptNotFound { script_file: String::from_str(script_file) }),
        Err(e) => Err(e),
    }
}

// ---------------------------------------------------------------------------
// The cache tiers.
// ---------------------------------------------------------------------------

/// The cache directory that a directory holding the marker folder provides.
pub open spec fn tier_of(dir: Seq<char>) -> Seq<char> {
    path_join(path_join(dir, ".abiogenesis"@), "biomas"@)
}

/// The tiers found on a walk toward the root: the cache directory of each
/// visited directory that holds the marker folder, nearest first.
pub open spec fn marked_tiers(walk: Seq<(Seq<char>, bool)>) -> Seq<Seq<char>>
    decreases walk.len(),
{
    if walk.len() == 0 {
        Seq::empty()
    } else {
        let rest = marked_tiers(walk.drop_last());
        if walk.last().1 {
            rest.push(tier_of(walk.last().0))
        } else {
            rest
        }
    }
}

/// All tiers, nearest first: those found on the walk, then the home
/// directory's one unless the walk already found it.
pub open spec fn all_tiers(walk: Seq<(Seq<char>, bool)>, home: Option<Seq<char>>) -> Seq<Seq<char>> {
    let found = marked_tiers(walk);
    match home {
        Some(h) => if found.contains(tier_of(h)) {
            found
        } else {
            found.push(tier_of(h))
        },
        None => found,
    }
}

/// Finds the cache tiers from the directories on the way from the current
/// directory to the root, and the home directory.
pub struct HierarchyPathResolver;

impl HierarchyPathResolver {
    pub fn new() -> (r: Self)
        ensures
            r == HierarchyPathResolver,
    {
        HierarchyPathResolver
    }

    /// The tiers, nearest first. `walk` lists the directories from the
    /// current one up to the root, each with whether it holds the marker
    /// folder; `home` is the home directory, if there is one.
    pub fn cache_dirs(&self, walk: &Vec<(String, bool)>, home: Option<&str>) -> (r: Vec<String>)
        ensures
            r@.map_values(|d: String| d@) == all_tiers(
                walk@.map_values(|p: (String, bool)| (p.0@, p.1)),
                match home {
                    Some(h) => Some(h@),
                    None => None,
                },
            ),
    {
        let ghost wv = walk@.map_values(|p: (String, bool)| (p.0@, p.1));
        let mut dirs: Vec<String> = Vec::new();
        let mut i: usize = 0;
        while i < walk.len()
            invariant
                i <= walk@.len(),
                wv == walk@.map_values(|p: (String, bool)| (p.0@, p.1)),
                dirs@.map_values(|d: String| d@) == marked_tiers(wv.subrange(0, i as int)),
            decreases walk.len() - i,
        {
            proof {
                assert(wv.subrange(0, i + 1).drop_last() =~= wv.subrange(0, i as int));
            }
            if walk[i].1 {
                let tier = tier_dir(walk[i].0.as_str());
                let ghost before = dirs@;
                dirs.push(tier);
                proof {
                    assert(dirs@.map_values(|d: String| d@) =~= before.map_values(|d: String| d@).push(
                        tier@,
                    ));
                }
            }
            i = i + 1;
        }
        proof {
            assert(wv.subrange(0, wv.len() as int) =~= wv);
        }
        if let Some(h) = home {
            let home_tier = tier_dir(h);
            let mut found = false;
            let mut j: usize = 0;
            while j < dirs.len()
                invariant
                    j <= dirs@.len(),
                    found == exists|k: int| 0 <= k < j && dirs@[k]@ == home_tier@,
                decreases dirs.len() - j,
            {
                if dirs[j] == home_tier {
                    found = true;
                }
                j = j + 1;
            }
            let ghost dv = dirs@.map_values(|d: String| d@);
            proof {
                if found {
                    let k = choose|k: int| 0 <= k < dirs@.len() && dirs@[k]@ == home_tier@;
                    assert(dv[k] == home_tier@);
                } else {
                    assert forall|k: int| 0 <= k < dv.len() implies dv[k] != home_tier@ by {
                        assert(dv[k] == dirs@[k]@);
                    }
                }
            }
            if !found {
                dirs.push(home_tier);
                proof {
                    assert(dirs@.map_values(|d: String| d@) =~= dv.push(home_tier@));
                }
            }
        }
        dirs
    }

    /// The write tier: the nearest one. `NoHomeDirectory` when there is
    /// none at all.
    pub fn write_dir(&self, tiers: &Vec<String>) -> (r: Result<String, CacheError>)
        ensures
            tiers@.len() > 0 ==> (r matches Ok(d) && d@ == tiers@[0]@),
            tiers@.len() == 0 ==> (r matches Err(CacheError::NoHomeDirectory)),
    {
        if tiers.len() > 0 {
            Ok(tiers[0].clone())
        } else {
            Err(CacheError::NoHomeDirectory)
        }
    }
}

impl Default for HierarchyPathResolver {
    fn default() -> (r: Self)
        ensures
            r == HierarchyPathResolver,
    {
        HierarchyPathResolver::new()
    }
}

/// The command filed under `name` in the entries of one tier's store
/// document: that of the first entry of that name, if any.
pub fn command_in_document(entries: &Vec<(String, CacheEntry)>, name: &str) -> (r: Option<
    GeneratedCommand,
>)
    ensures
        r matches Some(c) ==> exists|i: int|
            0 <= i < entries@.len() && entries@[i].0@ == name@ && c@ == entries@[i].1.command@
                && forall|j: int| 0 <= j < i ==> entries@[j].0@ != name@,
        r is None ==> forall|i: int| 0 <= i < entries@.len() ==> entries@[i].0@ != name@,
{
    let key = String::from_str(name);
    let mut i: usize = 0;
    while i < entries.len()
        invariant
            i <= entries@.len(),
            key@ == name@,
            forall|j: int| 0 <= j < i ==> entries@[j].0@ != name@,
        decreases entries.len() - i,
    {
        if entries[i].0 == key {
            return Some(entries[i].1.command.clone());
        }
        i = i + 1;
    }
    None
}

/// The cache directory inside `dir`.
fn tier_dir(dir: &str) -> (r: String)
    ensures
        r@ == tier_of(dir@),
{
    let marker = join_path(dir, ".abiogenesis");
    join_path(marker.as_str(), "biomas")
}

// ---------------------------------------------------------------------------
// What each mutation of the store does, over the store's map `m0` before and
// `m1` after, the write tier's directory `dir`, and the file operations `a`
// it hands back.
// ---------------------------------------------------------------------------

/// `store(name, command, content)`: the entry under `name` is a fresh one for
/// `command`; the script is written, then the store document.
pub open spec fn stored(
    m0: Map<Seq<char>, CacheEntryView>,
    m1: Map<Seq<char>, CacheEntryView>,
    dir: Seq<char>,
    name: Seq<char>,
    command: GeneratedCommandView,
    content: Seq<char>,
    a: Seq<StoreActionView>,
) -> bool {
    &&& m1.contains_key(name)
    &&& fresh_entry(name, command, m1[name])
    &&& m1 == m0.insert(name, m1[name])
    &&& a == seq![
        StoreActionView::WriteScript { path: path_join(dir, script_file_for(name)), content },
        StoreActionView::WriteDocument { path: path_join(dir, document_file()) },
    ]
}

/// `update_usage(name)`: one more use, and a new last-use stamp, for a name
/// of the write tier; nothing at all for any other name.
pub open spec fn used(
    m0: Map<Seq<char>, CacheEntryView>,
    m1: Map<Seq<char>, CacheEntryView>,
    dir: Seq<char>,
    name: Seq<char>,
    a: Seq<StoreActionView>,
) -> bool {
    if m0.contains_key(name) {
        &&& m1.contains_key(name)
        &&& m1 == m0.insert(
            name,
            CacheEntryView {
                usage_count: next_count(m0[name].usage_count),
                last_used: m1[name].last_used,
                ..m0[name]
            },
        )
        &&& a == seq![StoreActionView::WriteDocument { path: path_join(dir, document_file()) }]
    } else {
        m1 == m0 && a.len() == 0
    }
}

/// `set_permission_decision(name, d)`: `d` replaces the decision of a name
/// of the write tier; nothing at all for any other name.
pub open spec fn decided(
    m0: Map<Seq<char>, CacheEntryView>,
    m1: Map<Seq<char>, CacheEntryView>,
    dir: Seq<char>,
    name: Seq<char>,
    d: PermissionDecisionView,
    a: Seq<StoreActionView>,
) -> bool {
    if m0.contains_key(name) {
        &&& m1 == m0.insert(name, CacheEntryView { permission_decision: Some(d), ..m0[name] })
        &&& a == seq![StoreActionView::WriteDocument { path: path_join(dir, document_file()) }]
    } else {
        m1 == m0 && a.len() == 0
    }
}

/// `remove(name)`: the entry is gone; when there was one, its script file
/// is deleted and the store document rewritten.
pub open spec fn removed(
    m0: Map<Seq<char>, CacheEntryView>,
    m1: Map<Seq<char>, CacheEntryView>,
    dir: Seq<char>,
    name: Seq<char>,
    was_there: bool,
    a: Seq<StoreActionView>,
) -> bool {
    &&& was_there == m0.contains_key(name)
    &&& m1 == m0.remove(name)
    &&& was_there ==> a == seq![
        StoreActionView::RemoveScript { path: path_join(dir, m0[name].command.script_file) },
        StoreActionView::WriteDocument { path: path_join(dir, document_file()) },
    ]
    &&& !was_there ==> a.len() == 0
}

/// `clear()`: the store is empty; every entry's script file is deleted, then
/// the store document rewritten.
pub open spec fn cleared(
    m0: Map<Seq<char>, CacheEntryView>,
    m1: Map<Seq<char>, CacheEntryView>,
    dir: Seq<char>,
    a: Seq<StoreActionView>,
) -> bool {
    &&& m1 == Map::<Seq<char>, CacheEntryView>::empty()
    &&& a.len() == m0.len() + 1
    &&& forall|k: Seq<char>| #[trigger]
        m0.contains_key(k) ==> exists|i: int|
            0 <= i < a.len() - 1 && a[i] == (StoreActionView::RemoveScript {
                path: path_join(dir, m0[k].command.script_file),
            })
    &&& forall|i: int| 0 <= i < a.len() - 1 ==> ((#[trigger] a[i]) is RemoveScript)
    &&& a[a.len() - 1] == (StoreActionView::WriteDocument { path: path_join(dir, document_file()) })
}

// ---------------------------------------------------------------------------
// The store.
// ---------------------------------------------------------------------------

/// The write tier of the command cache, held in memory.
///
/// Names are unique. Reads fall back to the other tiers through the path
/// resolver; writes only ever touch the write tier.
pub struct CommandCache<R: CachePathResolver, T: TimeProvider> {
    write_cache_dir: String,
    write_cache: Vec<(String, CacheEntry)>,
    path_resolver: Box<R>,
    time_provider: Box<T>,
}

pub open spec fn pairs_view(s: Seq<(String, CacheEntry)>) -> Seq<(Seq<char>, CacheEntryView)> {
    s.map_values(|p: (String, CacheEntry)| (p.0@, p.1@))
}

/// The entries of a store document read in order, a later one replacing an
/// earlier one of the same name.
pub open spec fn document_map(s: Seq<(Seq<char>, CacheEntryView)>) -> Map<
    Seq<char>,
    CacheEntryView,
>
    decreases s.len(),
{
    if s.len() == 0 {
        Map::empty()
    } else {
        document_map(s.drop_last()).insert(s.last().0, s.last().1)
    }
}

/// What `store` files under `name` for `command`: the command with its
/// script file named after `name`, unused, with no consent decision, created
/// and last used at the same instant.
pub open spec fn fresh_entry(name: Seq<char>, command: GeneratedCommandView, e: CacheEntryView) -> bool {
    &&& e.command == GeneratedCommandView { script_file: script_file_for(name), ..command }
    &&& e.usage_count == 0
    &&& e.created_at == e.last_used
    &&& e.permission_decision is None
}

/// One more use, stopping at the counter's largest value.
pub open spec fn next_count(n: u32) -> u32 {
    if n < u32::MAX {
        (n + 1) as u32
    } else {
        n
    }
}

impl<R: CachePathResolver, T: TimeProvider> View for CommandCache<R, T> {
    type V = Map<Seq<char>, CacheEntryView>;

    closed spec fn view(&self) -> Map<Seq<char>, CacheEntryView> {
        map_of(pairs_view(self.write_cache@))
    }
}

impl<R: CachePathResolver, T: TimeProvider> CommandCache<R, T> {
    /// Names are unique in the write tier.
    pub closed spec fn wf(&self) -> bool {
        keys_distinct(pairs_view(self.write_cache@))
    }

    /// The directory of the write tier.
    pub closed spec fn write_dir(&self) -> Seq<char> {
        self.write_cache_dir@
    }

    /// The path of the store document in the write tier.
    pub open spec fn document_path(&self) -> Seq<char> {
        path_join(self.write_dir(), document_file())
    }

    /// Opens the write tier at `write_cache_dir` with the entries read from
    /// its store document. `None` stands for a document that is missing or
    /// could not be parsed: the store then starts empty.
    pub fn with_providers(
        path_resolver: Box<R>,
        time_provider: Box<T>,
        write_cache_dir: String,
        document: Option<Vec<(String, CacheEntry)>>,
    ) -> (r: Self)
        ensures
            r.wf(),
            r.write_dir() == write_cache_dir@,
            document is None ==> r@ == Map::<Seq<char>, CacheEntryView>::empty(),
            document matches Some(d) ==> r@ == document_map(pairs_view(d@)),
    {
        let mut cache = CommandCache {
            write_cache_dir,
            write_cache: Vec::new(),
            path_resolver,
            time_provider,
        };
        proof {
            assert(pairs_view(cache.write_cache@) =~= Seq::empty());
            assert(cache@ =~= Map::<Seq<char>, CacheEntryView>::empty());
        }
        if let Some(d) = document {
            let mut i: usize = 0;
            while i < d.len()
                invariant
                    i <= d.len(),
                    cache.wf(),
                    cache.write_dir() == write_cache_dir@,
                    cache@ == document_map(pairs_view(d@).subrange(0, i as int)),
                decreases d.len() - i,
            {
                let name = d[i].0.clone();
                let entry = d[i].1.clone();
                cache.insert_entry(name, entry);
                proof {
                    let pv = pairs_view(d@);
                    assert(pv.subrange(0, i + 1).drop_last() =~= pv.subrange(0, i as int));
                }
                i = i + 1;
            }
            proof {
                assert(pairs_view(d@).subrange(0, d@.len() as int) =~= pairs_view(d@));
            }
        }
        cache
    }

    /// The position of `name` in the write tier, if it is there.
    fn find_index(&self, name: &str) -> (r: Option<usize>)
        ensures
            r matches Some(i) ==> i < self.write_cache@.len() && self.write_cache@[i as int].0@
                == name@,
            r is None ==> !has_key(pairs_view(self.write_cache@), name@),
    {
        let key = String::from_str(name);
        let mut i: usize = 0;
        while i < self.write_cache.len()
            invariant
                i <= self.write_cache@.len(),
                key@ == name@,
                forall|j: int| 0 <= j < i ==> self.write_cache@[j].0@ != name@,
            decreases self.write_cache.len() - i,
        {
            if self.write_cache[i].0 == key {
                return Some(i);
            }
            i = i + 1;
        }
        proof {
            let pv = pairs_view(self.write_cache@);
            if has_key(pv, name@) {
                let j = key_index(pv, name@);
                assert(pv[j].0 == self.write_cache@[j].0@);
            }
        }
        None
    }

    proof fn lemma_lookup(&self, i: int)
        requires
            keys_distinct(pairs_view(self.write_cache@)),
            0 <= i < self.write_cache@.len(),
        ensures
            self@.contains_key(self.write_cache@[i].0@),
            self@[self.write_cache@[i].0@] == self.write_cache@[i].1@,
    {
        lemma_map_of_index(pairs_view(self.write_cache@), i);
    }

    /// Files `entry` under `name`, replacing what was there.
    fn insert_entry(&mut self, name: String, entry: CacheEntry)
        requires
            old(self).wf(),
        ensures
            final(self).wf(),
            final(self)@ == old(self)@.insert(name@, entry@),
            final(self).write_dir() == old(self).write_dir(),
    {
        let ghost pv = pairs_view(self.write_cache@);
        let ghost k = name@;
        let ghost v = entry@;
        match self.find_index(name.as_str()) {
            Some(i) => {
                self.write_cache[i] = (name, entry);
                proof {
                    lemma_map_of_update(pv, i as int, v);
                    assert(pairs_view(self.write_cache@) =~= pv.update(i as int, (pv[i as int].0, v)));
                }
            },
            None => {
                self.write_cache.push((name, entry));
                proof {
                    lemma_map_of_push(pv, k, v);
                    assert(pairs_view(self.write_cache@) =~= pv.push((k, v)));
                }
            },
        }
    }

    /// Looks `name` up: first in the write tier, then through the resolver in
    /// the other tiers. A name held by the write tier shadows every other
    /// tier.
    pub fn get_command(&self, name: &str) -> (r: Result<Option<GeneratedCommand>, CacheError>)
        requires
            self.wf(),
        ensures
            self@.contains_key(name@) ==> (r matches Ok(Some(c)) && c@ == self@[name@].command),
    {
        match self.find_index(name) {
            Some(i) => {
                proof {
                    self.lemma_lookup(i as int);
                }
                Ok(Some(self.write_cache[i].1.command.clone()))
            },
            None => self.path_resolver.find_command(name),
        }
    }

    /// The content of `command`'s script file, from the first tier that has
    /// it; `ScriptNotFound` when none does.
    pub fn get_script_content(&self, command: &GeneratedCommand) -> Result<String, CacheError> {
        let lookup = self.path_resolver.find_script(command.script_file.as_str());
        script_from_lookup(lookup, command.script_file.as_str())
    }

    /// Stores `command` under `name`, with `script_content` as its script,
    /// replacing any entry of that name (and so its consent decision).
    ///
    /// Hands back the writes that persist it: the script file, then the
    /// store document.
    pub fn store_command(&mut self, name: &str, command: &GeneratedCommand, script_content: &str) -> (r:
        Vec<StoreAction>)
        requires
            old(self).wf(),
        ensures
            final(self).wf(),
            final(self).write_dir() == old(self).write_dir(),
            stored(
                old(self)@,
                final(self)@,
                old(self).write_dir(),
                name@,
                command@,
                script_content@,
                actions_view(r@),
            ),
    {
        let now = self.time_provider.now();
        let mut script_filename = String::from_str(name);
        script_filename.append(".ts");
        let script_path = join_path(self.write_cache_dir.as_str(), script_filename.as_str());
        let entry = CacheEntry {
            command: GeneratedCommand {
                name: command.name.clone(),
                description: command.description.clone(),
                script_file: script_filename,
                permissions: clone_permissions(&command.permissions),
            },
            created_at: now,
            usage_count: 0,
            last_used: now,
            permission_decision: None,
        };
        self.insert_entry(String::from_str(name), entry);
        let mut actions: Vec<StoreAction> = Vec::new();
        actions.push(StoreAction::WriteScript { path: script_path, content: String::from_str(script_content) });
        actions.push(StoreAction::WriteDocument { path: self.document_path_exec() });
        proof {
            assert(actions_view(actions@) =~= seq![
                StoreActionView::WriteScript {
                    path: path_join(old(self).write_dir(), script_file_for(name@)),
                    content: script_content@,
                },
                StoreActionView::WriteDocument { path: old(self).document_path() },
            ]);
            reveal_strlit("commands.json");
        }
        actions
    }

    /// The path of the store document in the write tier.
    pub fn document_path_exec(&self) -> (r: String)
        ensures
            r@ == self.document_path(),
    {
        join_path(self.write_cache_dir.as_str(), "commands.json")
    }

    /// Counts one more use of `name` and stamps its last use, if the write
    /// tier holds it. A name found only in another tier is left alone.
    pub fn update_usage(&mut self, name: &str) -> (r: Vec<StoreAction>)
        requires
            old(self).wf(),
        ensures
            final(self).wf(),
            final(self).write_dir() == old(self).write_dir(),
            used(old(self)@, final(self)@, old(self).write_dir(), name@, actions_view(r@)),
    {
        match self.find_index(name) {
            Some(i) => {
                proof {
                    self.lemma_lookup(i as int);
                }
                let now = self.time_provider.now();
                let mut entry = self.write_cache[i].1.clone();
                entry.usage_count = if entry.usage_count < u32::MAX {
                    entry.usage_count + 1
                } else {
                    entry.usage_count
                };
                entry.last_used = now;
                self.insert_entry(String::from_str(name), entry);
                let mut actions: Vec<StoreAction> = Vec::new();
                actions.push(StoreAction::WriteDocument { path: self.document_path_exec() });
                proof {
                    assert(actions_view(actions@) =~= seq![StoreActionView::WriteDocument { path: old(self).document_path() }]);
                }
                actions
            },
            None => Vec::new(),
        }
    }

    /// Records `decision` for `name`, replacing any earlier one, if the write
    /// tier holds `name`.
    pub fn set_permission_decision(&mut self, name: &str, decision: PermissionDecision) -> (r: Vec<
        StoreAction,
    >)
        requires
            old(self).wf(),
        ensures
            final(self).wf(),
            final(self).write_dir() == old(self).write_dir(),
            decided(
                old(self)@,
                final(self)@,
                old(self).write_dir(),
                name@,
                decision@,
                actions_view(r@),
            ),
    {
        match self.find_index(name) {
            Some(i) => {
                proof {
                    self.lemma_lookup(i as int);
                }
                let mut entry = self.write_cache[i].1.clone();
                entry.permission_decision = Some(decision);
                self.insert_entry(String::from_str(name), entry);
                let mut actions: Vec<StoreAction> = Vec::new();
                actions.push(StoreAction::WriteDocument { path: self.document_path_exec() });
                proof {
                    assert(actions_view(actions@) =~= seq![StoreActionView::WriteDocument { path: old(self).document_path() }]);
                }
                actions
            },
            None => Vec::new(),
        }
    }

    /// The consent decision recorded for `name` in the write tier.
    pub fn get_permission_decision(&self, name: &str) -> (r: Option<&PermissionDecision>)
        requires
            self.wf(),
        ensures
            r matches Some(d) ==> (self@.contains_key(name@) && self@[name@].permission_decision
                == Some(d@)),
            r is None ==> !self@.contains_key(name@) || self@[name@].permission_decision is None,
    {
        match self.find_index(name) {
            Some(i) => {
                proof {
                    self.lemma_lookup(i as int);
                }
                match &self.write_cache[i].1.permission_decision {
                    Some(d) => Some(d),
                    None => None,
                }
            },
            None => None,
        }
    }

    /// Whether the user must be asked before `name` runs: always, unless the
    /// recorded answer is `AcceptForever`.
    pub fn needs_permission_consent(&self, name: &str) -> (r: bool)
        requires
            self.wf(),
        ensures
            r == needs_consent(self@, name@),
    {
        match self.get_permission_decision(name) {
            None => true,
            Some(decision) => match decision.consent {
                PermissionConsent::AcceptOnce => true,
                PermissionConsent::AcceptForever => false,
                PermissionConsent::Denied => true,
            },
        }
    }

    /// Deletes `name` from the write tier. Answers whether there was such an
    /// entry, with the file operations: the entry's script file and the
    /// store document.
    pub fn remove_command(&mut self, name: &str) -> (r: (bool, Vec<StoreAction>))
        requires
            old(self).wf(),
        ensures
            final(self).wf(),
            final(self).write_dir() == old(self).write_dir(),
            removed(
                old(self)@,
                final(self)@,
                old(self).write_dir(),
                name@,
                r.0,
                actions_view(r.1@),
            ),
    {
        match self.find_index(name) {
            Some(i) => {
                let ghost pv = pairs_view(self.write_cache@);
                proof {
                    self.lemma_lookup(i as int);
                    lemma_map_of_remove(pv, i as int);
                }
                let (_, entry) = self.write_cache.remove(i);
                proof {
                    assert(pairs_view(self.write_cache@) =~= pv.remove(i as int));
                }
                let mut actions: Vec<StoreAction> = Vec::new();
                actions.push(
                    StoreAction::RemoveScript {
                        path: join_path(self.write_cache_dir.as_str(), entry.command.script_file.as_str()),
                    },
                );
                actions.push(StoreAction::WriteDocument { path: self.document_path_exec() });
                proof {
                    assert(actions_view(actions@) =~= seq![
                        StoreActionView::RemoveScript {
                            path: path_join(old(self).write_dir(), old(self)@[name@].command.script_file),
                        },
                        StoreActionView::WriteDocument { path: old(self).document_path() },
                    ]);
                }
                (true, actions)
            },
            None => {
                proof {
                    assert(old(self)@.remove(name@) =~= old(self)@);
                }
                (false, Vec::new())
            },
        }
    }

    /// Empties the write tier. Hands back the deletion of every entry's
    /// script file, then the rewrite of the store document.
    pub fn clear_cache(&mut self) -> (r: Vec<StoreAction>)
        requires
            old(self).wf(),
        ensures
            final(self).wf(),
            final(self).write_dir() == old(self).write_dir(),
            cleared(old(self)@, final(self)@, old(self).write_dir(), actions_view(r@)),
    {
        let ghost pv = pairs_view(self.write_cache@);
        proof {
            lemma_distinct_len(pv);
        }
        let mut actions: Vec<StoreAction> = Vec::new();
        let mut i: usize = 0;
        while i < self.write_cache.len()
            invariant
                self == old(self),
                i <= self.write_cache@.len(),
                actions@.len() == i,
                forall|j: int|
                    0 <= j < i ==> (#[trigger] actions@[j])@ == (StoreActionView::RemoveScript {
                        path: path_join(self.write_dir(), self.write_cache@[j].1.command.script_file@),
                    }),
            decreases self.write_cache.len() - i,
        {
            actions.push(
                StoreAction::RemoveScript {
                    path: join_path(
                        self.write_cache_dir.as_str(),
                        self.write_cache[i].1.command.script_file.as_str(),
                    ),
                },
            );
            i = i + 1;
        }
        self.write_cache.clear();
        proof {
            assert(pairs_view(self.write_cache@) =~= Seq::empty());
            assert(self@ =~= Map::<Seq<char>, CacheEntryView>::empty());
        }
        actions.push(StoreAction::WriteDocument { path: self.document_path_exec() });
        proof {
            reveal_strlit("commands.json");
            let av = actions_view(actions@);
            assert forall|k: Seq<char>| #[trigger] old(self)@.contains_key(k) implies exists|j: int|
                0 <= j < av.len() - 1 && av[j] == (StoreActionView::RemoveScript {
                    path: path_join(old(self).write_dir(), old(self)@[k].command.script_file),
                }) by {
                let j = key_index(pv, k);
                old(self).lemma_lookup(j);
                assert(av[j] == (StoreActionView::RemoveScript {
                    path: path_join(old(self).write_dir(), old(self)@[k].command.script_file),
                }));
            }
        }
        actions
    }

    /// Every entry of the write tier: its name, its command and its consent
    /// decision.
    pub fn list_commands(&self) -> (r: Vec<(String, GeneratedCommand, Option<PermissionDecision>)>)
        requires
            self.wf(),
        ensures
            r@.len() == self@.len(),
            forall|i: int|
                #![trigger r@[i]]
                0 <= i < r@.len() ==> {
                    &&& self@.contains_key(r@[i].0@)
                    &&& r@[i].1@ == self@[r@[i].0@].command
                    &&& decision_view(r@[i].2) == self@[r@[i].0@].permission_decision
                },
            forall|i: int, j: int|
                0 <= i < r@.len() && 0 <= j < r@.len() && i != j ==> r@[i].0@ != r@[j].0@,
    {
        proof {
            lemma_distinct_len(pairs_view(self.write_cache@));
        }
        let mut r: Vec<(String, GeneratedCommand, Option<PermissionDecision>)> = Vec::new();
        let mut i: usize = 0;
        while i < self.write_cache.len()
            invariant
                self.wf(),
                i <= self.write_cache@.len(),
                r@.len() == i,
                forall|j: int|
                    #![trigger r@[j]]
                    0 <= j < i ==> r@[j].0@ == self.write_cache@[j].0@ && r@[j].1@
                        == self.write_cache@[j].1.command@ && decision_view(r@[j].2)
                        == decision_view(self.write_cache@[j].1.permission_decision),
            decreases self.write_cache.len() - i,
        {
            let entry = &self.write_cache[i].1;
            let decision = match &entry.permission_decision {
                Some(d) => Some(d.clone()),
                None => None,
            };
            r.push((self.write_cache[i].0.clone(), entry.command.clone(), decision));
            i = i + 1;
        }
        proof {
            assert forall|j: int| #![trigger r@[j]] 0 <= j < r@.len() implies {
                &&& self@.contains_key(r@[j].0@)
                &&& r@[j].1@ == self@[r@[j].0@].command
                &&& decision_view(r@[j].2) == self@[r@[j].0@].permission_decision
            } by {
                self.lemma_lookup(j);
            }
            assert forall|a: int, b: int|
                0 <= a < r@.len() && 0 <= b < r@.len() && a != b implies r@[a].0@ != r@[b].0@ by {
                let pv = pairs_view(self.write_cache@);
                assert(pv[a].0 == r@[a].0@);
                assert(pv[b].0 == r@[b].0@);
            }
        }
        r
    }

    /// The names held by the write tier.
    pub fn list_cached_commands(&self) -> (r: Vec<String>)
        requires
            self.wf(),
        ensures
            r@.len() == self@.len(),
            forall|i: int| 0 <= i < r@.len() ==> self@.contains_key((#[trigger] r@[i])@),
            forall|k: Seq<char>| #[trigger]
                self@.contains_key(k) ==> exists|i: int| 0 <= i < r@.len() && r@[i]@ == k,
    {
        proof {
            lemma_distinct_len(pairs_view(self.write_cache@));
        }
        let mut r: Vec<String> = Vec::new();
        let mut i: usize = 0;
        while i < self.write_cache.len()
            invariant
                i <= self.write_cache@.len(),
                r@.len() == i,
                forall|j: int| 0 <= j < i ==> (#[trigger] r@[j])@ == self.write_cache@[j].0@,
            decreases self.write_cache.len() - i,
        {
            r.push(self.write_cache[i].0.clone());
            i = i + 1;
        }
        proof {
            let pv = pairs_view(self.write_cache@);
            assert forall|j: int| 0 <= j < r@.len() implies self@.contains_key((#[trigger] r@[j])@) by {
                self.lemma_lookup(j);
            }
            assert forall|k: Seq<char>| #[trigger] self@.contains_key(k) implies exists|j: int|
                0 <= j < r@.len() && r@[j]@ == k by {
                let j = key_index(pv, k);
                assert(r@[j]@ == k);
            }
        }
        r
    }

    /// The entries of the write tier, in the order the store keeps them;
    /// this is what the store document holds.
    pub fn entries(&self) -> (r: &Vec<(String, CacheEntry)>)
        requires
            self.wf(),
        ensures
            keys_distinct(pairs_view(r@)),
            map_of(pairs_view(r@)) == self@,
    {
        &self.write_cache
    }

    /// The entries of the write tier as pairs, in the order the store keeps
    /// them.
    pub closed spec fn entry_seq(&self) -> Seq<(Seq<char>, CacheEntryView)> {
        pairs_view(self.write_cache@)
    }

    /// The order in which the store keeps its entries lists each name once
    /// and stands for the store's map.
    pub proof fn lemma_entry_seq(&self)
        requires
            self.wf(),
        ensures
            keys_distinct(self.entry_seq()),
            map_of(self.entry_seq()) == self@,
            self.entry_seq().len() == self@.len(),
    {
        lemma_distinct_len(self.entry_seq());
    }

    /// Counts over the write tier: the entries, their uses, and those the
    /// user accepted for good.
    pub fn get_stats(&self) -> (r: CacheStats)
        requires
            self.wf(),
        ensures
            r.total_commands == self@.len(),
            r.total_usage == usage_total(self.entry_seq()),
            r.accepted_forever == accepted_forever_count(self.entry_seq()),
    {
        proof {
            lemma_distinct_len(pairs_view(self.write_cache@));
        }
        let ghost pv = pairs_view(self.write_cache@);
        let mut total_usage: u128 = 0;
        let mut accepted_forever: usize = 0;
        let mut i: usize = 0;
        while i < self.write_cache.len()
            invariant
                pv == pairs_view(self.write_cache@),
                i <= self.write_cache@.len(),
                total_usage == usage_total(pv.subrange(0, i as int)),
                total_usage <= i * (u32::MAX as int),
                accepted_forever == accepted_forever_count(pv.subrange(0, i as int)),
                accepted_forever <= i,
            decreases self.write_cache.len() - i,
        {
            let entry = &self.write_cache[i].1;
            proof {
                assert(pv.subrange(0, i + 1).drop_last() =~= pv.subrange(0, i as int));
                assert(pv[i as int].1 == entry@);
                assert((i + 1) * (u32::MAX as int) == i * (u32::MAX as int) + u32::MAX) by (
                nonlinear_arith);
                assert(i * (u32::MAX as int) <= usize::MAX * (u32::MAX as int)) by (nonlinear_arith)
                    requires
                        i <= usize::MAX,
                ;
            }
            total_usage = total_usage + entry.usage_count as u128;
            if let Some(d) = &entry.permission_decision {
                if d.consent == PermissionConsent::AcceptForever {
                    accepted_forever = accepted_forever + 1;
                }
            }
            i = i + 1;
        }
        proof {
            assert(pv.subrange(0, pv.len() as int) =~= pv);
        }
        CacheStats { total_commands: self.write_cache.len(), total_usage, accepted_forever }
    }

    /// The directory of the write tier.
    pub fn write_cache_dir(&self) -> (r: &String)
        ensures
            r@ == self.write_dir(),
    {
        &self.write_cache_dir
    }
}

/// Counts over a store, as `get_stats` reports them.
#[derive(Debug, Clone, Copy, PartialEq, Eq)]
pub struct CacheStats {
    pub total_commands: usize,
    pub total_usage: u128,
    pub accepted_forever: usize,
}

/// The uses of all entries together.
pub open spec fn usage_total(s: Seq<(Seq<char>, CacheEntryView)>) -> int
    decreases s.len(),
{
    if s.len() == 0 {
        0
    } else {
        usage_total(s.drop_last()) + s.last().1.usage_count
    }
}

/// How many entries carry an `AcceptForever` decision.
pub open spec fn accepted_forever_count(s: Seq<(Seq<char>, CacheEntryView)>) -> int
    decreases s.len(),
{
    if s.len() == 0 {
        0
    } else {
        accepted_forever_count(s.drop_last()) + if s.last().1.permission_decision matches Some(d)
            && d.consent == PermissionConsent::AcceptForever {
            1int
        } else {
            0int
        }
    }
}

/// A map given by pairs with distinct keys has as many keys as pairs.
proof fn lemma_distinct_len<V>(s: Seq<(Seq<char>, V)>)
    requires
        keys_distinct(s),
    ensures
        map_of(s).len() == s.len(),
        map_of(s).dom().finite(),
    decreases s.len(),
{
    if s.len() == 0 {
        assert(map_of(s).dom() =~= Set::empty());
    } else {
        let t = s.drop_last();
        let x = s.last();
        assert(keys_distinct(t));
        lemma_distinct_len(t);
        assert(!has_key(t, x.0)) by {
            if has_key(t, x.0) {
                let j = key_index(t, x.0);
                assert(s[j].0 == s[s.len() - 1].0);
            }
        }
        lemma_map_of_push(t, x.0, x.1);
        assert(t.push((x.0, x.1)) =~= s);
    }
}

// ---------------------------------------------------------------------------
// Laws of the store.
// ---------------------------------------------------------------------------

/// Consent is needed for a name with no recorded decision, or whose recorded
/// answer is `AcceptOnce` or `Denied`; it is not needed exactly when the
/// recorded answer is `AcceptForever`.
pub proof fn lemma_consent_policy(m: Map<Seq<char>, CacheEntryView>, name: Seq<char>)
    ensures
        !m.contains_key(name) ==> needs_consent(m, name),
        m.contains_key(name) && m[name].permission_decision is None ==> needs_consent(m, name),
        m.contains_key(name) && m[name].permission_decision is Some ==> (needs_consent(m, name)
            <==> m[name].permission_decision->Some_0.consent != PermissionConsent::AcceptForever),
        !needs_consent(m, name) <==> (m.contains_key(name) && m[name].permission_decision is Some
            && m[name].permission_decision->Some_0.consent == PermissionConsent::AcceptForever),
{
}

/// Storing a command and then looking its name up gives back the command
/// stored, with the script file named after it: the very record stored when
/// its script file already bore that name.
pub proof fn lemma_store_then_get(
    m0: Map<Seq<char>, CacheEntryView>,
    m1: Map<Seq<char>, CacheEntryView>,
    dir: Seq<char>,
    name: Seq<char>,
    command: GeneratedCommandView,
    content: Seq<char>,
    a: Seq<StoreActionView>,
)
    requires
        stored(m0, m1, dir, name, command, content, a),
    ensures
        m1.contains_key(name),
        m1[name].command.name == command.name,
        m1[name].command.description == command.description,
        m1[name].command.permissions == command.permissions,
        m1[name].command.script_file == script_file_for(name),
        command.script_file == script_file_for(name) ==> m1[name].command == command,
        a.contains(StoreActionView::WriteScript { path: path_join(dir, script_file_for(name)), content }),
{
    assert(a[0] == StoreActionView::WriteScript { path: path_join(dir, script_file_for(name)), content });
}

/// After removing a name, the write tier no longer holds it, and the script
/// file of the removed entry is among the files deleted.
pub proof fn lemma_remove_then_get(
    m0: Map<Seq<char>, CacheEntryView>,
    m1: Map<Seq<char>, CacheEntryView>,
    dir: Seq<char>,
    name: Seq<char>,
    was_there: bool,
    a: Seq<StoreActionView>,
)
    requires
        removed(m0, m1, dir, name, was_there, a),
    ensures
        !m1.contains_key(name),
        m0.contains_key(name) ==> a.contains(
            StoreActionView::RemoveScript { path: path_join(dir, m0[name].command.script_file) },
        ),
{
    if m0.contains_key(name) {
        assert(a[0] == StoreActionView::RemoveScript {
            path: path_join(dir, m0[name].command.script_file),
        });
    }
}

/// After a clear, the store is empty and the script file of every entry it
/// held is among the files deleted.
pub proof fn lemma_clear_removes_all(
    m0: Map<Seq<char>, CacheEntryView>,
    m1: Map<Seq<char>, CacheEntryView>,
    dir: Seq<char>,
    a: Seq<StoreActionView>,
)
    requires
        cleared(m0, m1, dir, a),
    ensures
        m1.len() == 0,
        forall|k: Seq<char>| #[trigger]
            m0.contains_key(k) ==> a.contains(
                StoreActionView::RemoveScript { path: path_join(dir, m0[k].command.script_file) },
            ),
{
    assert(m1.dom() =~= Set::empty());
    assert forall|k: Seq<char>| #[trigger] m0.contains_key(k) implies a.contains(
        StoreActionView::RemoveScript { path: path_join(dir, m0[k].command.script_file) },
    ) by {
        let i = choose|i: int|
            0 <= i < a.len() - 1 && a[i] == (StoreActionView::RemoveScript {
                path: path_join(dir, m0[k].command.script_file),
            });
        assert(a[i] == StoreActionView::RemoveScript { path: path_join(dir, m0[k].command.script_file) });
    }
}

/// Recording `AcceptOnce` for a stored name leaves it needing consent: the
/// user is asked again on the next run.
pub proof fn lemma_accept_once_asks_again(
    m0: Map<Seq<char>, CacheEntryView>,
    m1: Map<Seq<char>, CacheEntryView>,
    dir: Seq<char>,
    name: Seq<char>,
    d: PermissionDecisionView,
    a: Seq<StoreActionView>,
)
    requires
        decided(m0, m1, dir, name, d, a),
        d.consent == PermissionConsent::AcceptOnce,
    ensures
        needs_consent(m1, name),
{
}

/// Two recorded uses of a freshly stored command bring its use count from 0
/// to 1, then to 2.
pub proof fn lemma_two_uses(
    m0: Map<Seq<char>, CacheEntryView>,
    m1: Map<Seq<char>, CacheEntryView>,
    m2: Map<Seq<char>, CacheEntryView>,
    m3: Map<Seq<char>, CacheEntryView>,
    dir: Seq<char>,
    name: Seq<char>,
    command: GeneratedCommandView,
    content: Seq<char>,
    a1: Seq<StoreActionView>,
    a2: Seq<StoreActionView>,
    a3: Seq<StoreActionView>,
)
    requires
        stored(m0, m1, dir, name, command, content, a1),
        used(m1, m2, dir, name, a2),
        used(m2, m3, dir, name, a3),
    ensures
        m1[name].usage_count == 0,
        m2[name].usage_count == 1,
        m3[name].usage_count == 2,
{
}

} // verus!
