//! Dispatch of request paths to API modules.
//!
//! Modules are registered under path prefixes. No registered prefix may be a prefix of another
//! (so a request path names at most one module), and each module may hold several versions of
//! its API, keyed by major version.

use vstd::prelude::*;
use vstd::string::*;
use crate::text::{decimal, u64_to_string, views, join_with, strip_prefix_char, strip_suffix_char, strip_prefix_exec, strip_suffix_exec, split_char, keep_nonempty, split_on, nonempty, tail_strings, clone_strings, join_strings, trim_leading, trim_trailing, trim_start_char, trim_end_char, lemma_trim_leading, lemma_trim_trailing};

verus! {

/// `a` is a prefix of `b` (possibly equal to it).
pub open spec fn is_prefix_of(a: Seq<Seq<char>>, b: Seq<Seq<char>>) -> bool {
    a.len() <= b.len() && b.take(a.len() as int) == a
}

/// Lexicographic order of strings by character code, as `String`'s `Ord` orders them.
pub open spec fn chars_lt(a: Seq<char>, b: Seq<char>) -> bool
    decreases a.len(),
{
    if a.len() == 0 {
        b.len() > 0
    } else if b.len() == 0 {
        false
    } else if a[0] != b[0] {
        (a[0] as int) < (b[0] as int)
    } else {
        chars_lt(a.skip(1), b.skip(1))
    }
}

/// Lexicographic order of segment lists, comparing segments with `chars_lt`.
pub open spec fn segs_lt(a: Seq<Seq<char>>, b: Seq<Seq<char>>) -> bool
    decreases a.len(),
{
    if a.len() == 0 {
        b.len() > 0
    } else if b.len() == 0 {
        false
    } else if a[0] != b[0] {
        chars_lt(a[0], b[0])
    } else {
        segs_lt(a.skip(1), b.skip(1))
    }
}

proof fn lemma_chars_total(a: Seq<char>, b: Seq<char>)
    requires
        a != b,
    ensures
        chars_lt(a, b) || chars_lt(b, a),
    decreases a.len(),
{
    if a.len() == 0 {
        assert(b.len() > 0) by {
            if b.len() == 0 {
                assert(a =~= b);
            }
        }
    } else if b.len() == 0 {
    } else if a[0] != b[0] {
    } else {
        if a.skip(1) == b.skip(1) {
            assert(a =~= seq![a[0]] + a.skip(1));
            assert(b =~= seq![b[0]] + b.skip(1));
            assert(false);
        }
        lemma_chars_total(a.skip(1), b.skip(1));
    }
}

/// Two segment lists neither of which is a prefix of the other are ordered one way or the other.
proof fn lemma_segs_total(a: Seq<Seq<char>>, b: Seq<Seq<char>>)
    requires
        !is_prefix_of(a, b),
        !is_prefix_of(b, a),
    ensures
        segs_lt(a, b) || segs_lt(b, a),
    decreases a.len(),
{
    if a.len() == 0 {
        assert(b.take(0) =~= a);
    } else if b.len() == 0 {
        assert(a.take(0) =~= b);
    } else if a[0] != b[0] {
        lemma_chars_total(a[0], b[0]);
    } else {
        if is_prefix_of(a.skip(1), b.skip(1)) {
            assert(b.take(a.len() as int) =~= seq![b[0]] + b.skip(1).take(a.len() - 1));
            assert(a =~= seq![a[0]] + a.skip(1));
        }
        if is_prefix_of(b.skip(1), a.skip(1)) {
            assert(a.take(b.len() as int) =~= seq![a[0]] + a.skip(1).take(b.len() - 1));
            assert(b =~= seq![b[0]] + b.skip(1));
        }
        lemma_segs_total(a.skip(1), b.skip(1));
    }
}

fn chars_less(a: &str, b: &str) -> (r: bool)
    ensures
        r == chars_lt(a@, b@),
{
    let na = a.unicode_len();
    let nb = b.unicode_len();
    let mut i: usize = 0;
    proof {
        assert(a@.skip(0) =~= a@);
        assert(b@.skip(0) =~= b@);
    }
    while i < na && i < nb
        invariant
            na == a@.len(),
            nb == b@.len(),
            i <= na,
            i <= nb,
            a@.take(i as int) == b@.take(i as int),
            chars_lt(a@, b@) == chars_lt(a@.skip(i as int), b@.skip(i as int)),
        decreases na - i,
    {
        let ca = a.get_char(i);
        let cb = b.get_char(i);
        if ca != cb {
            return (ca as u32) < (cb as u32);
        }
        proof {
            assert(a@.skip(i as int).skip(1) =~= a@.skip(i + 1));
            assert(b@.skip(i as int).skip(1) =~= b@.skip(i + 1));
            assert(a@.take(i + 1) =~= a@.take(i as int).push(ca));
            assert(b@.take(i + 1) =~= b@.take(i as int).push(cb));
        }
        i = i + 1;
    }
    i == na && i < nb
}

fn segs_less(a: &[String], b: &[String]) -> (r: bool)
    ensures
        r == segs_lt(views(a@), views(b@)),
{
    let na = a.len();
    let nb = b.len();
    let mut i: usize = 0;
    proof {
        assert(views(a@).skip(0) =~= views(a@));
        assert(views(b@).skip(0) =~= views(b@));
    }
    while i < na && i < nb
        invariant
            na == a@.len(),
            nb == b@.len(),
            i <= na,
            i <= nb,
            segs_lt(views(a@), views(b@)) == segs_lt(
                views(a@).skip(i as int),
                views(b@).skip(i as int),
            ),
        decreases na - i,
    {
        if a[i] != b[i] {
            return chars_less(a[i].as_str(), b[i].as_str());
        }
        proof {
            assert(views(a@).skip(i as int).skip(1) =~= views(a@).skip(i + 1));
            assert(views(b@).skip(i as int).skip(1) =~= views(b@).skip(i + 1));
        }
        i = i + 1;
    }
    i == na && i < nb
}

fn is_prefix_exec(a: &[String], b: &[String]) -> (r: bool)
    ensures
        r == is_prefix_of(views(a@), views(b@)),
{
    let na = a.len();
    let nb = b.len();
    if na > nb {
        return false;
    }
    let mut i: usize = 0;
    while i < na
        invariant
            na == a@.len(),
            nb == b@.len(),
            na <= nb,
            i <= na,
            views(b@).take(i as int) == views(a@).take(i as int),
        decreases na - i,
    {
        if a[i] != b[i] {
            proof {
                assert(views(b@).take(na as int)[i as int] == b@[i as int]@);
            }
            return false;
        }
        proof {
            assert(views(b@).take(i + 1) =~= views(a@).take(i + 1));
        }
        i = i + 1;
    }
    proof {
        assert(views(a@).take(na as int) =~= views(a@));
    }
    true
}


/// The map that a list of `(key, value)` entries describes (a later entry wins over an earlier
/// one with the same key; the lists kept here never repeat a key).
pub open spec fn entries_map<K, V>(es: Seq<(K, V)>) -> Map<K, V>
    decreases es.len(),
{
    if es.len() == 0 {
        Map::empty()
    } else {
        entries_map(es.drop_last()).insert(es.last().0, es.last().1)
    }
}

/// No key occurs twice in `es`.
pub open spec fn distinct_keys<K, V>(es: Seq<(K, V)>) -> bool {
    forall|i: int, j: int| 0 <= i < j < es.len() ==> es[i].0 != es[j].0
}

/// The keys of `entries_map(es)` are exactly the keys listed in `es`.
pub proof fn lemma_entries_map_dom<K, V>(es: Seq<(K, V)>, k: K)
    ensures
        entries_map(es).contains_key(k) <==> exists|i: int| 0 <= i < es.len() && es[i].0 == k,
    decreases es.len(),
{
    if es.len() > 0 {
        lemma_entries_map_dom(es.drop_last(), k);
        if entries_map(es.drop_last()).contains_key(k) {
            let i = choose|i: int| 0 <= i < es.drop_last().len() && es.drop_last()[i].0 == k;
            assert(es[i].0 == k);
        }
        if exists|i: int| 0 <= i < es.len() && es[i].0 == k {
            let i = choose|i: int| 0 <= i < es.len() && es[i].0 == k;
            if i < es.len() - 1 {
                assert(es.drop_last()[i].0 == k);
            }
        }
    }
}

/// With distinct keys, each entry is what the map holds for its key.
pub proof fn lemma_entries_map_index<K, V>(es: Seq<(K, V)>, i: int)
    requires
        distinct_keys(es),
        0 <= i < es.len(),
    ensures
        entries_map(es).contains_key(es[i].0),
        entries_map(es)[es[i].0] == es[i].1,
    decreases es.len(),
{
    if i < es.len() - 1 {
        lemma_entries_map_index(es.drop_last(), i);
        assert(es.drop_last()[i] == es[i]);
        assert(es.last().0 != es[i].0);
    }
}

/// Inserting an entry with a new key anywhere in the list inserts it in the map.
pub proof fn lemma_entries_map_insert<K, V>(es: Seq<(K, V)>, p: int, k: K, v: V)
    requires
        0 <= p <= es.len(),
        forall|i: int| 0 <= i < es.len() ==> es[i].0 != k,
    ensures
        entries_map(es.insert(p, (k, v))) == entries_map(es).insert(k, v),
    decreases es.len(),
{
    if p == es.len() {
        assert(es.insert(p, (k, v)).drop_last() =~= es);
    } else {
        let es2 = es.insert(p, (k, v));
        assert(es2.drop_last() =~= es.drop_last().insert(p, (k, v)));
        assert(es2.last() == es.last());
        lemma_entries_map_insert(es.drop_last(), p, k, v);
        assert(es.last().0 != k);
        assert(entries_map(es2) =~= entries_map(es).insert(k, v));
    }
}

/// Replacing the value of an entry replaces it in the map.
pub proof fn lemma_entries_map_update<K, V>(es: Seq<(K, V)>, i: int, v: V)
    requires
        distinct_keys(es),
        0 <= i < es.len(),
    ensures
        entries_map(es.update(i, (es[i].0, v))) == entries_map(es).insert(es[i].0, v),
    decreases es.len(),
{
    let es2 = es.update(i, (es[i].0, v));
    if i == es.len() - 1 {
        assert(es2.drop_last() =~= es.drop_last());
        assert(entries_map(es2) =~= entries_map(es).insert(es[i].0, v));
    } else {
        assert(es2.drop_last() =~= es.drop_last().update(i, (es[i].0, v)));
        lemma_entries_map_update(es.drop_last(), i, v);
        assert(es.last().0 != es[i].0);
        assert(entries_map(es2) =~= entries_map(es).insert(es[i].0, v));
    }
}

/// Errors in registering a module.
#[derive(Clone, Debug, PartialEq, Eq)]
pub enum DispatchError {
    ModuleAlreadyExists { prefix: String, version: u64 },
    ConflictingModules { prefix: String, conflict: String },
}

impl DispatchError {
    /// The text of this error: `duplicate module {prefix} v{version}` or
    /// `module {prefix} cannot be a prefix of module {conflict}`.
    pub open spec fn spec_message(&self) -> Seq<char> {
        match self {
            DispatchError::ModuleAlreadyExists { prefix, version } => "duplicate module "@
                + prefix@ + " v"@ + decimal(*version as nat),
            DispatchError::ConflictingModules { prefix, conflict } => "module "@ + prefix@
                + " cannot be a prefix of module "@ + conflict@,
        }
    }

    /// The text of this error.
    pub fn message(&self) -> (r: String)
        ensures
            r@ == self.spec_message(),
    {
        match self {
            DispatchError::ModuleAlreadyExists { prefix, version } => {
                let mut r = "duplicate module ".to_string();
                r.append(prefix.as_str());
                r.append(" v");
                r.append(u64_to_string(*version).as_str());
                r
            },
            DispatchError::ConflictingModules { prefix, conflict } => {
                let mut r = "module ".to_string();
                r.append(prefix.as_str());
                r.append(" cannot be a prefix of module ");
                r.append(conflict.as_str());
                r
            },
        }
    }
}

/// The segments of a path: its pieces between slashes, leaving out the empty ones (so leading,
/// trailing and doubled slashes are ignored).
pub open spec fn split_path(s: Seq<char>) -> Seq<Seq<char>> {
    nonempty(split_on(s, '/'))
}

/// Split a path prefix into its segments. `/prefix/` yields only the segment `prefix`.
pub fn split(s: &str) -> (r: Vec<String>)
    ensures
        views(r@) == split_path(s@),
{
    keep_nonempty(split_char(s, '/'))
}

/// A path with all its leading and trailing slashes removed.
pub open spec fn trim_slashes(s: Seq<char>) -> Seq<char> {
    trim_trailing(trim_leading(s, '/'), '/')
}

/// Two paths joined by a single slash, each first trimmed of its leading and trailing slashes;
/// an empty side contributes nothing.
pub open spec fn join_paths(s1: Seq<char>, s2: Seq<char>) -> Seq<char> {
    let a = trim_slashes(s1);
    let b = trim_slashes(s2);
    if a.len() == 0 {
        b
    } else if b.len() == 0 {
        a
    } else {
        a + "/"@ + b
    }
}

/// Join two path strings, ensuring there are no leading or trailing slashes.
pub fn join(s1: &str, s2: &str) -> (r: String)
    ensures
        r@ == join_paths(s1@, s2@),
        r@.len() == 0 || (r@[0] != '/' && r@.last() != '/'),
{
    let a1 = trim_start_char(s1, '/');
    let a = trim_end_char(a1.as_str(), '/');
    let b1 = trim_start_char(s2, '/');
    let b = trim_end_char(b1.as_str(), '/');
    proof {
        lemma_trim_leading(s1@, '/');
        lemma_trim_trailing(a1@, '/');
        lemma_trim_leading(s2@, '/');
        lemma_trim_trailing(b1@, '/');
        reveal_strlit("/");
        if a@.len() > 0 {
            assert(a@[0] == a1@[0]);
        }
        if b@.len() > 0 {
            assert(b@[0] == b1@[0]);
        }
    }
    if a.unicode_len() == 0 {
        b
    } else if b.unicode_len() == 0 {
        a
    } else {
        let mut r = a;
        r.append("/");
        r.append(b.as_str());
        r
    }
}

/// An API module: the versions of one API registered under one path prefix.
#[derive(Debug, PartialEq, Eq)]
pub struct Module<A> {
    /// The segments of the prefix under which this module is registered.
    pub prefix: Vec<String>,
    /// The versions of the API, by major version, in increasing order of version.
    pub versions: Vec<(u64, A)>,
}

impl<A> Module<A> {
    /// The prefix of this module, as a list of segments.
    pub open spec fn key(&self) -> Seq<Seq<char>> {
        views(self.prefix@)
    }

    /// The versions of this module, as a map from major version to API.
    pub open spec fn version_map(&self) -> Map<u64, A> {
        entries_map(self.versions@)
    }

    /// Versions are listed in strictly increasing order, and there is at least one.
    pub open spec fn wf(&self) -> bool {
        &&& self.versions@.len() > 0
        &&& forall|i: int, j: int|
            0 <= i < j < self.versions@.len() ==> self.versions@[i].0 < self.versions@[j].0
    }

    /// Versions in strictly increasing order are distinct.
    pub proof fn lemma_distinct(&self)
        requires
            self.wf(),
        ensures
            distinct_keys(self.versions@),
    {
    }

    /// The path of this module: its prefix segments joined by slashes.
    pub fn path(&self) -> (r: String)
        ensures
            r@ == join_with(self.key(), "/"@),
    {
        join_strings(self.prefix.as_slice(), "/")
    }

    /// Whether this module holds the given version.
    pub fn contains_version(&self, version: u64) -> (r: bool)
        ensures
            r == self.version_map().contains_key(version),
    {
        let n = self.versions.len();
        let mut i: usize = 0;
        while i < n
            invariant
                n == self.versions@.len(),
                i <= n,
                forall|j: int| 0 <= j < i ==> self.versions@[j].0 != version,
            decreases n - i,
        {
            if self.versions[i].0 == version {
                proof {
                    lemma_entries_map_dom(self.versions@, version);
                }
                return true;
            }
            i = i + 1;
        }
        proof {
            lemma_entries_map_dom(self.versions@, version);
        }
        false
    }

    /// The API registered with the given major version, if any.
    pub fn version(&self, version: u64) -> (r: Option<&A>)
        requires
            self.wf(),
        ensures
            match r {
                Some(a) => self.version_map().contains_key(version) && self.version_map()[version]
                    == *a,
                None => !self.version_map().contains_key(version),
            },
    {
        let n = self.versions.len();
        let mut i: usize = 0;
        while i < n
            invariant
                n == self.versions@.len(),
                i <= n,
                self.wf(),
                forall|j: int| 0 <= j < i ==> self.versions@[j].0 != version,
            decreases n - i,
        {
            if self.versions[i].0 == version {
                proof {
                    self.lemma_distinct();
                    lemma_entries_map_index(self.versions@, i as int);
                }
                return Some(&self.versions[i].1);
            }
            i = i + 1;
        }
        proof {
            lemma_entries_map_dom(self.versions@, version);
        }
        None
    }

    /// The latest version of this module and its API.
    pub fn latest(&self) -> (r: (u64, &A))
        requires
            self.wf(),
        ensures
            self.version_map().contains_key(r.0),
            self.version_map()[r.0] == *r.1,
            forall|v: u64| self.version_map().contains_key(v) ==> v <= r.0,
    {
        let n = self.versions.len();
        proof {
            self.lemma_distinct();
            lemma_entries_map_index(self.versions@, n - 1);
            assert forall|v: u64| self.version_map().contains_key(v) implies v <= self.versions@[n
                - 1].0 by {
                lemma_entries_map_dom(self.versions@, v);
            }
        }
        (self.versions[n - 1].0, &self.versions[n - 1].1)
    }

    /// The major versions of this module, in increasing order.
    pub fn version_numbers(&self) -> (r: Vec<u64>)
        ensures
            r@ == self.versions@.map_values(|e: (u64, A)| e.0),
    {
        let mut r: Vec<u64> = Vec::new();
        let n = self.versions.len();
        let mut i: usize = 0;
        while i < n
            invariant
                n == self.versions@.len(),
                i <= n,
                r@ == self.versions@.take(i as int).map_values(|e: (u64, A)| e.0),
            decreases n - i,
        {
            r.push(self.versions[i].0);
            proof {
                assert(r@ =~= self.versions@.take(i + 1).map_values(|e: (u64, A)| e.0));
            }
            i = i + 1;
        }
        proof {
            assert(self.versions@.take(n as int) =~= self.versions@);
        }
        r
    }

    /// Add a version that this module does not hold yet, keeping versions in order.
    fn add_version(&mut self, version: u64, api: A)
        requires
            old(self).wf(),
            !old(self).version_map().contains_key(version),
        ensures
            final(self).wf(),
            final(self).prefix == old(self).prefix,
            final(self).version_map() == old(self).version_map().insert(version, api),
    {
        let n = self.versions.len();
        let mut p: usize = 0;
        while p < n && self.versions[p].0 < version
            invariant
                n == self.versions@.len(),
                p <= n,
                forall|j: int| 0 <= j < p ==> self.versions@[j].0 < version,
            decreases n - p,
        {
            p = p + 1;
        }
        proof {
            assert forall|j: int| 0 <= j < n implies self.versions@[j].0 != version by {
                lemma_entries_map_dom(self.versions@, version);
            }
            lemma_entries_map_insert(self.versions@, p as int, version, api);
        }
        self.versions.insert(p, (version, api));
    }
}

/// The prefixes of a list of modules, with the versions each holds.
pub open spec fn module_entries<A>(ms: Seq<Module<A>>) -> Seq<(Seq<Seq<char>>, Map<u64, A>)> {
    ms.map_values(|m: Module<A>| (m.key(), m.version_map()))
}

/// Every module is well formed, no prefix is a prefix of another's, and the modules are sorted
/// in lexicographic order of their prefixes.
pub open spec fn well_ordered<A>(ms: Seq<Module<A>>) -> bool {
    &&& forall|i: int| 0 <= i < ms.len() ==> (#[trigger] ms[i]).wf()
    &&& forall|i: int, j: int|
        0 <= i < ms.len() && 0 <= j < ms.len() && i != j ==> !is_prefix_of(
            ms[i].key(),
            ms[j].key(),
        )
    &&& forall|i: int| 0 <= i < ms.len() - 1 ==> segs_lt(ms[i].key(), #[trigger] ms[i + 1].key())
}

/// The conflict reported when a module registered at `existing` is a proper prefix of `new`: the
/// path of the new module, built from the existing path, the next segment and the rest.
pub open spec fn conflict_path(existing: Seq<Seq<char>>, new: Seq<Seq<char>>) -> Seq<char> {
    join_paths(
        join_with(existing, "/"@),
        join_paths(new[existing.len() as int], join_with(new.skip(existing.len() as int + 1), "/"@)),
    )
}

/// Some registered prefix other than `p` is a prefix of `p` or has `p` as a prefix.
pub open spec fn has_conflict(keys: Set<Seq<Seq<char>>>, p: Seq<Seq<char>>) -> bool {
    exists|k: Seq<Seq<char>>| keys.contains(k) && k != p && (is_prefix_of(k, p) || is_prefix_of(p, k))
}

/// No registered prefix is a prefix of another.
pub open spec fn prefix_free(keys: Set<Seq<Seq<char>>>) -> bool {
    forall|k1: Seq<Seq<char>>, k2: Seq<Seq<char>>|
        #![trigger keys.contains(k1), keys.contains(k2)]
        keys.contains(k1) && keys.contains(k2) && k1 != k2 ==> !is_prefix_of(k1, k2)
}

/// Adding a prefix that conflicts with no registered one keeps the prefixes free of prefixes of
/// one another.
pub proof fn lemma_insert_prefix_free(keys: Set<Seq<Seq<char>>>, p: Seq<Seq<char>>)
    requires
        prefix_free(keys),
        !has_conflict(keys, p),
    ensures
        prefix_free(keys.insert(p)),
{
    assert forall|k1: Seq<Seq<char>>, k2: Seq<Seq<char>>|
        keys.insert(p).contains(k1) && keys.insert(p).contains(k2) && k1 != k2 implies !is_prefix_of(k1, k2) by {
        if k1 == p {
            assert(keys.contains(k2));
        } else if k2 == p {
            assert(keys.contains(k1));
        } else {
            assert(keys.contains(k1) && keys.contains(k2));
        }
    }
}

/// Mapping from route prefixes to API modules.
///
/// The modules are kept in a list in lexicographic order of their prefixes; since no prefix is
/// a prefix of another, a request path selects at most one module.
#[derive(Debug)]
pub struct Trie<A> {
    modules: Vec<Module<A>>,
}

impl<A> Trie<A> {
    /// The modules are well ordered.
    #[verifier::type_invariant]
    pub open spec fn inv(self) -> bool {
        well_ordered(self.modules_view())
    }

    /// The registered modules, in order.
    pub closed spec fn modules_view(&self) -> Seq<Module<A>> {
        self.modules@
    }

    /// The registered prefixes and, for each, its versions.
    pub open spec fn view(&self) -> Map<Seq<Seq<char>>, Map<u64, A>> {
        entries_map(module_entries(self.modules_view()))
    }

    proof fn lemma_prefix_free(&self)
        requires
            well_ordered(self.modules_view()),
        ensures
            prefix_free(self@.dom()),
    {
        self.lemma_view();
        let ms = self.modules_view();
        assert forall|k1: Seq<Seq<char>>, k2: Seq<Seq<char>>|
            self@.dom().contains(k1) && self@.dom().contains(k2) && k1 != k2 implies !is_prefix_of(k1, k2) by {
            assert(self@.contains_key(k1));
            assert(self@.contains_key(k2));
            let i = choose|i: int| 0 <= i < ms.len() && ms[i].key() == k1;
            let j = choose|j: int| 0 <= j < ms.len() && ms[j].key() == k2;
            assert(i != j);
        }
    }

    proof fn lemma_view(&self)
        requires
            well_ordered(self.modules_view()),
        ensures
            distinct_keys(module_entries(self.modules_view())),
            forall|i: int|
                #![trigger self.modules_view()[i]]
                0 <= i < self.modules_view().len() ==> self@.contains_key(
                    self.modules_view()[i].key(),
                ) && self@[self.modules_view()[i].key()] == self.modules_view()[i].version_map(),
            forall|k: Seq<Seq<char>>|
                #![trigger self@.contains_key(k)]
                self@.contains_key(k) <==> exists|i: int|
                    0 <= i < self.modules_view().len() && self.modules_view()[i].key() == k,
    {
        let ms = self.modules_view();
        let es = module_entries(ms);
        assert forall|i: int, j: int| 0 <= i < j < es.len() implies es[i].0 != es[j].0 by {
            assert(!is_prefix_of(ms[i].key(), ms[j].key()));
            if ms[i].key() == ms[j].key() {
                assert(ms[j].key().take(ms[i].key().len() as int) =~= ms[j].key());
            }
        }
        assert forall|i: int| 0 <= i < ms.len() implies self@.contains_key(ms[i].key()) && self@[ms[
            i].key()] == ms[i].version_map() by {
            lemma_entries_map_index(es, i);
        }
        assert forall|k: Seq<Seq<char>>| self@.contains_key(k) <==> exists|i: int|
            0 <= i < ms.len() && ms[i].key() == k by {
            lemma_entries_map_dom(es, k);
            if exists|i: int| 0 <= i < ms.len() && ms[i].key() == k {
                let i = choose|i: int| 0 <= i < ms.len() && ms[i].key() == k;
                assert(es[i].0 == k);
            }
        }
    }

    /// An empty trie.
    pub fn new() -> (r: Self)
        ensures
            r.modules_view().len() == 0,
            r@ == Map::<Seq<Seq<char>>, Map<u64, A>>::empty(),
    {
        let r = Trie { modules: Vec::new() };
        proof {
            assert(module_entries(r.modules@) =~= Seq::empty());
        }
        r
    }

    /// The registered modules, in lexicographic order of their prefixes.
    pub fn iter(&self) -> (r: &[Module<A>])
        ensures
            r@ == self.modules_view(),
            well_ordered(r@),
    {
        proof {
            use_type_invariant(self);
        }
        self.modules.as_slice()
    }

    /// Whether the only module is registered under the empty prefix. Any trie holding a
    /// module with the empty prefix holds no other module, since the empty prefix is a prefix
    /// of every path.
    pub fn is_singleton(&self) -> (r: bool)
        ensures
            r == self@.contains_key(Seq::<Seq<char>>::empty()),
            r ==> self.modules_view().len() == 1,
    {
        proof {
            use_type_invariant(self);
            self.lemma_view();
        }
        let n = self.modules.len();
        if n == 1 && self.modules[0].prefix.len() == 0 {
            proof {
                assert(self.modules_view()[0].key() =~= Seq::<Seq<char>>::empty());
            }
            true
        } else {
            proof {
                if self@.contains_key(Seq::<Seq<char>>::empty()) {
                    let i = choose|i: int|
                        0 <= i < self.modules_view().len() && self.modules_view()[i].key()
                            == Seq::<Seq<char>>::empty();
                    if n == 1 {
                        assert(self.modules_view()[0].key().len() == self.modules@[0].prefix@.len());
                    }
                    if n > 1 {
                        let j = if i == 0 { 1int } else { 0int };
                        assert(self.modules_view()[j].key().take(0) =~= Seq::<Seq<char>>::empty());
                        assert(is_prefix_of(self.modules_view()[i].key(), self.modules_view()[j].key()));
                    }
                }
            }
            false
        }
    }

    /// The module registered with exactly the given prefix.
    pub fn get(&self, prefix: &[String]) -> (r: Option<&Module<A>>)
        ensures
            match r {
                Some(m) => self@.contains_key(views(prefix@)) && m.key() == views(prefix@)
                    && m.version_map() == self@[views(prefix@)] && m.wf(),
                None => !self@.contains_key(views(prefix@)),
            },
    {
        proof {
            use_type_invariant(self);
            self.lemma_view();
        }
        let n = self.modules.len();
        let mut i: usize = 0;
        while i < n
            invariant
                n == self.modules_view().len(),
                self.modules@ == self.modules_view(),
                i <= n,
                forall|j: int| 0 <= j < i ==> self.modules_view()[j].key() != views(prefix@),
            decreases n - i,
        {
            let m = &self.modules[i];
            proof {
                use_type_invariant(self);
                self.lemma_view();
                assert(self.modules_view()[i as int] == *m);
            }
            if m.prefix.len() == prefix.len() && is_prefix_exec(m.prefix.as_slice(), prefix) {
                proof {
                    assert(views(prefix@).take(m.key().len() as int) =~= views(prefix@));
                }
                return Some(m);
            }
            proof {
                if m.key() == views(prefix@) {
                    assert(views(prefix@).take(m.key().len() as int) =~= views(prefix@));
                }
            }
            i = i + 1;
        }
        None
    }

    /// The module whose prefix is a prefix of the given request path, if any; there is at most
    /// one.
    pub fn search(&self, path: &[String]) -> (r: Option<&Module<A>>)
        ensures
            match r {
                Some(m) => is_prefix_of(m.key(), views(path@)) && self@.contains_key(m.key())
                    && m.version_map() == self@[m.key()] && m.wf() && forall|k: Seq<Seq<char>>|
                    #![trigger self@.contains_key(k)]
                    self@.contains_key(k) && is_prefix_of(k, views(path@)) ==> k == m.key(),
                None => forall|k: Seq<Seq<char>>|
                    #![trigger self@.contains_key(k)]
                    self@.contains_key(k) ==> !is_prefix_of(k, views(path@)),
            },
    {
        proof {
            use_type_invariant(self);
            self.lemma_view();
        }
        let n = self.modules.len();
        let mut i: usize = 0;
        while i < n
            invariant
                n == self.modules_view().len(),
                self.modules@ == self.modules_view(),
                i <= n,
                forall|j: int|
                    0 <= j < i ==> !is_prefix_of(self.modules_view()[j].key(), views(path@)),
            decreases n - i,
        {
            let m = &self.modules[i];
            proof {
                use_type_invariant(self);
                self.lemma_view();
                assert(self.modules_view()[i as int] == *m);
            }
            if is_prefix_exec(m.prefix.as_slice(), path) {
                proof {
                    let ms = self.modules_view();
                    let p = views(path@);
                    assert forall|k: Seq<Seq<char>>|
                        #![trigger self@.contains_key(k)]
                        self@.contains_key(k) && is_prefix_of(k, p) implies k == m.key() by {
                        let j = choose|j: int| 0 <= j < ms.len() && ms[j].key() == k;
                        if j != i {
                            assert(!is_prefix_of(ms[j].key(), ms[i as int].key()));
                            assert(!is_prefix_of(ms[i as int].key(), ms[j].key()));
                            if k.len() <= m.key().len() {
                                assert(m.key().take(k.len() as int) =~= k);
                            } else {
                                assert(k.take(m.key().len() as int) =~= m.key());
                            }
                        }
                    }
                }
                return Some(m);
            }
            i = i + 1;
        }
        None
    }

    /// Register a version of an API under a prefix.
    ///
    /// Fails if a module registered under a different prefix would conflict with this one (one
    /// prefix is a prefix of the other), or if a module with the same prefix already holds this
    /// version; the trie is then unchanged.
    #[verifier::loop_isolation(false)]
    pub fn insert(&mut self, prefix: Vec<String>, version: u64, api: A) -> (r: Result<
        (),
        DispatchError,
    >)
        ensures
            prefix_free(old(self)@.dom()),
            ({
                let p = views(prefix@);
                let old_v = old(self)@;
                match r {
                    Ok(()) => !has_conflict(old_v.dom(), p) && !(old_v.contains_key(p)
                        && old_v[p].contains_key(version)) && final(self)@ == old_v.insert(
                        p,
                        (if old_v.contains_key(p) {
                            old_v[p]
                        } else {
                            Map::empty()
                        }).insert(version, api),
                    ),
                    Err(DispatchError::ModuleAlreadyExists { prefix: s, version: v }) => {
                        &&& old_v.contains_key(p)
                        &&& old_v[p].contains_key(version)
                        &&& v == version
                        &&& s@ == join_with(p, "/"@)
                        &&& final(self).modules_view() == old(self).modules_view()
                    },
                    Err(DispatchError::ConflictingModules { prefix: s, conflict: c }) => {
                        &&& has_conflict(old_v.dom(), p)
                        &&& final(self).modules_view() == old(self).modules_view()
                        &&& conflict_details(old(self).modules_view(), p, s@, c@)
                    },
                }
            }),
    {
        proof {
            use_type_invariant(&*self);
            self.lemma_view();
            self.lemma_prefix_free();
        }
        let ghost p = views(prefix@);
        let ghost ms = self.modules@;
        let n = self.modules.len();
        // A module whose prefix is a prefix of the new one.
        let mut i: usize = 0;
        while i < n
            invariant
                n == ms.len(),
                ms == self.modules@,
                ms == self.modules_view(),
                p == views(prefix@),
                i <= n,
                forall|j: int| 0 <= j < i ==> !is_prefix_of(ms[j].key(), p),
            decreases n - i,
        {
            let ghost m = ms[i as int];
            if is_prefix_exec(self.modules[i].prefix.as_slice(), prefix.as_slice()) {
                if self.modules[i].prefix.len() == prefix.len() {
                    proof {
                        assert(p.take(m.key().len() as int) =~= p);
                        assert(m.key() == p);
                        assert(ms[i as int].wf());
                        assert(self@[p] == m.version_map());
                    }
                    if self.modules[i].contains_version(version) {
                        return Err(
                            DispatchError::ModuleAlreadyExists {
                                prefix: self.modules[i].path(),
                                version,
                            },
                        );
                    }
                    let mut mods: Vec<Module<A>> = Vec::new();
                    std::mem::swap(&mut mods, &mut self.modules);
                    let mut md = mods.remove(i);
                    md.add_version(version, api);
                    let ghost new_m = md;
                    mods.insert(i, md);
                    proof {
                        assert(mods@ =~= ms.update(i as int, new_m));
                        assert(new_m.key() == m.key());
                        assert forall|a: int, b: int|
                            0 <= a < mods@.len() && 0 <= b < mods@.len() && a != b implies !is_prefix_of(
                            mods@[a].key(),
                            mods@[b].key(),
                        ) by {
                            assert(mods@[a].key() == ms[a].key());
                            assert(mods@[b].key() == ms[b].key());
                        }
                        assert forall|a: int| 0 <= a < mods@.len() - 1 implies segs_lt(
                            mods@[a].key(),
                            #[trigger] mods@[a + 1].key(),
                        ) by {
                            assert(mods@[a].key() == ms[a].key());
                            assert(mods@[a + 1].key() == ms[a + 1].key());
                        }
                        assert(module_entries(mods@) =~= module_entries(ms).update(
                            i as int,
                            (module_entries(ms)[i as int].0, new_m.version_map()),
                        ));
                        lemma_entries_map_update(module_entries(ms), i as int, new_m.version_map());
                    }
                    self.modules = mods;
                    return Ok(());
                } else {
                    let k = self.modules[i].prefix.len();
                    let path = self.modules[i].path();
                    let tail = tail_strings(prefix.as_slice(), k + 1);
                    let rest = join_strings(tail.as_slice(), "/");
                    let inner = join(prefix[k].as_str(), rest.as_str());
                    let conflict = join(path.as_str(), inner.as_str());
                    proof {
                        assert(self@.contains_key(m.key()));
                        assert(m.key() != p);
                        assert(p[k as int] == prefix@[k as int]@);
                    }
                    return Err(DispatchError::ConflictingModules { prefix: path, conflict });
                }
            }
            i = i + 1;
        }
        // A module whose prefix has the new one as a proper prefix.
        let mut i: usize = 0;
        while i < n
            invariant
                n == ms.len(),
                ms == self.modules@,
                ms == self.modules_view(),
                p == views(prefix@),
                i <= n,
                forall|j: int| 0 <= j < n ==> !is_prefix_of(ms[j].key(), p),
                forall|j: int| 0 <= j < i ==> !is_prefix_of(p, ms[j].key()),
            decreases n - i,
        {
            if is_prefix_exec(prefix.as_slice(), self.modules[i].prefix.as_slice()) {
                let conflict = self.modules[i].path();
                let ghost m = ms[i as int];
                proof {
                    assert(self@.contains_key(m.key()));
                    if m.key() == p {
                        assert(p.take(p.len() as int) =~= p);
                    }
                }
                return Err(
                    DispatchError::ConflictingModules {
                        prefix: join_strings(prefix.as_slice(), "/"),
                        conflict,
                    },
                );
            }
            i = i + 1;
        }
        proof {
            assert(!has_conflict(self@.dom(), p)) by {
                if has_conflict(self@.dom(), p) {
                    let k = choose|k: Seq<Seq<char>>|
                        self@.dom().contains(k) && k != p && (is_prefix_of(k, p) || is_prefix_of(
                            p,
                            k,
                        ));
                    assert(self@.contains_key(k));
                    let j = choose|j: int| 0 <= j < ms.len() && ms[j].key() == k;
                }
            }
            assert(!self@.contains_key(p)) by {
                if self@.contains_key(p) {
                    let j = choose|j: int| 0 <= j < ms.len() && ms[j].key() == p;
                    assert(p.take(p.len() as int) =~= p);
                }
            }
        }
        // A new module, at its place in lexicographic order.
        let mut q: usize = 0;
        while q < n && segs_less(self.modules[q].prefix.as_slice(), prefix.as_slice())
            invariant
                n == ms.len(),
                ms == self.modules@,
                p == views(prefix@),
                q <= n,
                forall|j: int| 0 <= j < q ==> segs_lt(ms[j].key(), p),
            decreases n - q,
        {
            q = q + 1;
        }
        let md = Module { prefix, versions: vec![(version, api)] };
        let ghost new_m = md;
        proof {
            assert(new_m.key() == p);
            assert(new_m.versions@.drop_last() =~= Seq::<(u64, A)>::empty());
            assert(entries_map(new_m.versions@.drop_last()) == Map::<u64, A>::empty());
            assert(new_m.version_map() =~= Map::<u64, A>::empty().insert(version, api));
            if q < n {
                assert(!is_prefix_of(ms[q as int].key(), p));
                assert(!is_prefix_of(p, ms[q as int].key()));
                lemma_segs_total(ms[q as int].key(), p);
                assert(segs_lt(p, ms[q as int].key()));
            }
        }
        let mut mods: Vec<Module<A>> = Vec::new();
        std::mem::swap(&mut mods, &mut self.modules);
        mods.insert(q, md);
        proof {
            assert(mods@ =~= ms.insert(q as int, new_m));
            assert forall|a: int, b: int|
                0 <= a < mods@.len() && 0 <= b < mods@.len() && a != b implies !is_prefix_of(
                mods@[a].key(),
                mods@[b].key(),
            ) by {
                if a != q && b != q {
                    let a0 = if a < q { a } else { a - 1 };
                    let b0 = if b < q { b } else { b - 1 };
                    assert(mods@[a] == ms[a0]);
                    assert(mods@[b] == ms[b0]);
                } else if a == q {
                    let b0 = if b < q { b } else { b - 1 };
                    assert(mods@[b] == ms[b0]);
                } else {
                    let a0 = if a < q { a } else { a - 1 };
                    assert(mods@[a] == ms[a0]);
                }
            }
            assert forall|a: int| 0 <= a < mods@.len() - 1 implies segs_lt(
                mods@[a].key(),
                #[trigger] mods@[a + 1].key(),
            ) by {
                if a + 1 < q {
                    assert(mods@[a] == ms[a]);
                    assert(mods@[a + 1] == ms[a + 1]);
                    assert(segs_lt(ms[a].key(), ms[a + 1].key()));
                } else if a + 1 == q {
                    assert(mods@[a] == ms[a]);
                    assert(mods@[a + 1] == new_m);
                    assert(segs_lt(ms[a].key(), p));
                } else if a == q {
                    assert(mods@[a] == new_m);
                    assert(mods@[a + 1] == ms[q as int]);
                    assert(segs_lt(p, ms[q as int].key()));
                } else {
                    assert(mods@[a] == ms[a - 1]);
                    assert(mods@[a + 1] == ms[a]);
                    assert(segs_lt(ms[a - 1].key(), ms[(a - 1) + 1].key()));
                }
            }
            assert forall|a: int| 0 <= a < mods@.len() implies (#[trigger] mods@[a]).wf() by {
                if a < q {
                    assert(mods@[a] == ms[a]);
                } else if a > q {
                    assert(mods@[a] == ms[a - 1]);
                }
            }
            assert(module_entries(mods@) =~= module_entries(ms).insert(
                q as int,
                (p, new_m.version_map()),
            ));
            assert forall|j: int| 0 <= j < module_entries(ms).len() implies module_entries(
                ms,
            )[j].0 != p by {
                assert(module_entries(ms)[j].0 == ms[j].key());
                if ms[j].key() == p {
                    assert(p.take(p.len() as int) =~= p);
                }
            }
            lemma_entries_map_insert(module_entries(ms), q as int, p, new_m.version_map());
        }
        self.modules = mods;
        Ok(())
    }
}

impl<A> Default for Trie<A> {
    /// An empty trie.
    fn default() -> (r: Self)
        ensures
            r.modules_view().len() == 0,
            r@ == Map::<Seq<Seq<char>>, Map<u64, A>>::empty(),
    {
        Trie::new()
    }
}

/// What a conflict error reports: either a registered module whose prefix is a proper prefix
/// of `p` (and then the path it would conflict with), or, when there is none, the first
/// registered module in order whose prefix has `p` as a proper prefix.
pub open spec fn conflict_details<A>(
    ms: Seq<Module<A>>,
    p: Seq<Seq<char>>,
    s: Seq<char>,
    c: Seq<char>,
) -> bool {
    ||| exists|i: int|
        0 <= i < ms.len() && is_prefix_of(ms[i].key(), p) && ms[i].key().len() < p.len() && s
            == join_with(ms[i].key(), "/"@) && c == conflict_path(ms[i].key(), p)
    ||| {
        &&& forall|j: int| 0 <= j < ms.len() ==> !is_prefix_of(ms[j].key(), p)
        &&& exists|i: int|
            0 <= i < ms.len() && is_prefix_of(p, ms[i].key()) && (forall|j: int|
                0 <= j < i ==> !is_prefix_of(p, ms[j].key())) && s == join_with(p, "/"@) && c
                == join_with(ms[i].key(), "/"@)
    }
}


/// The conflict reported when registering at `p`, over the registered prefixes alone: either a
/// registered prefix is a proper prefix of `p` (named with the path it conflicts with), or no
/// registered prefix is a prefix of `p` and `p` is a prefix of a registered one.
pub open spec fn conflict_in(keys: Set<Seq<Seq<char>>>, p: Seq<Seq<char>>, s: Seq<char>, c: Seq<char>) -> bool {
    ||| exists|k: Seq<Seq<char>>|
        #[trigger] keys.contains(k) && is_prefix_of(k, p) && k.len() < p.len() && s == join_with(k, "/"@)
            && c == conflict_path(k, p)
    ||| {
        &&& forall|k: Seq<Seq<char>>| #[trigger] keys.contains(k) ==> !is_prefix_of(k, p)
        &&& exists|k: Seq<Seq<char>>|
            #[trigger] keys.contains(k) && is_prefix_of(p, k) && s == join_with(p, "/"@) && c
                == join_with(k, "/"@)
    }
}

/// A conflict stated over a module list holds over the prefixes of the map it lists.
pub proof fn lemma_conflict_in<A>(ms: Seq<Module<A>>, p: Seq<Seq<char>>, s: Seq<char>, c: Seq<char>)
    requires
        conflict_details(ms, p, s, c),
    ensures
        conflict_in(entries_map(module_entries(ms)).dom(), p, s, c),
{
    let es = module_entries(ms);
    assert forall|k: Seq<Seq<char>>|
        #[trigger] entries_map(es).dom().contains(k) implies exists|i: int|
            0 <= i < ms.len() && ms[i].key() == k by {
        lemma_entries_map_dom(es, k);
        let i = choose|i: int| 0 <= i < es.len() && es[i].0 == k;
        assert(ms[i].key() == es[i].0);
    }
    if exists|i: int|
        0 <= i < ms.len() && is_prefix_of(ms[i].key(), p) && ms[i].key().len() < p.len() && s
            == join_with(ms[i].key(), "/"@) && c == conflict_path(ms[i].key(), p) {
        let i = choose|i: int|
            0 <= i < ms.len() && is_prefix_of(ms[i].key(), p) && ms[i].key().len() < p.len() && s
                == join_with(ms[i].key(), "/"@) && c == conflict_path(ms[i].key(), p);
        lemma_entries_map_dom(es, ms[i].key());
        assert(es[i].0 == ms[i].key());
        assert(entries_map(es).dom().contains(ms[i].key()));
    } else {
        let i = choose|i: int|
            0 <= i < ms.len() && is_prefix_of(p, ms[i].key()) && (forall|j: int|
                0 <= j < i ==> !is_prefix_of(p, ms[j].key())) && s == join_with(p, "/"@) && c
                == join_with(ms[i].key(), "/"@);
        lemma_entries_map_dom(es, ms[i].key());
        assert(es[i].0 == ms[i].key());
        assert(entries_map(es).dom().contains(ms[i].key()));
    }
}

/// The conflict that an error names, stated over a module list, holds over the prefixes of
/// the map it lists.
pub proof fn lemma_conflict_error<A>(ms: Seq<Module<A>>, p: Seq<Seq<char>>, e: DispatchError)
    ensures
        match e {
            DispatchError::ConflictingModules { prefix, conflict } => conflict_details(
                ms,
                p,
                prefix@,
                conflict@,
            ) ==> conflict_in(entries_map(module_entries(ms)).dom(), p, prefix@, conflict@),
            _ => true,
        },
{
    match e {
        DispatchError::ConflictingModules { prefix, conflict } => {
            if conflict_details(ms, p, prefix@, conflict@) {
                lemma_conflict_in(ms, p, prefix@, conflict@);
            }
        },
        _ => {},
    }
}

/// A module version registered under a prefix is found there afterwards, with the API that was
/// registered, and the versions of every other prefix, and the other versions of that prefix,
/// are as they were.
pub proof fn law_registered_version_found<A>(
    old_v: Map<Seq<Seq<char>>, Map<u64, A>>,
    new_v: Map<Seq<Seq<char>>, Map<u64, A>>,
    p: Seq<Seq<char>>,
    version: u64,
    api: A,
)
    requires
        new_v == old_v.insert(
            p,
            (if old_v.contains_key(p) {
                old_v[p]
            } else {
                Map::empty()
            }).insert(version, api),
        ),
    ensures
        new_v.contains_key(p),
        new_v[p].contains_key(version),
        new_v[p][version] == api,
        forall|q: Seq<Seq<char>>| q != p && old_v.contains_key(q) ==> #[trigger] new_v.contains_key(q) && new_v[q] == old_v[q],
        forall|w: u64|
            w != version && old_v.contains_key(p) && old_v[p].contains_key(w) ==> #[trigger] new_v[p].contains_key(w)
                && new_v[p][w] == old_v[p][w],
{
}

} // verus!
