//! The partially-specified form of the configuration, and how layers combine.
//!
//! Each layer -- global file, project file, environment, command line -- is
//! read into a [`ConfigPatch`] where every field is optional. Patches are merged
//! in precedence order and only at the end resolved against the defaults, so a
//! layer that says nothing about a value never overwrites a lower layer's value
//! with the default.
//!
//! Unknown keys are collected rather than rejected, so a project pinned to an
//! older Chip Loom can still open a `chiploom.toml` written by a newer one.

use vstd::prelude::*;

use super::document::{
    ItemView, ScalarView, TomlDocument, TomlItem, TomlScalar, key_view, parse_toml, toml_document,
};
use super::model::{Config, ConfigView, Log, LogFormat, LogLevel, Network, PathOverrides, Project};
use crate::error::ConfigError;
use crate::text::{copy, owned, push_chars, push_str, same, trim, trim_bounds, chars_of};
#[allow(unused_imports)]
use vstd::string::*;

verus! {

/// Optional form of [`Project`].
#[derive(Debug, Clone, Default)]
pub struct ProjectPatch {
    /// Human-readable project name.
    pub name: Option<String>,
    /// Keys inside `[project]` this build does not know about.
    pub unknown: Vec<String>,
}

/// Optional form of [`PathOverrides`].
#[derive(Debug, Clone, Default)]
pub struct PathsPatch {
    /// Replaces the platform data directory.
    pub data_dir: Option<String>,
    /// Replaces the platform cache directory.
    pub cache_dir: Option<String>,
    /// Keys inside `[paths]` this build does not know about.
    pub unknown: Vec<String>,
}

/// Optional form of [`Log`].
#[derive(Debug, Clone, Default)]
pub struct LogPatch {
    /// Minimum severity.
    pub level: Option<LogLevel>,
    /// Rendering style.
    pub format: Option<LogFormat>,
    /// Additional JSON log file.
    pub file: Option<String>,
    /// Whether human output carries timestamps.
    pub timestamps: Option<bool>,
    /// Keys inside `[log]` this build does not know about.
    pub unknown: Vec<String>,
}

/// Optional form of [`Network`].
#[derive(Debug, Clone, Default)]
pub struct NetworkPatch {
    /// Forbid all network access.
    pub offline: Option<bool>,
    /// Per-request timeout, in seconds.
    pub timeout_secs: Option<u64>,
    /// Retry budget per request.
    pub retries: Option<u32>,
    /// Keys inside `[network]` this build does not know about.
    pub unknown: Vec<String>,
}

/// A configuration layer, with every field optional.
#[derive(Debug, Clone, Default)]
pub struct ConfigPatch {
    /// Project identity.
    pub project: ProjectPatch,
    /// Storage location overrides.
    pub paths: PathsPatch,
    /// Diagnostics output.
    pub log: LogPatch,
    /// Network policy.
    pub network: NetworkPatch,
    /// Top-level keys this build does not know about.
    pub unknown: Vec<String>,
}

/// The abstract form of a patch: every setting it speaks about, and every key
/// it did not understand, per section.
pub struct PatchView {
    pub name: Option<Seq<char>>,
    pub data_dir: Option<Seq<char>>,
    pub cache_dir: Option<Seq<char>>,
    pub level: Option<LogLevel>,
    pub format: Option<LogFormat>,
    pub file: Option<Seq<char>>,
    pub timestamps: Option<bool>,
    pub offline: Option<bool>,
    pub timeout_secs: Option<u64>,
    pub retries: Option<u32>,
    pub unknown: Seq<Seq<char>>,
    pub project_unknown: Seq<Seq<char>>,
    pub paths_unknown: Seq<Seq<char>>,
    pub log_unknown: Seq<Seq<char>>,
    pub network_unknown: Seq<Seq<char>>,
}

/// The characters of each string.
pub open spec fn strs(v: Seq<String>) -> Seq<Seq<char>> {
    v.map_values(|s: String| s@)
}

/// The characters of an optional string.
pub open spec fn opt_str(o: Option<String>) -> Option<Seq<char>> {
    match o {
        Some(s) => Some(s@),
        None => None,
    }
}

impl View for ConfigPatch {
    type V = PatchView;

    open spec fn view(&self) -> PatchView {
        PatchView {
            name: opt_str(self.project.name),
            data_dir: opt_str(self.paths.data_dir),
            cache_dir: opt_str(self.paths.cache_dir),
            level: self.log.level,
            format: self.log.format,
            file: opt_str(self.log.file),
            timestamps: self.log.timestamps,
            offline: self.network.offline,
            timeout_secs: self.network.timeout_secs,
            retries: self.network.retries,
            unknown: strs(self.unknown@),
            project_unknown: strs(self.project.unknown@),
            paths_unknown: strs(self.paths.unknown@),
            log_unknown: strs(self.log.unknown@),
            network_unknown: strs(self.network.unknown@),
        }
    }
}

/// A patch that says nothing.
pub open spec fn empty_patch() -> PatchView {
    PatchView {
        name: None,
        data_dir: None,
        cache_dir: None,
        level: None,
        format: None,
        file: None,
        timestamps: None,
        offline: None,
        timeout_secs: None,
        retries: None,
        unknown: Seq::empty(),
        project_unknown: Seq::empty(),
        paths_unknown: Seq::empty(),
        log_unknown: Seq::empty(),
        network_unknown: Seq::empty(),
    }
}

/// The higher layer's value where it has one, else the lower layer's.
pub open spec fn over<T>(lower: Option<T>, higher: Option<T>) -> Option<T> {
    match higher {
        Some(v) => Some(v),
        None => lower,
    }
}

/// `keys` with `key` recorded: unchanged when it is already there, else with
/// `key` added at the end, as a map records a key once.
pub open spec fn keys_with(keys: Seq<Seq<char>>, key: Seq<char>) -> Seq<Seq<char>> {
    if keys.contains(key) {
        keys
    } else {
        keys.push(key)
    }
}

/// The keys of `lower` followed by each key of `higher`, in order, that is not
/// yet there: the keys of a map extended by another.
pub open spec fn union_keys(lower: Seq<Seq<char>>, higher: Seq<Seq<char>>) -> Seq<Seq<char>>
    decreases higher.len(),
{
    if higher.len() == 0 {
        lower
    } else {
        keys_with(union_keys(lower, higher.drop_last()), higher.last())
    }
}

/// The invariant every patch the library builds keeps: within each section no
/// unknown key occurs twice.
pub open spec fn keys_unique(p: PatchView) -> bool {
    &&& p.unknown.no_duplicates()
    &&& p.project_unknown.no_duplicates()
    &&& p.paths_unknown.no_duplicates()
    &&& p.log_unknown.no_duplicates()
    &&& p.network_unknown.no_duplicates()
}

/// `higher` overlaid on `lower`: `higher` wins wherever it has an opinion, and
/// the unknown keys of both are kept, each once.
pub open spec fn merged(lower: PatchView, higher: PatchView) -> PatchView {
    PatchView {
        name: over(lower.name, higher.name),
        data_dir: over(lower.data_dir, higher.data_dir),
        cache_dir: over(lower.cache_dir, higher.cache_dir),
        level: over(lower.level, higher.level),
        format: over(lower.format, higher.format),
        file: over(lower.file, higher.file),
        timestamps: over(lower.timestamps, higher.timestamps),
        offline: over(lower.offline, higher.offline),
        timeout_secs: over(lower.timeout_secs, higher.timeout_secs),
        retries: over(lower.retries, higher.retries),
        unknown: union_keys(lower.unknown, higher.unknown),
        project_unknown: union_keys(lower.project_unknown, higher.project_unknown),
        paths_unknown: union_keys(lower.paths_unknown, higher.paths_unknown),
        log_unknown: union_keys(lower.log_unknown, higher.log_unknown),
        network_unknown: union_keys(lower.network_unknown, higher.network_unknown),
    }
}

/// A patch resolved against the defaults, or `Err` when it sets a zero
/// timeout.
pub open spec fn resolved(p: PatchView) -> Result<ConfigView, ()> {
    if p.timeout_secs == Some(0u64) {
        Err(())
    } else {
        Ok(
            ConfigView {
                name: p.name,
                data_dir: p.data_dir,
                cache_dir: p.cache_dir,
                level: match p.level {
                    Some(l) => l,
                    None => LogLevel::Info,
                },
                format: match p.format {
                    Some(f) => f,
                    None => LogFormat::Compact,
                },
                file: p.file,
                timestamps: match p.timestamps {
                    Some(t) => t,
                    None => false,
                },
                offline: match p.offline {
                    Some(o) => o,
                    None => false,
                },
                timeout_secs: match p.timeout_secs {
                    Some(t) => t,
                    None => 30,
                },
                retries: match p.retries {
                    Some(r) => r,
                    None => 3,
                },
            },
        )
    }
}

/// Whether a patch sets any value, unknown keys aside.
pub open spec fn has_values(p: PatchView) -> bool {
    ||| p.name is Some
    ||| p.data_dir is Some
    ||| p.cache_dir is Some
    ||| p.level is Some
    ||| p.format is Some
    ||| p.file is Some
    ||| p.timestamps is Some
    ||| p.offline is Some
    ||| p.timeout_secs is Some
    ||| p.retries is Some
}

/// Each key of `keys` with `prefix` in front.
pub open spec fn prefixed(prefix: Seq<char>, keys: Seq<Seq<char>>) -> Set<Seq<char>> {
    Set::new(|s: Seq<char>| exists|k: Seq<char>| keys.contains(k) && s == prefix + k)
}

/// Every unknown key of a patch, as a dotted path.
pub open spec fn unknown_set(p: PatchView) -> Set<Seq<char>> {
    prefixed(""@, p.unknown).union(prefixed("project."@, p.project_unknown)).union(
        prefixed("paths."@, p.paths_unknown),
    ).union(prefixed("log."@, p.log_unknown)).union(prefixed("network."@, p.network_unknown))
}

/// The strings a vector of character vectors holds.
pub open spec fn view_set(v: Seq<Vec<char>>) -> Set<Seq<char>> {
    v.map_values(|e: Vec<char>| e@).to_set()
}

proof fn lemma_prefixed_step(prefix: Seq<char>, keys: Seq<Seq<char>>, i: int)
    requires
        0 <= i < keys.len(),
    ensures
        prefixed(prefix, keys.take(i + 1)) == prefixed(prefix, keys.take(i)).insert(prefix + keys[i]),
{
    assert forall|s: Seq<char>| prefixed(prefix, keys.take(i + 1)).contains(s) <==> prefixed(
        prefix,
        keys.take(i),
    ).insert(prefix + keys[i]).contains(s) by {
        if prefixed(prefix, keys.take(i + 1)).contains(s) {
            let k = choose|k: Seq<char>| keys.take(i + 1).contains(k) && s == prefix + k;
            let n = choose|n: int| 0 <= n < i + 1 && #[trigger] keys.take(i + 1)[n] == k;
            if n < i {
                assert(keys.take(i)[n] == k);
            }
        }
        if prefixed(prefix, keys.take(i)).contains(s) {
            let k = choose|k: Seq<char>| keys.take(i).contains(k) && s == prefix + k;
            let n = choose|n: int| 0 <= n < i && #[trigger] keys.take(i)[n] == k;
            assert(keys.take(i + 1)[n] == k);
        }
        if s == prefix + keys[i] {
            assert(keys.take(i + 1)[i] == keys[i]);
        }
    }
    assert(prefixed(prefix, keys.take(i + 1)) =~= prefixed(prefix, keys.take(i)).insert(
        prefix + keys[i],
    ));
}

/// Strict lexicographic order on character sequences, by code point; the order
/// `String`'s `Ord` uses.
pub open spec fn lex_lt(a: Seq<char>, b: Seq<char>) -> bool
    decreases a.len(),
{
    if a.len() == 0 {
        b.len() > 0
    } else if b.len() == 0 {
        false
    } else if a[0] != b[0] {
        a[0] < b[0]
    } else {
        lex_lt(a.drop_first(), b.drop_first())
    }
}

/// Sorted in strictly increasing order, so without duplicates.
pub open spec fn strictly_sorted(s: Seq<Seq<char>>) -> bool {
    forall|i: int, j: int| 0 <= i < j < s.len() ==> lex_lt(#[trigger] s[i], #[trigger] s[j])
}

/// No sequence is below itself.
proof fn lemma_lex_irreflexive(a: Seq<char>)
    ensures
        !lex_lt(a, a),
    decreases a.len(),
{
    if a.len() > 0 {
        lemma_lex_irreflexive(a.drop_first());
    }
}

/// The order is transitive.
proof fn lemma_lex_transitive(a: Seq<char>, b: Seq<char>, c: Seq<char>)
    requires
        lex_lt(a, b),
        lex_lt(b, c),
    ensures
        lex_lt(a, c),
    decreases a.len(),
{
    if a.len() > 0 && b.len() > 0 && c.len() > 0 && a[0] == b[0] && b[0] == c[0] {
        lemma_lex_transitive(a.drop_first(), b.drop_first(), c.drop_first());
    }
}

/// Any two distinct sequences are ordered one way or the other.
proof fn lemma_lex_total(a: Seq<char>, b: Seq<char>)
    ensures
        a != b ==> lex_lt(a, b) || lex_lt(b, a),
    decreases a.len(),
{
    if a.len() > 0 && b.len() > 0 && a[0] == b[0] {
        lemma_lex_total(a.drop_first(), b.drop_first());
        if a.drop_first() == b.drop_first() {
            assert forall|i: int| 0 <= i < a.len() implies a[i] == b[i] by {
                if i > 0 {
                    assert(a[i] == a.drop_first()[i - 1]);
                    assert(b[i] == b.drop_first()[i - 1]);
                }
            }
            assert(a =~= b);
        }
    } else if a.len() == 0 && b.len() == 0 {
        assert(a =~= b);
    }
}

/// No two sequences are each below the other.
proof fn lemma_lex_asymmetric(a: Seq<char>, b: Seq<char>)
    requires
        lex_lt(a, b),
    ensures
        !lex_lt(b, a),
    decreases a.len(),
{
    if a.len() > 0 && b.len() > 0 && a[0] == b[0] {
        lemma_lex_asymmetric(a.drop_first(), b.drop_first());
    }
}

/// Two strictly sorted sequences holding the same strings are the same
/// sequence.
pub proof fn lemma_sorted_unique(a: Seq<Seq<char>>, b: Seq<Seq<char>>)
    requires
        strictly_sorted(a),
        strictly_sorted(b),
        a.to_set() == b.to_set(),
    ensures
        a == b,
    decreases a.len(),
{
    if a.len() == 0 {
        if b.len() > 0 {
            assert(b.to_set().contains(b[0]));
        }
        assert(a =~= b);
    } else {
        assert(a.to_set().contains(a[0]));
        assert(b.len() > 0);
        assert(b.to_set().contains(b[0]));
        let j = choose|j: int| 0 <= j < b.len() && b[j] == a[0];
        let i = choose|i: int| 0 <= i < a.len() && a[i] == b[0];
        if j > 0 {
            assert(lex_lt(b[0], b[j]));
            if i > 0 {
                assert(lex_lt(a[0], a[i]));
                lemma_lex_asymmetric(a[0], a[i]);
            } else {
                lemma_lex_irreflexive(a[0]);
            }
        }
        assert(a[0] == b[0]);
        let ta = a.drop_first();
        let tb = b.drop_first();
        assert forall|x: Seq<char>| ta.to_set().contains(x) <==> tb.to_set().contains(x) by {
            if ta.to_set().contains(x) {
                let k = choose|k: int| 0 <= k < ta.len() && ta[k] == x;
                assert(a[k + 1] == x);
                assert(lex_lt(a[0], a[k + 1]));
                lemma_lex_irreflexive(x);
                assert(b.to_set().contains(x));
                let m = choose|m: int| 0 <= m < b.len() && b[m] == x;
                assert(m != 0);
                assert(tb[m - 1] == x);
            }
            if tb.to_set().contains(x) {
                let k = choose|k: int| 0 <= k < tb.len() && tb[k] == x;
                assert(b[k + 1] == x);
                assert(lex_lt(b[0], b[k + 1]));
                lemma_lex_irreflexive(x);
                assert(a.to_set().contains(x));
                let m = choose|m: int| 0 <= m < a.len() && a[m] == x;
                assert(m != 0);
                assert(ta[m - 1] == x);
            }
        }
        assert(ta.to_set() =~= tb.to_set());
        assert forall|p: int, q: int| 0 <= p < q < ta.len() implies lex_lt(
            #[trigger] ta[p],
            #[trigger] ta[q],
        ) by {
            assert(ta[p] == a[p + 1] && ta[q] == a[q + 1]);
        }
        assert forall|p: int, q: int| 0 <= p < q < tb.len() implies lex_lt(
            #[trigger] tb[p],
            #[trigger] tb[q],
        ) by {
            assert(tb[p] == b[p + 1] && tb[q] == b[q + 1]);
        }
        lemma_sorted_unique(ta, tb);
        assert forall|k: int| 0 <= k < a.len() implies a[k] == b[k] by {
            if k > 0 {
                assert(a[k] == ta[k - 1]);
                assert(b[k] == tb[k - 1]);
            }
        }
        assert(a =~= b);
    }
}

/// The unknown keys of a patch as dotted paths, in sorted order.
pub open spec fn sorted_unknown(p: PatchView) -> Seq<Seq<char>> {
    choose|s: Seq<Seq<char>>| strictly_sorted(s) && s.to_set() == unknown_set(p)
}

/// Whether `a` comes strictly before `b`.
pub fn lex_less(a: &Vec<char>, b: &Vec<char>) -> (r: bool)
    ensures
        r == lex_lt(a@, b@),
{
    let mut i: usize = 0;
    assert(a@.skip(0) =~= a@);
    assert(b@.skip(0) =~= b@);
    while i < a.len() && i < b.len() && a[i] == b[i]
        invariant
            i <= a.len(),
            i <= b.len(),
            lex_lt(a@, b@) == lex_lt(a@.skip(i as int), b@.skip(i as int)),
        decreases a.len() - i,
    {
        assert(a@.skip(i as int).drop_first() =~= a@.skip(i + 1));
        assert(b@.skip(i as int).drop_first() =~= b@.skip(i + 1));
        i = i + 1;
    }
    if i == a.len() {
        i < b.len()
    } else if i == b.len() {
        false
    } else {
        a[i] < b[i]
    }
}

/// Inserts `x` into a strictly sorted sequence, unless it is already there.
fn insert_sorted(v: &mut Vec<Vec<char>>, x: Vec<char>)
    requires
        strictly_sorted(old(v)@.map_values(|e: Vec<char>| e@)),
    ensures
        strictly_sorted(final(v)@.map_values(|e: Vec<char>| e@)),
        view_set(final(v)@) == view_set(old(v)@).insert(x@),
{
    let ghost vw = v@.map_values(|e: Vec<char>| e@);
    let mut i: usize = 0;
    while i < v.len() && lex_less(&v[i], &x)
        invariant
            i <= v.len(),
            v@.map_values(|e: Vec<char>| e@) == vw,
            forall|k: int| 0 <= k < i ==> lex_lt(#[trigger] vw[k], x@),
        decreases v.len() - i,
    {
        i = i + 1;
    }
    if i < v.len() && !lex_less(&x, &v[i]) {
        // Neither is smaller, so `x` is already present.
        proof {
            lemma_lex_total(x@, vw[i as int]);
            assert(vw[i as int] == x@);
            assert(vw.to_set().insert(x@) =~= vw.to_set());
        }
        return;
    }
    v.insert(i, x);
    proof {
        let nw = v@.map_values(|e: Vec<char>| e@);
        assert(nw =~= vw.insert(i as int, x@));
        if i < vw.len() {
            assert(lex_lt(x@, vw[i as int]));
        }
        assert forall|k: int| i < k < nw.len() implies lex_lt(x@, #[trigger] nw[k]) by {
            if k > i + 1 {
                lemma_lex_transitive(x@, vw[i as int], vw[k - 1]);
            }
        }
        assert forall|a: int, b: int| 0 <= a < b < nw.len() implies lex_lt(
            #[trigger] nw[a],
            #[trigger] nw[b],
        ) by {
            if b < i {
            } else if a < i && b == i {
            } else if a < i && b > i {
                lemma_lex_transitive(nw[a], x@, nw[b]);
            } else if a == i {
                if b > i + 1 {
                    lemma_lex_transitive(x@, vw[i as int], vw[b - 1]);
                }
            } else {
            }
        }
        assert(nw.to_set() =~= vw.to_set().insert(x@)) by {
            assert forall|s: Seq<char>| nw.to_set().contains(s) implies vw.to_set().insert(
                x@,
            ).contains(s) by {
                let k = choose|k: int| 0 <= k < nw.len() && nw[k] == s;
                if k < i {
                    assert(vw[k] == s);
                } else if k > i {
                    assert(vw[k - 1] == s);
                }
            }
            assert forall|s: Seq<char>| vw.to_set().insert(x@).contains(s) implies nw.to_set().contains(
                s,
            ) by {
                if s == x@ {
                    assert(nw[i as int] == s);
                } else {
                    let k = choose|k: int| 0 <= k < vw.len() && vw[k] == s;
                    if k < i {
                        assert(nw[k] == s);
                    } else {
                        assert(nw[k + 1] == s);
                    }
                }
            }
        }
    }
}

/// Adds `prefix` followed by each of `keys` to the sorted set `out`.
fn add_keys(out: &mut Vec<Vec<char>>, prefix: &str, keys: &Vec<String>)
    requires
        strictly_sorted(old(out)@.map_values(|e: Vec<char>| e@)),
    ensures
        strictly_sorted(final(out)@.map_values(|e: Vec<char>| e@)),
        view_set(final(out)@) == view_set(old(out)@).union(prefixed(prefix@, strs(keys@))),
{
    let ghost start = view_set(old(out)@);
    let ghost ks = strs(keys@);
    let pre = chars_of(prefix);
    let mut i: usize = 0;
    assert(prefixed(prefix@, ks.take(0)) =~= Set::<Seq<char>>::empty());
    assert(start.union(Set::<Seq<char>>::empty()) =~= start);
    while i < keys.len()
        invariant
            i <= keys.len(),
            pre@ == prefix@,
            ks == strs(keys@),
            strictly_sorted(out@.map_values(|e: Vec<char>| e@)),
            view_set(out@) == start.union(prefixed(prefix@, ks.take(i as int))),
        decreases keys.len() - i,
    {
        let mut full = pre.clone();
        let tail = chars_of(keys[i].as_str());
        let mut j: usize = 0;
        while j < tail.len()
            invariant
                j <= tail.len(),
                full@ == prefix@ + tail@.subrange(0, j as int),
            decreases tail.len() - j,
        {
            full.push(tail[j]);
            j = j + 1;
            assert(full@ =~= prefix@ + tail@.subrange(0, j as int));
        }
        assert(tail@.subrange(0, tail@.len() as int) =~= tail@);
        let ghost fv = full@;
        insert_sorted(out, full);
        proof {
            lemma_prefixed_step(prefix@, ks, i as int);
            assert(ks[i as int] == keys@[i as int]@);
            assert(view_set(out@) =~= start.union(prefixed(prefix@, ks.take(i + 1))));
        }
        i = i + 1;
    }
    assert(ks.take(keys.len() as int) =~= ks);
}

/// The four sections a configuration file may hold.
#[derive(Clone, Copy, PartialEq, Eq, Structural)]
pub enum Section {
    /// `[project]`.
    Project,
    /// `[paths]`.
    Paths,
    /// `[log]`.
    Log,
    /// `[network]`.
    Network,
}

/// The message for a value of the wrong type.
pub open spec fn type_error(key: Seq<char>, expected: Seq<char>) -> Seq<char> {
    "invalid type for `"@ + key + "`: expected "@ + expected
}

/// The message for a value of the right type outside its range.
pub open spec fn range_error(key: Seq<char>, expected: Seq<char>) -> Seq<char> {
    "invalid value for `"@ + key + "`: expected "@ + expected
}

/// The message for a string that names no variant.
pub open spec fn variant_error(key: Seq<char>, value: Seq<char>, expected: Seq<char>) -> Seq<
    char,
> {
    "unknown variant `"@ + value + "` for `"@ + key + "`, expected one of "@ + expected
}

/// A level spelled exactly as in a file: one of the five lower-case names.
pub open spec fn exact_level(s: Seq<char>) -> Option<LogLevel> {
    if s == "error"@ {
        Some(LogLevel::Error)
    } else if s == "warn"@ {
        Some(LogLevel::Warn)
    } else if s == "info"@ {
        Some(LogLevel::Info)
    } else if s == "debug"@ {
        Some(LogLevel::Debug)
    } else if s == "trace"@ {
        Some(LogLevel::Trace)
    } else {
        None
    }
}

/// A format spelled exactly as in a file: one of the three lower-case names.
pub open spec fn exact_format(s: Seq<char>) -> Option<LogFormat> {
    if s == "compact"@ {
        Some(LogFormat::Compact)
    } else if s == "pretty"@ {
        Some(LogFormat::Pretty)
    } else if s == "json"@ {
        Some(LogFormat::Json)
    } else {
        None
    }
}

/// The effect of one key inside a section.
pub open spec fn apply_key(p: PatchView, section: Section, key: Seq<char>, value: ScalarView) -> Result<
    PatchView,
    Seq<char>,
> {
    match section {
        Section::Project => if key == "name"@ {
            match value {
                ScalarView::Str(s) => Ok(PatchView { name: Some(s), ..p }),
                _ => Err(type_error("project.name"@, "a string"@)),
            }
        } else {
            Ok(PatchView { project_unknown: keys_with(p.project_unknown, key), ..p })
        },
        Section::Paths => if key == "data_dir"@ {
            match value {
                ScalarView::Str(s) => Ok(PatchView { data_dir: Some(s), ..p }),
                _ => Err(type_error("paths.data_dir"@, "a path"@)),
            }
        } else if key == "cache_dir"@ {
            match value {
                ScalarView::Str(s) => Ok(PatchView { cache_dir: Some(s), ..p }),
                _ => Err(type_error("paths.cache_dir"@, "a path"@)),
            }
        } else {
            Ok(PatchView { paths_unknown: keys_with(p.paths_unknown, key), ..p })
        },
        Section::Log => if key == "level"@ {
            match value {
                ScalarView::Str(s) => match exact_level(s) {
                    Some(l) => Ok(PatchView { level: Some(l), ..p }),
                    None => Err(
                        variant_error("log.level"@, s, "error, warn, info, debug, trace"@),
                    ),
                },
                _ => Err(type_error("log.level"@, "a string"@)),
            }
        } else if key == "format"@ {
            match value {
                ScalarView::Str(s) => match exact_format(s) {
                    Some(f) => Ok(PatchView { format: Some(f), ..p }),
                    None => Err(variant_error("log.format"@, s, "compact, pretty, json"@)),
                },
                _ => Err(type_error("log.format"@, "a string"@)),
            }
        } else if key == "file"@ {
            match value {
                ScalarView::Str(s) => Ok(PatchView { file: Some(s), ..p }),
                _ => Err(type_error("log.file"@, "a path"@)),
            }
        } else if key == "timestamps"@ {
            match value {
                ScalarView::Bool(b) => Ok(PatchView { timestamps: Some(b), ..p }),
                _ => Err(type_error("log.timestamps"@, "a boolean"@)),
            }
        } else {
            Ok(PatchView { log_unknown: keys_with(p.log_unknown, key), ..p })
        },
        Section::Network => if key == "offline"@ {
            match value {
                ScalarView::Bool(b) => Ok(PatchView { offline: Some(b), ..p }),
                _ => Err(type_error("network.offline"@, "a boolean"@)),
            }
        } else if key == "timeout_secs"@ {
            match value {
                ScalarView::Int(i) => if i >= 0 {
                    Ok(PatchView { timeout_secs: Some(i as u64), ..p })
                } else {
                    Err(range_error("network.timeout_secs"@, "a non-negative integer"@))
                },
                _ => Err(type_error("network.timeout_secs"@, "an integer"@)),
            }
        } else if key == "retries"@ {
            match value {
                ScalarView::Int(i) => if 0 <= i <= u32::MAX {
                    Ok(PatchView { retries: Some(i as u32), ..p })
                } else {
                    Err(range_error("network.retries"@, "an integer from 0 to 4294967295"@))
                },
                _ => Err(type_error("network.retries"@, "an integer"@)),
            }
        } else {
            Ok(PatchView { network_unknown: keys_with(p.network_unknown, key), ..p })
        },
    }
}

/// The effect of a whole section, key by key in the order given; the first
/// failing key decides the error.
pub open spec fn apply_table(p: PatchView, section: Section, t: Seq<(Seq<char>, ScalarView)>) -> Result<
    PatchView,
    Seq<char>,
>
    decreases t.len(),
{
    if t.len() == 0 {
        Ok(p)
    } else {
        match apply_table(p, section, t.drop_last()) {
            Ok(q) => apply_key(q, section, t.last().0, t.last().1),
            Err(e) => Err(e),
        }
    }
}

/// The section a top-level key names, if any.
pub open spec fn section_named(key: Seq<char>) -> Option<Section> {
    if key == "project"@ {
        Some(Section::Project)
    } else if key == "paths"@ {
        Some(Section::Paths)
    } else if key == "log"@ {
        Some(Section::Log)
    } else if key == "network"@ {
        Some(Section::Network)
    } else {
        None
    }
}

/// The effect of one top-level key: a known section must be a table, and any
/// other key is recorded as unknown.
pub open spec fn apply_entry(p: PatchView, key: Seq<char>, item: ItemView) -> Result<
    PatchView,
    Seq<char>,
> {
    match section_named(key) {
        Some(section) => match item {
            ItemView::Table(t) => apply_table(p, section, t),
            ItemView::Scalar(_) => Err(type_error(key, "a table"@)),
        },
        None => Ok(PatchView { unknown: keys_with(p.unknown, key), ..p }),
    }
}

/// The patch a document describes, entry by entry in the order given; the first
/// failing entry decides the error.
pub open spec fn apply_document(d: Seq<(Seq<char>, ItemView)>) -> Result<PatchView, Seq<char>>
    decreases d.len(),
{
    if d.len() == 0 {
        Ok(empty_patch())
    } else {
        match apply_document(d.drop_last()) {
            Ok(q) => apply_entry(q, d.last().0, d.last().1),
            Err(e) => Err(e),
        }
    }
}

proof fn lemma_table_error_persists(
    p: PatchView,
    section: Section,
    t: Seq<(Seq<char>, ScalarView)>,
    i: int,
    e: Seq<char>,
)
    requires
        0 <= i <= t.len(),
        apply_table(p, section, t.take(i)) == Err::<PatchView, Seq<char>>(e),
    ensures
        apply_table(p, section, t) == Err::<PatchView, Seq<char>>(e),
    decreases t.len() - i,
{
    if i < t.len() {
        assert(t.take(i + 1).drop_last() =~= t.take(i));
        lemma_table_error_persists(p, section, t, i + 1, e);
    } else {
        assert(t.take(i) =~= t);
    }
}

proof fn lemma_document_error_persists(d: Seq<(Seq<char>, ItemView)>, i: int, e: Seq<char>)
    requires
        0 <= i <= d.len(),
        apply_document(d.take(i)) == Err::<PatchView, Seq<char>>(e),
    ensures
        apply_document(d) == Err::<PatchView, Seq<char>>(e),
    decreases d.len() - i,
{
    if i < d.len() {
        assert(d.take(i + 1).drop_last() =~= d.take(i));
        lemma_document_error_persists(d, i + 1, e);
    } else {
        assert(d.take(i) =~= d);
    }
}

/// Appends the message for a value of the wrong type.
fn type_message(key: &str, expected: &str) -> (m: String)
    ensures
        m@ == type_error(key@, expected@),
{
    let mut m = owned("invalid type for `");
    push_str(&mut m, key);
    push_str(&mut m, "`: expected ");
    push_str(&mut m, expected);
    m
}

fn range_message(key: &str, expected: &str) -> (m: String)
    ensures
        m@ == range_error(key@, expected@),
{
    let mut m = owned("invalid value for `");
    push_str(&mut m, key);
    push_str(&mut m, "`: expected ");
    push_str(&mut m, expected);
    m
}

fn variant_message(key: &str, value: &String, expected: &str) -> (m: String)
    ensures
        m@ == variant_error(key@, value@, expected@),
{
    let mut m = owned("unknown variant `");
    push_str(&mut m, value.as_str());
    push_str(&mut m, "` for `");
    push_str(&mut m, key);
    push_str(&mut m, "`, expected one of ");
    push_str(&mut m, expected);
    m
}

fn level_exactly(s: &String) -> (r: Option<LogLevel>)
    ensures
        r == exact_level(s@),
{
    if same(s, "error") {
        Some(LogLevel::Error)
    } else if same(s, "warn") {
        Some(LogLevel::Warn)
    } else if same(s, "info") {
        Some(LogLevel::Info)
    } else if same(s, "debug") {
        Some(LogLevel::Debug)
    } else if same(s, "trace") {
        Some(LogLevel::Trace)
    } else {
        None
    }
}

fn format_exactly(s: &String) -> (r: Option<LogFormat>)
    ensures
        r == exact_format(s@),
{
    if same(s, "compact") {
        Some(LogFormat::Compact)
    } else if same(s, "pretty") {
        Some(LogFormat::Pretty)
    } else if same(s, "json") {
        Some(LogFormat::Json)
    } else {
        None
    }
}

fn section_of(key: &String) -> (r: Option<Section>)
    ensures
        r == section_named(key@),
{
    if same(key, "project") {
        Some(Section::Project)
    } else if same(key, "paths") {
        Some(Section::Paths)
    } else if same(key, "log") {
        Some(Section::Log)
    } else if same(key, "network") {
        Some(Section::Network)
    } else {
        None
    }
}

/// Records a copy of `key` in `keys` unless it is already there.
fn record_key(keys: &mut Vec<String>, key: &String)
    ensures
        strs(final(keys)@) == keys_with(strs(old(keys)@), key@),
{
    let mut i: usize = 0;
    while i < keys.len()
        invariant
            i <= keys.len(),
            forall|j: int| 0 <= j < i ==> strs(keys@)[j] != key@,
        decreases keys.len() - i,
    {
        if same(&keys[i], key.as_str()) {
            assert(strs(keys@)[i as int] == key@);
            return;
        }
        i = i + 1;
    }
    assert(!strs(keys@).contains(key@));
    keys.push(copy(key));
    assert(strs(keys@) =~= strs(old(keys)@).push(key@));
}

/// Records each key of `higher` in `lower`, in order.
fn extend(lower: &mut Vec<String>, higher: Vec<String>)
    ensures
        strs(final(lower)@) == union_keys(strs(old(lower)@), strs(higher@)),
{
    let ghost h = strs(higher@);
    let mut i: usize = 0;
    assert(h.take(0) =~= Seq::<Seq<char>>::empty());
    while i < higher.len()
        invariant
            i <= higher.len(),
            h == strs(higher@),
            strs(lower@) == union_keys(strs(old(lower)@), h.take(i as int)),
        decreases higher.len() - i,
    {
        assert(h.take(i + 1).drop_last() =~= h.take(i as int));
        record_key(lower, &higher[i]);
        i = i + 1;
    }
    assert(h.take(higher.len() as int) =~= h);
}

/// The higher layer's value where it has one.
fn overwrite<T>(target: &mut Option<T>, higher: Option<T>)
    ensures
        *final(target) == over(*old(target), higher),
{
    if let Some(value) = higher {
        *target = Some(value);
    }
}

fn overwrite_str(target: &mut Option<String>, higher: Option<String>)
    ensures
        opt_str(*final(target)) == over(opt_str(*old(target)), opt_str(higher)),
{
    if let Some(value) = higher {
        *target = Some(value);
    }
}

impl ConfigPatch {
    /// A patch that says nothing.
    pub fn new() -> (p: ConfigPatch)
        ensures
            p@ == empty_patch(),
            keys_unique(p@),
    {
        let p = ConfigPatch {
            project: ProjectPatch { name: None, unknown: Vec::new() },
            paths: PathsPatch { data_dir: None, cache_dir: None, unknown: Vec::new() },
            log: LogPatch {
                level: None,
                format: None,
                file: None,
                timestamps: None,
                unknown: Vec::new(),
            },
            network: NetworkPatch {
                offline: None,
                timeout_secs: None,
                retries: None,
                unknown: Vec::new(),
            },
            unknown: Vec::new(),
        };
        assert(strs(p.unknown@) =~= Seq::<Seq<char>>::empty());
        assert(strs(p.project.unknown@) =~= Seq::<Seq<char>>::empty());
        assert(strs(p.paths.unknown@) =~= Seq::<Seq<char>>::empty());
        assert(strs(p.log.unknown@) =~= Seq::<Seq<char>>::empty());
        assert(strs(p.network.unknown@) =~= Seq::<Seq<char>>::empty());
        p
    }

    /// Overlays `higher` on top of `self`, with `higher` winning wherever it has
    /// an opinion; an unknown key `self` already has is not recorded again.
    pub fn merge(&mut self, higher: ConfigPatch)
        ensures
            final(self)@ == merged(old(self)@, higher@),
            keys_unique(old(self)@) ==> keys_unique(final(self)@),
    {
        proof {
            if keys_unique(self@) {
                merging_keeps_each_unknown_key_once(self@, higher@);
            }
        }
        let ConfigPatch { project, paths, log, network, unknown } = higher;
        overwrite_str(&mut self.project.name, project.name);
        extend(&mut self.project.unknown, project.unknown);
        overwrite_str(&mut self.paths.data_dir, paths.data_dir);
        overwrite_str(&mut self.paths.cache_dir, paths.cache_dir);
        extend(&mut self.paths.unknown, paths.unknown);
        overwrite(&mut self.log.level, log.level);
        overwrite(&mut self.log.format, log.format);
        overwrite_str(&mut self.log.file, log.file);
        overwrite(&mut self.log.timestamps, log.timestamps);
        extend(&mut self.log.unknown, log.unknown);
        overwrite(&mut self.network.offline, network.offline);
        overwrite(&mut self.network.timeout_secs, network.timeout_secs);
        overwrite(&mut self.network.retries, network.retries);
        extend(&mut self.network.unknown, network.unknown);
        extend(&mut self.unknown, unknown);
    }

    /// Resolves the merged patch against the defaults.
    ///
    /// Fails when a value has the right type but is still unusable: a zero
    /// network timeout would fail every request before it starts.
    pub fn resolve(self) -> (r: Result<Config, ConfigError>)
        ensures
            match resolved(self@) {
                Ok(c) => r matches Ok(config) && config@ == c,
                Err(()) => r matches Err(ConfigError::InvalidValue { key, message }) && key@
                    == "network.timeout_secs"@ && message@
                    == "a timeout of 0 seconds would fail every request before it starts; use a positive number of seconds"@,
            },
    {
        if let Some(secs) = self.network.timeout_secs {
            if secs == 0 {
                return Err(
                    ConfigError::InvalidValue {
                        key: owned("network.timeout_secs"),
                        message: owned(
                            "a timeout of 0 seconds would fail every request before it starts; use a positive number of seconds",
                        ),
                    },
                );
            }
        }
        let level = match self.log.level {
            Some(l) => l,
            None => LogLevel::Info,
        };
        let format = match self.log.format {
            Some(f) => f,
            None => LogFormat::Compact,
        };
        let timestamps = match self.log.timestamps {
            Some(t) => t,
            None => false,
        };
        let offline = match self.network.offline {
            Some(o) => o,
            None => false,
        };
        let timeout_secs = match self.network.timeout_secs {
            Some(t) => t,
            None => 30,
        };
        let retries = match self.network.retries {
            Some(r) => r,
            None => 3,
        };
        Ok(
            Config {
                project: Project { name: self.project.name },
                paths: PathOverrides {
                    data_dir: self.paths.data_dir,
                    cache_dir: self.paths.cache_dir,
                },
                log: Log { level, format, file: self.log.file, timestamps },
                network: Network { offline, timeout_secs, retries },
            },
        )
    }

    /// Whether this patch sets any value, unknown keys aside.
    pub fn has_values(&self) -> (b: bool)
        ensures
            b == has_values(self@),
    {
        self.project.name.is_some() || self.paths.data_dir.is_some()
            || self.paths.cache_dir.is_some() || self.log.level.is_some()
            || self.log.format.is_some() || self.log.file.is_some()
            || self.log.timestamps.is_some() || self.network.offline.is_some()
            || self.network.timeout_secs.is_some() || self.network.retries.is_some()
    }

    /// Every unknown key in this patch, as dotted paths, sorted and without
    /// duplicates, so a typo like `log.lvl` is visible instead of silently
    /// doing nothing.
    pub fn unknown_keys(&self) -> (keys: Vec<String>)
        ensures
            strictly_sorted(strs(keys@)),
            strs(keys@).to_set() == unknown_set(self@),
            strs(keys@) == sorted_unknown(self@),
    {
        let mut out: Vec<Vec<char>> = Vec::new();
        assert(out@.map_values(|e: Vec<char>| e@) =~= Seq::<Seq<char>>::empty());
        add_keys(&mut out, "", &self.unknown);
        add_keys(&mut out, "project.", &self.project.unknown);
        add_keys(&mut out, "paths.", &self.paths.unknown);
        add_keys(&mut out, "log.", &self.log.unknown);
        add_keys(&mut out, "network.", &self.network.unknown);
        let ghost ov = out@.map_values(|e: Vec<char>| e@);
        assert(view_set(Seq::<Vec<char>>::empty()) =~= Set::<Seq<char>>::empty());
        assert(Set::<Seq<char>>::empty().union(prefixed(""@, strs(self.unknown@))) =~= prefixed(""@, strs(self.unknown@)));
        let mut keys: Vec<String> = Vec::new();
        let mut i: usize = 0;
        while i < out.len()
            invariant
                i <= out.len(),
                ov == out@.map_values(|e: Vec<char>| e@),
                strs(keys@) =~= ov.take(i as int),
            decreases out.len() - i,
        {
            assert(ov[i as int] == out@[i as int]@);
            let k = crate::text::string_of(&out[i], 0, out[i].len());
            assert(out[i as int]@.subrange(0, out[i as int]@.len() as int) =~= out[i as int]@);
            let ghost before = keys@;
            let ghost kv = k@;
            keys.push(k);
            assert(strs(keys@) =~= strs(before).push(kv));
            assert(ov.take(i + 1) =~= ov.take(i as int).push(ov[i as int]));
            i = i + 1;
        }
        proof {
            assert(ov.take(ov.len() as int) =~= ov);
            assert(ov.to_set() == view_set(out@));
            assert(ov.to_set() =~= unknown_set(self@));
            let w = strs(keys@);
            assert(strictly_sorted(w) && w.to_set() == unknown_set(self@));
            lemma_sorted_unique(w, sorted_unknown(self@));
        }
        keys
    }

    fn apply_key(&mut self, section: Section, key: &String, value: &TomlScalar) -> (r: Result<
        (),
        String,
    >)
        ensures
            match apply_key(old(self)@, section, key@, value@) {
                Ok(q) => r is Ok && final(self)@ == q,
                Err(m) => r matches Err(e) && e@ == m,
            },
    {
        match section {
            Section::Project => {
                if same(key, "name") {
                    match value {
                        TomlScalar::Str(s) => {
                            self.project.name = Some(copy(s));
                            Ok(())
                        },
                        _ => Err(type_message("project.name", "a string")),
                    }
                } else {
                    record_key(&mut self.project.unknown, key);
                    Ok(())
                }
            },
            Section::Paths => {
                if same(key, "data_dir") {
                    match value {
                        TomlScalar::Str(s) => {
                            self.paths.data_dir = Some(copy(s));
                            Ok(())
                        },
                        _ => Err(type_message("paths.data_dir", "a path")),
                    }
                } else if same(key, "cache_dir") {
                    match value {
                        TomlScalar::Str(s) => {
                            self.paths.cache_dir = Some(copy(s));
                            Ok(())
                        },
                        _ => Err(type_message("paths.cache_dir", "a path")),
                    }
                } else {
                    record_key(&mut self.paths.unknown, key);
                    Ok(())
                }
            },
            Section::Log => {
                if same(key, "level") {
                    match value {
                        TomlScalar::Str(s) => match level_exactly(s) {
                            Some(l) => {
                                self.log.level = Some(l);
                                Ok(())
                            },
                            None => Err(
                                variant_message("log.level", s, "error, warn, info, debug, trace"),
                            ),
                        },
                        _ => Err(type_message("log.level", "a string")),
                    }
                } else if same(key, "format") {
                    match value {
                        TomlScalar::Str(s) => match format_exactly(s) {
                            Some(f) => {
                                self.log.format = Some(f);
                                Ok(())
                            },
                            None => Err(variant_message("log.format", s, "compact, pretty, json")),
                        },
                        _ => Err(type_message("log.format", "a string")),
                    }
                } else if same(key, "file") {
                    match value {
                        TomlScalar::Str(s) => {
                            self.log.file = Some(copy(s));
                            Ok(())
                        },
                        _ => Err(type_message("log.file", "a path")),
                    }
                } else if same(key, "timestamps") {
                    match value {
                        TomlScalar::Bool(b) => {
                            self.log.timestamps = Some(*b);
                            Ok(())
                        },
                        _ => Err(type_message("log.timestamps", "a boolean")),
                    }
                } else {
                    record_key(&mut self.log.unknown, key);
                    Ok(())
                }
            },
            Section::Network => {
                if same(key, "offline") {
                    match value {
                        TomlScalar::Bool(b) => {
                            self.network.offline = Some(*b);
                            Ok(())
                        },
                        _ => Err(type_message("network.offline", "a boolean")),
                    }
                } else if same(key, "timeout_secs") {
                    match value {
                        TomlScalar::Int(i) => {
                            if *i >= 0 {
                                self.network.timeout_secs = Some(*i as u64);
                                Ok(())
                            } else {
                                Err(range_message("network.timeout_secs", "a non-negative integer"))
                            }
                        },
                        _ => Err(type_message("network.timeout_secs", "an integer")),
                    }
                } else if same(key, "retries") {
                    match value {
                        TomlScalar::Int(i) => {
                            if 0 <= *i && *i <= 4294967295 {
                                self.network.retries = Some(*i as u32);
                                Ok(())
                            } else {
                                Err(
                                    range_message(
                                        "network.retries",
                                        "an integer from 0 to 4294967295",
                                    ),
                                )
                            }
                        },
                        _ => Err(type_message("network.retries", "an integer")),
                    }
                } else {
                    record_key(&mut self.network.unknown, key);
                    Ok(())
                }
            },
        }
    }

    fn apply_table(&mut self, section: Section, t: &Vec<(String, TomlScalar)>) -> (r: Result<
        (),
        String,
    >)
        ensures
            match apply_table(
                old(self)@,
                section,
                t@.map_values(|e: (String, TomlScalar)| key_view(e)),
            ) {
                Ok(q) => r is Ok && final(self)@ == q,
                Err(m) => r matches Err(e) && e@ == m,
            },
    {
        let ghost tv = t@.map_values(|e: (String, TomlScalar)| key_view(e));
        let ghost start = self@;
        let mut i: usize = 0;
        assert(tv.take(0) =~= Seq::<(Seq<char>, ScalarView)>::empty());
        while i < t.len()
            invariant
                i <= t.len(),
                tv == t@.map_values(|e: (String, TomlScalar)| key_view(e)),
                start == old(self)@,
                apply_table(start, section, tv.take(i as int)) == Ok::<PatchView, Seq<char>>(
                    self@,
                ),
            decreases t.len() - i,
        {
            assert(tv.take(i + 1).drop_last() =~= tv.take(i as int));
            assert(tv.take(i + 1).last() == tv[i as int]);
            assert(tv[i as int] == key_view(t@[i as int]));
            let r = self.apply_key(section, &t[i].0, &t[i].1);
            if let Err(e) = r {
                proof {
                    lemma_table_error_persists(start, section, tv, i + 1, e@);
                }
                return Err(e);
            }
            i = i + 1;
        }
        assert(tv.take(t.len() as int) =~= tv);
        Ok(())
    }

    fn apply_entry(&mut self, key: &String, item: &TomlItem) -> (r: Result<(), String>)
        ensures
            match apply_entry(old(self)@, key@, item@) {
                Ok(q) => r is Ok && final(self)@ == q,
                Err(m) => r matches Err(e) && e@ == m,
            },
    {
        match section_of(key) {
            Some(section) => match item {
                TomlItem::Table(t) => self.apply_table(section, t),
                TomlItem::Scalar(_) => Err(type_message(key.as_str(), "a table")),
            },
            None => {
                record_key(&mut self.unknown, key);
                Ok(())
            },
        }
    }

    /// The patch a parsed document describes.
    ///
    /// Known keys must have the documented type; any other key is collected as
    /// unknown. A failure names `path` and the offending key.
    pub fn from_document(doc: &TomlDocument, path: &str) -> (r: Result<ConfigPatch, ConfigError>)
        ensures
            match apply_document(doc@) {
                Ok(v) => r matches Ok(p) && p@ == v,
                Err(m) => r matches Err(ConfigError::Invalid { path: file, message }) && file@
                    == path@ && message@ == m,
            },
            r matches Ok(p) ==> keys_unique(p@),
    {
        proof {
            if apply_document(doc@) is Ok {
                lemma_apply_document_unique(doc@);
            }
        }
        let ghost dv = doc@;
        let mut patch = ConfigPatch::new();
        let mut i: usize = 0;
        assert(dv.take(0) =~= Seq::<(Seq<char>, ItemView)>::empty());
        while i < doc.entries.len()
            invariant
                i <= doc.entries.len(),
                dv == doc@,
                apply_document(dv.take(i as int)) == Ok::<PatchView, Seq<char>>(patch@),
            decreases doc.entries.len() - i,
        {
            assert(dv.take(i + 1).drop_last() =~= dv.take(i as int));
            assert(dv.take(i + 1).last() == dv[i as int]);
            assert(dv[i as int] == super::document::entry_view(doc.entries@[i as int]));
            let r = patch.apply_entry(&doc.entries[i].0, &doc.entries[i].1);
            if let Err(e) = r {
                proof {
                    lemma_document_error_persists(dv, i + 1, e@);
                }
                return Err(ConfigError::Invalid { path: owned(path), message: e });
            }
            i = i + 1;
        }
        assert(dv.take(doc.entries.len() as int) =~= dv);
        Ok(patch)
    }

    /// Parses TOML text into a patch.
    ///
    /// Fails when the text is not valid TOML or a known key has the wrong
    /// type; the failure names `path`.
    pub fn from_toml(text: &str, path: &str) -> (r: Result<ConfigPatch, ConfigError>)
        ensures
            match toml_document(text@) {
                Err(m) => r matches Err(ConfigError::Invalid { path: file, message }) && file@
                    == path@ && message@ == trim(m),
                Ok(d) => match apply_document(d) {
                    Ok(v) => r matches Ok(p) && p@ == v,
                    Err(m) => r matches Err(ConfigError::Invalid { path: file, message })
                        && file@ == path@ && message@ == m,
                },
            },
            r matches Ok(p) ==> keys_unique(p@),
    {
        match parse_toml(text) {
            Ok(doc) => ConfigPatch::from_document(&doc, path),
            Err(m) => {
                let chars = chars_of(m.as_str());
                let (a, b) = trim_bounds(&chars);
                let mut message = String::new();
                push_chars(&mut message, &chars, a, b);
                assert(message@ =~= trim(m@));
                Err(ConfigError::Invalid { path: owned(path), message })
            },
        }
    }
}

/// A pushed sequence holds what the sequence held, and the new element.
proof fn lemma_push_contains(s: Seq<Seq<char>>, x: Seq<char>, k: Seq<char>)
    ensures
        s.push(x).contains(k) <==> s.contains(k) || x == k,
{
    if s.contains(k) {
        let i = choose|i: int| 0 <= i < s.len() && s[i] == k;
        assert(s.push(x)[i] == k);
    }
    if x == k {
        assert(s.push(x)[s.len() as int] == k);
    }
    if s.push(x).contains(k) {
        let i = choose|i: int| 0 <= i < s.push(x).len() && s.push(x)[i] == k;
        if i < s.len() {
            assert(s[i] == k);
        }
    }
}

/// Recording a key adds exactly that key.
proof fn lemma_keys_with_contains(s: Seq<Seq<char>>, x: Seq<char>, k: Seq<char>)
    ensures
        keys_with(s, x).contains(k) <==> s.contains(k) || x == k,
{
    lemma_push_contains(s, x, k);
}

/// Recording a key never makes one occur twice.
proof fn lemma_keys_with_unique(s: Seq<Seq<char>>, x: Seq<char>)
    requires
        s.no_duplicates(),
    ensures
        keys_with(s, x).no_duplicates(),
{
    if !s.contains(x) {
        let t = s.push(x);
        assert forall|i: int, j: int| 0 <= i < t.len() && 0 <= j < t.len() && i != j implies t[i]
            != t[j] by {
            if j == s.len() && t[i] == x {
                assert(s[i] == x);
            }
            if i == s.len() && t[j] == x {
                assert(s[j] == x);
            }
        }
    }
}

/// A key is among the union exactly when it is among either side.
proof fn lemma_union_contains(l: Seq<Seq<char>>, h: Seq<Seq<char>>, k: Seq<char>)
    ensures
        union_keys(l, h).contains(k) <==> l.contains(k) || h.contains(k),
    decreases h.len(),
{
    if h.len() > 0 {
        lemma_union_contains(l, h.drop_last(), k);
        lemma_keys_with_contains(union_keys(l, h.drop_last()), h.last(), k);
        assert(h =~= h.drop_last().push(h.last()));
        lemma_push_contains(h.drop_last(), h.last(), k);
    }
}

/// The union of a duplicate-free sequence with anything is duplicate-free.
proof fn lemma_union_unique(l: Seq<Seq<char>>, h: Seq<Seq<char>>)
    requires
        l.no_duplicates(),
    ensures
        union_keys(l, h).no_duplicates(),
    decreases h.len(),
{
    if h.len() > 0 {
        lemma_union_unique(l, h.drop_last());
        lemma_keys_with_unique(union_keys(l, h.drop_last()), h.last());
    }
}

/// Keys that are all present already change nothing.
proof fn lemma_union_absorbs(l: Seq<Seq<char>>, h: Seq<Seq<char>>)
    requires
        forall|k: Seq<char>| h.contains(k) ==> l.contains(k),
    ensures
        union_keys(l, h) == l,
    decreases h.len(),
{
    if h.len() > 0 {
        assert forall|k: Seq<char>| h.drop_last().contains(k) implies l.contains(k) by {
            assert(h =~= h.drop_last().push(h.last()));
            lemma_push_contains(h.drop_last(), h.last(), k);
        }
        lemma_union_absorbs(l, h.drop_last());
        assert(h.contains(h.last())) by {
            assert(h[h.len() - 1] == h.last());
        }
    }
}

/// Recording duplicate-free keys into nothing gives those keys.
proof fn lemma_union_from_empty(h: Seq<Seq<char>>)
    requires
        h.no_duplicates(),
    ensures
        union_keys(Seq::empty(), h) == h,
    decreases h.len(),
{
    if h.len() > 0 {
        let d = h.drop_last();
        assert(d.no_duplicates()) by {
            assert forall|i: int, j: int| 0 <= i < d.len() && 0 <= j < d.len() && i != j implies d[i]
                != d[j] by {
                assert(d[i] == h[i] && d[j] == h[j]);
            }
        }
        lemma_union_from_empty(d);
        if d.contains(h.last()) {
            let i = choose|i: int| 0 <= i < d.len() && d[i] == h.last();
            assert(h[i] == h[h.len() - 1]);
        }
        assert(d.push(h.last()) =~= h);
    }
}

/// Unions of keys associate.
proof fn lemma_union_assoc(a: Seq<Seq<char>>, b: Seq<Seq<char>>, c: Seq<Seq<char>>)
    ensures
        union_keys(union_keys(a, b), c) == union_keys(a, union_keys(b, c)),
    decreases c.len(),
{
    if c.len() > 0 {
        let k = c.last();
        let r = union_keys(b, c.drop_last());
        lemma_union_assoc(a, b, c.drop_last());
        lemma_union_contains(a, r, k);
        if !r.contains(k) {
            assert(r.push(k).drop_last() =~= r);
            assert(r.push(k).last() == k);
        }
    }
}

/// A section's unknown keys stay once each through a recognised key.
proof fn lemma_apply_key_unique(p: PatchView, section: Section, key: Seq<char>, value: ScalarView)
    requires
        keys_unique(p),
        apply_key(p, section, key, value) is Ok,
    ensures
        keys_unique(apply_key(p, section, key, value)->Ok_0),
{
    lemma_keys_with_unique(p.project_unknown, key);
    lemma_keys_with_unique(p.paths_unknown, key);
    lemma_keys_with_unique(p.log_unknown, key);
    lemma_keys_with_unique(p.network_unknown, key);
}

/// A section applied key by key keeps each unknown key once.
proof fn lemma_apply_table_unique(p: PatchView, section: Section, t: Seq<(Seq<char>, ScalarView)>)
    requires
        keys_unique(p),
        apply_table(p, section, t) is Ok,
    ensures
        keys_unique(apply_table(p, section, t)->Ok_0),
    decreases t.len(),
{
    if t.len() > 0 {
        lemma_apply_table_unique(p, section, t.drop_last());
        let q = apply_table(p, section, t.drop_last())->Ok_0;
        lemma_apply_key_unique(q, section, t.last().0, t.last().1);
    }
}

/// Every patch a document describes keeps each unknown key once.
proof fn lemma_apply_document_unique(d: Seq<(Seq<char>, ItemView)>)
    requires
        apply_document(d) is Ok,
    ensures
        keys_unique(apply_document(d)->Ok_0),
    decreases d.len(),
{
    if d.len() > 0 {
        lemma_apply_document_unique(d.drop_last());
        let q = apply_document(d.drop_last())->Ok_0;
        let (key, item) = d.last();
        match section_named(key) {
            Some(section) => match item {
                ItemView::Table(t) => lemma_apply_table_unique(q, section, t),
                ItemView::Scalar(_) => {},
            },
            None => lemma_keys_with_unique(q.unknown, key),
        }
    }
}

/// Overlaying a patch that says nothing changes nothing, in either position.
pub proof fn merge_with_empty_is_identity(p: PatchView)
    ensures
        merged(p, empty_patch()) == p,
        keys_unique(p) ==> merged(empty_patch(), p) == p,
{
    assert(merged(p, empty_patch()) =~= p);
    if keys_unique(p) {
        lemma_union_from_empty(p.unknown);
        lemma_union_from_empty(p.project_unknown);
        lemma_union_from_empty(p.paths_unknown);
        lemma_union_from_empty(p.log_unknown);
        lemma_union_from_empty(p.network_unknown);
    }
}

/// Merging is associative: layering `a`, `b` and `c` in order gives the same
/// patch however the merges are grouped.
pub proof fn merge_is_associative(a: PatchView, b: PatchView, c: PatchView)
    ensures
        merged(merged(a, b), c) == merged(a, merged(b, c)),
{
    lemma_union_assoc(a.unknown, b.unknown, c.unknown);
    lemma_union_assoc(a.project_unknown, b.project_unknown, c.project_unknown);
    lemma_union_assoc(a.paths_unknown, b.paths_unknown, c.paths_unknown);
    lemma_union_assoc(a.log_unknown, b.log_unknown, c.log_unknown);
    lemma_union_assoc(a.network_unknown, b.network_unknown, c.network_unknown);
}

/// Merging a layer with a copy of itself changes nothing: each unknown key is
/// kept once, as a map keeps a key it is given again.
pub proof fn merging_a_layer_with_itself_changes_nothing(p: PatchView)
    ensures
        merged(p, p) == p,
{
    lemma_union_absorbs(p.unknown, p.unknown);
    lemma_union_absorbs(p.project_unknown, p.project_unknown);
    lemma_union_absorbs(p.paths_unknown, p.paths_unknown);
    lemma_union_absorbs(p.log_unknown, p.log_unknown);
    lemma_union_absorbs(p.network_unknown, p.network_unknown);
    assert(merged(p, p) =~= p);
}

/// Merging keeps the patch invariant: when no unknown key of the lower layer
/// occurs twice in its section, none of the merged layer does.
pub proof fn merging_keeps_each_unknown_key_once(lower: PatchView, higher: PatchView)
    requires
        keys_unique(lower),
    ensures
        keys_unique(merged(lower, higher)),
{
    lemma_union_unique(lower.unknown, higher.unknown);
    lemma_union_unique(lower.project_unknown, higher.project_unknown);
    lemma_union_unique(lower.paths_unknown, higher.paths_unknown);
    lemma_union_unique(lower.log_unknown, higher.log_unknown);
    lemma_union_unique(lower.network_unknown, higher.network_unknown);
}

/// A layer that says nothing about a value leaves the lower layer's value in
/// force, and a layer that does say something wins; only when no layer speaks
/// does the default apply.
pub proof fn silent_layers_do_not_clobber(lower: PatchView, higher: PatchView)
    requires
        resolved(merged(lower, higher)) is Ok,
    ensures
        ({
            let c = resolved(merged(lower, higher))->Ok_0;
            &&& c.level == (match higher.level {
                Some(l) => l,
                None => match lower.level {
                    Some(l) => l,
                    None => LogLevel::Info,
                },
            })
            &&& c.format == (match higher.format {
                Some(f) => f,
                None => match lower.format {
                    Some(f) => f,
                    None => LogFormat::Compact,
                },
            })
            &&& c.name == over(lower.name, higher.name)
            &&& c.data_dir == over(lower.data_dir, higher.data_dir)
            &&& c.cache_dir == over(lower.cache_dir, higher.cache_dir)
            &&& c.file == over(lower.file, higher.file)
            &&& c.offline == (match over(lower.offline, higher.offline) {
                Some(o) => o,
                None => false,
            })
            &&& c.retries == (match over(lower.retries, higher.retries) {
                Some(r) => r,
                None => 3,
            })
            &&& c.timeout_secs == (match higher.timeout_secs {
                Some(t) => t,
                None => match lower.timeout_secs {
                    Some(t) => t,
                    None => 30,
                },
            })
            &&& c.timestamps == (match higher.timestamps {
                Some(t) => t,
                None => match lower.timestamps {
                    Some(t) => t,
                    None => false,
                },
            })
        }),
{
}

/// Every setting of a merged layer is the higher layer's whenever the higher
/// layer sets it, and the lower layer's otherwise: a value set lower can
/// always be overridden from above, and is never lost to a layer that is
/// silent about it.
pub proof fn each_setting_comes_from_the_highest_layer_that_sets_it(lower: PatchView, higher: PatchView)
    ensures
        ({
            let m = merged(lower, higher);
            &&& m.name == (if higher.name is Some { higher.name } else { lower.name })
            &&& m.data_dir == (if higher.data_dir is Some { higher.data_dir } else { lower.data_dir })
            &&& m.cache_dir == (if higher.cache_dir is Some { higher.cache_dir } else { lower.cache_dir })
            &&& m.level == (if higher.level is Some { higher.level } else { lower.level })
            &&& m.format == (if higher.format is Some { higher.format } else { lower.format })
            &&& m.file == (if higher.file is Some { higher.file } else { lower.file })
            &&& m.timestamps == (if higher.timestamps is Some { higher.timestamps } else { lower.timestamps })
            &&& m.offline == (if higher.offline is Some { higher.offline } else { lower.offline })
            &&& m.timeout_secs == (if higher.timeout_secs is Some {
                higher.timeout_secs
            } else {
                lower.timeout_secs
            })
            &&& m.retries == (if higher.retries is Some { higher.retries } else { lower.retries })
        }),
{
}

/// Every known key given a value of its documented type is stored in the
/// layer exactly as written -- a boolean as that boolean, a string as that
/// string, a non-negative number as that number, a level or format by its
/// name -- and nothing else in the layer changes.
pub proof fn known_keys_are_stored_as_written(
    p: PatchView,
    text: Seq<char>,
    flag: bool,
    number: i64,
    level: LogLevel,
    format: LogFormat,
)
    ensures
        apply_key(p, Section::Project, "name"@, ScalarView::Str(text)) == Ok::<PatchView, Seq<char>>(
            PatchView { name: Some(text), ..p },
        ),
        apply_key(p, Section::Paths, "data_dir"@, ScalarView::Str(text)) == Ok::<PatchView, Seq<char>>(
            PatchView { data_dir: Some(text), ..p },
        ),
        apply_key(p, Section::Paths, "cache_dir"@, ScalarView::Str(text)) == Ok::<PatchView, Seq<char>>(
            PatchView { cache_dir: Some(text), ..p },
        ),
        apply_key(p, Section::Log, "level"@, ScalarView::Str(level.name())) == Ok::<PatchView, Seq<char>>(
            PatchView { level: Some(level), ..p },
        ),
        apply_key(p, Section::Log, "format"@, ScalarView::Str(format.name())) == Ok::<PatchView, Seq<char>>(
            PatchView { format: Some(format), ..p },
        ),
        apply_key(p, Section::Log, "file"@, ScalarView::Str(text)) == Ok::<PatchView, Seq<char>>(
            PatchView { file: Some(text), ..p },
        ),
        apply_key(p, Section::Log, "timestamps"@, ScalarView::Bool(flag)) == Ok::<PatchView, Seq<char>>(
            PatchView { timestamps: Some(flag), ..p },
        ),
        apply_key(p, Section::Network, "offline"@, ScalarView::Bool(flag)) == Ok::<PatchView, Seq<char>>(
            PatchView { offline: Some(flag), ..p },
        ),
        number >= 0 ==> apply_key(p, Section::Network, "timeout_secs"@, ScalarView::Int(number))
            == Ok::<PatchView, Seq<char>>(PatchView { timeout_secs: Some(number as u64), ..p }),
        0 <= number <= u32::MAX ==> apply_key(p, Section::Network, "retries"@, ScalarView::Int(number))
            == Ok::<PatchView, Seq<char>>(PatchView { retries: Some(number as u32), ..p }),
{
    reveal_strlit("name");
    reveal_strlit("data_dir");
    reveal_strlit("cache_dir");
    reveal_strlit("level");
    reveal_strlit("format");
    reveal_strlit("file");
    reveal_strlit("timestamps");
    reveal_strlit("offline");
    reveal_strlit("timeout_secs");
    reveal_strlit("retries");
    reveal_strlit("error");
    reveal_strlit("warn");
    reveal_strlit("info");
    reveal_strlit("debug");
    reveal_strlit("trace");
    reveal_strlit("compact");
    reveal_strlit("pretty");
    reveal_strlit("json");
    assert("offline"@[0] == 'o' && "retries"@[0] == 'r');
    assert("data_dir"@[0] == 'd' && "cache_dir"@[0] == 'c');
    assert("level"@[0] == 'l' && "format"@.len() == 6 && "file"@.len() == 4 && "timestamps"@[0] == 't');
    assert("compact"@[0] == 'c' && "pretty"@[0] == 'p' && "json"@[0] == 'j');
    assert(format.name()[0] == format.name()[0]);
    let l = level.name();
    assert("error"@[0] == 'e' && "warn"@[0] == 'w' && "info"@[0] == 'i' && "debug"@[0] == 'd'
        && "trace"@[0] == 't');
    assert(l[0] == level.name()[0]);
}

/// An empty patch resolves to exactly the documented defaults: level `info`,
/// format `compact`, no timestamps, online, a 30-second timeout, 3 retries,
/// and no project name, path overrides or log file.
pub proof fn empty_resolves_to_defaults()
    ensures
        resolved(empty_patch()) == Ok::<ConfigView, ()>(super::model::default_view()),
        resolved(empty_patch()) == Ok::<ConfigView, ()>(
            ConfigView {
                name: None,
                data_dir: None,
                cache_dir: None,
                level: LogLevel::Info,
                format: LogFormat::Compact,
                file: None,
                timestamps: false,
                offline: false,
                timeout_secs: 30,
                retries: 3,
            },
        ),
{
}

/// A zero timeout is the only value resolution rejects; zero retries are a
/// legitimate choice.
pub proof fn only_a_zero_timeout_is_rejected(p: PatchView)
    ensures
        resolved(p) is Err <==> p.timeout_secs == Some(0u64),
        p.retries == Some(0u32) && p.timeout_secs != Some(0u64) ==> resolved(p)->Ok_0.retries
            == 0,
{
}

/// The unknown keys of merged layers are exactly those of each layer.
pub proof fn unknown_keys_of_merged_layers(lower: PatchView, higher: PatchView)
    ensures
        unknown_set(merged(lower, higher)) == unknown_set(lower).union(unknown_set(higher)),
{
    let m = merged(lower, higher);
    assert forall|p: Seq<char>, a: Seq<Seq<char>>, b: Seq<Seq<char>>|
        #[trigger] prefixed(p, union_keys(a, b)) == prefixed(p, a).union(prefixed(p, b)) by {
        assert forall|s: Seq<char>| prefixed(p, union_keys(a, b)).contains(s) <==> prefixed(p, a).union(
            prefixed(p, b),
        ).contains(s) by {
            if prefixed(p, union_keys(a, b)).contains(s) {
                let k = choose|k: Seq<char>| union_keys(a, b).contains(k) && s == p + k;
                lemma_union_contains(a, b, k);
            }
            if prefixed(p, a).contains(s) {
                let k = choose|k: Seq<char>| a.contains(k) && s == p + k;
                lemma_union_contains(a, b, k);
            }
            if prefixed(p, b).contains(s) {
                let k = choose|k: Seq<char>| b.contains(k) && s == p + k;
                lemma_union_contains(a, b, k);
            }
        }
        assert(prefixed(p, union_keys(a, b)) =~= prefixed(p, a).union(prefixed(p, b)));
    }
    assert(unknown_set(m) =~= unknown_set(lower).union(unknown_set(higher)));
}

} // verus!
