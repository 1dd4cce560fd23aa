//! Where Chip Loom keeps things, and how a project root is discovered.
//!
//! Three kinds of location are kept strictly apart, because they have different
//! lifetimes: **config** (hand-edited, small), **data** (installed toolchains and
//! target packs; large, reproducible but expensive to re-fetch) and **cache**
//! (downloads and build caches; safe to delete at any moment).
//!
//! Paths are strings read by the rules of the platform they belong to, its
//! [`PathStyle`]: on POSIX systems `/` separates components and a path is
//! absolute when it starts with one; on Windows `\` separates them too, a path
//! may start with a drive (`C:`) or a UNC share (`\\server\share`), and only a
//! path with both such a prefix and a root is absolute.

use vstd::prelude::*;

use crate::error::Error;
use crate::text::{chars_of, copy, owned, push_char, push_str, string_of};
#[allow(unused_imports)]
use vstd::string::*;

verus! {

/// The file name Chip Loom looks for when discovering a project.
pub const PROJECT_FILE: &'static str = "chiploom.toml";

/// The directory Chip Loom writes per-project state into, inside a project root.
pub const PROJECT_STATE_DIR: &'static str = ".chiploom";

/// The path conventions of a platform.
#[derive(Debug, Clone, Copy, PartialEq, Eq, Structural)]
pub enum PathStyle {
    /// Linux, macOS and the other Unix-like systems.
    Posix,
    /// Windows.
    Windows,
}

/// Whether `c` separates path components.
pub open spec fn is_sep(style: PathStyle, c: char) -> bool {
    c == '/' || (style == PathStyle::Windows && c == '\\')
}

/// The separator a path is extended with.
pub open spec fn main_sep(style: PathStyle) -> char {
    if style == PathStyle::Windows {
        '\\'
    } else {
        '/'
    }
}

/// Whether `c` is an ASCII letter, as a drive letter must be.
pub open spec fn is_drive_letter(c: char) -> bool {
    (65 <= c as u32 <= 90) || (97 <= c as u32 <= 122)
}

/// Whether `p` starts with a drive such as `C:`.
pub open spec fn has_drive(style: PathStyle, p: Seq<char>) -> bool {
    style == PathStyle::Windows && p.len() >= 2 && is_drive_letter(p[0]) && p[1] == ':'
}

/// Whether `p` starts with two separators, as a UNC share (`\\server\share`)
/// and the verbatim and device forms (`\\?\`, `\\.\`) do.
pub open spec fn has_share(style: PathStyle, p: Seq<char>) -> bool {
    style == PathStyle::Windows && p.len() >= 2 && is_sep(style, p[0]) && is_sep(style, p[1])
}

/// The index of the first separator at or after `i`, or the length of `p`.
pub open spec fn first_sep_from(style: PathStyle, p: Seq<char>, i: int) -> int
    decreases p.len() - i,
{
    if i >= p.len() {
        p.len() as int
    } else if is_sep(style, p[i]) {
        i
    } else {
        first_sep_from(style, p, i + 1)
    }
}

/// The length of the prefix of `p`: the drive, or the share's two separators,
/// server and share name; none on POSIX.
pub open spec fn prefix_len(style: PathStyle, p: Seq<char>) -> int {
    if has_drive(style, p) {
        2
    } else if has_share(style, p) {
        let server_end = first_sep_from(style, p, 2);
        if server_end >= p.len() {
            p.len() as int
        } else {
            first_sep_from(style, p, server_end + 1)
        }
    } else {
        0
    }
}

/// Whether `p` has a root: a separator right after its prefix, or a share,
/// which always carries one.
pub open spec fn has_root(style: PathStyle, p: Seq<char>) -> bool {
    let k = prefix_len(style, p);
    has_share(style, p) || (0 <= k < p.len() && is_sep(style, p[k]))
}

/// The length of the part of `p` no parent can remove: its prefix and the
/// separator of its root.
pub open spec fn root_len(style: PathStyle, p: Seq<char>) -> int {
    let k = prefix_len(style, p);
    if 0 <= k < p.len() && is_sep(style, p[k]) {
        k + 1
    } else {
        k
    }
}

/// Whether a path is absolute: it has a root, and on Windows a prefix too;
/// `\x` and `C:x` are not absolute there.
pub open spec fn is_absolute(style: PathStyle, p: Seq<char>) -> bool {
    has_root(style, p) && (style == PathStyle::Posix || prefix_len(style, p) > 0)
}

/// `name` pushed onto `base` as a further component: an absolute `name`, or
/// one with a prefix, replaces `base`; a `name` with a root but no prefix keeps
/// only the prefix of `base`; otherwise a separator goes between them unless
/// `base` is empty, already ends with one, or is a bare drive such as `C:`.
pub open spec fn join(style: PathStyle, base: Seq<char>, name: Seq<char>) -> Seq<char> {
    if is_absolute(style, name) || prefix_len(style, name) > 0 {
        name
    } else if has_root(style, name) {
        base.take(prefix_len(style, base)) + name
    } else if base.len() == 0 || is_sep(style, base.last()) || (has_drive(style, base) && base.len()
        == 2) {
        base + name
    } else {
        base.push(main_sep(style)) + name
    }
}

/// `p` without separators at its end, keeping its first `r` characters.
pub open spec fn strip_to(style: PathStyle, p: Seq<char>, r: int) -> Seq<char>
    decreases p.len(),
{
    if p.len() > 0 && p.len() > r && is_sep(style, p.last()) {
        strip_to(style, p.drop_last(), r)
    } else {
        p
    }
}

/// The index of the last separator of `p` at or after `r`, if any.
pub open spec fn last_sep_above(style: PathStyle, p: Seq<char>, r: int) -> Option<int>
    decreases p.len(),
{
    if p.len() == 0 || p.len() <= r {
        None
    } else if is_sep(style, p.last()) {
        Some(p.len() - 1)
    } else {
        last_sep_above(style, p.drop_last(), r)
    }
}

/// The path with its last component removed: `None` for the empty path and
/// for a bare root or prefix; the root or prefix for a single component
/// under it, and the empty path for a single relative component.
pub open spec fn parent(style: PathStyle, p: Seq<char>) -> Option<Seq<char>> {
    let r = root_len(style, p);
    let s = strip_to(style, p, r);
    if s.len() <= r {
        None
    } else {
        match last_sep_above(style, s, r) {
            None => Some(s.take(r)),
            Some(k) => Some(strip_to(style, s.take(k), r)),
        }
    }
}

/// `p` followed by its parent, its parent's parent, and so on.
pub open spec fn ancestors(style: PathStyle, p: Seq<char>) -> Seq<Seq<char>>
    decreases p.len(),
{
    match parent(style, p) {
        None => seq![p],
        Some(q) => if q.len() < p.len() {
            seq![p] + ancestors(style, q)
        } else {
            seq![p]
        },
    }
}

/// The last component of a path, if it names a file or directory: not for
/// the empty path, a bare root or prefix, or a path ending in `.` or `..`.
pub open spec fn file_name(style: PathStyle, p: Seq<char>) -> Option<Seq<char>> {
    let r = root_len(style, p);
    let s = strip_to(style, p, r);
    if s.len() <= r {
        None
    } else {
        let start = match last_sep_above(style, s, r) {
            Some(k) => k + 1,
            None => r,
        };
        let name = s.subrange(start, s.len() as int);
        if name == "."@ || name == ".."@ {
            None
        } else {
            Some(name)
        }
    }
}

/// The abstract form of [`Paths`].
pub struct PathsView {
    pub style: PathStyle,
    pub config_dir: Seq<char>,
    pub data_dir: Seq<char>,
    pub cache_dir: Seq<char>,
    pub project_root: Option<Seq<char>>,
}

/// Resolved locations for one invocation.
#[derive(Debug, Clone, PartialEq, Eq)]
pub struct Paths {
    style: PathStyle,
    config_dir: String,
    data_dir: String,
    cache_dir: String,
    project_root: Option<String>,
}

impl View for Paths {
    type V = PathsView;

    closed spec fn view(&self) -> PathsView {
        PathsView {
            style: self.style,
            config_dir: self.config_dir@,
            data_dir: self.data_dir@,
            cache_dir: self.cache_dir@,
            project_root: match self.project_root {
                Some(r) => Some(r@),
                None => None,
            },
        }
    }
}

fn sep_at(style: PathStyle, c: char) -> (b: bool)
    ensures
        b == is_sep(style, c),
{
    c == '/' || (style == PathStyle::Windows && c == '\\')
}

fn drive_letter(c: char) -> (b: bool)
    ensures
        b == is_drive_letter(c),
{
    let u = c as u32;
    (65 <= u && u <= 90) || (97 <= u && u <= 122)
}

fn first_sep_at(style: PathStyle, p: &Vec<char>, i: usize) -> (r: usize)
    requires
        i <= p.len(),
    ensures
        r == first_sep_from(style, p@, i as int),
        i <= r <= p.len(),
    decreases p.len() - i,
{
    if i >= p.len() {
        p.len()
    } else if sep_at(style, p[i]) {
        i
    } else {
        first_sep_at(style, p, i + 1)
    }
}

fn prefix_len_of(style: PathStyle, p: &Vec<char>) -> (r: usize)
    ensures
        r == prefix_len(style, p@),
        r <= p.len(),
{
    if style == PathStyle::Windows && p.len() >= 2 && drive_letter(p[0]) && p[1] == ':' {
        return 2;
    }
    if style == PathStyle::Windows && p.len() >= 2 && sep_at(style, p[0]) && sep_at(style, p[1]) {
        let server_end = first_sep_at(style, p, 2);
        if server_end >= p.len() {
            return p.len();
        }
        return first_sep_at(style, p, server_end + 1);
    }
    0
}

fn has_root_in(style: PathStyle, p: &Vec<char>) -> (b: bool)
    ensures
        b == has_root(style, p@),
{
    let k = prefix_len_of(style, p);
    (style == PathStyle::Windows && p.len() >= 2 && sep_at(style, p[0]) && sep_at(style, p[1])) || (k
        < p.len() && sep_at(style, p[k]))
}

fn root_len_of(style: PathStyle, p: &Vec<char>) -> (r: usize)
    ensures
        r == root_len(style, p@),
        r <= p.len(),
{
    let k = prefix_len_of(style, p);
    if k < p.len() && sep_at(style, p[k]) {
        k + 1
    } else {
        k
    }
}

/// Whether `path` is absolute by the rules of `style`.
pub fn is_absolute_path(style: PathStyle, path: &str) -> (b: bool)
    ensures
        b == is_absolute(style, path@),
{
    let p = chars_of(path);
    has_root_in(style, &p) && (style == PathStyle::Posix || prefix_len_of(style, &p) > 0)
}

/// `name` pushed onto `base` by the rules of `style`.
pub fn join_path(style: PathStyle, base: &str, name: &str) -> (r: String)
    ensures
        r@ == join(style, base@, name@),
{
    let n = chars_of(name);
    let b = chars_of(base);
    let name_prefix = prefix_len_of(style, &n);
    if is_absolute_path(style, name) || name_prefix > 0 {
        return owned(name);
    }
    if has_root_in(style, &n) {
        let base_prefix = prefix_len_of(style, &b);
        let mut r = string_of(&b, 0, base_prefix);
        push_str(&mut r, name);
        assert(b@.subrange(0, base_prefix as int) =~= base@.take(base_prefix as int));
        return r;
    }
    let mut r = owned(base);
    if b.len() == 0 || sep_at(style, b[b.len() - 1]) || (style == PathStyle::Windows && b.len() == 2
        && drive_letter(b[0]) && b[1] == ':') {
        push_str(&mut r, name);
        return r;
    }
    push_char(&mut r, if style == PathStyle::Windows { '\\' } else { '/' });
    push_str(&mut r, name);
    r
}

/// `dir` made absolute against `anchor`: an absolute `dir` is used as given,
/// any other is pushed onto `anchor`.
pub fn absolutize(style: PathStyle, anchor: &str, dir: &str) -> (r: String)
    ensures
        is_absolute(style, dir@) ==> r@ == dir@,
        !is_absolute(style, dir@) ==> r@ == join(style, anchor@, dir@),
{
    join_path(style, anchor, dir)
}

fn strip_len(style: PathStyle, p: &Vec<char>, n: usize, r: usize) -> (m: usize)
    requires
        r <= n <= p.len(),
    ensures
        r <= m <= n,
        p@.take(m as int) == strip_to(style, p@.take(n as int), r as int),
    decreases n,
{
    if n > r && sep_at(style, p[n - 1]) {
        assert(p@.take(n as int).drop_last() =~= p@.take(n - 1));
        strip_len(style, p, n - 1, r)
    } else {
        n
    }
}

fn last_sep_in(style: PathStyle, p: &Vec<char>, n: usize, r: usize) -> (k: Option<usize>)
    requires
        n <= p.len(),
    ensures
        match last_sep_above(style, p@.take(n as int), r as int) {
            None => k is None,
            Some(j) => k matches Some(i) && i == j,
        },
        k matches Some(i) ==> r <= i < n,
    decreases n,
{
    if n <= r {
        None
    } else if sep_at(style, p[n - 1]) {
        Some(n - 1)
    } else {
        assert(p@.take(n as int).drop_last() =~= p@.take(n - 1));
        last_sep_in(style, p, n - 1, r)
    }
}

/// The parent of `path` by the rules of `style`, if it has one.
pub fn parent_of(style: PathStyle, path: &str) -> (r: Option<String>)
    ensures
        match parent(style, path@) {
            None => r is None,
            Some(q) => r matches Some(s) && s@ == q,
        },
{
    let p = chars_of(path);
    assert(p@.take(p.len() as int) =~= p@);
    let root = root_len_of(style, &p);
    let n = strip_len(style, &p, p.len(), root);
    let ghost s = p@.take(n as int);
    if n <= root {
        return None;
    }
    match last_sep_in(style, &p, n, root) {
        None => {
            let q = string_of(&p, 0, root);
            assert(q@ =~= s.take(root as int));
            Some(q)
        },
        Some(k) => {
            let m = strip_len(style, &p, k, root);
            assert(s.take(k as int) =~= p@.take(k as int));
            let q = string_of(&p, 0, m);
            assert(q@ =~= p@.take(m as int));
            Some(q)
        },
    }
}

/// The last component of `path`, as [`file_name`] describes.
pub fn file_name_of(style: PathStyle, path: &str) -> (r: Option<String>)
    ensures
        r.deep_view() == file_name(style, path@),
{
    let p = chars_of(path);
    assert(p@.take(p.len() as int) =~= p@);
    let root = root_len_of(style, &p);
    let n = strip_len(style, &p, p.len(), root);
    let ghost s = p@.take(n as int);
    if n <= root {
        return None;
    }
    let start = match last_sep_in(style, &p, n, root) {
        Some(k) => k + 1,
        None => root,
    };
    let name = string_of(&p, start, n);
    assert(name@ =~= s.subrange(start as int, s.len() as int));
    let nv = chars_of(name.as_str());
    if crate::text::chars_are(&nv, ".") || crate::text::chars_are(&nv, "..") {
        None
    } else {
        Some(name)
    }
}

/// `path` followed by each of its ancestors, nearest first.
pub fn ancestors_of(style: PathStyle, path: &str) -> (r: Vec<String>)
    ensures
        r@.map_values(|s: String| s@) == ancestors(style, path@),
    decreases path@.len(),
{
    let mut r: Vec<String> = Vec::new();
    r.push(owned(path));
    match parent_of(style, path) {
        None => {
            assert(r@.map_values(|s: String| s@) =~= ancestors(style, path@));
            r
        },
        Some(q) => {
            let ql = q.unicode_len();
            let pl = path.unicode_len();
            if ql < pl {
                let mut rest = ancestors_of(style, q.as_str());
                r.append(&mut rest);
                assert(r@.map_values(|s: String| s@) =~= ancestors(style, path@));
                r
            } else {
                assert(r@.map_values(|s: String| s@) =~= ancestors(style, path@));
                r
            }
        },
    }
}

/// The nearest directory, walking up from `start`, that contains
/// `chiploom.toml`.
///
/// `has_project_file[i]` says whether the `i`-th of [`ancestors_of`]`(style,
/// start)` -- `start` itself first -- holds the project file. `None` when none
/// does: most commands are perfectly usable outside a project.
pub fn find_project_root(style: PathStyle, start: &str, has_project_file: &Vec<bool>) -> (r: Option<String>)
    requires
        has_project_file.len() == ancestors(style, start@).len(),
    ensures
        match r {
            Some(root) => exists|i: int|
                0 <= i < has_project_file.len() && has_project_file[i] && root@ == ancestors(
                    style,
                    start@,
                )[i] && forall|j: int| 0 <= j < i ==> !has_project_file[j],
            None => forall|j: int| 0 <= j < has_project_file.len() ==> !has_project_file[j],
        },
{
    let candidates = ancestors_of(style, start);
    assert(candidates@.len() == ancestors(style, start@).len());
    let mut i: usize = 0;
    while i < candidates.len()
        invariant
            i <= candidates.len(),
            candidates.len() == has_project_file.len(),
            candidates@.map_values(|s: String| s@) == ancestors(style, start@),
            forall|j: int| 0 <= j < i ==> !has_project_file[j],
        decreases candidates.len() - i,
    {
        if has_project_file[i] {
            assert(candidates@.map_values(|s: String| s@)[i as int] == candidates@[i as int]@);
            return Some(copy(&candidates[i]));
        }
        i = i + 1;
    }
    None
}

impl Paths {
    /// Builds a set of paths of the given style explicitly, with no project.
    pub fn new(style: PathStyle, config_dir: String, data_dir: String, cache_dir: String) -> (p: Paths)
        ensures
            p@ == (PathsView {
                style,
                config_dir: config_dir@,
                data_dir: data_dir@,
                cache_dir: cache_dir@,
                project_root: None,
            }),
    {
        Paths { style, config_dir, data_dir, cache_dir, project_root: None }
    }

    /// Whether the platform has to be asked for any location: it does unless
    /// all three are given.
    pub fn needs_platform(
        config_dir: &Option<String>,
        data_dir: &Option<String>,
        cache_dir: &Option<String>,
    ) -> (b: bool)
        ensures
            b == (config_dir is None || data_dir is None || cache_dir is None),
    {
        config_dir.is_none() || data_dir.is_none() || cache_dir.is_none()
    }

    /// Resolves the three locations from explicit overrides and, where one is
    /// missing, from the platform defaults.
    ///
    /// With all three given the platform is never consulted. Otherwise the
    /// platform's locations fill the gaps, and when the platform has none the
    /// failure names the overrides still missing.
    pub fn resolve(
        style: PathStyle,
        config_dir: Option<String>,
        data_dir: Option<String>,
        cache_dir: Option<String>,
        platform: Option<Paths>,
    ) -> (r: Result<Paths, Error>)
        ensures
            config_dir is Some && data_dir is Some && cache_dir is Some ==> (r matches Ok(p) && p@
                == (PathsView {
                style,
                config_dir: config_dir->0@,
                data_dir: data_dir->0@,
                cache_dir: cache_dir->0@,
                project_root: None,
            })),
            (config_dir is None || data_dir is None || cache_dir is None) ==> match platform {
                None => r matches Err(Error::Environment(m)) && m@ == missing_message(
                    config_dir is None,
                    data_dir is None,
                    cache_dir is None,
                ),
                Some(base) => r matches Ok(p) && p@ == (PathsView {
                    style,
                    config_dir: match config_dir {
                        Some(c) => c@,
                        None => base@.config_dir,
                    },
                    data_dir: match data_dir {
                        Some(d) => d@,
                        None => base@.data_dir,
                    },
                    cache_dir: match cache_dir {
                        Some(c) => c@,
                        None => base@.cache_dir,
                    },
                    project_root: base@.project_root,
                }),
            },
    {
        match (config_dir, data_dir, cache_dir) {
            (Some(c), Some(d), Some(k)) => Ok(Paths::new(style, c, d, k)),
            (c, d, k) => match platform {
                None => {
                    let mut m = owned(
                        "cannot determine this user's home directory, so Chip Loom has nowhere to store configuration or toolchains; set",
                    );
                    if c.is_none() {
                        push_str(&mut m, " CHIPLOOM_CONFIG_DIR");
                    }
                    if d.is_none() {
                        push_str(&mut m, " CHIPLOOM_DATA_DIR");
                    }
                    if k.is_none() {
                        push_str(&mut m, " CHIPLOOM_CACHE_DIR");
                    }
                    push_str(&mut m, " to choose the locations yourself");
                    Err(Error::Environment(m))
                },
                Some(base) => {
                    let resolved = base.with_config_dir(c).with_data_dir(d).with_cache_dir(k);
                    Ok(Paths { style, ..resolved })
                },
            },
        }
    }

    /// Returns a copy with the project root attached.
    pub fn with_project_root(self, root: Option<String>) -> (p: Paths)
        ensures
            p@ == (PathsView {
                project_root: match root {
                    Some(r) => Some(r@),
                    None => None,
                },
                ..self@
            }),
    {
        Paths { project_root: root, ..self }
    }

    /// Returns a copy with `config_dir` replaced, when one is given.
    pub fn with_config_dir(self, dir: Option<String>) -> (p: Paths)
        ensures
            p@ == (PathsView {
                config_dir: match dir {
                    Some(d) => d@,
                    None => self@.config_dir,
                },
                ..self@
            }),
    {
        match dir {
            Some(d) => Paths { config_dir: d, ..self },
            None => self,
        }
    }

    /// Returns a copy with `data_dir` replaced, when one is given.
    pub fn with_data_dir(self, dir: Option<String>) -> (p: Paths)
        ensures
            p@ == (PathsView {
                data_dir: match dir {
                    Some(d) => d@,
                    None => self@.data_dir,
                },
                ..self@
            }),
    {
        match dir {
            Some(d) => Paths { data_dir: d, ..self },
            None => self,
        }
    }

    /// Returns a copy with `cache_dir` replaced, when one is given.
    pub fn with_cache_dir(self, dir: Option<String>) -> (p: Paths)
        ensures
            p@ == (PathsView {
                cache_dir: match dir {
                    Some(d) => d@,
                    None => self@.cache_dir,
                },
                ..self@
            }),
    {
        match dir {
            Some(d) => Paths { cache_dir: d, ..self },
            None => self,
        }
    }

    /// The path conventions these locations follow.
    pub fn style(&self) -> (s: PathStyle)
        ensures
            s == self@.style,
    {
        self.style
    }

    /// Directory holding the user-global `config.toml`.
    pub fn config_dir(&self) -> (d: &str)
        ensures
            d@ == self@.config_dir,
    {
        self.config_dir.as_str()
    }

    /// The user-global configuration file, whether or not it exists.
    pub fn global_config_file(&self) -> (f: String)
        ensures
            f@ == join(self@.style, self@.config_dir, "config.toml"@),
    {
        join_path(self.style, self.config_dir.as_str(), "config.toml")
    }

    /// Directory for durable data: toolchains, target packs, registries.
    pub fn data_dir(&self) -> (d: &str)
        ensures
            d@ == self@.data_dir,
    {
        self.data_dir.as_str()
    }

    /// Where downloaded toolchains are unpacked.
    pub fn toolchains_dir(&self) -> (d: String)
        ensures
            d@ == join(self@.style, self@.data_dir, "toolchains"@),
    {
        join_path(self.style, self.data_dir.as_str(), "toolchains")
    }

    /// Where target packs are installed.
    pub fn target_packs_dir(&self) -> (d: String)
        ensures
            d@ == join(self@.style, self@.data_dir, "targets"@),
    {
        join_path(self.style, self.data_dir.as_str(), "targets")
    }

    /// Directory for disposable data.
    pub fn cache_dir(&self) -> (d: &str)
        ensures
            d@ == self@.cache_dir,
    {
        self.cache_dir.as_str()
    }

    /// Where in-flight and verified downloads land.
    pub fn downloads_dir(&self) -> (d: String)
        ensures
            d@ == join(self@.style, self@.cache_dir, "downloads"@),
    {
        join_path(self.style, self.cache_dir.as_str(), "downloads")
    }

    /// Where log files are written.
    pub fn log_dir(&self) -> (d: String)
        ensures
            d@ == join(self@.style, self@.cache_dir, "logs"@),
    {
        join_path(self.style, self.cache_dir.as_str(), "logs")
    }

    /// The discovered project root, if the command ran inside a project.
    pub fn project_root(&self) -> (r: Option<&str>)
        ensures
            match self@.project_root {
                Some(root) => r matches Some(s) && s@ == root,
                None => r is None,
            },
    {
        match &self.project_root {
            Some(r) => Some(r.as_str()),
            None => None,
        }
    }

    /// The project's `chiploom.toml`, if a project was found.
    pub fn project_config_file(&self) -> (f: Option<String>)
        ensures
            match self@.project_root {
                Some(root) => f matches Some(s) && s@ == join(self@.style, root, PROJECT_FILE@),
                None => f is None,
            },
    {
        match &self.project_root {
            Some(r) => Some(join_path(self.style, r.as_str(), PROJECT_FILE)),
            None => None,
        }
    }

    /// Per-project state directory, if a project was found.
    pub fn project_state_dir(&self) -> (d: Option<String>)
        ensures
            match self@.project_root {
                Some(root) => d matches Some(s) && s@ == join(self@.style, root, PROJECT_STATE_DIR@),
                None => d is None,
            },
    {
        match &self.project_root {
            Some(r) => Some(join_path(self.style, r.as_str(), PROJECT_STATE_DIR)),
            None => None,
        }
    }
}

/// The message naming the overrides still missing when the platform has no
/// home directory.
pub open spec fn missing_message(config: bool, data: bool, cache: bool) -> Seq<char> {
    "cannot determine this user's home directory, so Chip Loom has nowhere to store configuration or toolchains; set"@
        + (if config {
        " CHIPLOOM_CONFIG_DIR"@
    } else {
        Seq::empty()
    }) + (if data {
        " CHIPLOOM_DATA_DIR"@
    } else {
        Seq::empty()
    }) + (if cache {
        " CHIPLOOM_CACHE_DIR"@
    } else {
        Seq::empty()
    }) + " to choose the locations yourself"@
}

} // verus!
