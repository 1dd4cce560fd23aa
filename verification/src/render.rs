//! Turning core values into terminal text.
//!
//! All human-facing formatting lives here: the core produces a report, a
//! configuration or build provenance, and this module decides what that looks
//! like for a person. Every function returns the text; writing it to a stream
//! is the caller's part.

use vstd::prelude::*;

use crate::cli::ColorChoice;
use crate::config::loader::{LoadedView, SourceView, messages};
use crate::config::{Loaded, Source, SourceKind, SourceStatus};
use crate::doctor::{Status, count};
use crate::text::{
    char_is_space, chars_of, decimal, is_space, join, owned, push_char, push_chars, push_decimal,
    push_str, trim, trim_start, views,
};
#[allow(unused_imports)]
use vstd::string::*;

verus! {

/// ANSI styling, disabled as a whole when the terminal cannot use it.
#[derive(Debug, Clone, Copy)]
pub struct Palette {
    enabled: bool,
}

impl Palette {
    /// Whether this palette emits escape sequences.
    pub closed spec fn colours(self) -> bool {
        self.enabled
    }

    /// Decides whether to colour, honouring `--color`, `NO_COLOR` and whether
    /// stdout is a terminal: with `auto`, colour only on a terminal and only
    /// when `NO_COLOR` is unset, whatever its value.
    pub fn resolve(choice: ColorChoice, stdout_is_terminal: bool, no_color_set: bool) -> (p: Palette)
        ensures
            p.colours() == match choice {
                ColorChoice::Always => true,
                ColorChoice::Never => false,
                ColorChoice::Auto => stdout_is_terminal && !no_color_set,
            },
    {
        let enabled = match choice {
            ColorChoice::Always => true,
            ColorChoice::Never => false,
            ColorChoice::Auto => stdout_is_terminal && !no_color_set,
        };
        Palette { enabled }
    }

    /// A palette that emits no escape sequences.
    pub fn plain() -> (p: Palette)
        ensures
            !p.colours(),
    {
        Palette { enabled: false }
    }

    /// `text` wrapped in the SGR sequence `code`, when colouring.
    pub fn paint(self, code: &str, text: &str) -> (s: String)
        ensures
            s@ == painted(self.colours(), code@, text@),
    {
        if self.enabled {
            let mut s = owned("\u{1b}[");
            push_str(&mut s, code);
            push_str(&mut s, "m");
            push_str(&mut s, text);
            push_str(&mut s, "\u{1b}[0m");
            s
        } else {
            owned(text)
        }
    }

    /// `text` in bold.
    pub fn bold(self, text: &str) -> (s: String)
        ensures
            s@ == painted(self.colours(), "1"@, text@),
    {
        self.paint("1", text)
    }

    /// `text` dimmed.
    pub fn dim(self, text: &str) -> (s: String)
        ensures
            s@ == painted(self.colours(), "2"@, text@),
    {
        self.paint("2", text)
    }

    /// A status marker, padded to a fixed width so a report reads as a
    /// column, and coloured by severity.
    pub fn status(self, status: Status) -> (s: String)
        ensures
            s@ == status_text(self.colours(), status),
    {
        let code = match status {
            Status::Pass => "32",
            Status::Warn => "33",
            Status::Error => "31",
            Status::Skipped => "2",
        };
        let padded = pad(status.marker(), 4);
        self.paint(code, padded.as_str())
    }
}

/// `text` wrapped in the SGR sequence `code` when `enabled`.
pub open spec fn painted(enabled: bool, code: Seq<char>, text: Seq<char>) -> Seq<char> {
    if enabled {
        "\u{1b}["@ + code + "m"@ + text + "\u{1b}[0m"@
    } else {
        text
    }
}

/// `n` spaces.
pub open spec fn spaces(n: nat) -> Seq<char> {
    Seq::new(n, |i: int| ' ')
}

/// `s` followed by spaces up to `width` characters.
pub open spec fn padded(s: Seq<char>, width: nat) -> Seq<char> {
    if s.len() < width {
        s + spaces((width - s.len()) as nat)
    } else {
        s
    }
}

/// The SGR colour of each status.
pub open spec fn status_code(status: Status) -> Seq<char> {
    match status {
        Status::Pass => "32"@,
        Status::Warn => "33"@,
        Status::Error => "31"@,
        Status::Skipped => "2"@,
    }
}

/// A status marker as a report shows it.
pub open spec fn status_text(enabled: bool, status: Status) -> Seq<char> {
    painted(enabled, status_code(status), padded(status.marker_text(), 4))
}

fn push_spaces(out: &mut String, n: usize)
    ensures
        final(out)@ == old(out)@ + spaces(n as nat),
{
    let ghost start = out@;
    let mut i: usize = 0;
    while i < n
        invariant
            i <= n,
            out@ == start + spaces(i as nat),
        decreases n - i,
    {
        push_char(out, ' ');
        assert(spaces((i + 1) as nat) =~= spaces(i as nat).push(' '));
        i = i + 1;
    }
}

/// `s` padded with spaces to `width` characters.
pub fn pad(s: &str, width: usize) -> (r: String)
    ensures
        r@ == padded(s@, width as nat),
{
    let mut r = owned(s);
    let n = s.unicode_len();
    if n < width {
        push_spaces(&mut r, width - n);
    }
    r
}

/// The plural suffix for a count: none for exactly one.
pub open spec fn plural_text(count: nat) -> Seq<char> {
    if count == 1 {
        Seq::empty()
    } else {
        "s"@
    }
}

/// The plural suffix for `count`.
pub fn plural(count: usize) -> (s: &'static str)
    ensures
        s@ == plural_text(count as nat),
{
    proof {
        reveal_strlit("");
    }
    if count == 1 {
        ""
    } else {
        "s"
    }
}

/// A duration as a report shows it: a run under a millisecond is not shown
/// as zero.
pub open spec fn duration_text(millis: u64) -> Seq<char> {
    if millis == 0 {
        "(under 1 ms)"@
    } else {
        "("@ + decimal(millis as nat) + " ms)"@
    }
}

/// Renders a millisecond count, distinguishing "fast" from "unmeasured".
pub fn format_duration(millis: u64) -> (s: String)
    ensures
        s@ == duration_text(millis),
{
    if millis == 0 {
        owned("(under 1 ms)")
    } else {
        let mut s = owned("(");
        push_decimal(&mut s, millis);
        push_str(&mut s, " ms)");
        s
    }
}

/// The width prose is wrapped at, from the `COLUMNS` value the shell
/// exported: 100 when there is none or it is not a number, and never
/// narrower than 40 or wider than 160.
pub open spec fn width_from(columns: Option<Seq<char>>) -> nat {
    let w = match columns {
        Some(c) => match crate::config::loader::number_from(c, usize::MAX as nat) {
            Some(n) => n,
            None => 100,
        },
        None => 100,
    };
    if w < 40 {
        40
    } else if w > 160 {
        160
    } else {
        w
    }
}

/// The width to wrap prose at, given the `COLUMNS` variable's value.
pub fn terminal_width(columns: Option<&str>) -> (w: usize)
    ensures
        w == width_from(columns.deep_view()),
{
    let w: usize = match columns {
        Some(c) => match crate::config::loader::parse_count(c, usize::MAX as u64) {
            Some(n) => n as usize,
            None => 100,
        },
        None => 100,
    };
    if w < 40 {
        40
    } else if w > 160 {
        160
    } else {
        w
    }
}

/// The words of `s` so far, and the word being read, after each character.
pub open spec fn scan_words(s: Seq<char>) -> (Seq<Seq<char>>, Seq<char>)
    decreases s.len(),
{
    if s.len() == 0 {
        (Seq::empty(), Seq::empty())
    } else {
        let (ws, cur) = scan_words(s.drop_last());
        if is_space(s.last()) {
            if cur.len() > 0 {
                (ws.push(cur), Seq::empty())
            } else {
                (ws, cur)
            }
        } else {
            (ws, cur.push(s.last()))
        }
    }
}

/// The words of `s`: its maximal runs of non-whitespace characters, in order.
pub open spec fn words(s: Seq<char>) -> Seq<Seq<char>> {
    let (ws, cur) = scan_words(s);
    if cur.len() > 0 {
        ws.push(cur)
    } else {
        ws
    }
}

/// The finished lines, and the line being filled, after greedily filling
/// lines of `width` with `ws`.
pub open spec fn fill(ws: Seq<Seq<char>>, width: nat) -> (Seq<Seq<char>>, Seq<char>)
    decreases ws.len(),
{
    if ws.len() == 0 {
        (Seq::empty(), Seq::empty())
    } else {
        let (lines, cur) = fill(ws.drop_last(), width);
        let w = ws.last();
        if cur.len() == 0 {
            (lines, w)
        } else if cur.len() + 1 + w.len() <= width {
            (lines, cur + seq![' '] + w)
        } else {
            (lines.push(cur), w)
        }
    }
}

/// `text` broken into lines of at most `width` characters at whitespace,
/// greedily; a word longer than `width` stands alone on its line, and text
/// with no words is one empty line.
pub open spec fn wrapped(text: Seq<char>, width: nat) -> Seq<Seq<char>> {
    let (lines, cur) = fill(words(text), width);
    let all = if cur.len() > 0 {
        lines.push(cur)
    } else {
        lines
    };
    if all.len() == 0 {
        seq![Seq::empty()]
    } else {
        all
    }
}

/// Breaks `text` into lines of at most `width` characters, splitting on
/// whitespace.
///
/// A word longer than `width` is left on its own line rather than broken:
/// paths and identifiers read worse hyphenated than run long.
pub fn wrap(text: &str, width: usize) -> (lines: Vec<String>)
    ensures
        views(lines@) == wrapped(text@, width as nat),
{
    let chars = chars_of(text);
    // Split into words, as `scan_words` describes.
    let mut ws: Vec<Vec<char>> = Vec::new();
    let mut cur: Vec<char> = Vec::new();
    let mut i: usize = 0;
    assert(chars@.take(0) =~= Seq::<char>::empty());
    while i < chars.len()
        invariant
            i <= chars.len(),
            ws@.map_values(|w: Vec<char>| w@) == scan_words(chars@.take(i as int)).0,
            cur@ == scan_words(chars@.take(i as int)).1,
        decreases chars.len() - i,
    {
        assert(chars@.take(i + 1).drop_last() =~= chars@.take(i as int));
        assert(chars@.take(i + 1).last() == chars@[i as int]);
        let c = chars[i];
        if char_is_space(c) {
            if cur.len() > 0 {
                let ghost before = ws@;
                let word = cur;
                ws.push(word);
                cur = Vec::new();
                assert(ws@.map_values(|w: Vec<char>| w@) =~= before.map_values(|w: Vec<char>| w@).push(word@));
            }
        } else {
            cur.push(c);
        }
        i = i + 1;
    }
    assert(chars@.take(chars.len() as int) =~= chars@);
    if cur.len() > 0 {
        let ghost before = ws@;
        let word = cur;
        ws.push(word);
        assert(ws@.map_values(|w: Vec<char>| w@) =~= before.map_values(|w: Vec<char>| w@).push(word@));
    }
    let ghost all_words = ws@.map_values(|w: Vec<char>| w@);
    assert(all_words == words(text@));
    // Fill lines greedily, as `fill` describes.
    let mut lines: Vec<String> = Vec::new();
    let mut current: Vec<char> = Vec::new();
    let mut k: usize = 0;
    assert(all_words.take(0) =~= Seq::<Seq<char>>::empty());
    while k < ws.len()
        invariant
            k <= ws.len(),
            all_words == ws@.map_values(|w: Vec<char>| w@),
            views(lines@) == fill(all_words.take(k as int), width as nat).0,
            current@ == fill(all_words.take(k as int), width as nat).1,
        decreases ws.len() - k,
    {
        assert(all_words.take(k + 1).drop_last() =~= all_words.take(k as int));
        assert(all_words.take(k + 1).last() == ws@[k as int]@);
        let w = &ws[k];
        if current.len() == 0 {
            current = copy_chars(w);
        } else if (current.len() as u128) + 1 + (w.len() as u128) <= width as u128 {
            let ghost before = current@;
            current.push(' ');
            append_chars(&mut current, w);
            assert(current@ =~= before + seq![' '] + w@);
        } else {
            let ghost before = lines@;
            let line = string_from(&current);
            lines.push(line);
            assert(views(lines@) =~= views(before).push(line@));
            current = copy_chars(w);
        }
        k = k + 1;
    }
    assert(all_words.take(ws.len() as int) =~= all_words);
    if current.len() > 0 {
        let ghost before = lines@;
        let line = string_from(&current);
        lines.push(line);
        assert(views(lines@) =~= views(before).push(line@));
    }
    if lines.len() == 0 {
        lines.push(String::new());
        assert(views(lines@) =~= seq![Seq::<char>::empty()]);
    }
    lines
}

fn copy_chars(v: &Vec<char>) -> (r: Vec<char>)
    ensures
        r@ == v@,
{
    let mut r: Vec<char> = Vec::new();
    append_chars(&mut r, v);
    assert(r@ =~= v@);
    r
}

fn append_chars(out: &mut Vec<char>, v: &Vec<char>)
    ensures
        final(out)@ == old(out)@ + v@,
{
    let ghost start = out@;
    let mut i: usize = 0;
    while i < v.len()
        invariant
            i <= v.len(),
            out@ == start + v@.take(i as int),
        decreases v.len() - i,
    {
        out.push(v[i]);
        assert(v@.take(i + 1) =~= v@.take(i as int).push(v@[i as int]));
        i = i + 1;
    }
    assert(v@.take(v.len() as int) =~= v@);
}

fn string_from(v: &Vec<char>) -> (s: String)
    ensures
        s@ == v@,
{
    let mut s = String::new();
    push_chars(&mut s, v, 0, v.len());
    assert(s@ =~= v@);
    s
}

proof fn lemma_scan_words_nonempty(s: Seq<char>)
    ensures
        forall|i: int| 0 <= i < scan_words(s).0.len() ==> (#[trigger] scan_words(s).0[i]).len() > 0,
    decreases s.len(),
{
    if s.len() > 0 {
        lemma_scan_words_nonempty(s.drop_last());
        let (ws, cur) = scan_words(s.drop_last());
        let now = scan_words(s).0;
        assert forall|i: int| 0 <= i < now.len() implies (#[trigger] now[i]).len() > 0 by {
            if i < ws.len() {
                assert(now[i] == ws[i]);
            }
        }
    }
}

/// Every word is non-empty.
pub proof fn words_are_nonempty(s: Seq<char>)
    ensures
        forall|i: int| 0 <= i < words(s).len() ==> (#[trigger] words(s)[i]).len() > 0,
{
    lemma_scan_words_nonempty(s);
}

proof fn lemma_fill(ws: Seq<Seq<char>>, width: nat)
    requires
        forall|i: int| 0 <= i < ws.len() ==> (#[trigger] ws[i]).len() > 0,
    ensures
        ws.len() == 0 ==> fill(ws, width).0.len() == 0 && fill(ws, width).1.len() == 0,
        ws.len() > 0 ==> fill(ws, width).1.len() > 0 && join(
            fill(ws, width).0.push(fill(ws, width).1),
            seq![' '],
        ) == join(ws, seq![' ']),
        forall|i: int|
            0 <= i < fill(ws, width).0.len() ==> (#[trigger] fill(ws, width).0[i]).len() <= width
                || ws.contains(fill(ws, width).0[i]),
        fill(ws, width).1.len() <= width || ws.contains(fill(ws, width).1),
    decreases ws.len(),
{
    if ws.len() > 0 {
        let prev = ws.drop_last();
        assert forall|i: int| 0 <= i < prev.len() implies (#[trigger] prev[i]).len() > 0 by {
            assert(prev[i] == ws[i]);
        }
        lemma_fill(prev, width);
        let (lines, cur) = fill(prev, width);
        let w = ws.last();
        let sp = seq![' '];
        assert(ws.contains(w)) by {
            assert(ws[ws.len() - 1] == w);
        }
        assert forall|x: Seq<char>| prev.contains(x) implies ws.contains(x) by {
            let j = choose|j: int| 0 <= j < prev.len() && prev[j] == x;
            assert(ws[j] == x);
        }
        if cur.len() == 0 {
            assert(prev.len() == 0);
            assert(ws =~= seq![w]);
            assert(lines.push(w) =~= seq![w]);
        } else if cur.len() + 1 + w.len() <= width {
            let c2 = cur + sp + w;
            assert(join(ws, sp) == join(prev, sp) + sp + w);
            if lines.len() == 0 {
                assert(lines.push(cur) =~= seq![cur]);
                assert(lines.push(c2) =~= seq![c2]);
            } else {
                assert(lines.push(c2).drop_last() =~= lines);
                assert(lines.push(cur).drop_last() =~= lines);
                assert(join(lines.push(c2), sp) == join(lines, sp) + sp + c2);
                assert(join(lines.push(cur), sp) == join(lines, sp) + sp + cur);
                assert(join(lines, sp) + sp + c2 =~= join(lines, sp) + sp + cur + sp + w);
            }
        } else {
            let l2 = lines.push(cur);
            assert(join(ws, sp) == join(prev, sp) + sp + w);
            assert(l2.push(w).drop_last() =~= l2);
            assert forall|i: int| 0 <= i < l2.len() implies (#[trigger] l2[i]).len() <= width
                || ws.contains(l2[i]) by {
                if i < lines.len() {
                    assert(l2[i] == lines[i]);
                }
            }
        }
    }
}

/// Wrapping keeps every word, in order: joining the lines with single spaces
/// gives the words joined with single spaces.
pub proof fn wrapping_keeps_every_word(text: Seq<char>, width: nat)
    ensures
        join(wrapped(text, width), seq![' ']) == join(words(text), seq![' ']),
{
    words_are_nonempty(text);
    lemma_fill(words(text), width);
}

/// Every wrapped line fits the width, unless it is a single word too long to
/// fit, which is left intact.
pub proof fn wrapped_lines_fit(text: Seq<char>, width: nat)
    ensures
        forall|i: int|
            0 <= i < wrapped(text, width).len() ==> (#[trigger] wrapped(text, width)[i]).len()
                <= width || words(text).contains(wrapped(text, width)[i]),
{
    words_are_nonempty(text);
    let ws = words(text);
    lemma_fill(ws, width);
    let (lines, cur) = fill(ws, width);
    let all = if cur.len() > 0 {
        lines.push(cur)
    } else {
        lines
    };
    assert forall|i: int| 0 <= i < all.len() implies (#[trigger] all[i]).len() <= width || ws.contains(all[i]) by {
        if i < lines.len() {
            assert(all[i] == lines[i]);
        }
    }
}

/// Text without words wraps to exactly one empty line.
pub proof fn wordless_text_is_one_empty_line(text: Seq<char>, width: nat)
    requires
        words(text).len() == 0,
    ensures
        wrapped(text, width) == seq![Seq::<char>::empty()],
{
    lemma_fill(words(text), width);
}

/// How a layer is named in `config` output.
pub open spec fn kind_text(kind: SourceKind) -> Seq<char> {
    match kind {
        SourceKind::Defaults => "built-in defaults"@,
        SourceKind::GlobalFile => "global file"@,
        SourceKind::ProjectFile => "project file"@,
        SourceKind::ExplicitFile => "explicit file (--config)"@,
        SourceKind::Environment => "CHIPLOOM_* environment variables"@,
        SourceKind::CommandLine => "command-line flags"@,
    }
}

/// How a layer's status is named in `config` output.
pub open spec fn status_word(status: SourceStatus) -> Seq<char> {
    match status {
        SourceStatus::Applied => "applied"@,
        SourceStatus::Missing => "not present"@,
        SourceStatus::Skipped => "skipped"@,
        SourceStatus::Empty => "present but empty"@,
    }
}

/// A layer as `config` output describes it: its name, its file when it has
/// one, and its status in brackets.
pub open spec fn layer_text(s: SourceView) -> Seq<char> {
    match s.path {
        Some(p) => kind_text(s.kind) + ": "@ + p + " ["@ + status_word(s.status) + "]"@,
        None => kind_text(s.kind) + " ["@ + status_word(s.status) + "]"@,
    }
}

/// Describes one layer.
pub fn describe_source(source: &Source) -> (s: String)
    ensures
        s@ == layer_text(source@),
{
    let kind = match source.kind {
        SourceKind::Defaults => "built-in defaults",
        SourceKind::GlobalFile => "global file",
        SourceKind::ProjectFile => "project file",
        SourceKind::ExplicitFile => "explicit file (--config)",
        SourceKind::Environment => "CHIPLOOM_* environment variables",
        SourceKind::CommandLine => "command-line flags",
    };
    let status = match source.status {
        SourceStatus::Applied => "applied",
        SourceStatus::Missing => "not present",
        SourceStatus::Skipped => "skipped",
        SourceStatus::Empty => "present but empty",
    };
    let mut s = owned(kind);
    if let Some(path) = &source.path {
        push_str(&mut s, ": ");
        push_str(&mut s, path.as_str());
    }
    push_str(&mut s, " [");
    push_str(&mut s, status);
    push_str(&mut s, "]");
    s
}

/// Every part, one after another.
pub open spec fn concat(parts: Seq<Seq<char>>) -> Seq<char>
    decreases parts.len(),
{
    if parts.len() == 0 {
        Seq::empty()
    } else {
        concat(parts.drop_last()) + parts.last()
    }
}

/// The lines `config check` prints for the files that were applied.
pub open spec fn applied_file_lines(sources: Seq<SourceView>, enabled: bool) -> Seq<char>
    decreases sources.len(),
{
    if sources.len() == 0 {
        Seq::empty()
    } else {
        let s = sources.last();
        applied_file_lines(sources.drop_last(), enabled) + (if s.path is Some && s.status
            == SourceStatus::Applied {
            status_text(enabled, Status::Pass) + " "@ + layer_text(s) + "\n"@
        } else {
            Seq::empty()
        })
    }
}

/// Each warning on a line of its own, marked as a warning.
pub open spec fn warning_lines(ws: Seq<Seq<char>>, enabled: bool) -> Seq<char> {
    concat(ws.map_values(|m: Seq<char>| status_text(enabled, Status::Warn) + " "@ + m + "\n"@))
}

/// What `config check` prints: the files that were applied, or that there
/// are none; then each warning and their count, or that there are none.
pub open spec fn check_text(l: LoadedView, enabled: bool) -> Seq<char> {
    let files = applied_file_lines(l.sources, enabled);
    (if files.len() == 0 {
        "No configuration files found; Chip Loom is using its defaults.\n"@
    } else {
        files
    }) + (if l.warnings.len() == 0 {
        "\nNo problems found.\n"@
    } else {
        "\n"@ + warning_lines(l.warnings, enabled) + "\n"@ + decimal(l.warnings.len())
            + " warning"@ + plural_text(l.warnings.len()) + " found. Unrecognised keys have no effect.\n"@
    })
}

/// Writes the result of validating configuration.
pub fn config_check(loaded: &Loaded, palette: Palette) -> (text: String)
    ensures
        text@ == check_text(loaded@, palette.colours()),
{
    let ghost sv = loaded.sources@.map_values(|s: Source| s@);
    let ghost en = palette.colours();
    let mut files = String::new();
    let mut i: usize = 0;
    assert(sv.take(0) =~= Seq::<SourceView>::empty());
    while i < loaded.sources.len()
        invariant
            i <= loaded.sources.len(),
            sv == loaded.sources@.map_values(|s: Source| s@),
            en == palette.colours(),
            files@ == applied_file_lines(sv.take(i as int), en),
        decreases loaded.sources.len() - i,
    {
        assert(sv.take(i + 1).drop_last() =~= sv.take(i as int));
        assert(sv.take(i + 1).last() == loaded.sources@[i as int]@);
        let source = &loaded.sources[i];
        if source.path.is_some() && source.status == SourceStatus::Applied {
            let mark = palette.status(Status::Pass);
            let d = describe_source(source);
            let ghost before = files@;
            push_str(&mut files, mark.as_str());
            push_str(&mut files, " ");
            push_str(&mut files, d.as_str());
            push_str(&mut files, "\n");
            assert(files@ =~= before + (mark@ + " "@ + d@ + "\n"@));
        } else {
            assert(files@ =~= files@ + Seq::<char>::empty());
        }
        i = i + 1;
    }
    assert(sv.take(sv.len() as int) =~= sv);
    let mut text = if files.unicode_len() == 0 {
        owned("No configuration files found; Chip Loom is using its defaults.\n")
    } else {
        files
    };
    let n = loaded.warnings.len();
    if n == 0 {
        push_str(&mut text, "\nNo problems found.\n");
    } else {
        push_str(&mut text, "\n");
        let ghost ms = messages(loaded.warnings@);
        let ghost start = text@;
        let mut k: usize = 0;
        assert(ms.take(0).map_values(|m: Seq<char>| status_text(en, Status::Warn) + " "@ + m + "\n"@)
            =~= Seq::<Seq<char>>::empty());
        while k < n
            invariant
                k <= n,
                n == loaded.warnings.len(),
                ms == messages(loaded.warnings@),
                en == palette.colours(),
                text@ == start + concat(
                    ms.take(k as int).map_values(
                        |m: Seq<char>| status_text(en, Status::Warn) + " "@ + m + "\n"@,
                    ),
                ),
            decreases n - k,
        {
            let mark = palette.status(Status::Warn);
            let ghost before = text@;
            push_str(&mut text, mark.as_str());
            push_str(&mut text, " ");
            push_str(&mut text, loaded.warnings[k].message.as_str());
            push_str(&mut text, "\n");
            let ghost f = |m: Seq<char>| status_text(en, Status::Warn) + " "@ + m + "\n"@;
            assert(ms.take(k + 1).map_values(f).drop_last() =~= ms.take(k as int).map_values(f));
            assert(ms.take(k + 1).map_values(f).last() == f(loaded.warnings@[k as int].message@));
            assert(text@ =~= before + f(loaded.warnings@[k as int].message@));
            k = k + 1;
        }
        assert(ms.take(n as int) =~= ms);
        push_str(&mut text, "\n");
        push_decimal(&mut text, n as u64);
        push_str(&mut text, " warning");
        push_str(&mut text, plural(n));
        push_str(&mut text, " found. Unrecognised keys have no effect.\n");
    }
    text
}

/// The longest of `labels`, in characters; 0 when there are none.
pub open spec fn widest(labels: Seq<Seq<char>>) -> nat
    decreases labels.len(),
{
    if labels.len() == 0 {
        0
    } else {
        let rest = widest(labels.drop_last());
        if labels.last().len() > rest {
            labels.last().len()
        } else {
            rest
        }
    }
}

/// Rows of label and value, each label padded to `width`.
pub open spec fn row_lines(rows: Seq<(Seq<char>, Seq<char>)>, width: nat) -> Seq<char> {
    concat(rows.map_values(|r: (Seq<char>, Seq<char>)| "  "@ + padded(r.0, width) + "  "@ + r.1 + "\n"@))
}

/// The storage rows `config path` prints.
pub open spec fn storage_rows(l: LoadedView) -> Seq<(Seq<char>, Seq<char>)> {
    seq![
        ("config"@, l.paths.config_dir),
        ("data"@, l.paths.data_dir),
        ("toolchains"@, crate::paths::join(l.paths.style, l.paths.data_dir, "toolchains"@)),
        ("target packs"@, crate::paths::join(l.paths.style, l.paths.data_dir, "targets"@)),
        ("cache"@, l.paths.cache_dir),
        ("logs"@, crate::paths::join(l.paths.style, l.paths.cache_dir, "logs"@)),
        ("project"@, match l.paths.project_root {
            Some(r) => r,
            None => "(none)"@,
        }),
    ]
}

/// What `config path` prints: every layer, then every storage location.
pub open spec fn path_text(l: LoadedView, enabled: bool) -> Seq<char> {
    let rows = storage_rows(l);
    painted(enabled, "1"@, "configuration layers, lowest precedence first"@) + "\n"@ + concat(
        l.sources.map_values(|s: SourceView| "  "@ + layer_text(s) + "\n"@),
    ) + "\n"@ + painted(enabled, "1"@, "storage"@) + "\n"@ + row_lines(
        rows,
        widest(rows.map_values(|r: (Seq<char>, Seq<char>)| r.0)),
    )
}

fn push_rows(out: &mut String, rows: &Vec<(&str, String)>)
    ensures
        ({
            let rv = rows@.map_values(|r: (&str, String)| (r.0@, r.1@));
            final(out)@ == old(out)@ + row_lines(rv, widest(rv.map_values(|r: (Seq<char>, Seq<char>)| r.0)))
        }),
{
    let ghost rv = rows@.map_values(|r: (&str, String)| (r.0@, r.1@));
    let ghost labels = rv.map_values(|r: (Seq<char>, Seq<char>)| r.0);
    let mut width: usize = 0;
    let mut i: usize = 0;
    assert(labels.take(0) =~= Seq::<Seq<char>>::empty());
    while i < rows.len()
        invariant
            i <= rows.len(),
            rv == rows@.map_values(|r: (&str, String)| (r.0@, r.1@)),
            labels == rv.map_values(|r: (Seq<char>, Seq<char>)| r.0),
            width == widest(labels.take(i as int)),
        decreases rows.len() - i,
    {
        assert(labels.take(i + 1).drop_last() =~= labels.take(i as int));
        assert(labels.take(i + 1).last() == rows@[i as int].0@);
        let n = rows[i].0.unicode_len();
        if n > width {
            width = n;
        }
        i = i + 1;
    }
    assert(labels.take(labels.len() as int) =~= labels);
    let ghost start = out@;
    let ghost f = |r: (Seq<char>, Seq<char>)| "  "@ + padded(r.0, width as nat) + "  "@ + r.1 + "\n"@;
    let mut k: usize = 0;
    assert(rv.take(0).map_values(f) =~= Seq::<Seq<char>>::empty());
    while k < rows.len()
        invariant
            k <= rows.len(),
            rv == rows@.map_values(|r: (&str, String)| (r.0@, r.1@)),
            f == (|r: (Seq<char>, Seq<char>)| "  "@ + padded(r.0, width as nat) + "  "@ + r.1 + "\n"@),
            out@ == start + concat(rv.take(k as int).map_values(f)),
        decreases rows.len() - k,
    {
        let ghost before = out@;
        push_str(out, "  ");
        let label = pad(rows[k].0, width);
        push_str(out, label.as_str());
        push_str(out, "  ");
        push_str(out, rows[k].1.as_str());
        push_str(out, "\n");
        assert(rv.take(k + 1).map_values(f).drop_last() =~= rv.take(k as int).map_values(f));
        assert(rv.take(k + 1).map_values(f).last() == f(rv[k as int]));
        assert(out@ =~= before + f(rv[k as int]));
        k = k + 1;
    }
    assert(rv.take(rows.len() as int) =~= rv);
}

/// Writes every location configuration is read from.
pub fn config_path(loaded: &Loaded, palette: Palette) -> (text: String)
    ensures
        text@ == path_text(loaded@, palette.colours()),
{
    let ghost en = palette.colours();
    let mut text = palette.bold("configuration layers, lowest precedence first");
    push_str(&mut text, "\n");
    let ghost sv = loaded.sources@.map_values(|s: Source| s@);
    let ghost f = |s: SourceView| "  "@ + layer_text(s) + "\n"@;
    let ghost start = text@;
    let mut i: usize = 0;
    assert(sv.take(0).map_values(f) =~= Seq::<Seq<char>>::empty());
    while i < loaded.sources.len()
        invariant
            i <= loaded.sources.len(),
            sv == loaded.sources@.map_values(|s: Source| s@),
            f == (|s: SourceView| "  "@ + layer_text(s) + "\n"@),
            text@ == start + concat(sv.take(i as int).map_values(f)),
        decreases loaded.sources.len() - i,
    {
        let ghost before = text@;
        push_str(&mut text, "  ");
        let d = describe_source(&loaded.sources[i]);
        push_str(&mut text, d.as_str());
        push_str(&mut text, "\n");
        assert(sv.take(i + 1).map_values(f).drop_last() =~= sv.take(i as int).map_values(f));
        assert(sv.take(i + 1).map_values(f).last() == f(loaded.sources@[i as int]@));
        assert(text@ =~= before + f(loaded.sources@[i as int]@));
        i = i + 1;
    }
    assert(sv.take(sv.len() as int) =~= sv);
    push_str(&mut text, "\n");
    let storage = palette.bold("storage");
    push_str(&mut text, storage.as_str());
    push_str(&mut text, "\n");
    let paths = &loaded.paths;
    let mut rows: Vec<(&str, String)> = Vec::new();
    rows.push(("config", owned(paths.config_dir())));
    rows.push(("data", owned(paths.data_dir())));
    rows.push(("toolchains", paths.toolchains_dir()));
    rows.push(("target packs", paths.target_packs_dir()));
    rows.push(("cache", owned(paths.cache_dir())));
    rows.push(("logs", paths.log_dir()));
    rows.push((
        "project",
        match paths.project_root() {
            Some(r) => owned(r),
            None => owned("(none)"),
        },
    ));
    assert(rows@.map_values(|r: (&str, String)| (r.0@, r.1@)) =~= storage_rows(loaded@));
    push_rows(&mut text, &rows);
    text
}

/// Build provenance as `version --verbose` lists it, key and value.
pub open spec fn detail_rows(info: crate::version::BuildInfo) -> Seq<(Seq<char>, Seq<char>)> {
    seq![
        ("version"@, info.version@),
        ("protocol"@, decimal(info.protocol_version as nat)),
        ("commit"@, info.commit@ + (if info.dirty {
            " (dirty)"@
        } else {
            Seq::empty()
        })),
        ("target"@, info.target@),
        ("host"@, info.host@),
        ("profile"@, info.profile@),
        ("rustc"@, info.rustc@),
        ("built"@, info.built_at@),
    ]
}

/// What `version` prints: one line, or with `verbose` every build detail,
/// the bold key padded to the longest key's width, then the value.
pub open spec fn version_output(info: crate::version::BuildInfo, verbose: bool, enabled: bool) -> Seq<char> {
    if !verbose {
        "chiploom "@ + info.version_text() + "\n"@
    } else {
        let rows = detail_rows(info);
        let width = widest(rows.map_values(|r: (Seq<char>, Seq<char>)| r.0));
        concat(
            rows.map_values(
                |r: (Seq<char>, Seq<char>)| padded(painted(enabled, "1"@, r.0), width) + "  "@ + r.1
                    + "\n"@,
            ),
        )
    }
}

/// Writes build provenance as terminal text.
pub fn version(info: &crate::version::BuildInfo, verbose: bool, palette: Palette) -> (text: String)
    ensures
        text@ == version_output(*info, verbose, palette.colours()),
{
    if !verbose {
        let mut text = info.short_line();
        push_str(&mut text, "\n");
        return text;
    }
    let detailed = info.detailed();
    let ghost rv = detailed@.map_values(|r: (&'static str, String)| (r.0@, r.1@));
    assert(rv =~= detail_rows(*info));
    let ghost labels = rv.map_values(|r: (Seq<char>, Seq<char>)| r.0);
    let mut width: usize = 0;
    let mut i: usize = 0;
    assert(labels.take(0) =~= Seq::<Seq<char>>::empty());
    while i < detailed.len()
        invariant
            i <= detailed.len(),
            rv == detailed@.map_values(|r: (&'static str, String)| (r.0@, r.1@)),
            labels == rv.map_values(|r: (Seq<char>, Seq<char>)| r.0),
            width == widest(labels.take(i as int)),
        decreases detailed.len() - i,
    {
        assert(labels.take(i + 1).drop_last() =~= labels.take(i as int));
        assert(labels.take(i + 1).last() == detailed@[i as int].0@);
        let n = detailed[i].0.unicode_len();
        if n > width {
            width = n;
        }
        i = i + 1;
    }
    assert(labels.take(labels.len() as int) =~= labels);
    let ghost en = palette.colours();
    let ghost f = |r: (Seq<char>, Seq<char>)| padded(painted(en, "1"@, r.0), width as nat) + "  "@ + r.1 + "\n"@;
    let mut text = String::new();
    let ghost start = text@;
    let mut k: usize = 0;
    assert(rv.take(0).map_values(f) =~= Seq::<Seq<char>>::empty());
    while k < detailed.len()
        invariant
            k <= detailed.len(),
            rv == detailed@.map_values(|r: (&'static str, String)| (r.0@, r.1@)),
            en == palette.colours(),
            f == (|r: (Seq<char>, Seq<char>)| padded(painted(en, "1"@, r.0), width as nat) + "  "@ + r.1 + "\n"@),
            text@ == start + concat(rv.take(k as int).map_values(f)),
        decreases detailed.len() - k,
    {
        let ghost before = text@;
        let key = palette.bold(detailed[k].0);
        let key = pad(key.as_str(), width);
        push_str(&mut text, key.as_str());
        push_str(&mut text, "  ");
        push_str(&mut text, detailed[k].1.as_str());
        push_str(&mut text, "\n");
        assert(rv.take(k + 1).map_values(f).drop_last() =~= rv.take(k as int).map_values(f));
        assert(rv.take(k + 1).map_values(f).last() == f(rv[k as int]));
        assert(text@ =~= before + f(rv[k as int]));
        k = k + 1;
    }
    assert(rv.take(detailed.len() as int) =~= rv);
    assert(start =~= Seq::<char>::empty());
    assert(text@ =~= concat(rv.map_values(f)));
    text
}

/// The widest check title.
pub open spec fn title_width(checks: Seq<crate::doctor::Check>) -> nat {
    widest(checks.map_values(|c: crate::doctor::Check| c.title@))
}

/// The width hints are wrapped at: what the terminal leaves after the indent,
/// but never under 40.
pub open spec fn hint_width(terminal: nat, indent: nat) -> nat {
    if terminal > indent && terminal - indent > 40 {
        (terminal - indent) as nat
    } else {
        40
    }
}

/// A hint, wrapped, each line indented and dimmed.
pub open spec fn hint_lines(hint: Seq<char>, enabled: bool, indent: nat, terminal: nat) -> Seq<char> {
    concat(
        wrapped(hint, hint_width(terminal, indent)).map_values(
            |l: Seq<char>| spaces(indent) + painted(enabled, "2"@, l) + "\n"@,
        ),
    )
}

/// One check as the report shows it: its marker, its title padded to
/// `width`, its finding, and its hint indented under it.
pub open spec fn check_lines(c: crate::doctor::Check, enabled: bool, width: nat, terminal: nat) -> Seq<char> {
    "  "@ + status_text(enabled, c.status) + " "@ + padded(c.title@, width) + "  "@ + c.detail@ + "\n"@
        + match c.hint {
        Some(h) => hint_lines(h@, enabled, width + 9, terminal),
        None => Seq::empty(),
    }
}

/// The closing sentence of a report.
pub open spec fn verdict(checks: Seq<crate::doctor::Check>, strict: bool) -> Seq<char> {
    if crate::doctor::any_with(checks, Status::Error) {
        "This machine cannot run Chip Loom correctly yet. Fix the failures above."@
    } else if strict && crate::doctor::any_with(checks, Status::Warn) {
        "No failures, but --strict treats the warnings above as errors."@
    } else if crate::doctor::any_with(checks, Status::Warn) {
        "Ready. The warnings above are safe to ignore for now."@
    } else {
        "Ready."@
    }
}

/// A whole report as terminal text: a heading, one block per check, the
/// counts and the run's duration, and the verdict.
pub open spec fn report_text(r: crate::doctor::Report, enabled: bool, strict: bool, terminal: nat) -> Seq<char> {
    let checks = r.checks@;
    let w = title_width(checks);
    let warn = count(checks, Status::Warn);
    let err = count(checks, Status::Error);
    painted(enabled, "1"@, "Chip Loom diagnostics"@) + "\n"@ + "\n"@ + concat(
        checks.map_values(|c: crate::doctor::Check| check_lines(c, enabled, w, terminal)),
    ) + "\n"@ + "  "@ + decimal(count(checks, Status::Pass)) + " passed, "@ + decimal(warn)
        + " warning"@ + plural_text(warn) + ", "@ + decimal(err) + " failure"@ + plural_text(err)
        + ", "@ + decimal(count(checks, Status::Skipped)) + " skipped   "@ + painted(
        enabled,
        "2"@,
        duration_text(r.duration_ms),
    ) + "\n"@ + "  "@ + verdict(checks, strict) + "\n"@
}

/// `y` stays a suffix of `x` when both are extended by the same `z`.
proof fn lemma_suffix_extend(x: Seq<char>, y: Seq<char>, z: Seq<char>)
    requires
        y.is_suffix_of(x),
    ensures
        (y + z).is_suffix_of(x + z),
{
    assert((y + z) =~= (x + z).subrange((x + z).len() - (y + z).len(), (x + z).len() as int));
}

/// The report ends with its summary line, then the duration and the verdict.
/// The summary gives, in order, how many checks passed, warned, failed and
/// were skipped -- each the number of checks with that status -- with
/// `warning` and `failure` in the plural unless there is exactly one.
pub proof fn the_summary_line_counts_each_status(
    r: crate::doctor::Report,
    enabled: bool,
    strict: bool,
    terminal: nat,
)
    ensures
        ({
            let checks = r.checks@;
            let n = |st: Status| checks.filter(|c: crate::doctor::Check| c.status == st).len();
            let warned: nat = n(Status::Warn);
            let failed: nat = n(Status::Error);
            ("\n"@ + "  "@ + decimal(n(Status::Pass)) + " passed, "@ + decimal(warned) + " warning"@
                + (if warned == 1 {
                Seq::<char>::empty()
            } else {
                "s"@
            }) + ", "@ + decimal(failed) + " failure"@ + (if failed == 1 {
                Seq::<char>::empty()
            } else {
                "s"@
            }) + ", "@ + decimal(n(Status::Skipped)) + " skipped   "@ + painted(
                enabled,
                "2"@,
                duration_text(r.duration_ms),
            ) + "\n"@ + "  "@ + verdict(checks, strict) + "\n"@).is_suffix_of(
                report_text(r, enabled, strict, terminal),
            )
        }),
{
    let checks = r.checks@;
    crate::doctor::count_is_the_number_of_checks_with_that_status(checks, Status::Pass);
    crate::doctor::count_is_the_number_of_checks_with_that_status(checks, Status::Warn);
    crate::doctor::count_is_the_number_of_checks_with_that_status(checks, Status::Error);
    crate::doctor::count_is_the_number_of_checks_with_that_status(checks, Status::Skipped);
    let w: nat = title_width(checks);
    let warn: nat = count(checks, Status::Warn);
    let err: nat = count(checks, Status::Error);
    let zs: Seq<Seq<char>> = seq![
        "\n"@,
        "  "@,
        decimal(count(checks, Status::Pass)),
        " passed, "@,
        decimal(warn),
        " warning"@,
        plural_text(warn),
        ", "@,
        decimal(err),
        " failure"@,
        plural_text(err),
        ", "@,
        decimal(count(checks, Status::Skipped)),
        " skipped   "@,
        painted(enabled, "2"@, duration_text(r.duration_ms)),
        "\n"@,
        "  "@,
        verdict(checks, strict),
        "\n"@
    ];
    let head = painted(enabled, "1"@, "Chip Loom diagnostics"@) + "\n"@ + "\n"@ + concat(
        checks.map_values(|c: crate::doctor::Check| check_lines(c, enabled, w, terminal)),
    );
    let x1 = head + zs[0];
    let y1 = zs[0];
    assert(y1 =~= x1.subrange(x1.len() - y1.len(), x1.len() as int));
    let x2 = x1 + zs[1];
    let y2 = y1 + zs[1];
    lemma_suffix_extend(x1, y1, zs[1]);
    let x3 = x2 + zs[2];
    let y3 = y2 + zs[2];
    lemma_suffix_extend(x2, y2, zs[2]);
    let x4 = x3 + zs[3];
    let y4 = y3 + zs[3];
    lemma_suffix_extend(x3, y3, zs[3]);
    let x5 = x4 + zs[4];
    let y5 = y4 + zs[4];
    lemma_suffix_extend(x4, y4, zs[4]);
    let x6 = x5 + zs[5];
    let y6 = y5 + zs[5];
    lemma_suffix_extend(x5, y5, zs[5]);
    let x7 = x6 + zs[6];
    let y7 = y6 + zs[6];
    lemma_suffix_extend(x6, y6, zs[6]);
    let x8 = x7 + zs[7];
    let y8 = y7 + zs[7];
    lemma_suffix_extend(x7, y7, zs[7]);
    let x9 = x8 + zs[8];
    let y9 = y8 + zs[8];
    lemma_suffix_extend(x8, y8, zs[8]);
    let x10 = x9 + zs[9];
    let y10 = y9 + zs[9];
    lemma_suffix_extend(x9, y9, zs[9]);
    let x11 = x10 + zs[10];
    let y11 = y10 + zs[10];
    lemma_suffix_extend(x10, y10, zs[10]);
    let x12 = x11 + zs[11];
    let y12 = y11 + zs[11];
    lemma_suffix_extend(x11, y11, zs[11]);
    let x13 = x12 + zs[12];
    let y13 = y12 + zs[12];
    lemma_suffix_extend(x12, y12, zs[12]);
    let x14 = x13 + zs[13];
    let y14 = y13 + zs[13];
    lemma_suffix_extend(x13, y13, zs[13]);
    let x15 = x14 + zs[14];
    let y15 = y14 + zs[14];
    lemma_suffix_extend(x14, y14, zs[14]);
    let x16 = x15 + zs[15];
    let y16 = y15 + zs[15];
    lemma_suffix_extend(x15, y15, zs[15]);
    let x17 = x16 + zs[16];
    let y17 = y16 + zs[16];
    lemma_suffix_extend(x16, y16, zs[16]);
    let x18 = x17 + zs[17];
    let y18 = y17 + zs[17];
    lemma_suffix_extend(x17, y17, zs[17]);
    let x19 = x18 + zs[18];
    let y19 = y18 + zs[18];
    lemma_suffix_extend(x18, y18, zs[18]);
    assert(x19 == report_text(r, enabled, strict, terminal));
}

fn push_hint(out: &mut String, hint: &str, palette: Palette, indent: usize, terminal: usize)
    ensures
        final(out)@ == old(out)@ + hint_lines(hint@, palette.colours(), indent as nat, terminal as nat),
{
    let width = if terminal > indent && terminal - indent > 40 {
        terminal - indent
    } else {
        40
    };
    let lines = wrap(hint, width);
    let ghost lv = views(lines@);
    let ghost en = palette.colours();
    let ghost f = |l: Seq<char>| spaces(indent as nat) + painted(en, "2"@, l) + "\n"@;
    let ghost start = out@;
    let mut i: usize = 0;
    assert(lv.take(0).map_values(f) =~= Seq::<Seq<char>>::empty());
    while i < lines.len()
        invariant
            i <= lines.len(),
            lv == views(lines@),
            en == palette.colours(),
            f == (|l: Seq<char>| spaces(indent as nat) + painted(en, "2"@, l) + "\n"@),
            out@ == start + concat(lv.take(i as int).map_values(f)),
        decreases lines.len() - i,
    {
        let ghost before = out@;
        push_spaces(out, indent);
        let d = palette.dim(lines[i].as_str());
        push_str(out, d.as_str());
        push_str(out, "\n");
        assert(lv[i as int] == lines@[i as int]@);
        assert(lv.take(i + 1).map_values(f).drop_last() =~= lv.take(i as int).map_values(f));
        assert(lv.take(i + 1).map_values(f).last() == f(lv[i as int]));
        assert(out@ =~= before + f(lv[i as int]));
        i = i + 1;
    }
    assert(lv.take(lines.len() as int) =~= lv);
}

fn push_check(out: &mut String, c: &crate::doctor::Check, palette: Palette, width: usize, terminal: usize)
    requires
        width + 9 <= usize::MAX,
    ensures
        final(out)@ == old(out)@ + check_lines(*c, palette.colours(), width as nat, terminal as nat),
{
    let ghost start = out@;
    push_str(out, "  ");
    let mark = palette.status(c.status);
    push_str(out, mark.as_str());
    push_str(out, " ");
    let title = pad(c.title, width);
    push_str(out, title.as_str());
    push_str(out, "  ");
    push_str(out, c.detail.as_str());
    push_str(out, "\n");
    let ghost head = out@;
    match &c.hint {
        Some(h) => {
            // Indented under the finding it belongs to, and dimmed, so a clean
            // report stays scannable while a broken one explains itself.
            push_hint(out, h.as_str(), palette, width + 9, terminal);
        },
        None => {
            assert(out@ =~= head + Seq::<char>::empty());
        },
    }
    assert(out@ =~= start + check_lines(*c, palette.colours(), width as nat, terminal as nat));
}

/// Writes a diagnostics report as terminal text, hints wrapped to fit a
/// terminal `terminal` characters wide.
pub fn doctor_report(report: &crate::doctor::Report, palette: Palette, strict: bool, terminal: usize) -> (text: String)
    requires
        title_width(report.checks@) + 9 <= usize::MAX,
    ensures
        text@ == report_text(*report, palette.colours(), strict, terminal as nat),
{
    let ghost checks = report.checks@;
    let ghost titles = checks.map_values(|c: crate::doctor::Check| c.title@);
    let mut width: usize = 0;
    let mut i: usize = 0;
    assert(titles.take(0) =~= Seq::<Seq<char>>::empty());
    while i < report.checks.len()
        invariant
            i <= report.checks.len(),
            checks == report.checks@,
            titles == checks.map_values(|c: crate::doctor::Check| c.title@),
            width == widest(titles.take(i as int)),
        decreases report.checks.len() - i,
    {
        assert(titles.take(i + 1).drop_last() =~= titles.take(i as int));
        assert(titles.take(i + 1).last() == report.checks@[i as int].title@);
        let n = report.checks[i].title.unicode_len();
        if n > width {
            width = n;
        }
        i = i + 1;
    }
    assert(titles.take(titles.len() as int) =~= titles);
    let ghost en = palette.colours();
    let ghost f = |c: crate::doctor::Check| check_lines(c, en, width as nat, terminal as nat);
    let mut text = palette.bold("Chip Loom diagnostics");
    push_str(&mut text, "\n");
    push_str(&mut text, "\n");
    let ghost start = text@;
    let mut k: usize = 0;
    assert(checks.take(0).map_values(f) =~= Seq::<Seq<char>>::empty());
    while k < report.checks.len()
        invariant
            k <= report.checks.len(),
            checks == report.checks@,
            en == palette.colours(),
            width + 9 <= usize::MAX,
            f == (|c: crate::doctor::Check| check_lines(c, en, width as nat, terminal as nat)),
            text@ == start + concat(checks.take(k as int).map_values(f)),
        decreases report.checks.len() - k,
    {
        let ghost before = text@;
        push_check(&mut text, &report.checks[k], palette, width, terminal);
        assert(checks.take(k + 1).map_values(f).drop_last() =~= checks.take(k as int).map_values(f));
        assert(checks.take(k + 1).map_values(f).last() == f(checks[k as int]));
        assert(text@ =~= before + f(checks[k as int]));
        k = k + 1;
    }
    assert(checks.take(checks.len() as int) =~= checks);
    let summary = report.summary();
    push_str(&mut text, "\n");
    push_str(&mut text, "  ");
    push_decimal(&mut text, summary.ok as u64);
    push_str(&mut text, " passed, ");
    push_decimal(&mut text, summary.warn as u64);
    push_str(&mut text, " warning");
    push_str(&mut text, plural(summary.warn));
    push_str(&mut text, ", ");
    push_decimal(&mut text, summary.error as u64);
    push_str(&mut text, " failure");
    push_str(&mut text, plural(summary.error));
    push_str(&mut text, ", ");
    push_decimal(&mut text, summary.skipped as u64);
    push_str(&mut text, " skipped   ");
    let duration = format_duration(report.duration_ms);
    let duration = palette.dim(duration.as_str());
    push_str(&mut text, duration.as_str());
    push_str(&mut text, "\n");
    let verdict = if report.has_errors() {
        "This machine cannot run Chip Loom correctly yet. Fix the failures above."
    } else if strict && report.has_warnings() {
        "No failures, but --strict treats the warnings above as errors."
    } else if report.has_warnings() {
        "Ready. The warnings above are safe to ignore for now."
    } else {
        "Ready."
    };
    push_str(&mut text, "  ");
    push_str(&mut text, verdict);
    push_str(&mut text, "\n");
    text
}

/// The lines of `s` split at each `\n`: those finished, and the one being
/// read.
pub open spec fn split_lines(s: Seq<char>) -> (Seq<Seq<char>>, Seq<char>)
    decreases s.len(),
{
    if s.len() == 0 {
        (Seq::empty(), Seq::empty())
    } else {
        let (ls, cur) = split_lines(s.drop_last());
        if s.last() == '\n' {
            (ls.push(cur), Seq::empty())
        } else {
            (ls, cur.push(s.last()))
        }
    }
}

/// A line without the `\r` of a `\r\n` ending.
pub open spec fn without_cr(l: Seq<char>) -> Seq<char> {
    if l.len() > 0 && l.last() == '\r' {
        l.drop_last()
    } else {
        l
    }
}

/// The lines of `s`, as `str::lines` gives them: split at `\n`, each without a
/// trailing `\r`, and no empty last line after a final line ending.
pub open spec fn text_lines(s: Seq<char>) -> Seq<Seq<char>> {
    let (ls, cur) = split_lines(s);
    let all = if cur.len() > 0 {
        ls.push(cur)
    } else {
        ls
    };
    all.map_values(|l: Seq<char>| without_cr(l))
}

/// Whether a line holds only whitespace.
pub open spec fn is_blank_line(l: Seq<char>) -> bool {
    trim(l).len() == 0
}

/// Whether a line is a TOML table header: its first non-whitespace character
/// is `[`.
pub open spec fn is_header(l: Seq<char>) -> bool {
    trim(l).len() > 0 && trim(l)[0] == '['
}

/// Whether the header at `i` has a key under it: a non-blank line before the
/// next header.
pub open spec fn has_keys(lines: Seq<Seq<char>>, i: int) -> bool {
    exists|j: int|
        i < j < lines.len() && !#[trigger] is_blank_line(lines[j]) && forall|k: int|
            i < k <= j ==> !is_header(#[trigger] lines[k])
}

/// The first `n` lines, without the headers that have no keys.
pub open spec fn kept_lines(lines: Seq<Seq<char>>, n: int) -> Seq<Seq<char>>
    decreases n,
{
    if n <= 0 {
        Seq::empty()
    } else if !is_header(lines[n - 1]) || has_keys(lines, n - 1) {
        kept_lines(lines, n - 1).push(lines[n - 1])
    } else {
        kept_lines(lines, n - 1)
    }
}

/// The lines, each ended with `\n`, with each run of blank lines cut to one
/// and none at the start when `prev_blank`.
pub open spec fn collapsed(ls: Seq<Seq<char>>, prev_blank: bool) -> Seq<char>
    decreases ls.len(),
{
    if ls.len() == 0 {
        Seq::empty()
    } else {
        let b = is_blank_line(ls[0]);
        if b && prev_blank {
            collapsed(ls.drop_first(), true)
        } else {
            ls[0] + "\n"@ + collapsed(ls.drop_first(), b)
        }
    }
}

/// TOML text without the table headers that have no keys under them, and
/// without the blank lines those leave behind.
pub open spec fn stripped(toml: Seq<char>) -> Seq<char> {
    let lines = text_lines(toml);
    collapsed(kept_lines(lines, lines.len() as int), true)
}

fn line_is_blank(l: &Vec<char>) -> (b: bool)
    ensures
        b == is_blank_line(l@),
{
    let (a, z) = crate::text::trim_bounds(l);
    a == z
}

fn line_is_header(l: &Vec<char>) -> (b: bool)
    ensures
        b == is_header(l@),
{
    let (a, z) = crate::text::trim_bounds(l);
    if a < z {
        assert(trim(l@)[0] == l@[a as int]);
        l[a] == '['
    } else {
        false
    }
}

fn split_text(text: &str) -> (lines: Vec<Vec<char>>)
    ensures
        lines@.map_values(|l: Vec<char>| l@) == text_lines(text@),
{
    let chars = chars_of(text);
    let mut ls: Vec<Vec<char>> = Vec::new();
    let mut cur: Vec<char> = Vec::new();
    let mut i: usize = 0;
    assert(chars@.take(0) =~= Seq::<char>::empty());
    while i < chars.len()
        invariant
            i <= chars.len(),
            ls@.map_values(|l: Vec<char>| l@) == split_lines(chars@.take(i as int)).0,
            cur@ == split_lines(chars@.take(i as int)).1,
        decreases chars.len() - i,
    {
        assert(chars@.take(i + 1).drop_last() =~= chars@.take(i as int));
        assert(chars@.take(i + 1).last() == chars@[i as int]);
        if chars[i] == '\n' {
            let ghost before = ls@;
            let line = cur;
            ls.push(line);
            cur = Vec::new();
            assert(ls@.map_values(|l: Vec<char>| l@) =~= before.map_values(|l: Vec<char>| l@).push(line@));
        } else {
            cur.push(chars[i]);
        }
        i = i + 1;
    }
    assert(chars@.take(chars.len() as int) =~= chars@);
    if cur.len() > 0 {
        let ghost before = ls@;
        let line = cur;
        ls.push(line);
        assert(ls@.map_values(|l: Vec<char>| l@) =~= before.map_values(|l: Vec<char>| l@).push(line@));
    }
    let ghost all = ls@.map_values(|l: Vec<char>| l@);
    let mut out: Vec<Vec<char>> = Vec::new();
    let mut k: usize = 0;
    while k < ls.len()
        invariant
            k <= ls.len(),
            all == ls@.map_values(|l: Vec<char>| l@),
            out@.map_values(|l: Vec<char>| l@) == all.take(k as int).map_values(|l: Seq<char>| without_cr(l)),
        decreases ls.len() - k,
    {
        let l = &ls[k];
        let mut line = copy_chars(l);
        if line.len() > 0 && line[line.len() - 1] == '\r' {
            line.pop();
        }
        assert(line@ == without_cr(all[k as int]));
        let ghost before = out@;
        out.push(line);
        assert(out@.map_values(|l: Vec<char>| l@) =~= before.map_values(|l: Vec<char>| l@).push(line@));
        assert(all.take(k + 1).map_values(|l: Seq<char>| without_cr(l)) =~= all.take(k as int).map_values(
            |l: Seq<char>| without_cr(l),
        ).push(without_cr(all[k as int])));
        k = k + 1;
    }
    assert(all.take(ls.len() as int) =~= all);
    out
}

fn header_has_keys(lines: &Vec<Vec<char>>, i: usize) -> (b: bool)
    requires
        i < lines.len(),
    ensures
        b == has_keys(lines@.map_values(|l: Vec<char>| l@), i as int),
{
    let ghost lv = lines@.map_values(|l: Vec<char>| l@);
    let mut j = i + 1;
    while j < lines.len() && !line_is_header(&lines[j])
        invariant
            i < j <= lines.len(),
            lv == lines@.map_values(|l: Vec<char>| l@),
            forall|k: int| i < k < j ==> !is_header(#[trigger] lv[k]) && is_blank_line(lv[k]),
        decreases lines.len() - j,
    {
        assert(lv[j as int] == lines@[j as int]@);
        if !line_is_blank(&lines[j]) {
            assert(forall|k: int| i < k <= j ==> !is_header(#[trigger] lv[k]));
            assert(!is_blank_line(lv[j as int]));
            return true;
        }
        j = j + 1;
    }
    proof {
        if j < lines.len() {
            assert(lv[j as int] == lines@[j as int]@);
        }
        if has_keys(lv, i as int) {
            let w = choose|w: int|
                i < w < lv.len() && !#[trigger] is_blank_line(lv[w]) && forall|k: int|
                    i < k <= w ==> !is_header(#[trigger] lv[k]);
            if w < j {
                assert(is_blank_line(lv[w]));
            } else {
                assert(!is_header(lv[j as int]));
            }
        }
    }
    false
}

/// Drops table headers that ended up with no keys under them.
///
/// A section whose every value is unset serializes to a bare header. Valid
/// TOML, but it reads as though something is missing, so it is removed, with
/// the blank lines it leaves behind.
pub fn strip_empty_tables(toml: &str) -> (out: String)
    ensures
        out@ == stripped(toml@),
{
    let lines = split_text(toml);
    let ghost lv = lines@.map_values(|l: Vec<char>| l@);
    let mut kept: Vec<Vec<char>> = Vec::new();
    let mut i: usize = 0;
    while i < lines.len()
        invariant
            i <= lines.len(),
            lv == lines@.map_values(|l: Vec<char>| l@),
            kept@.map_values(|l: Vec<char>| l@) == kept_lines(lv, i as int),
        decreases lines.len() - i,
    {
        assert(lv[i as int] == lines@[i as int]@);
        if !line_is_header(&lines[i]) || header_has_keys(&lines, i) {
            let ghost before = kept@;
            let line = copy_chars(&lines[i]);
            kept.push(line);
            assert(kept@.map_values(|l: Vec<char>| l@) =~= before.map_values(|l: Vec<char>| l@).push(line@));
        }
        i = i + 1;
    }
    let ghost kv = kept@.map_values(|l: Vec<char>| l@);
    let mut out = String::new();
    let mut previous_blank = true;
    let mut k: usize = 0;
    assert(kv.skip(0) =~= kv);
    assert(out@ + collapsed(kv.skip(0), true) =~= collapsed(kv, true));
    while k < kept.len()
        invariant
            k <= kept.len(),
            kv == kept@.map_values(|l: Vec<char>| l@),
            out@ + collapsed(kv.skip(k as int), previous_blank) == collapsed(kv, true),
        decreases kept.len() - k,
    {
        assert(kv.skip(k as int).drop_first() =~= kv.skip(k + 1));
        assert(kv.skip(k as int)[0] == kept@[k as int]@);
        let blank = line_is_blank(&kept[k]);
        if blank && previous_blank {
        } else {
            let ghost before = out@;
            push_chars(&mut out, &kept[k], 0, kept[k].len());
            push_str(&mut out, "\n");
            assert(kept@[k as int]@.subrange(0, kept@[k as int]@.len() as int) =~= kept@[k as int]@);
            assert(out@ =~= before + (kv.skip(k as int)[0] + "\n"@));
            previous_blank = blank;
        }
        k = k + 1;
    }
    assert(kv.skip(kept.len() as int) =~= Seq::<Seq<char>>::empty());
    assert(out@ + Seq::<char>::empty() =~= out@);
    out
}

/// What `config show` prints: the configuration's TOML without empty
/// tables, then, when asked, every layer as a TOML comment.
pub open spec fn show_text(toml: Seq<char>, l: LoadedView, with_sources: bool, enabled: bool) -> Seq<char> {
    stripped(toml) + if with_sources {
        "\n"@ + painted(enabled, "1"@, "# layers, lowest precedence first"@) + "\n"@ + concat(
            l.sources.map_values(|s: SourceView| "#   "@ + painted(enabled, "2"@, layer_text(s)) + "\n"@),
        )
    } else {
        Seq::empty()
    }
}

/// Writes the effective configuration, given as TOML, optionally with the
/// layers it came from.
///
/// TOML rather than an invented layout: the output can be pasted straight
/// into a `chiploom.toml`.
pub fn config_show(toml: &str, loaded: &Loaded, with_sources: bool, palette: Palette) -> (text: String)
    ensures
        text@ == show_text(toml@, loaded@, with_sources, palette.colours()),
{
    let mut text = strip_empty_tables(toml);
    if !with_sources {
        assert(text@ + Seq::<char>::empty() =~= text@);
        return text;
    }
    push_str(&mut text, "\n");
    let heading = palette.bold("# layers, lowest precedence first");
    push_str(&mut text, heading.as_str());
    push_str(&mut text, "\n");
    let ghost en = palette.colours();
    let ghost sv = loaded.sources@.map_values(|s: Source| s@);
    let ghost f = |s: SourceView| "#   "@ + painted(en, "2"@, layer_text(s)) + "\n"@;
    let ghost start = text@;
    let mut i: usize = 0;
    assert(sv.take(0).map_values(f) =~= Seq::<Seq<char>>::empty());
    while i < loaded.sources.len()
        invariant
            i <= loaded.sources.len(),
            sv == loaded.sources@.map_values(|s: Source| s@),
            en == palette.colours(),
            f == (|s: SourceView| "#   "@ + painted(en, "2"@, layer_text(s)) + "\n"@),
            text@ == start + concat(sv.take(i as int).map_values(f)),
        decreases loaded.sources.len() - i,
    {
        let ghost before = text@;
        push_str(&mut text, "#   ");
        let d = describe_source(&loaded.sources[i]);
        let d = palette.dim(d.as_str());
        push_str(&mut text, d.as_str());
        push_str(&mut text, "\n");
        assert(sv.take(i + 1).map_values(f).drop_last() =~= sv.take(i as int).map_values(f));
        assert(sv.take(i + 1).map_values(f).last() == f(loaded.sources@[i as int]@));
        assert(text@ =~= before + f(loaded.sources@[i as int]@));
        i = i + 1;
    }
    assert(sv.take(sv.len() as int) =~= sv);
    text
}

} // verus!
