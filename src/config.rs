//! The settings record and the line-by-line parser that fills it.
//!
//! Parsing never fails: a line that cannot be read or understood leaves the
//! settings as they were and yields a warning that names its line number.

use vstd::prelude::*;
use crate::line::{assignment_line, classify, classify_line, lemma_assignment_line, Key, Line, LineView};
use crate::text::{is_trimmed, trim, trim_spec};
use crate::value::{
    decimal_text, digits_of, lemma_digits_of, lemma_i32_decimal, lemma_u32_decimal, i32_of, lower_of, parse_i32, parse_u32, read_bool, truthy_word, u32_of};

verus! {

/// The settings of the tool, with every field defaulted.
pub struct CFG {
    /// Command used to open files.
    pub editor: String,
    /// Repository of the system configuration; stored only.
    pub git: String,
    /// Whether the process runs with superuser rights; never read from the file.
    pub issu: bool,
    /// Generations retained on cleanup.
    pub keep: i32,
    /// `(name, command)` shortcuts in file order, duplicates kept.
    pub alias: Vec<(String, String)>,
    pub system_flake: Option<String>,
    pub rebuild_flags: Option<String>,
    pub channel: Option<String>,
    pub auto_gc: bool,
    /// Age in days before garbage is collected; callers default it to a week.
    pub gc_age_days: Option<u32>,
    pub formatter: Option<String>,
    pub auto_fmt: bool,
}

/// The settings as values.
pub struct CfgView {
    pub editor: Seq<char>,
    pub git: Seq<char>,
    pub issu: bool,
    pub keep: i32,
    pub alias: Seq<(Seq<char>, Seq<char>)>,
    pub system_flake: Option<Seq<char>>,
    pub rebuild_flags: Option<Seq<char>>,
    pub channel: Option<Seq<char>>,
    pub auto_gc: bool,
    pub gc_age_days: Option<u32>,
    pub formatter: Option<Seq<char>>,
    pub auto_fmt: bool,
}

/// The view of an optional string.
pub open spec fn opt_chars(o: Option<String>) -> Option<Seq<char>> {
    match o {
        Some(s) => Some(s@),
        None => None,
    }
}

/// The view of a list of `(name, command)` pairs.
pub open spec fn pairs_view(v: Seq<(String, String)>) -> Seq<(Seq<char>, Seq<char>)> {
    Seq::new(v.len(), |i: int| (v[i].0@, v[i].1@))
}

impl View for CFG {
    type V = CfgView;

    open spec fn view(&self) -> CfgView {
        CfgView {
            editor: self.editor@,
            git: self.git@,
            issu: self.issu,
            keep: self.keep,
            alias: pairs_view(self.alias@),
            system_flake: opt_chars(self.system_flake),
            rebuild_flags: opt_chars(self.rebuild_flags),
            channel: opt_chars(self.channel),
            auto_gc: self.auto_gc,
            gc_age_days: self.gc_age_days,
            formatter: opt_chars(self.formatter),
            auto_fmt: self.auto_fmt,
        }
    }
}

/// The settings before any line is read: editor `nano`, no repository,
/// five generations kept, no aliases, every option absent and every switch off.
pub open spec fn default_view() -> CfgView {
    CfgView {
        editor: seq!['n', 'a', 'n', 'o'],
        git: Seq::empty(),
        issu: false,
        keep: 5,
        alias: Seq::empty(),
        system_flake: None,
        rebuild_flags: None,
        channel: None,
        auto_gc: false,
        gc_age_days: None,
        formatter: None,
        auto_fmt: false,
    }
}

/// A non-blank value, or the field as it was.
pub open spec fn set_if_present(old: Option<Seq<char>>, v: Seq<char>) -> Option<Seq<char>> {
    if v.len() > 0 {
        Some(v)
    } else {
        old
    }
}

/// The settings once a line saying `l` has been read.
pub open spec fn apply_line(c: CfgView, l: LineView) -> CfgView {
    match l {
        LineView::Alias(name, cmd) => CfgView { alias: c.alias.push((name, cmd)), ..c },
        LineView::Assign(k, v) => match k {
            Key::Editor => CfgView { editor: v, ..c },
            Key::Git => CfgView { git: v, ..c },
            Key::Keep => match i32_of(v) {
                Some(n) => CfgView { keep: n, ..c },
                None => c,
            },
            Key::SystemFlake => CfgView { system_flake: set_if_present(c.system_flake, v), ..c },
            Key::RebuildFlags => CfgView {
                rebuild_flags: set_if_present(c.rebuild_flags, v),
                ..c
            },
            Key::Channel => CfgView { channel: set_if_present(c.channel, v), ..c },
            Key::AutoGc => CfgView { auto_gc: truthy_word(lower_of(v)), ..c },
            Key::GcAgeDays => match u32_of(v) {
                Some(n) => CfgView { gc_age_days: Some(n), ..c },
                None => c,
            },
            Key::Formatter => CfgView { formatter: set_if_present(c.formatter, v), ..c },
            Key::AutoFmt => CfgView { auto_fmt: truthy_word(lower_of(v)), ..c },
        },
        _ => c,
    }
}

/// What a warning is about.
#[derive(Clone, Copy, Debug, PartialEq, Eq, Structural)]
pub enum WarningKind {
    /// The line could not be read as text.
    Unreadable,
    /// An `alias` line without `=`.
    InvalidAlias,
    /// A line opening with the key but without `=`.
    InvalidSyntax(Key),
    /// A number that does not fit the key's type.
    InvalidValue(Key),
    /// A line that opens with no recognized word.
    Unrecognized,
}

/// A problem with one line; the line is otherwise ignored.
pub struct Warning {
    /// Line number, counted from one.
    pub line: usize,
    pub kind: WarningKind,
    /// The trimmed line; empty for a line that could not be read.
    pub content: String,
}

/// A warning as values.
pub struct WarningView {
    pub line: int,
    pub kind: WarningKind,
    pub content: Seq<char>,
}

impl View for Warning {
    type V = WarningView;

    open spec fn view(&self) -> WarningView {
        WarningView { line: self.line as int, kind: self.kind, content: self.content@ }
    }
}

/// The warning a readable line saying `l` gives, if any.
pub open spec fn line_warning_kind(l: LineView) -> Option<WarningKind> {
    match l {
        LineView::BadAlias => Some(WarningKind::InvalidAlias),
        LineView::BadSyntax(k) => Some(WarningKind::InvalidSyntax(k)),
        LineView::Unrecognized => Some(WarningKind::Unrecognized),
        LineView::Assign(Key::Keep, v) => if i32_of(v) is None {
            Some(WarningKind::InvalidValue(Key::Keep))
        } else {
            None
        },
        LineView::Assign(Key::GcAgeDays, v) => if u32_of(v) is None {
            Some(WarningKind::InvalidValue(Key::GcAgeDays))
        } else {
            None
        },
        _ => None,
    }
}

/// The warning that line number `n` gives; `None` stands for a line that
/// could not be read.
pub open spec fn warning_at(n: int, line: Option<Seq<char>>) -> Option<WarningView> {
    match line {
        None => Some(WarningView { line: n, kind: WarningKind::Unreadable, content: Seq::empty() }),
        Some(s) => match line_warning_kind(classify(s)) {
            Some(k) => Some(WarningView { line: n, kind: k, content: trim_spec(s) }),
            None => None,
        },
    }
}

/// The settings after reading `lines` in order, from the defaults.
pub open spec fn parse_spec(lines: Seq<Option<Seq<char>>>) -> CfgView
    decreases lines.len(),
{
    if lines.len() == 0 {
        default_view()
    } else {
        let c = parse_spec(lines.drop_last());
        match lines.last() {
            Some(s) => apply_line(c, classify(s)),
            None => c,
        }
    }
}

/// The warnings that `lines` give, in line order.
pub open spec fn warnings_spec(lines: Seq<Option<Seq<char>>>) -> Seq<WarningView>
    decreases lines.len(),
{
    if lines.len() == 0 {
        Seq::empty()
    } else {
        let w = warnings_spec(lines.drop_last());
        match warning_at(lines.len() as int, lines.last()) {
            Some(x) => w.push(x),
            None => w,
        }
    }
}

/// The lines of a file as values; `None` for one that could not be read.
pub open spec fn lines_view(lines: Seq<Option<String>>) -> Seq<Option<Seq<char>>> {
    Seq::new(lines.len(), |i: int| opt_chars(lines[i]))
}

/// A list of warnings as values.
pub open spec fn warnings_view(ws: Seq<Warning>) -> Seq<WarningView> {
    Seq::new(ws.len(), |i: int| ws[i]@)
}

/// A line that cannot be read, or that gives a warning, leaves the settings
/// as the lines before it made them, and adds exactly one warning, which
/// carries its line number.
pub proof fn lemma_bad_line_keeps_settings(pre: Seq<Option<Seq<char>>>, line: Option<Seq<char>>)
    requires
        match line {
            Some(s) => line_warning_kind(classify(s)) is Some,
            None => true,
        },
    ensures
        parse_spec(pre.push(line)) == parse_spec(pre),
        warnings_spec(pre.push(line)).len() == warnings_spec(pre).len() + 1,
        warnings_spec(pre.push(line)).last().line == pre.len() + 1,
{
    assert(pre.push(line).drop_last() =~= pre);
}

/// A file made only of blank lines and comments reads as an empty file: the
/// defaults, and no warning.
pub proof fn lemma_blank_file_is_empty_file(lines: Seq<Option<Seq<char>>>)
    requires
        forall|i: int|
            0 <= i < lines.len() ==> #[trigger] lines[i] is Some && classify(lines[i]->0)
                == LineView::Blank,
    ensures
        parse_spec(lines) == parse_spec(Seq::empty()),
        warnings_spec(lines) == warnings_spec(Seq::empty()),
    decreases lines.len(),
{
    if lines.len() > 0 {
        let pre = lines.drop_last();
        assert forall|i: int| 0 <= i < pre.len() implies #[trigger] pre[i] is Some && classify(
            pre[i]->0,
        ) == LineView::Blank by {
            assert(pre[i] == lines[i]);
        }
        lemma_blank_file_is_empty_file(pre);
        assert(lines[lines.len() - 1] is Some);
    }
}

/// Each `alias` line appends its pair after those of the lines before it;
/// a name already used is kept, not replaced.
pub proof fn lemma_alias_appends(pre: Seq<Option<Seq<char>>>, s: Seq<char>, name: Seq<char>, cmd: Seq<char>)
    requires
        classify(s) == LineView::Alias(name, cmd),
    ensures
        parse_spec(pre.push(Some(s))).alias == parse_spec(pre).alias.push((name, cmd)),
        warnings_spec(pre.push(Some(s))) == warnings_spec(pre),
{
    assert(pre.push(Some(s)).drop_last() =~= pre);
}

/// A value with a leading `-` never reads as an unsigned number: such a
/// `GC_AGE_DAYS` line leaves the age as it was and gives a warning.
pub proof fn lemma_negative_age_rejected(pre: Seq<Option<Seq<char>>>, s: Seq<char>, v: Seq<char>)
    requires
        classify(s) == LineView::Assign(Key::GcAgeDays, v),
        v.len() > 0,
        v[0] == '-',
    ensures
        u32_of(v) is None,
        parse_spec(pre.push(Some(s))) == parse_spec(pre),
        warnings_spec(pre.push(Some(s))).last().kind == WarningKind::InvalidValue(Key::GcAgeDays),
{
    assert(!crate::value::is_digit(v[0]));
    assert(pre.push(Some(s)).drop_last() =~= pre);
}

/// What one setting holds, whatever its type.
pub enum Setting {
    Text(Seq<char>),
    Number(int),
    Flag(bool),
    Absent,
}

/// What the settings `c` hold for the key `k`.
pub open spec fn setting_of(c: CfgView, k: Key) -> Setting {
    let text = |o: Option<Seq<char>>| match o {
        Some(x) => Setting::Text(x),
        None => Setting::Absent,
    };
    match k {
        Key::Editor => Setting::Text(c.editor),
        Key::Git => Setting::Text(c.git),
        Key::Keep => Setting::Number(c.keep as int),
        Key::SystemFlake => text(c.system_flake),
        Key::RebuildFlags => text(c.rebuild_flags),
        Key::Channel => text(c.channel),
        Key::AutoGc => Setting::Flag(c.auto_gc),
        Key::GcAgeDays => match c.gc_age_days {
            Some(n) => Setting::Number(n as int),
            None => Setting::Absent,
        },
        Key::Formatter => text(c.formatter),
        Key::AutoFmt => Setting::Flag(c.auto_fmt),
    }
}

/// Whether `v` is a value the key `k` accepts as written: no surrounding
/// whitespace, a number of the key's type for a numeric key, and not blank
/// for an optional one.
pub open spec fn well_formed_value(k: Key, v: Seq<char>) -> bool {
    is_trimmed(v) && match k {
        Key::Keep => i32_of(v) is Some,
        Key::GcAgeDays => u32_of(v) is Some,
        Key::SystemFlake | Key::RebuildFlags | Key::Channel | Key::Formatter => v.len() > 0,
        _ => true,
    }
}

/// What the value `v` stands for under the key `k`.
pub open spec fn typed_value(k: Key, v: Seq<char>) -> Setting {
    match k {
        Key::Keep => Setting::Number(i32_of(v).unwrap() as int),
        Key::GcAgeDays => Setting::Number(u32_of(v).unwrap() as int),
        Key::AutoGc | Key::AutoFmt => Setting::Flag(truthy_word(lower_of(v))),
        _ => Setting::Text(v),
    }
}

/// A well-formed line `KEY = value`, after any lines, sets that key to what
/// the value stands for, leaves every other setting as it was, and gives no
/// warning.
pub proof fn lemma_round_trip(pre: Seq<Option<Seq<char>>>, k: Key, v: Seq<char>)
    requires
        well_formed_value(k, v),
    ensures
        setting_of(parse_spec(pre.push(Some(assignment_line(k, v)))), k) == typed_value(k, v),
        forall|j: Key|
            j != k ==> setting_of(parse_spec(pre.push(Some(assignment_line(k, v)))), j)
                == setting_of(parse_spec(pre), j),
        parse_spec(pre.push(Some(assignment_line(k, v)))).alias == parse_spec(pre).alias,
        warnings_spec(pre.push(Some(assignment_line(k, v)))) == warnings_spec(pre),
{
    lemma_assignment_line(k, v);
    assert(pre.push(Some(assignment_line(k, v))).drop_last() =~= pre);
}

/// Parsing never grants superuser rights: whatever the lines say, the
/// parsed settings have `issu` off.
pub proof fn lemma_parse_leaves_issu_off(lines: Seq<Option<Seq<char>>>)
    ensures
        !parse_spec(lines).issu,
    decreases lines.len(),
{
    if lines.len() > 0 {
        lemma_parse_leaves_issu_off(lines.drop_last());
    }
}

/// Numbers round-trip exactly: `KEEP = <n>` with `n` written in decimal
/// reads back `n`, and so does `GC_AGE_DAYS = <n>`.
pub proof fn lemma_number_round_trip(pre: Seq<Option<Seq<char>>>, keep: i32, days: u32)
    ensures
        parse_spec(pre.push(Some(assignment_line(Key::Keep, decimal_text(keep as int))))).keep
            == keep,
        parse_spec(
            pre.push(Some(assignment_line(Key::GcAgeDays, decimal_text(days as int)))),
        ).gc_age_days == Some(days),
{
    let k = decimal_text(keep as int);
    let d = decimal_text(days as int);
    if keep < 0 {
        lemma_digits_of((-keep) as nat);
        assert(k.last() == digits_of((-keep) as nat).last());
    } else {
        lemma_digits_of(keep as nat);
    }
    lemma_digits_of(days as nat);
    lemma_i32_decimal(keep);
    lemma_u32_decimal(days);
    lemma_round_trip(pre, Key::Keep, k);
    lemma_round_trip(pre, Key::GcAgeDays, d);
}

impl CFG {
    /// The settings before any line is read.
    pub fn defaults() -> (r: CFG)
        ensures
            r@ == default_view(),
    {
        let editor = String::from_str("nano");
        proof {
            reveal_strlit("nano");
        }
        let r = CFG {
            editor,
            git: String::new(),
            issu: false,
            keep: 5,
            alias: Vec::new(),
            system_flake: None,
            rebuild_flags: None,
            channel: None,
            auto_gc: false,
            gc_age_days: None,
            formatter: None,
            auto_fmt: false,
        };
        assert(r@.editor =~= default_view().editor);
        assert(r@.alias =~= default_view().alias);
        r
    }

    /// Reads the lines of a settings file in order, from the defaults; `None`
    /// stands for a line that could not be read as text. Every line that cannot
    /// be read or understood leaves the settings as they were and gives one
    /// warning; the settings and the warnings are always returned.
    pub fn parse(lines: &Vec<Option<String>>) -> (r: (CFG, Vec<Warning>))
        ensures
            r.0@ == parse_spec(lines_view(lines@)),
            warnings_view(r.1@) == warnings_spec(lines_view(lines@)),
    {
        let ghost lv = lines_view(lines@);
        let mut cfg = CFG::defaults();
        let mut ws: Vec<Warning> = Vec::new();
        let mut i: usize = 0;
        assert(lv.take(0) =~= Seq::<Option<Seq<char>>>::empty());
        assert(warnings_view(ws@) =~= Seq::<WarningView>::empty());
        while i < lines.len()
            invariant
                i <= lines@.len(),
                lv == lines_view(lines@),
                cfg@ == parse_spec(lv.take(i as int)),
                warnings_view(ws@) == warnings_spec(lv.take(i as int)),
            decreases lines@.len() - i,
        {
            assert(lv.take(i + 1).drop_last() =~= lv.take(i as int));
            assert(lv.take(i + 1).last() == opt_chars(lines@[i as int]));
            let ghost before = ws@;
            match &lines[i] {
                Some(text) => {
                    let l = classify_line(text.as_str());
                    match cfg.apply(l) {
                        Some(kind) => {
                            let content = trim(text.as_str());
                            ws.push(Warning { line: i + 1, kind, content });
                            assert(warnings_view(ws@) =~= warnings_view(before).push(ws@.last()@));
                        },
                        None => {},
                    }
                },
                None => {
                    ws.push(Warning { line: i + 1, kind: WarningKind::Unreadable, content: String::new() });
                    assert(warnings_view(ws@) =~= warnings_view(before).push(ws@.last()@));
                },
            }
            i = i + 1;
        }
        assert(lv.take(lines@.len() as int) =~= lv);
        (cfg, ws)
    }

    /// Takes in what one readable line says; returns the warning it gives.
    pub fn apply(&mut self, l: Line) -> (w: Option<WarningKind>)
        ensures
            final(self)@ == apply_line(old(self)@, l@),
            w == line_warning_kind(l@),
    {
        match l {
            Line::Alias(name, cmd) => {
                let ghost pair = (name@, cmd@);
                self.alias.push((name, cmd));
                assert(pairs_view(self.alias@) =~= pairs_view(old(self).alias@).push(pair));
                None
            },
            Line::Assign(k, v) => match k {
                Key::Editor => {
                    self.editor = v;
                    None
                },
                Key::Git => {
                    self.git = v;
                    None
                },
                Key::Keep => match parse_i32(v.as_str()) {
                    Some(n) => {
                        self.keep = n;
                        None
                    },
                    None => Some(WarningKind::InvalidValue(Key::Keep)),
                },
                Key::SystemFlake => {
                    if !v.as_str().is_empty() {
                        self.system_flake = Some(v);
                    }
                    None
                },
                Key::RebuildFlags => {
                    if !v.as_str().is_empty() {
                        self.rebuild_flags = Some(v);
                    }
                    None
                },
                Key::Channel => {
                    if !v.as_str().is_empty() {
                        self.channel = Some(v);
                    }
                    None
                },
                Key::AutoGc => {
                    self.auto_gc = read_bool(v.as_str());
                    None
                },
                Key::GcAgeDays => match parse_u32(v.as_str()) {
                    Some(n) => {
                        self.gc_age_days = Some(n);
                        None
                    },
                    None => Some(WarningKind::InvalidValue(Key::GcAgeDays)),
                },
                Key::Formatter => {
                    if !v.as_str().is_empty() {
                        self.formatter = Some(v);
                    }
                    None
                },
                Key::AutoFmt => {
                    self.auto_fmt = read_bool(v.as_str());
                    None
                },
            },
            Line::BadAlias => Some(WarningKind::InvalidAlias),
            Line::BadSyntax(k) => Some(WarningKind::InvalidSyntax(k)),
            Line::Unrecognized => Some(WarningKind::Unrecognized),
            Line::Blank => None,
        }
    }
}

} // verus!
