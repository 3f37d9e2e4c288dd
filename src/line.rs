//! Classification of one line of the settings file.

use vstd::prelude::*;
use crate::text::{
    chars_of, is_whitespace, is_trimmed, lemma_trim_blank, lemma_trim_exact, eq_pos, find_eq, has_prefix, is_space, starts_with_at, trim_bounds, trim_range,
    trim_spec,
};

verus! {

/// A recognized setting name, in the order in which lines are matched against them.
#[derive(Clone, Copy, Debug, PartialEq, Eq, Structural)]
pub enum Key {
    Editor,
    Git,
    Keep,
    SystemFlake,
    RebuildFlags,
    Channel,
    AutoGc,
    GcAgeDays,
    Formatter,
    AutoFmt,
}

/// Number of recognized setting names.
pub const KEY_COUNT: usize = 10;

/// The `i`-th key in matching order.
pub open spec fn key_at(i: int) -> Key {
    if i <= 0 {
        Key::Editor
    } else if i == 1 {
        Key::Git
    } else if i == 2 {
        Key::Keep
    } else if i == 3 {
        Key::SystemFlake
    } else if i == 4 {
        Key::RebuildFlags
    } else if i == 5 {
        Key::Channel
    } else if i == 6 {
        Key::AutoGc
    } else if i == 7 {
        Key::GcAgeDays
    } else if i == 8 {
        Key::Formatter
    } else {
        Key::AutoFmt
    }
}

/// The name of a key as it is written in the file.
pub open spec fn key_name(k: Key) -> Seq<char> {
    match k {
        Key::Editor => seq!['E', 'D', 'I', 'T', 'O', 'R'],
        Key::Git => seq!['G', 'I', 'T'],
        Key::Keep => seq!['K', 'E', 'E', 'P'],
        Key::SystemFlake => seq!['S', 'Y', 'S', 'T', 'E', 'M', '_', 'F', 'L', 'A', 'K', 'E'],
        Key::RebuildFlags => seq!['R', 'E', 'B', 'U', 'I', 'L', 'D', '_', 'F', 'L', 'A', 'G', 'S'],
        Key::Channel => seq!['C', 'H', 'A', 'N', 'N', 'E', 'L'],
        Key::AutoGc => seq!['A', 'U', 'T', 'O', '_', 'G', 'C'],
        Key::GcAgeDays => seq!['G', 'C', '_', 'A', 'G', 'E', '_', 'D', 'A', 'Y', 'S'],
        Key::Formatter => seq!['F', 'O', 'R', 'M', 'A', 'T', 'T', 'E', 'R'],
        Key::AutoFmt => seq!['A', 'U', 'T', 'O', '_', 'F', 'M', 'T'],
    }
}

/// The word that opens an alias line.
pub open spec fn alias_word() -> Seq<char> {
    seq!['a', 'l', 'i', 'a', 's']
}

/// The `i`-th key in matching order.
pub fn key_at_index(i: usize) -> (k: Key)
    requires
        i < KEY_COUNT,
    ensures
        k == key_at(i as int),
{
    match i {
        0 => Key::Editor,
        1 => Key::Git,
        2 => Key::Keep,
        3 => Key::SystemFlake,
        4 => Key::RebuildFlags,
        5 => Key::Channel,
        6 => Key::AutoGc,
        7 => Key::GcAgeDays,
        8 => Key::Formatter,
        _ => Key::AutoFmt,
    }
}

impl Key {
    /// The name of the key as it is written in the file.
    pub fn name(&self) -> (r: &'static str)
        ensures
            r@ == key_name(*self),
    {
        let r = match self {
            Key::Editor => "EDITOR",
            Key::Git => "GIT",
            Key::Keep => "KEEP",
            Key::SystemFlake => "SYSTEM_FLAKE",
            Key::RebuildFlags => "REBUILD_FLAGS",
            Key::Channel => "CHANNEL",
            Key::AutoGc => "AUTO_GC",
            Key::GcAgeDays => "GC_AGE_DAYS",
            Key::Formatter => "FORMATTER",
            Key::AutoFmt => "AUTO_FMT",
        };
        proof {
            reveal_strlit("EDITOR");
            reveal_strlit("GIT");
            reveal_strlit("KEEP");
            reveal_strlit("SYSTEM_FLAKE");
            reveal_strlit("REBUILD_FLAGS");
            reveal_strlit("CHANNEL");
            reveal_strlit("AUTO_GC");
            reveal_strlit("GC_AGE_DAYS");
            reveal_strlit("FORMATTER");
            reveal_strlit("AUTO_FMT");
        }
        assert(r@ =~= key_name(*self));
        r
    }
}

/// The first key, from the `i`-th on in matching order, whose name begins `t`.
pub open spec fn first_key(t: Seq<char>, i: int) -> Option<Key>
    decreases KEY_COUNT - i,
{
    if i < 0 || i >= KEY_COUNT {
        None
    } else if has_prefix(t, key_name(key_at(i))) {
        Some(key_at(i))
    } else {
        first_key(t, i + 1)
    }
}

/// Whether a trimmed line opens with the word `alias` standing on its own.
pub open spec fn is_alias_line(t: Seq<char>) -> bool {
    has_prefix(t, alias_word()) && (t.len() == alias_word().len() || is_space(
        t[alias_word().len() as int],
    ))
}

/// What one line of the file says, as values.
pub enum LineView {
    Blank,
    Alias(Seq<char>, Seq<char>),
    BadAlias,
    Assign(Key, Seq<char>),
    BadSyntax(Key),
    Unrecognized,
}

/// What one line of the file says.
pub enum Line {
    /// An empty line or a comment.
    Blank,
    /// `alias <name> = <command>`.
    Alias(String, String),
    /// A line opening with `alias` but holding no `=`.
    BadAlias,
    /// `<KEY> = <value>`, with the value trimmed.
    Assign(Key, String),
    /// A line opening with a key name but holding no `=`.
    BadSyntax(Key),
    /// A line that opens with no recognized word.
    Unrecognized,
}

impl View for Line {
    type V = LineView;

    open spec fn view(&self) -> LineView {
        match self {
            Line::Blank => LineView::Blank,
            Line::Alias(n, c) => LineView::Alias(n@, c@),
            Line::BadAlias => LineView::BadAlias,
            Line::Assign(k, v) => LineView::Assign(*k, v@),
            Line::BadSyntax(k) => LineView::BadSyntax(*k),
            Line::Unrecognized => LineView::Unrecognized,
        }
    }
}

/// The two trimmed sides of the first `=` of `rest`, when it holds one.
pub open spec fn split_eq(rest: Seq<char>) -> Option<(Seq<char>, Seq<char>)> {
    let p = eq_pos(rest, 0);
    if p < rest.len() {
        Some((trim_spec(rest.take(p)), trim_spec(rest.skip(p + 1))))
    } else {
        None
    }
}

/// What the raw line `line` says: it is trimmed, then matched against
/// comments, the `alias` word and the key names in order.
pub open spec fn classify(line: Seq<char>) -> LineView {
    let t = trim_spec(line);
    if t.len() == 0 || t[0] == '#' {
        LineView::Blank
    } else if is_alias_line(t) {
        match split_eq(trim_spec(t.skip(alias_word().len() as int))) {
            Some(parts) => LineView::Alias(parts.0, parts.1),
            None => LineView::BadAlias,
        }
    } else {
        match first_key(t, 0) {
            Some(k) => match split_eq(trim_spec(t.skip(key_name(k).len() as int))) {
                Some(parts) => LineView::Assign(k, parts.1),
                None => LineView::BadSyntax(k),
            },
            None => LineView::Unrecognized,
        }
    }
}

proof fn lemma_classify_key(line: Seq<char>, k: Key)
    requires
        trim_spec(line).len() > 0,
        trim_spec(line)[0] != '#',
        !is_alias_line(trim_spec(line)),
        first_key(trim_spec(line), 0) == Some(k),
    ensures
        classify(line) == match split_eq(trim_spec(trim_spec(line).skip(key_name(k).len() as int))) {
            Some(parts) => LineView::Assign(k, parts.1),
            None => LineView::BadSyntax(k),
        },
{
}

/// Position of a key in matching order.
pub open spec fn key_index(k: Key) -> int {
    match k {
        Key::Editor => 0,
        Key::Git => 1,
        Key::Keep => 2,
        Key::SystemFlake => 3,
        Key::RebuildFlags => 4,
        Key::Channel => 5,
        Key::AutoGc => 6,
        Key::GcAgeDays => 7,
        Key::Formatter => 8,
        Key::AutoFmt => 9,
    }
}

/// Key names are written in capitals and underscores.
pub proof fn lemma_key_name_chars(k: Key)
    ensures
        key_name(k).len() > 0,
        forall|i: int|
            0 <= i < key_name(k).len() ==> ('A' <= #[trigger] key_name(k)[i] <= 'Z' || key_name(k)[i]
                == '_'),
{
    let n = key_name(k);
    assert forall|i: int| 0 <= i < n.len() implies ('A' <= #[trigger] n[i] <= 'Z' || n[i] == '_') by {
        match k {
            Key::Editor => assert(n[i] == seq!['E', 'D', 'I', 'T', 'O', 'R'][i]),
            _ => {},
        }
    }
}


/// No key name begins another.
pub proof fn lemma_key_names_prefix_free(j: Key, k: Key)
    requires
        j != k,
    ensures
        !has_prefix(key_name(k), key_name(j)),
{
    let a = key_name(j);
    let b = key_name(k);
    if has_prefix(b, a) {
        assert(b.subrange(0, a.len() as int)[0] == a[0]);
        assert(b.subrange(0, a.len() as int)[1] == a[1]);
        assert(b.subrange(0, a.len() as int)[2] == a[2]);
        assert(b.subrange(0, a.len() as int)[5] == a[5]);
    }
}

/// A line that opens with a key's name followed by whitespace matches that key.
pub proof fn lemma_first_key_of_name(t: Seq<char>, k: Key)
    requires
        has_prefix(t, key_name(k)),
        t.len() > key_name(k).len(),
        is_space(t[key_name(k).len() as int]),
    ensures
        first_key(t, 0) == Some(k),
{
    lemma_first_key_from(t, k, 0);
}

proof fn lemma_first_key_from(t: Seq<char>, k: Key, i: int)
    requires
        0 <= i <= key_index(k),
        has_prefix(t, key_name(k)),
        t.len() > key_name(k).len(),
        is_space(t[key_name(k).len() as int]),
    ensures
        first_key(t, i) == Some(k),
    decreases key_index(k) - i,
{
    let j = key_at(i);
    if i < key_index(k) {
        assert(j != k);
        if has_prefix(t, key_name(j)) {
            let a = key_name(j);
            let b = key_name(k);
            lemma_key_name_chars(j);
            if a.len() <= b.len() {
                assert(b.subrange(0, a.len() as int) =~= t.subrange(0, a.len() as int));
                lemma_key_names_prefix_free(j, k);
            } else {
                assert(t.subrange(0, a.len() as int)[b.len() as int] == t[b.len() as int]);
                assert(a[b.len() as int] == t[b.len() as int]);
            }
        }
        lemma_first_key_from(t, k, i + 1);
    } else {
        assert(j == k);
    }
}

/// The line `KEY = value`.
pub open spec fn assignment_line(k: Key, v: Seq<char>) -> Seq<char> {
    key_name(k) + seq![' ', '=', ' '] + v
}

/// The line `KEY = value` reads as assigning exactly `value` to the key,
/// whenever `value` has no leading or trailing whitespace.
pub proof fn lemma_assignment_line(k: Key, v: Seq<char>)
    requires
        is_trimmed(v),
    ensures
        classify(assignment_line(k, v)) == LineView::Assign(k, v),
{
    let name = key_name(k);
    let n = name.len() as int;
    let line = assignment_line(k, v);
    lemma_key_name_chars(k);
    assert(line[0] == name[0]);
    let t = if v.len() == 0 {
        name + seq![' ', '=']
    } else {
        line
    };
    if v.len() == 0 {
        assert(line[n + 1] == '=');
        assert(line[n + 2] == ' ');
        lemma_trim_exact(line, 0, n + 2);
        assert(line.subrange(0, n + 2) =~= t);
    } else {
        assert(line[line.len() - 1] == v[v.len() - 1]);
        lemma_trim_exact(line, 0, line.len() as int);
        assert(line.subrange(0, line.len() as int) =~= line);
    }
    assert(trim_spec(line) == t);
    assert(t[0] == name[0]);
    if has_prefix(t, alias_word()) {
        assert(t.subrange(0, 5)[0] == t[0]);
    }
    assert(t.subrange(0, n) =~= name);
    assert(t[n] == ' ');
    lemma_first_key_of_name(t, k);
    let w = t.skip(n);
    if v.len() == 0 {
        assert(w =~= seq![' ', '=']);
        lemma_trim_exact(w, 1, 2);
        assert(w.subrange(1, 2) =~= seq!['=']);
        let rest = trim_spec(w);
        assert(eq_pos(rest, 0) == 0);
        assert(rest.skip(1) =~= Seq::<char>::empty());
        lemma_trim_blank(rest.skip(1));
        assert(v =~= Seq::<char>::empty());
    } else {
        assert(w =~= seq![' ', '=', ' '] + v);
        assert(w[w.len() - 1] == v[v.len() - 1]);
        lemma_trim_exact(w, 1, w.len() as int);
        let rest = trim_spec(w);
        assert(rest =~= seq!['=', ' '] + v);
        assert(eq_pos(rest, 0) == 0);
        let after = rest.skip(1);
        assert(after =~= seq![' '] + v);
        assert(after[after.len() - 1] == v[v.len() - 1]);
        lemma_trim_exact(after, 1, after.len() as int);
        assert(after.subrange(1, after.len() as int) =~= v);
    }
}

/// The two trimmed sides of the first `=` of `s@.subrange(lo, hi)`, cut from `line`.
fn split_at_eq(line: &str, v: &Vec<char>, lo: usize, hi: usize) -> (r: Option<(String, String)>)
    requires
        line@ == v@,
        lo <= hi <= v@.len(),
    ensures
        match r {
            Some(parts) => split_eq(v@.subrange(lo as int, hi as int)) == Some((parts.0@, parts.1@)),
            None => split_eq(v@.subrange(lo as int, hi as int)) is None,
        },
{
    let ghost rest = v@.subrange(lo as int, hi as int);
    let p = find_eq(v, lo, hi);
    if p < hi {
        let (na, nb) = trim_range(v, lo, p);
        let (ca, cb) = trim_range(v, p + 1, hi);
        assert(rest.take(p - lo) =~= v@.subrange(lo as int, p as int));
        assert(rest.skip(p - lo + 1) =~= v@.subrange(p + 1, hi as int));
        let name = line.substring_char(na, nb).to_owned();
        let cmd = line.substring_char(ca, cb).to_owned();
        Some((name, cmd))
    } else {
        None
    }
}

/// Reads what one raw line of the file says.
pub fn classify_line(line: &str) -> (r: Line)
    ensures
        r@ == classify(line@),
{
    let v = chars_of(line);
    let (a, b) = trim_bounds(&v);
    let ghost t = trim_spec(line@);
    assert(t == v@.subrange(a as int, b as int));
    if a == b || v[a] == '#' {
        return Line::Blank;
    }
    let word = vec!['a', 'l', 'i', 'a', 's'];
    assert(word@ =~= alias_word());
    if starts_with_at(&v, a, b, &word) && (b - a == 5 || is_whitespace(v[a + 5])) {
        assert(t.skip(5) =~= v@.subrange(a + 5, b as int));
        let (ra, rb) = trim_range(&v, a + 5, b);
        return match split_at_eq(line, &v, ra, rb) {
            Some(parts) => Line::Alias(parts.0, parts.1),
            None => Line::BadAlias,
        };
    }
    let mut i: usize = 0;
    while i < KEY_COUNT
        invariant
            i <= KEY_COUNT,
            a < b <= v@.len(),
            line@ == v@,
            t == v@.subrange(a as int, b as int),
            t == trim_spec(line@),
            t[0] != '#',
            first_key(t, i as int) == first_key(t, 0),
            !is_alias_line(t),
        decreases KEY_COUNT - i,
    {
        let k = key_at_index(i);
        let name = chars_of(k.name());
        if starts_with_at(&v, a, b, &name) {
            assert(first_key(t, i as int) == Some(k));
            assert(t.skip(name@.len() as int) =~= v@.subrange(a + name@.len(), b as int));
            let (ra, rb) = trim_range(&v, a + name.len(), b);
            let r = match split_at_eq(line, &v, ra, rb) {
                Some(parts) => Line::Assign(k, parts.1),
                None => Line::BadSyntax(k),
            };
            proof {
                lemma_classify_key(line@, k);
            }
            return r;
        }
        i = i + 1;
    }
    Line::Unrecognized
}

} // verus!
