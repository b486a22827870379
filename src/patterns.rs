use vstd::prelude::*;

use crate::text::{has_no, is_digit, is_ws, is_ws_exec, split, split_exec, views};

verus! {

/// The character classes that the lexical patterns are made of.
pub enum CharClass {
    /// `[a-zA-Z]`
    Alpha,
    /// `[a-zA-Z0-9]`
    Alnum,
    /// `[a-zA-Z0-9-]`
    AlnumDash,
    /// `[a-zA-Z0-9.-]`
    AlnumDashDot,
    /// `[A-Za-z_]`
    NameStart,
    /// `[A-Za-z0-9_.-]`
    NameChar,
    /// the characters allowed after the scheme of a URL
    UrlChar,
}

pub open spec fn is_alpha(c: char) -> bool {
    ('a' <= c && c <= 'z') || ('A' <= c && c <= 'Z')
}

pub open spec fn is_alnum(c: char) -> bool {
    is_alpha(c) || is_digit(c)
}

pub open spec fn in_class(c: char, k: CharClass) -> bool {
    match k {
        CharClass::Alpha => is_alpha(c),
        CharClass::Alnum => is_alnum(c),
        CharClass::AlnumDash => is_alnum(c) || c == '-',
        CharClass::AlnumDashDot => is_alnum(c) || c == '-' || c == '.',
        CharClass::NameStart => is_alpha(c) || c == '_',
        CharClass::NameChar => is_alnum(c) || c == '_' || c == '-' || c == '.',
        CharClass::UrlChar => is_alnum(c) || c == '-' || c == '.' || c == '_' || c == '~' || c
            == ':' || c == '/' || c == '?' || c == '#' || c == '[' || c == '@' || c == ']' || c
            == '!' || c == '$' || c == '&' || c == '\'' || c == '(' || c == ')' || c == '*' || c
            == '+' || c == ',' || c == ';' || c == '=',
    }
}

pub open spec fn all_in(s: Seq<char>, k: CharClass) -> bool {
    forall|i: int| 0 <= i < s.len() ==> in_class(#[trigger] s[i], k)
}

/// One character or more, all of class `k`.
pub open spec fn run_of(s: Seq<char>, k: CharClass) -> bool {
    s.len() >= 1 && all_in(s, k)
}

fn in_class_exec(c: char, k: &CharClass) -> (r: bool)
    ensures
        r == in_class(c, *k),
{
    let alpha = ('a' <= c && c <= 'z') || ('A' <= c && c <= 'Z');
    let alnum = alpha || ('0' <= c && c <= '9');
    match k {
        CharClass::Alpha => alpha,
        CharClass::Alnum => alnum,
        CharClass::AlnumDash => alnum || c == '-',
        CharClass::AlnumDashDot => alnum || c == '-' || c == '.',
        CharClass::NameStart => alpha || c == '_',
        CharClass::NameChar => alnum || c == '_' || c == '-' || c == '.',
        CharClass::UrlChar => alnum || c == '-' || c == '.' || c == '_' || c == '~' || c == ':'
            || c == '/' || c == '?' || c == '#' || c == '[' || c == '@' || c == ']' || c == '!'
            || c == '$' || c == '&' || c == '\'' || c == '(' || c == ')' || c == '*' || c == '+'
            || c == ',' || c == ';' || c == '=',
    }
}

/// Whether `s[from..to]` is made of characters of class `k` only.
pub fn all_in_exec(s: &Vec<char>, from: usize, to: usize, k: &CharClass) -> (r: bool)
    requires
        from <= to <= s.len(),
    ensures
        r == all_in(s@.subrange(from as int, to as int), *k),
{
    let ghost t = s@.subrange(from as int, to as int);
    let mut i = from;
    while i < to
        invariant
            from <= i <= to <= s.len(),
            t == s@.subrange(from as int, to as int),
            forall|j: int| from <= j < i ==> in_class(#[trigger] s@[j], *k),
        decreases to - i,
    {
        if !in_class_exec(s[i], k) {
            assert(t[i - from] == s@[i as int]);
            return false;
        }
        i = i + 1;
    }
    assert forall|j: int| 0 <= j < t.len() implies in_class(#[trigger] t[j], *k) by {
        assert(t[j] == s@[from + j]);
    }
    true
}

pub fn run_of_exec(s: &Vec<char>, k: &CharClass) -> (r: bool)
    ensures
        r == run_of(s@, *k),
{
    let r = all_in_exec(s, 0, s.len(), k);
    assert(s@.subrange(0, s@.len() as int) =~= s@);
    s.len() >= 1 && r
}

// ---------------------------------------------------------------------------
// xs:NCName, xs:language, xs:integer
// ---------------------------------------------------------------------------

/// `[A-Za-z_][A-Za-z0-9_\-\.]*`
pub open spec fn is_nc_name(s: Seq<char>) -> bool {
    s.len() >= 1 && in_class(s[0], CharClass::NameStart) && all_in(
        s.subrange(1, s.len() as int),
        CharClass::NameChar,
    )
}

pub fn is_nc_name_exec(s: &Vec<char>) -> (r: bool)
    ensures
        r == is_nc_name(s@),
{
    if s.len() == 0 {
        return false;
    }
    let first = in_class_exec(s[0], &CharClass::NameStart);
    let rest = all_in_exec(s, 1, s.len(), &CharClass::NameChar);
    first && rest
}

/// One part of a language tag: one to eight characters of class `k`.
pub open spec fn lang_part(p: Seq<char>, k: CharClass) -> bool {
    1 <= p.len() <= 8 && all_in(p, k)
}

/// `[a-zA-Z]{1,8}(-[a-zA-Z0-9]{1,8})*`
pub open spec fn is_language(s: Seq<char>) -> bool {
    let parts = split(s, '-');
    lang_part(parts[0], CharClass::Alpha) && forall|i: int|
        1 <= i < parts.len() ==> lang_part(#[trigger] parts[i], CharClass::Alnum)
}

fn lang_part_exec(p: &Vec<char>, k: &CharClass) -> (r: bool)
    ensures
        r == lang_part(p@, *k),
{
    let a = all_in_exec(p, 0, p.len(), k);
    assert(p@.subrange(0, p@.len() as int) =~= p@);
    1 <= p.len() && p.len() <= 8 && a
}

pub fn is_language_exec(s: &Vec<char>) -> (r: bool)
    ensures
        r == is_language(s@),
{
    let parts = split_exec(s, '-');
    proof {
        crate::text::lemma_split_len(s@, '-');
    }
    let ghost ps = split(s@, '-');
    if !lang_part_exec(&parts[0], &CharClass::Alpha) {
        return false;
    }
    let mut i: usize = 1;
    while i < parts.len()
        invariant
            1 <= i <= parts.len(),
            views(parts@) == ps,
            ps == split(s@, '-'),
            forall|j: int| 1 <= j < i ==> lang_part(#[trigger] ps[j], CharClass::Alnum),
        decreases parts.len() - i,
    {
        if !lang_part_exec(&parts[i], &CharClass::Alnum) {
            assert(ps[i as int] == parts@[i as int]@);
            return false;
        }
        i = i + 1;
    }
    true
}

/// `[\-\+]?[0-9]+`
pub open spec fn is_integer_text(s: Seq<char>) -> bool {
    let d = if s.len() > 0 && (s[0] == '+' || s[0] == '-') {
        s.subrange(1, s.len() as int)
    } else {
        s
    };
    d.len() >= 1 && forall|i: int| 0 <= i < d.len() ==> is_digit(#[trigger] d[i])
}

// ---------------------------------------------------------------------------
// Strings without whitespace
// ---------------------------------------------------------------------------

/// The Unicode separators (general category `Z`).
pub open spec fn is_separator(c: char) -> bool {
    c == ' ' || c == '\u{a0}' || c == '\u{1680}' || ('\u{2000}' <= c && c <= '\u{200a}') || c
        == '\u{2028}' || c == '\u{2029}' || c == '\u{202f}' || c == '\u{205f}' || c == '\u{3000}'
}

/// `[^\r\n\t \p{Z}]`
pub open spec fn is_solid(c: char) -> bool {
    c != '\r' && c != '\n' && c != '\t' && !is_separator(c)
}

pub open spec fn all_solid(s: Seq<char>) -> bool {
    forall|i: int| 0 <= i < s.len() ==> is_solid(#[trigger] s[i])
}

fn is_solid_exec(c: char) -> (r: bool)
    ensures
        r == is_solid(c),
{
    c != '\r' && c != '\n' && c != '\t' && !(c == ' ' || c == '\u{a0}' || c == '\u{1680}' || (
    '\u{2000}' <= c && c <= '\u{200a}') || c == '\u{2028}' || c == '\u{2029}' || c == '\u{202f}'
        || c == '\u{205f}' || c == '\u{3000}')
}

pub fn all_solid_exec(s: &Vec<char>) -> (r: bool)
    ensures
        r == all_solid(s@),
{
    let mut i: usize = 0;
    while i < s.len()
        invariant
            i <= s.len(),
            forall|j: int| 0 <= j < i ==> is_solid(#[trigger] s@[j]),
        decreases s.len() - i,
    {
        if !is_solid_exec(s[i]) {
            return false;
        }
        i = i + 1;
    }
    true
}

// ---------------------------------------------------------------------------
// URN and URL
// ---------------------------------------------------------------------------

/// `urn:[a-zA-Z0-9\-]+(:[a-zA-Z0-9\-]+)*`
pub open spec fn is_urn(s: Seq<char>) -> bool {
    s.len() >= 4 && s[0] == 'u' && s[1] == 'r' && s[2] == 'n' && s[3] == ':' && {
        let parts = split(s.subrange(4, s.len() as int), ':');
        forall|i: int| 0 <= i < parts.len() ==> run_of(#[trigger] parts[i], CharClass::AlnumDash)
    }
}

/// `https?://` followed by one URL character or more.
pub open spec fn is_url(s: Seq<char>) -> bool {
    s.len() >= 7 && s[0] == 'h' && s[1] == 't' && s[2] == 't' && s[3] == 'p' && {
        let k: int = if s[4] == 's' {
            5
        } else {
            4
        };
        s.len() > k + 3 && s[k] == ':' && s[k + 1] == '/' && s[k + 2] == '/' && all_in(
            s.subrange(k + 3, s.len() as int),
            CharClass::UrlChar,
        )
    }
}

pub fn is_urn_exec(s: &Vec<char>) -> (r: bool)
    ensures
        r == is_urn(s@),
{
    if !(s.len() >= 4 && s[0] == 'u' && s[1] == 'r' && s[2] == 'n' && s[3] == ':') {
        return false;
    }
    let rest = crate::text::sub_chars(s, 4, s.len());
    let parts = split_exec(&rest, ':');
    let ghost ps = split(s@.subrange(4, s.len() as int), ':');
    let mut i: usize = 0;
    while i < parts.len()
        invariant
            i <= parts.len(),
            views(parts@) == ps,
            ps == split(s@.subrange(4, s.len() as int), ':'),
            forall|j: int| 0 <= j < i ==> run_of(#[trigger] ps[j], CharClass::AlnumDash),
        decreases parts.len() - i,
    {
        if !run_of_exec(&parts[i], &CharClass::AlnumDash) {
            assert(ps[i as int] == parts@[i as int]@);
            return false;
        }
        i = i + 1;
    }
    true
}

pub fn is_url_exec(s: &Vec<char>) -> (r: bool)
    ensures
        r == is_url(s@),
{
    if !(s.len() >= 7 && s[0] == 'h' && s[1] == 't' && s[2] == 't' && s[3] == 'p') {
        return false;
    }
    let k: usize = if s[4] == 's' {
        5
    } else {
        4
    };
    if !(s.len() > k + 3 && s[k] == ':' && s[k + 1] == '/' && s[k + 2] == '/') {
        return false;
    }
    all_in_exec(s, k + 3, s.len(), &CharClass::UrlChar)
}

// ---------------------------------------------------------------------------
// Codec identifier lists
// ---------------------------------------------------------------------------

/// `s` without its leading whitespace.
pub open spec fn trim_start(s: Seq<char>) -> Seq<char>
    decreases s.len(),
{
    if s.len() > 0 && is_ws(s[0]) {
        trim_start(s.subrange(1, s.len() as int))
    } else {
        s
    }
}

pub fn trim_start_exec(s: &Vec<char>) -> (r: Vec<char>)
    ensures
        r@ == trim_start(s@),
{
    let mut i: usize = 0;
    assert(s@.subrange(0, s.len() as int) =~= s@);
    while i < s.len() && is_ws_exec(s[i])
        invariant
            i <= s.len(),
            trim_start(s@) == trim_start(s@.subrange(i as int, s.len() as int)),
        decreases s.len() - i,
    {
        let ghost t = s@.subrange(i as int, s.len() as int);
        assert(t.subrange(1, t.len() as int) =~= s@.subrange(i + 1, s.len() as int));
        i = i + 1;
    }
    let r = crate::text::sub_chars(s, i, s.len());
    r
}

/// `id(,\s*id)*` where each `id` is a run of class `k`.
pub open spec fn is_id_list(s: Seq<char>, k: CharClass) -> bool {
    let parts = split(s, ',');
    run_of(parts[0], k) && forall|i: int|
        1 <= i < parts.len() ==> run_of(trim_start(#[trigger] parts[i]), k)
}

pub fn is_id_list_exec(s: &Vec<char>, k: &CharClass) -> (r: bool)
    ensures
        r == is_id_list(s@, *k),
{
    let parts = split_exec(s, ',');
    proof {
        crate::text::lemma_split_len(s@, ',');
    }
    let ghost ps = split(s@, ',');
    if !run_of_exec(&parts[0], k) {
        return false;
    }
    let mut i: usize = 1;
    while i < parts.len()
        invariant
            1 <= i <= parts.len(),
            views(parts@) == ps,
            ps == split(s@, ','),
            forall|j: int| 1 <= j < i ==> run_of(trim_start(#[trigger] ps[j]), *k),
        decreases parts.len() - i,
    {
        let t = trim_start_exec(&parts[i]);
        if !run_of_exec(&t, k) {
            assert(ps[i as int] == parts@[i as int]@);
            return false;
        }
        i = i + 1;
    }
    true
}

/// `s` without its trailing whitespace.
pub open spec fn trim_end(s: Seq<char>) -> Seq<char>
    decreases s.len(),
{
    if s.len() > 0 && is_ws(s.last()) {
        trim_end(s.drop_last())
    } else {
        s
    }
}

/// `s` without leading and trailing whitespace, as `str::trim` gives it.
pub open spec fn trim(s: Seq<char>) -> Seq<char> {
    trim_end(trim_start(s))
}

pub fn trim_exec(s: &Vec<char>) -> (r: Vec<char>)
    ensures
        r@ == trim(s@),
{
    let t = trim_start_exec(s);
    let mut j: usize = t.len();
    assert(t@.subrange(0, t.len() as int) =~= t@);
    while j > 0 && is_ws_exec(t[j - 1])
        invariant
            j <= t.len(),
            trim_end(t@) == trim_end(t@.subrange(0, j as int)),
        decreases j,
    {
        assert(t@.subrange(0, j as int).drop_last() =~= t@.subrange(0, j - 1));
        j = j - 1;
    }
    crate::text::sub_chars(&t, 0, j)
}


pub proof fn lemma_nc_name_trim(s: Seq<char>)
    requires
        is_nc_name(s),
    ensures
        trim(s) == s,
{
    if s.len() > 1 {
        assert(s.last() == s.subrange(1, s.len() as int)[s.len() - 2]);
    }
}

pub proof fn lemma_language_trim(s: Seq<char>)
    requires
        is_language(s),
    ensures
        trim(s) == s,
        has_no(s, '\''),
{
    let parts = split(s, '-');
    crate::text::lemma_split_len(s, '-');
    crate::text::lemma_join_split(s, '-');
    crate::text::lemma_join_len(parts, '-');
    assert(lang_part(parts[parts.len() - 1], CharClass::Alnum) || parts.len() == 1);
    crate::text::lemma_join_last(parts, '-');
    assert(in_class(parts[0][0], CharClass::Alpha));
    let l = parts.last();
    assert(in_class(l[l.len() - 1], CharClass::Alnum) || in_class(l[l.len() - 1], CharClass::Alpha));
    assert forall|i: int| 0 <= i < parts.len() implies has_no(#[trigger] parts[i], '\'') by {
        if i == 0 {
            assert(lang_part(parts[0], CharClass::Alpha));
        } else {
            assert(lang_part(parts[i], CharClass::Alnum));
        }
        assert forall|j: int| 0 <= j < parts[i].len() implies #[trigger] parts[i][j] != '\'' by {
            if i == 0 {
                assert(in_class(parts[i][j], CharClass::Alpha));
            } else {
                assert(in_class(parts[i][j], CharClass::Alnum));
            }
        }
    }
    crate::text::lemma_join_has_no(parts, '-', '\'');
}

/// A character that is neither whitespace nor of class `k` is not in a piece
/// made of whitespace followed by characters of class `k`.
pub proof fn lemma_piece_has_no(p: Seq<char>, k: CharClass, c: char)
    requires
        all_in(trim_start(p), k),
        !is_ws(c),
        !in_class(c, k),
    ensures
        has_no(p, c),
    decreases p.len(),
{
    if p.len() > 0 && is_ws(p[0]) {
        let rest = p.subrange(1, p.len() as int);
        lemma_piece_has_no(rest, k, c);
        assert forall|j: int| 0 <= j < p.len() implies #[trigger] p[j] != c by {
            if j > 0 {
                assert(p[j] == rest[j - 1]);
            }
        }
    } else {
        assert forall|j: int| 0 <= j < p.len() implies #[trigger] p[j] != c by {
            assert(in_class(p[j], k));
        }
    }
}

} // verus!
