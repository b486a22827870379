use vstd::prelude::*;

verus! {

// ---------------------------------------------------------------------------
// Characters and strings
// ---------------------------------------------------------------------------

/// The characters with the Unicode `White_Space` property.
pub open spec fn is_ws(c: char) -> bool {
    ('\u{9}' <= c && c <= '\u{d}') || c == ' ' || c == '\u{85}' || c == '\u{a0}'
        || c == '\u{1680}' || ('\u{2000}' <= c && c <= '\u{200a}') || c == '\u{2028}'
        || c == '\u{2029}' || c == '\u{202f}' || c == '\u{205f}' || c == '\u{3000}'
}

pub fn is_ws_exec(c: char) -> (r: bool)
    ensures
        r == is_ws(c),
{
    ('\u{9}' <= c && c <= '\u{d}') || c == ' ' || c == '\u{85}' || c == '\u{a0}'
        || c == '\u{1680}' || ('\u{2000}' <= c && c <= '\u{200a}') || c == '\u{2028}'
        || c == '\u{2029}' || c == '\u{202f}' || c == '\u{205f}' || c == '\u{3000}'
}

pub open spec fn no_ws(s: Seq<char>) -> bool {
    forall|i: int| 0 <= i < s.len() ==> !is_ws(#[trigger] s[i])
}

pub open spec fn has_no(s: Seq<char>, c: char) -> bool {
    forall|i: int| 0 <= i < s.len() ==> #[trigger] s[i] != c
}

pub open spec fn contains(s: Seq<char>, c: char) -> bool {
    exists|i: int| 0 <= i < s.len() && #[trigger] s[i] == c
}

/// Characters of a string, one by one.
pub fn chars_of(s: &str) -> (r: Vec<char>)
    ensures
        r@ == s@,
{
    let n = s.unicode_len();
    let mut v: Vec<char> = Vec::new();
    let mut i: usize = 0;
    while i < n
        invariant
            n == s@.len(),
            i <= n,
            v@ == s@.subrange(0, i as int),
        decreases n - i,
    {
        v.push(s.get_char(i));
        i = i + 1;
    }
    assert(v@ =~= s@);
    v
}

/// Relies on `String::push`: appends one character.
#[verifier::external_body]
fn push_char(s: &mut String, c: char)
    ensures
        final(s)@ == old(s)@.push(c),
{
    s.push(c)
}

/// The string made of the given characters.
pub fn string_of(cs: &Vec<char>) -> (r: String)
    ensures
        r@ == cs@,
{
    let mut s = String::new();
    let mut i: usize = 0;
    while i < cs.len()
        invariant
            i <= cs.len(),
            s@ == cs@.subrange(0, i as int),
        decreases cs.len() - i,
    {
        push_char(&mut s, cs[i]);
        assert(cs@.subrange(0, i + 1) =~= cs@.subrange(0, i as int).push(cs@[i as int]));
        i = i + 1;
    }
    assert(cs@.subrange(0, cs.len() as int) =~= cs@);
    s
}

/// Appends `b` to `a`.
pub fn append_chars(a: &mut Vec<char>, b: &Vec<char>)
    ensures
        final(a)@ == old(a)@ + b@,
{
    let mut i: usize = 0;
    while i < b.len()
        invariant
            i <= b.len(),
            a@ == old(a)@ + b@.subrange(0, i as int),
        decreases b.len() - i,
    {
        a.push(b[i]);
        assert(b@.subrange(0, i + 1) =~= b@.subrange(0, i as int).push(b@[i as int]));
        i = i + 1;
    }
    assert(b@.subrange(0, b.len() as int) =~= b@);
}

/// The characters `s[from..to]`.
pub fn sub_chars(s: &Vec<char>, from: usize, to: usize) -> (r: Vec<char>)
    requires
        from <= to <= s.len(),
    ensures
        r@ == s@.subrange(from as int, to as int),
{
    let mut v: Vec<char> = Vec::new();
    let mut i: usize = from;
    while i < to
        invariant
            from <= i <= to <= s.len(),
            v@ == s@.subrange(from as int, i as int),
        decreases to - i,
    {
        v.push(s[i]);
        assert(s@.subrange(from as int, i + 1) =~= s@.subrange(from as int, i as int).push(
            s@[i as int],
        ));
        i = i + 1;
    }
    v
}

pub fn contains_exec(s: &Vec<char>, c: char) -> (r: bool)
    ensures
        r == contains(s@, c),
{
    let mut i: usize = 0;
    while i < s.len()
        invariant
            i <= s.len(),
            forall|j: int| 0 <= j < i ==> s@[j] != c,
        decreases s.len() - i,
    {
        if s[i] == c {
            return true;
        }
        i = i + 1;
    }
    false
}

// ---------------------------------------------------------------------------
// Splitting on a separator, and joining
// ---------------------------------------------------------------------------

/// The pieces between the occurrences of `sep`, as `str::split` gives them.
pub open spec fn split(s: Seq<char>, sep: char) -> Seq<Seq<char>>
    decreases s.len(),
{
    if s.len() == 0 {
        seq![Seq::empty()]
    } else {
        let p = split(s.drop_last(), sep);
        if s.last() == sep {
            p.push(Seq::empty())
        } else {
            p.update(p.len() - 1, p.last().push(s.last()))
        }
    }
}

/// The pieces with `sep` between them.
pub open spec fn join(xs: Seq<Seq<char>>, sep: char) -> Seq<char>
    decreases xs.len(),
{
    if xs.len() == 0 {
        Seq::empty()
    } else if xs.len() == 1 {
        xs[0]
    } else {
        join(xs.drop_last(), sep) + seq![sep] + xs.last()
    }
}

pub open spec fn views(v: Seq<Vec<char>>) -> Seq<Seq<char>> {
    v.map_values(|x: Vec<char>| x@)
}

pub proof fn lemma_split_len(s: Seq<char>, sep: char)
    ensures
        split(s, sep).len() >= 1,
    decreases s.len(),
{
    if s.len() > 0 {
        lemma_split_len(s.drop_last(), sep);
    }
}

pub proof fn lemma_split_single(s: Seq<char>, sep: char)
    requires
        has_no(s, sep),
    ensures
        split(s, sep) == seq![s],
    decreases s.len(),
{
    if s.len() > 0 {
        lemma_split_single(s.drop_last(), sep);
        assert(s.drop_last().push(s.last()) =~= s);
        assert(split(s, sep) =~= seq![s]);
    } else {
        assert(s =~= Seq::<char>::empty());
    }
}

pub proof fn lemma_split_concat(a: Seq<char>, b: Seq<char>, sep: char)
    ensures
        split(a + seq![sep] + b, sep) == split(a, sep) + split(b, sep),
    decreases b.len(),
{
    let s = a + seq![sep] + b;
    lemma_split_len(a, sep);
    if b.len() == 0 {
        assert(s.drop_last() =~= a);
        assert(split(s, sep) =~= split(a, sep) + split(b, sep));
    } else {
        let b1 = b.drop_last();
        lemma_split_concat(a, b1, sep);
        lemma_split_len(b1, sep);
        assert(s.drop_last() =~= a + seq![sep] + b1);
        assert(s.last() == b.last());
        assert(split(s, sep) =~= split(a, sep) + split(b, sep));
    }
}

/// Splitting what `join` made gives the pieces back.
pub proof fn lemma_split_join(xs: Seq<Seq<char>>, sep: char)
    requires
        xs.len() >= 1,
        forall|i: int| 0 <= i < xs.len() ==> has_no(#[trigger] xs[i], sep),
    ensures
        split(join(xs, sep), sep) == xs,
    decreases xs.len(),
{
    if xs.len() == 1 {
        lemma_split_single(xs[0], sep);
        assert(xs =~= seq![xs[0]]);
    } else {
        let init = xs.drop_last();
        assert forall|i: int| 0 <= i < init.len() implies has_no(#[trigger] init[i], sep) by {
            assert(init[i] == xs[i]);
        }
        lemma_split_join(init, sep);
        lemma_split_concat(join(init, sep), xs.last(), sep);
        lemma_split_single(xs.last(), sep);
        assert(init + seq![xs.last()] =~= xs);
    }
}

pub proof fn lemma_join_len(xs: Seq<Seq<char>>, sep: char)
    requires
        xs.len() >= 1,
        xs[0].len() >= 1,
    ensures
        join(xs, sep).len() >= 1,
        join(xs, sep)[0] == xs[0][0],
    decreases xs.len(),
{
    if xs.len() > 1 {
        lemma_join_len(xs.drop_last(), sep);
    }
}

pub proof fn lemma_join_push_last(xs: Seq<Seq<char>>, sep: char, c: char)
    requires
        xs.len() >= 1,
    ensures
        join(xs.update(xs.len() - 1, xs.last().push(c)), sep) == join(xs, sep).push(c),
{
    let ys = xs.update(xs.len() - 1, xs.last().push(c));
    if xs.len() == 1 {
    } else {
        assert(ys.drop_last() =~= xs.drop_last());
    }
}

/// Joining the pieces of a split gives the text back.
pub proof fn lemma_join_split(s: Seq<char>, sep: char)
    ensures
        join(split(s, sep), sep) == s,
    decreases s.len(),
{
    if s.len() == 0 {
    } else {
        let p = split(s.drop_last(), sep);
        lemma_join_split(s.drop_last(), sep);
        lemma_split_len(s.drop_last(), sep);
        if s.last() == sep {
            assert(p.push(Seq::empty()).drop_last() =~= p);
            assert(join(p.push(Seq::empty()), sep) =~= s);
        } else {
            lemma_join_push_last(p, sep, s.last());
            assert(s.drop_last().push(s.last()) =~= s);
        }
    }
}

pub proof fn lemma_join_last(xs: Seq<Seq<char>>, sep: char)
    requires
        xs.len() >= 1,
        xs.last().len() >= 1,
    ensures
        join(xs, sep).len() >= 1,
        join(xs, sep).last() == xs.last().last(),
{
}

/// A character that is in no piece and is not the separator is not in the
/// joined text.
pub proof fn lemma_join_has_no(xs: Seq<Seq<char>>, sep: char, c: char)
    requires
        c != sep,
        forall|i: int| 0 <= i < xs.len() ==> has_no(#[trigger] xs[i], c),
    ensures
        has_no(join(xs, sep), c),
    decreases xs.len(),
{
    if xs.len() == 1 {
        assert(has_no(xs[0], c));
    } else if xs.len() > 1 {
        let init = xs.drop_last();
        assert forall|i: int| 0 <= i < init.len() implies has_no(#[trigger] init[i], c) by {
            assert(init[i] == xs[i]);
        }
        lemma_join_has_no(init, sep, c);
        let j = join(xs, sep);
        let a = join(init, sep);
        assert(has_no(xs[xs.len() - 1], c));
        assert forall|i: int| 0 <= i < j.len() implies #[trigger] j[i] != c by {
            if i < a.len() {
                assert(j[i] == a[i]);
            } else if i > a.len() {
                assert(j[i] == xs.last()[i - a.len() - 1]);
            }
        }
    }
}

/// `str::split` on a sequence of characters.
pub fn split_exec(s: &Vec<char>, sep: char) -> (r: Vec<Vec<char>>)
    ensures
        views(r@) == split(s@, sep),
{
    let mut parts: Vec<Vec<char>> = Vec::new();
    let mut cur: Vec<char> = Vec::new();
    let mut i: usize = 0;
    while i < s.len()
        invariant
            i <= s.len(),
            views(parts@).push(cur@) == split(s@.subrange(0, i as int), sep),
        decreases s.len() - i,
    {
        let c = s[i];
        let ghost t = s@.subrange(0, i + 1);
        assert(t.drop_last() =~= s@.subrange(0, i as int));
        assert(t.last() == c);
        if c == sep {
            parts.push(cur);
            cur = Vec::new();
            assert(views(parts@).push(cur@) =~= split(t, sep));
        } else {
            cur.push(c);
            assert(views(parts@).push(cur@) =~= split(t, sep));
        }
        i = i + 1;
    }
    parts.push(cur);
    assert(s@.subrange(0, s.len() as int) =~= s@);
    assert(views(parts@) =~= split(s@, sep));
    parts
}

/// `join` with the pieces given as vectors.
pub fn join_exec(xs: &Vec<Vec<char>>, sep: char) -> (r: Vec<char>)
    ensures
        r@ == join(views(xs@), sep),
{
    let mut out: Vec<char> = Vec::new();
    let mut i: usize = 0;
    while i < xs.len()
        invariant
            i <= xs.len(),
            out@ == join(views(xs@).subrange(0, i as int), sep),
        decreases xs.len() - i,
    {
        let ghost prev = views(xs@).subrange(0, i as int);
        let ghost next = views(xs@).subrange(0, i + 1);
        assert(next.drop_last() =~= prev);
        if i > 0 {
            out.push(sep);
        }
        append_chars(&mut out, &xs[i]);
        if i == 0 {
            assert(out@ =~= join(next, sep));
        } else {
            assert(out@ =~= join(next, sep));
        }
        i = i + 1;
    }
    assert(views(xs@).subrange(0, xs.len() as int) =~= views(xs@));
    out
}

// ---------------------------------------------------------------------------
// Whitespace-separated tokens
// ---------------------------------------------------------------------------

/// The maximal runs of non-whitespace characters, as `str::split_whitespace`
/// gives them.
pub open spec fn ws_tokens(s: Seq<char>) -> Seq<Seq<char>>
    decreases s.len(),
{
    if s.len() == 0 {
        Seq::empty()
    } else {
        let p = ws_tokens(s.drop_last());
        let c = s.last();
        if is_ws(c) {
            p
        } else if s.len() >= 2 && !is_ws(s[s.len() - 2]) {
            p.update(p.len() - 1, p.last().push(c))
        } else {
            p.push(seq![c])
        }
    }
}

pub proof fn lemma_ws_tokens_nonempty(s: Seq<char>)
    requires
        s.len() >= 1,
        !is_ws(s.last()),
    ensures
        ws_tokens(s).len() >= 1,
    decreases s.len(),
{
    if s.len() >= 2 && !is_ws(s[s.len() - 2]) {
        assert(s.drop_last().last() == s[s.len() - 2]);
        lemma_ws_tokens_nonempty(s.drop_last());
    }
}

pub proof fn lemma_ws_tokens_single(t: Seq<char>)
    requires
        t.len() >= 1,
        no_ws(t),
    ensures
        ws_tokens(t) == seq![t],
    decreases t.len(),
{
    assert(!is_ws(t[t.len() - 1]));
    if t.len() == 1 {
        assert(t.drop_last() =~= Seq::<char>::empty());
        assert(ws_tokens(t.drop_last()) =~= Seq::<Seq<char>>::empty());
        assert(seq![t.last()] =~= t);
        assert(ws_tokens(t) =~= seq![t]);
    } else {
        let t1 = t.drop_last();
        assert(!is_ws(t[t.len() - 2]));
        assert forall|i: int| 0 <= i < t1.len() implies !is_ws(#[trigger] t1[i]) by {
            assert(t1[i] == t[i]);
        }
        lemma_ws_tokens_single(t1);
        assert(t1.push(t.last()) =~= t);
        assert(ws_tokens(t) =~= seq![t]);
    }
}

pub proof fn lemma_ws_tokens_concat(a: Seq<char>, b: Seq<char>)
    ensures
        ws_tokens(a + seq![' '] + b) == ws_tokens(a) + ws_tokens(b),
    decreases b.len(),
{
    let s = a + seq![' '] + b;
    if b.len() == 0 {
        assert(s.drop_last() =~= a);
        assert(ws_tokens(a) + ws_tokens(b) =~= ws_tokens(a));
    } else {
        let b1 = b.drop_last();
        lemma_ws_tokens_concat(a, b1);
        assert(s.drop_last() =~= a + seq![' '] + b1);
        assert(s.last() == b.last());
        if is_ws(b.last()) {
        } else if b1.len() >= 1 {
            assert(s[s.len() - 2] == b1.last());
            assert(b[b.len() - 2] == b1.last());
            if !is_ws(b1.last()) {
                lemma_ws_tokens_nonempty(b1);
            }
            assert(ws_tokens(s) =~= ws_tokens(a) + ws_tokens(b));
        } else {
            assert(s[s.len() - 2] == ' ');
            assert(b1 =~= Seq::<char>::empty());
            assert(ws_tokens(s) =~= ws_tokens(a) + ws_tokens(b));
        }
    }
}

/// Tokenising what `join` made with single spaces gives the tokens back.
pub proof fn lemma_ws_tokens_join(xs: Seq<Seq<char>>)
    requires
        forall|i: int| 0 <= i < xs.len() ==> (#[trigger] xs[i]).len() >= 1 && no_ws(xs[i]),
    ensures
        ws_tokens(join(xs, ' ')) == xs,
    decreases xs.len(),
{
    if xs.len() == 0 {
        assert(ws_tokens(Seq::<char>::empty()) =~= xs);
    } else if xs.len() == 1 {
        lemma_ws_tokens_single(xs[0]);
        assert(xs =~= seq![xs[0]]);
    } else {
        let init = xs.drop_last();
        assert forall|i: int| 0 <= i < init.len() implies (#[trigger] init[i]).len() >= 1
            && no_ws(init[i]) by {
            assert(init[i] == xs[i]);
        }
        lemma_ws_tokens_join(init);
        lemma_ws_tokens_concat(join(init, ' '), xs.last());
        lemma_ws_tokens_single(xs.last());
        assert(init + seq![xs.last()] =~= xs);
    }
}

/// `str::split_whitespace` on a sequence of characters.
pub fn ws_tokens_exec(s: &Vec<char>) -> (r: Vec<Vec<char>>)
    ensures
        views(r@) == ws_tokens(s@),
{
    let mut toks: Vec<Vec<char>> = Vec::new();
    let mut cur: Vec<char> = Vec::new();
    let mut i: usize = 0;
    while i < s.len()
        invariant
            i <= s.len(),
            cur@.len() > 0 <==> (i > 0 && !is_ws(s@[i - 1])),
            cur@.len() > 0 ==> views(toks@).push(cur@) == ws_tokens(s@.subrange(0, i as int)),
            cur@.len() == 0 ==> views(toks@) == ws_tokens(s@.subrange(0, i as int)),
        decreases s.len() - i,
    {
        let c = s[i];
        let ghost t = s@.subrange(0, i + 1);
        assert(t.drop_last() =~= s@.subrange(0, i as int));
        assert(t.last() == c);
        if is_ws_exec(c) {
            if cur.len() > 0 {
                toks.push(cur);
                cur = Vec::new();
            }
        } else {
            if i > 0 {
                assert(t[t.len() - 2] == s@[i - 1]);
            }
            if cur.len() == 0 {
                cur.push(c);
                assert(cur@ =~= seq![c]);
                assert(views(toks@).push(cur@) =~= ws_tokens(t));
            } else {
                let ghost p = ws_tokens(s@.subrange(0, i as int));
                cur.push(c);
                assert(views(toks@).push(cur@) =~= p.update(p.len() - 1, p.last().push(c)));
            }
        }
        i = i + 1;
    }
    if cur.len() > 0 {
        toks.push(cur);
    }
    assert(s@.subrange(0, s.len() as int) =~= s@);
    assert(views(toks@) =~= ws_tokens(s@));
    toks
}

// ---------------------------------------------------------------------------
// Decimal numbers
// ---------------------------------------------------------------------------

pub open spec fn is_digit(c: char) -> bool {
    '0' <= c && c <= '9'
}

pub open spec fn all_digits(s: Seq<char>) -> bool {
    forall|i: int| 0 <= i < s.len() ==> is_digit(#[trigger] s[i])
}

pub open spec fn digit_value(c: char) -> nat {
    (c as u32 - '0' as u32) as nat
}

pub open spec fn digit_char(d: nat) -> char {
    if d == 0 {
        '0'
    } else if d == 1 {
        '1'
    } else if d == 2 {
        '2'
    } else if d == 3 {
        '3'
    } else if d == 4 {
        '4'
    } else if d == 5 {
        '5'
    } else if d == 6 {
        '6'
    } else if d == 7 {
        '7'
    } else if d == 8 {
        '8'
    } else {
        '9'
    }
}

/// Decimal value of a run of digits.
pub open spec fn digits_value(s: Seq<char>) -> nat
    decreases s.len(),
{
    if s.len() == 0 {
        0
    } else {
        digits_value(s.drop_last()) * 10 + digit_value(s.last())
    }
}

/// The decimal digits of `n`, without leading zeros.
pub open spec fn dec(n: nat) -> Seq<char>
    decreases n,
{
    if n < 10 {
        seq![digit_char(n)]
    } else {
        dec(n / 10).push(digit_char(n % 10))
    }
}

/// An unsigned integer as `str::parse` reads it: an optional `+`, then one
/// digit or more.
pub open spec fn uint_of(s: Seq<char>) -> Option<nat> {
    let d = if s.len() > 0 && s[0] == '+' {
        s.subrange(1, s.len() as int)
    } else {
        s
    };
    if d.len() > 0 && all_digits(d) {
        Some(digits_value(d))
    } else {
        None
    }
}

/// `uint_of` where the value is at most `max`.
pub open spec fn uint_upto(s: Seq<char>, max: nat) -> Option<nat> {
    match uint_of(s) {
        Some(v) => if v <= max {
            Some(v)
        } else {
            None
        },
        None => None,
    }
}

pub proof fn lemma_digit_char(d: nat)
    requires
        d < 10,
    ensures
        is_digit(digit_char(d)),
        digit_value(digit_char(d)) == d,
        digit_char(d) != '+',
{
}

pub proof fn lemma_dec(n: nat)
    ensures
        dec(n).len() >= 1,
        all_digits(dec(n)),
        digits_value(dec(n)) == n,
        dec(n)[0] != '+',
        dec(n)[0] != '0' || n == 0,
    decreases n,
{
    if n < 10 {
        lemma_digit_char(n);
        assert(dec(n).drop_last() =~= Seq::<char>::empty());
        assert(digits_value(Seq::<char>::empty()) == 0);
        assert(dec(n).last() == digit_char(n));
        assert(digits_value(dec(n)) == digits_value(dec(n).drop_last()) * 10 + digit_value(
            dec(n).last(),
        ));
    } else {
        lemma_dec(n / 10);
        lemma_digit_char(n % 10);
        let d = dec(n);
        assert(d.drop_last() =~= dec(n / 10));
        assert(d.last() == digit_char(n % 10));
        assert(digits_value(d) == digits_value(dec(n / 10)) * 10 + digit_value(d.last()));
        assert(digits_value(dec(n / 10)) == n / 10);
        assert(digit_value(d.last()) == n % 10);
        assert(n == (n / 10) * 10 + n % 10);
        assert forall|i: int| 0 <= i < d.len() implies is_digit(#[trigger] d[i]) by {
            if i < d.len() - 1 {
                assert(d[i] == dec(n / 10)[i]);
            }
        }
    }
}

/// `uint_of` reads back what `dec` writes.
pub proof fn lemma_uint_of_dec(n: nat)
    ensures
        uint_of(dec(n)) == Some(n),
{
    lemma_dec(n);
}

pub proof fn lemma_dec_has_no(n: nat, c: char)
    requires
        !is_digit(c),
    ensures
        has_no(dec(n), c),
{
    lemma_dec(n);
    assert forall|i: int| 0 <= i < dec(n).len() implies #[trigger] dec(n)[i] != c by {
        assert(is_digit(dec(n)[i]));
    }
}

pub proof fn lemma_dec_no_ws(n: nat)
    ensures
        no_ws(dec(n)),
{
    lemma_dec(n);
}

pub proof fn lemma_digits_value_prefix(s: Seq<char>, k: int)
    requires
        0 <= k <= s.len(),
    ensures
        digits_value(s.subrange(0, k)) <= digits_value(s),
    decreases s.len() - k,
{
    if k < s.len() {
        lemma_digits_value_prefix(s, k + 1);
        assert(s.subrange(0, k + 1).drop_last() =~= s.subrange(0, k));
    } else {
        assert(s.subrange(0, k) =~= s);
    }
}

pub fn is_digit_exec(c: char) -> (r: bool)
    ensures
        r == is_digit(c),
{
    '0' <= c && c <= '9'
}

fn digit_value_exec(c: char) -> (r: u64)
    requires
        is_digit(c),
    ensures
        r == digit_value(c),
        r < 10,
{
    (c as u32 - '0' as u32) as u64
}

fn digit_char_exec(d: u64) -> (r: char)
    requires
        d < 10,
    ensures
        r == digit_char(d as nat),
{
    if d == 0 {
        '0'
    } else if d == 1 {
        '1'
    } else if d == 2 {
        '2'
    } else if d == 3 {
        '3'
    } else if d == 4 {
        '4'
    } else if d == 5 {
        '5'
    } else if d == 6 {
        '6'
    } else if d == 7 {
        '7'
    } else if d == 8 {
        '8'
    } else {
        '9'
    }
}

/// The decimal digits of `n`.
pub fn dec_exec(n: u64) -> (r: Vec<char>)
    ensures
        r@ == dec(n as nat),
    decreases n,
{
    if n < 10 {
        vec![digit_char_exec(n)]
    } else {
        let mut v = dec_exec(n / 10);
        v.push(digit_char_exec(n % 10));
        v
    }
}

/// Reads `s[from..to]` as an unsigned integer of at most `max`.
pub fn parse_uint(s: &Vec<char>, from: usize, to: usize, max: u64) -> (r: Option<u64>)
    requires
        from <= to <= s.len(),
    ensures
        r == (match uint_upto(s@.subrange(from as int, to as int), max as nat) {
            Some(v) => Some(v as u64),
            None => None::<u64>,
        }),
{
    let ghost t = s@.subrange(from as int, to as int);
    let mut start = from;
    if from < to && s[from] == '+' {
        start = from + 1;
    }
    let ghost d = s@.subrange(start as int, to as int);
    assert(d =~= (if t.len() > 0 && t[0] == '+' {
        t.subrange(1, t.len() as int)
    } else {
        t
    }));
    if start == to {
        return None;
    }
    let mut val: u64 = 0;
    let mut over = false;
    let mut i = start;
    while i < to
        invariant
            from <= start <= i <= to <= s.len(),
            d == s@.subrange(start as int, to as int),
            t == s@.subrange(from as int, to as int),
            d == (if t.len() > 0 && t[0] == '+' {
                t.subrange(1, t.len() as int)
            } else {
                t
            }),
            forall|j: int| start <= j < i ==> is_digit(#[trigger] s@[j]),
            !over ==> val as nat == digits_value(s@.subrange(start as int, i as int)),
            over ==> digits_value(s@.subrange(start as int, i as int)) > max,
        decreases to - i,
    {
        let c = s[i];
        if !is_digit_exec(c) {
            assert(d[i - start] == c);
            assert(!is_digit(d[(i - start) as int]));
            return None;
        }
        let dv = digit_value_exec(c);
        let ghost pre = s@.subrange(start as int, i as int);
        assert(s@.subrange(start as int, i + 1).drop_last() =~= pre);
        if !over {
            if dv > max || val > (max - dv) / 10 {
                over = true;
                assert(val * 10 + dv > max) by (nonlinear_arith)
                    requires
                        dv > max || val > (max - dv) / 10,
                        dv < 10,
                ;
            } else {
                assert(val * 10 + dv <= max) by (nonlinear_arith)
                    requires
                        val <= (max - dv) / 10,
                        dv <= max,
                ;
                val = val * 10 + dv;
            }
        } else {
            assert(digits_value(pre) * 10 + dv >= digits_value(pre)) by (nonlinear_arith);
        }
        i = i + 1;
    }
    assert(s@.subrange(start as int, to as int) =~= d);
    assert(all_digits(d)) by {
        assert forall|j: int| 0 <= j < d.len() implies is_digit(#[trigger] d[j]) by {
            assert(d[j] == s@[start + j]);
        }
    }
    if over {
        None
    } else if val > max {
        None
    } else {
        Some(val)
    }
}

// ---------------------------------------------------------------------------
// Vectors of strings
// ---------------------------------------------------------------------------

pub open spec fn sviews(v: Seq<String>) -> Seq<Seq<char>> {
    v.map_values(|x: String| x@)
}

pub fn strings_of(v: &Vec<Vec<char>>) -> (r: Vec<String>)
    ensures
        sviews(r@) == views(v@),
{
    let mut out: Vec<String> = Vec::new();
    let mut i: usize = 0;
    while i < v.len()
        invariant
            i <= v.len(),
            sviews(out@) == views(v@).subrange(0, i as int),
        decreases v.len() - i,
    {
        let ghost before = out@;
        let x = string_of(&v[i]);
        out.push(x);
        assert(sviews(out@) =~= sviews(before).push(x@));
        assert(views(v@).subrange(0, i + 1) =~= views(v@).subrange(0, i as int).push(v@[i as int]@));
        assert(sviews(out@) =~= views(v@).subrange(0, i + 1));
        i = i + 1;
    }
    assert(views(v@).subrange(0, v.len() as int) =~= views(v@));
    out
}

pub fn chars_of_strings(v: &Vec<String>) -> (r: Vec<Vec<char>>)
    ensures
        views(r@) == sviews(v@),
{
    let mut out: Vec<Vec<char>> = Vec::new();
    let mut i: usize = 0;
    while i < v.len()
        invariant
            i <= v.len(),
            views(out@) == sviews(v@).subrange(0, i as int),
        decreases v.len() - i,
    {
        let ghost before = out@;
        let x = chars_of(v[i].as_str());
        out.push(x);
        assert(views(out@) =~= views(before).push(x@));
        assert(sviews(v@).subrange(0, i + 1) =~= sviews(v@).subrange(0, i as int).push(v@[i as int]@));
        assert(views(out@) =~= sviews(v@).subrange(0, i + 1));
        i = i + 1;
    }
    assert(sviews(v@).subrange(0, v.len() as int) =~= sviews(v@));
    out
}

/// The strings with `sep` between them.
pub fn join_strings(v: &Vec<String>, sep: char) -> (r: Vec<char>)
    ensures
        r@ == join(sviews(v@), sep),
{
    let cs = chars_of_strings(v);
    join_exec(&cs, sep)
}

} // verus!
