use vstd::prelude::*;

use crate::error::MpdError;
use crate::text::{
    all_digits, append_chars, chars_of, dec, dec_exec, digit_value, digits_value, is_digit,
    is_digit_exec, lemma_dec, parse_uint, string_of, uint_of, uint_upto,
};

verus! {

// ---------------------------------------------------------------------------
// Grammar
// ---------------------------------------------------------------------------

/// The number of digits at the start of `s`.
pub open spec fn digit_run_len(s: Seq<char>) -> nat
    decreases s.len(),
{
    if s.len() > 0 && is_digit(s[0]) {
        1 + digit_run_len(s.subrange(1, s.len() as int))
    } else {
        0
    }
}

/// An integer component `digits unit` at the start of `s`: its value and
/// what follows, or `None` and `s` itself.
pub open spec fn take_int(s: Seq<char>, unit: char) -> (Option<nat>, Seq<char>) {
    let k = digit_run_len(s);
    if k > 0 && k < s.len() && s[k as int] == unit {
        (Some(digits_value(s.subrange(0, k as int))), s.subrange((k + 1) as int, s.len() as int))
    } else {
        (None, s)
    }
}

pub open spec fn zeros(n: nat) -> Seq<char> {
    Seq::new(n, |i: int| '0')
}

/// A fraction's digits cut or padded to nine places.
pub open spec fn pad9(f: Seq<char>) -> Seq<char> {
    if f.len() >= 9 {
        f.subrange(0, 9)
    } else {
        f + zeros((9 - f.len()) as nat)
    }
}

/// The seconds component `digits[.digits]S` at the start of `s`: whole
/// seconds and nanoseconds (further places are dropped), and what follows.
pub open spec fn take_secs(s: Seq<char>) -> (Option<(nat, nat)>, Seq<char>) {
    let k = digit_run_len(s);
    if k == 0 || k >= s.len() {
        (None, s)
    } else if s[k as int] == 'S' {
        (Some((digits_value(s.subrange(0, k as int)), 0)), s.subrange((k + 1) as int, s.len() as int))
    } else if s[k as int] == '.' {
        let f = s.subrange((k + 1) as int, s.len() as int);
        let j = digit_run_len(f);
        if j > 0 && j < f.len() && f[j as int] == 'S' {
            (
                Some(
                    (
                        digits_value(s.subrange(0, k as int)),
                        digits_value(pad9(f.subrange(0, j as int))),
                    ),
                ),
                f.subrange((j + 1) as int, f.len() as int),
            )
        } else {
            (None, s)
        }
    } else {
        (None, s)
    }
}

pub open spec fn or_zero(o: Option<nat>) -> nat {
    match o {
        Some(v) => v,
        None => 0,
    }
}

/// The date components `[nY][nM][nD]` at the start of `b`: their seconds
/// (years count 365 days, months 30), whether any is there, and what
/// follows.
pub open spec fn date_of(b: Seq<char>) -> (nat, bool, Seq<char>) {
    let (y, b1) = take_int(b, 'Y');
    let (mo, b2) = take_int(b1, 'M');
    let (d, b3) = take_int(b2, 'D');
    (
        or_zero(y) * 31_536_000 + or_zero(mo) * 2_592_000 + or_zero(d) * 86_400,
        y is Some || mo is Some || d is Some,
        b3,
    )
}

/// The time components `[nH][nM][n[.f]S]`, at least one, making up all of
/// `t`: whole seconds and nanoseconds.
#[verifier::opaque]
pub open spec fn time_of(t: Seq<char>) -> Option<(nat, nat)> {
    let (h, t1) = take_int(t, 'H');
    let (mi, t2) = take_int(t1, 'M');
    let (sec, t3) = take_secs(t2);
    if t3.len() == 0 && (h is Some || mi is Some || sec is Some) {
        let (ws, ns) = match sec {
            Some(p) => p,
            None => (0, 0),
        };
        Some((or_zero(h) * 3600 + or_zero(mi) * 60 + ws, ns))
    } else {
        None
    }
}

/// `[-]P[nY][nM][nD][T[nH][nM][n[.f]S]]` with at least one component, and
/// at least one after `T` when `T` is there: the sign, the whole seconds
/// and the nanoseconds.
pub open spec fn duration_fields(s: Seq<char>) -> Option<(bool, nat, nat)> {
    let neg = s.len() > 0 && s[0] == '-';
    let r = if neg {
        s.subrange(1, s.len() as int)
    } else {
        s
    };
    if !(r.len() > 0 && r[0] == 'P') {
        None
    } else {
        let (date, any_date, b3) = date_of(r.subrange(1, r.len() as int));
        if b3.len() == 0 {
            if any_date {
                Some((neg, date, 0))
            } else {
                None
            }
        } else if b3[0] == 'T' {
            match time_of(b3.subrange(1, b3.len() as int)) {
                Some((ts, ns)) => Some((neg, date + ts, ns)),
                None => None,
            }
        } else {
            None
        }
    }
}

/// A duration text, where the whole seconds fit in a `u64`.
pub open spec fn duration_parse(s: Seq<char>) -> Option<(bool, nat, nat)> {
    match duration_fields(s) {
        Some(m) => if m.1 <= u64::MAX {
            Some(m)
        } else {
            None
        },
        None => None,
    }
}

/// `s` without its trailing zeros.
pub open spec fn strip_zeros(s: Seq<char>) -> Seq<char>
    decreases s.len(),
{
    if s.len() > 0 && s.last() == '0' {
        strip_zeros(s.drop_last())
    } else {
        s
    }
}

/// The fraction digits of `n` nanoseconds, without trailing zeros.
pub open spec fn frac_text(n: nat) -> Seq<char> {
    strip_zeros(zeros((9 - dec(n).len()) as nat) + dec(n))
}

/// The seconds part `s[.f]S`: written where it is not zero, and as `0S`
/// where the hours and minutes are zero too.
pub open spec fn secs_part(h: nat, mi: nat, sec: nat, nanos: nat) -> Seq<char> {
    if nanos != 0 {
        dec(sec) + seq!['.'] + frac_text(nanos) + seq!['S']
    } else if sec != 0 || (h == 0 && mi == 0) {
        dec(sec) + seq!['S']
    } else {
        Seq::empty()
    }
}

/// `[hH][mM][s[.f]S]`, writing only the non-zero parts, and `0S` for zero.
#[verifier::opaque]
pub open spec fn time_text(h: nat, mi: nat, sec: nat, nanos: nat) -> Seq<char> {
    let hp: Seq<char> = if h != 0 {
        dec(h) + seq!['H']
    } else {
        Seq::empty()
    };
    let mp: Seq<char> = if mi != 0 {
        dec(mi) + seq!['M']
    } else {
        Seq::empty()
    };
    let sp = secs_part(h, mi, sec, nanos);
    hp + mp + sp
}

/// `[-]PT[hH][mM][s[.f]S]`, writing only the non-zero parts; zero is
/// `PT0S`.
pub open spec fn duration_text(m: (bool, nat, nat)) -> Seq<char> {
    let head: Seq<char> = if m.0 {
        seq!['-', 'P', 'T']
    } else {
        seq!['P', 'T']
    };
    head + time_text(m.1 / 3600, (m.1 % 3600) / 60, m.1 % 60, m.2)
}

pub open spec fn duration_wf(m: (bool, nat, nat)) -> bool {
    m.1 <= u64::MAX && m.2 < 1_000_000_000
}

// ---------------------------------------------------------------------------
// Lemmas
// ---------------------------------------------------------------------------

pub proof fn lemma_digit_run_len(s: Seq<char>)
    ensures
        digit_run_len(s) <= s.len(),
        all_digits(s.subrange(0, digit_run_len(s) as int)),
        digit_run_len(s) < s.len() ==> !is_digit(s[digit_run_len(s) as int]),
    decreases s.len(),
{
    if s.len() > 0 && is_digit(s[0]) {
        let t = s.subrange(1, s.len() as int);
        lemma_digit_run_len(t);
        let k = digit_run_len(s);
        assert forall|i: int| 0 <= i < k implies is_digit(
            #[trigger] s.subrange(0, k as int)[i],
        ) by {
            if i > 0 {
                assert(s.subrange(0, k as int)[i] == t.subrange(0, k - 1)[i - 1]);
            }
        }
        if k < s.len() {
            assert(s[k as int] == t[k - 1]);
        }
    }
}

/// The digit run at the start of `a + [c] + b`, where `a` is digits and `c`
/// is not, is `a`.
pub proof fn lemma_digit_run_prefix(a: Seq<char>, c: char, b: Seq<char>)
    requires
        all_digits(a),
        !is_digit(c),
    ensures
        digit_run_len(a + seq![c] + b) == a.len(),
    decreases a.len(),
{
    let s = a + seq![c] + b;
    if a.len() > 0 {
        let a1 = a.subrange(1, a.len() as int);
        assert(s.subrange(1, s.len() as int) =~= a1 + seq![c] + b);
        assert(is_digit(a[0]));
        lemma_digit_run_prefix(a1, c, b);
    } else {
        assert(s[0] == c);
    }
}

pub proof fn lemma_take_int_hit(n: nat, unit: char, rest: Seq<char>)
    requires
        !is_digit(unit),
    ensures
        take_int(dec(n) + seq![unit] + rest, unit) == (Some(n), rest),
{
    lemma_dec(n);
    let s = dec(n) + seq![unit] + rest;
    lemma_digit_run_prefix(dec(n), unit, rest);
    assert(s.subrange(0, dec(n).len() as int) =~= dec(n));
    assert(s.subrange((dec(n).len() + 1) as int, s.len() as int) =~= rest);
}

pub proof fn lemma_take_int_miss(n: nat, c: char, rest: Seq<char>, unit: char)
    requires
        !is_digit(c),
        c != unit,
    ensures
        take_int(dec(n) + seq![c] + rest, unit) == (None::<nat>, dec(n) + seq![c] + rest),
{
    lemma_dec(n);
    lemma_digit_run_prefix(dec(n), c, rest);
}

pub proof fn lemma_take_int_none(s: Seq<char>, unit: char)
    requires
        s.len() == 0 || !is_digit(s[0]),
    ensures
        take_int(s, unit) == (None::<nat>, s),
{
}

pub proof fn lemma_zeros_value(j: nat, d: Seq<char>)
    ensures
        digits_value(zeros(j) + d) == digits_value(d),
    decreases d.len(), j,
{
    if d.len() > 0 {
        lemma_zeros_value(j, d.drop_last());
        assert((zeros(j) + d).drop_last() =~= zeros(j) + d.drop_last());
    } else if j > 0 {
        lemma_zeros_value((j - 1) as nat, d);
        assert((zeros(j) + d).drop_last() =~= zeros((j - 1) as nat) + d);
        assert(zeros(j) + d =~= zeros(j));
        assert(digit_value('0') == 0);
    } else {
        assert(zeros(j) + d =~= Seq::<char>::empty());
    }
}

pub open spec fn pow10(k: nat) -> nat
    decreases k,
{
    if k == 0 {
        1
    } else {
        10 * pow10((k - 1) as nat)
    }
}

pub proof fn lemma_dec_len_bound(n: nat, k: nat)
    requires
        k >= 1,
        n < pow10(k),
    ensures
        dec(n).len() <= k,
    decreases n,
{
    if n >= 10 {
        assert(k >= 2) by {
            if k == 1 {
                assert(pow10(0) == 1);
            }
        }
        assert(n / 10 < pow10((k - 1) as nat));
        lemma_dec_len_bound(n / 10, (k - 1) as nat);
    }
}

/// `strip_zeros(x)` is a prefix of `x` followed only by zeros.
pub proof fn lemma_strip_zeros(x: Seq<char>)
    ensures
        strip_zeros(x).len() <= x.len(),
        strip_zeros(x) == x.subrange(0, strip_zeros(x).len() as int),
        forall|i: int| strip_zeros(x).len() <= i < x.len() ==> #[trigger] x[i] == '0',
        strip_zeros(x).len() > 0 ==> strip_zeros(x).last() != '0',
    decreases x.len(),
{
    if x.len() > 0 && x.last() == '0' {
        lemma_strip_zeros(x.drop_last());
        let k = strip_zeros(x).len();
        assert(x.drop_last().subrange(0, k as int) =~= x.subrange(0, k as int));
        assert forall|i: int| k <= i < x.len() implies #[trigger] x[i] == '0' by {
            if i < x.len() - 1 {
                assert(x[i] == x.drop_last()[i]);
            }
        }
    } else {
        assert(x.subrange(0, x.len() as int) =~= x);
    }
}

/// Reading back the fraction digits gives the nanoseconds.
pub proof fn lemma_frac_round_trip(n: nat)
    requires
        0 < n < 1_000_000_000,
    ensures
        frac_text(n).len() >= 1,
        all_digits(frac_text(n)),
        digits_value(pad9(frac_text(n))) == n,
{
    lemma_dec(n);
    reveal_with_fuel(pow10, 10);
    assert(pow10(9) == 1_000_000_000);
    lemma_dec_len_bound(n, 9);
    let x = zeros((9 - dec(n).len()) as nat) + dec(n);
    assert(x.len() == 9);
    lemma_strip_zeros(x);
    let t = strip_zeros(x);
    assert(all_digits(x)) by {
        assert forall|i: int| 0 <= i < x.len() implies is_digit(#[trigger] x[i]) by {
            if i >= 9 - dec(n).len() {
                assert(x[i] == dec(n)[i - (9 - dec(n).len())]);
            }
        }
    }
    assert(all_digits(t)) by {
        assert forall|i: int| 0 <= i < t.len() implies is_digit(#[trigger] t[i]) by {
            assert(t[i] == x[i]);
        }
    }
    lemma_zeros_value((9 - dec(n).len()) as nat, dec(n));
    if t.len() == 0 {
        assert forall|i: int| 0 <= i < x.len() implies #[trigger] x[i] == '0' by {}
        assert(x =~= zeros(9));
        lemma_zeros_value(9, Seq::empty());
        assert(zeros(9) + Seq::<char>::empty() =~= zeros(9));
        assert(false);
    }
    assert(pad9(t) =~= x);
}

/// The seconds part of a formatted duration is read back.
pub proof fn lemma_take_secs(sec: nat, nanos: nat)
    requires
        nanos < 1_000_000_000,
    ensures
        ({
            let sp = if nanos != 0 {
                dec(sec) + seq!['.'] + frac_text(nanos) + seq!['S']
            } else {
                dec(sec) + seq!['S']
            };
            take_secs(sp) == (Some((sec, nanos)), Seq::<char>::empty())
        }),
{
    lemma_dec(sec);
    if nanos != 0 {
        let f = frac_text(nanos);
        lemma_frac_round_trip(nanos);
        let sp = dec(sec) + seq!['.'] + f + seq!['S'];
        lemma_digit_run_prefix(dec(sec), '.', f + seq!['S']);
        assert(sp =~= dec(sec) + seq!['.'] + (f + seq!['S']));
        let k = dec(sec).len();
        let ff = sp.subrange((k + 1) as int, sp.len() as int);
        assert(ff =~= f + seq!['S'] + Seq::<char>::empty());
        lemma_digit_run_prefix(f, 'S', Seq::empty());
        assert(sp.subrange(0, k as int) =~= dec(sec));
        assert(ff.subrange(0, f.len() as int) =~= f);
        assert(ff.subrange((f.len() + 1) as int, ff.len() as int) =~= Seq::<char>::empty());
    } else {
        let sp = dec(sec) + seq!['S'];
        lemma_digit_run_prefix(dec(sec), 'S', Seq::empty());
        assert(sp =~= dec(sec) + seq!['S'] + Seq::<char>::empty());
        assert(sp.subrange(0, dec(sec).len() as int) =~= dec(sec));
        assert(sp.subrange((dec(sec).len() + 1) as int, sp.len() as int) =~= Seq::<char>::empty());
    }
}

/// The time part of a formatted duration is read back.
#[verifier::rlimit(100)]
pub proof fn lemma_time_of_text(h: nat, mi: nat, sec: nat, nanos: nat)
    requires
        nanos < 1_000_000_000,
    ensures
        time_of(time_text(h, mi, sec, nanos)) == Some((h * 3600 + mi * 60 + sec, nanos)),
{
    reveal(time_of);
    reveal(time_text);
    let hp: Seq<char> = if h != 0 {
        dec(h) + seq!['H']
    } else {
        Seq::empty()
    };
    let mp: Seq<char> = if mi != 0 {
        dec(mi) + seq!['M']
    } else {
        Seq::empty()
    };
    let sp = secs_part(h, mi, sec, nanos);
    lemma_sp_misses(h, mi, sec, nanos, 'M');
    lemma_sp_misses(h, mi, sec, nanos, 'H');
    if sp.len() > 0 {
        lemma_take_secs(sec, nanos);
    }
    if mi != 0 {
        lemma_take_int_hit(mi, 'M', sp);
        assert(mp + sp =~= dec(mi) + seq!['M'] + sp);
    } else {
        assert(mp + sp =~= sp);
    }
    if h != 0 {
        lemma_take_int_hit(h, 'H', mp + sp);
        assert(hp + mp + sp =~= dec(h) + seq!['H'] + (mp + sp));
    } else {
        assert(hp + mp + sp =~= mp + sp);
        if mi != 0 {
            lemma_take_int_miss(mi, 'M', sp, 'H');
        }
    }
}

/// The seconds part of a formatted duration is no `H` or `M` component.
pub proof fn lemma_sp_misses(h: nat, mi: nat, sec: nat, nanos: nat, unit: char)
    requires
        unit == 'H' || unit == 'M',
    ensures
        take_int(secs_part(h, mi, sec, nanos), unit) == (None::<nat>, secs_part(h, mi, sec, nanos)),
{
    if nanos != 0 {
        let sp = dec(sec) + seq!['.'] + frac_text(nanos) + seq!['S'];
        assert(sp =~= dec(sec) + seq!['.'] + (frac_text(nanos) + seq!['S']));
        lemma_take_int_miss(sec, '.', frac_text(nanos) + seq!['S'], unit);
    } else if sec != 0 || (h == 0 && mi == 0) {
        let sp = dec(sec) + seq!['S'];
        assert(sp =~= dec(sec) + seq!['S'] + Seq::<char>::empty());
        lemma_take_int_miss(sec, 'S', Seq::<char>::empty(), unit);
    }
}

pub proof fn lemma_duration_round_trip(m: (bool, nat, nat))
    requires
        duration_wf(m),
    ensures
        duration_parse(duration_text(m)) == Some(m),
{
    let h = m.1 / 3600;
    let mi = (m.1 % 3600) / 60;
    let sec = m.1 % 60;
    let tt = time_text(h, mi, sec, m.2);
    let s = duration_text(m);
    let r = if m.0 {
        s.subrange(1, s.len() as int)
    } else {
        s
    };
    assert(r =~= seq!['P', 'T'] + tt);
    let b = r.subrange(1, r.len() as int);
    assert(b =~= seq!['T'] + tt);
    lemma_take_int_none(b, 'Y');
    lemma_take_int_none(b, 'M');
    lemma_take_int_none(b, 'D');
    assert(b.subrange(1, b.len() as int) =~= tt);
    lemma_hms(m.1);
    lemma_time_of_text(h, mi, sec, m.2);
}

pub proof fn lemma_hms(x: nat)
    ensures
        x == (x / 3600) * 3600 + ((x % 3600) / 60) * 60 + x % 60,
        (x / 3600) != 0 || ((x % 3600) / 60) != 0 || x % 60 != 0 || x == 0,
{
    vstd::arithmetic::div_mod::lemma_fundamental_div_mod(x as int, 3600);
    vstd::arithmetic::div_mod::lemma_fundamental_div_mod((x % 3600) as int, 60);
    assert(x % 60 == (x % 3600) % 60) by {
        vstd::arithmetic::div_mod::lemma_mod_mod(x as int, 60, 60);
    }
}

// ---------------------------------------------------------------------------
// XsDuration
// ---------------------------------------------------------------------------

/// xs:duration: a signed span of whole seconds and nanoseconds.
#[derive(Debug, Default, Clone, Copy, PartialEq, Eq, Hash)]
pub struct XsDuration {
    secs: u64,
    nanos: u32,
    is_negative: bool,
}

/// The digit run of `s` starting at `from`, as an end position.
fn digit_run_end(s: &Vec<char>, from: usize) -> (r: usize)
    requires
        from <= s.len(),
    ensures
        from <= r <= s.len(),
        r - from == digit_run_len(s@.subrange(from as int, s.len() as int)),
{
    let mut i = from;
    while i < s.len() && is_digit_exec(s[i])
        invariant
            from <= i <= s.len(),
            digit_run_len(s@.subrange(from as int, s.len() as int)) == (i - from)
                + digit_run_len(s@.subrange(i as int, s.len() as int)),
        decreases s.len() - i,
    {
        assert(s@.subrange(i as int, s.len() as int).subrange(1, s.len() - i) =~= s@.subrange(
            i + 1,
            s.len() as int,
        ));
        i = i + 1;
    }
    if i < s.len() {
        assert(s@.subrange(i as int, s.len() as int)[0] == s@[i as int]);
    }
    i
}

/// The result of reading one component: absent, present with a value that
/// fits a `u64`, or present with a larger one.
enum Component {
    Absent,
    Value(u64),
    TooLarge,
}

spec fn component_matches(c: Component, o: Option<nat>) -> bool {
    match c {
        Component::Absent => o is None,
        Component::Value(v) => o == Some(v as nat),
        Component::TooLarge => o matches Some(v) && v > u64::MAX,
    }
}

/// `take_int` on `s[pos..]`, giving the new position.
fn take_int_exec(s: &Vec<char>, pos: usize, unit: char) -> (r: (Component, usize))
    requires
        pos <= s.len(),
        !is_digit(unit),
    ensures
        pos <= r.1 <= s.len(),
        component_matches(r.0, take_int(s@.subrange(pos as int, s.len() as int), unit).0),
        take_int(s@.subrange(pos as int, s.len() as int), unit).1 == s@.subrange(
            r.1 as int,
            s.len() as int,
        ),
{
    let ghost t = s@.subrange(pos as int, s.len() as int);
    let e = digit_run_end(s, pos);
    if e > pos && e < s.len() && s[e] == unit {
        proof {
            lemma_digit_run_len(t);
        }
        assert(t[e - pos] == s@[e as int]);
        assert(t.subrange(0, e - pos) =~= s@.subrange(pos as int, e as int));
        assert(t.subrange(e - pos + 1, t.len() as int) =~= s@.subrange(e + 1, s.len() as int));
        let ghost digits = s@.subrange(pos as int, e as int);
        assert(uint_of(digits) == Some(digits_value(digits))) by {
            assert(digits.len() > 0);
            assert(digits[0] != '+') by {
                assert(is_digit(t.subrange(0, e - pos)[0]));
            }
        }
        let c = match parse_uint(s, pos, e, u64::MAX) {
            Some(v) => Component::Value(v),
            None => Component::TooLarge,
        };
        (c, e + 1)
    } else {
        (Component::Absent, pos)
    }
}

/// Nine fraction places of `s[from..to]`, padded with zeros.
fn nanos_of(s: &Vec<char>, from: usize, to: usize) -> (r: u64)
    requires
        from <= to <= s.len(),
        all_digits(s@.subrange(from as int, to as int)),
    ensures
        r as nat == digits_value(pad9(s@.subrange(from as int, to as int))),
        r < 1_000_000_000,
{
    let ghost f = s@.subrange(from as int, to as int);
    let ghost p = pad9(f);
    let mut acc: u64 = 0;
    let mut i: usize = 0;
    assert(p.subrange(0, 0) =~= Seq::<char>::empty());
    while i < 9
        invariant
            i <= 9,
            from <= to <= s.len(),
            f == s@.subrange(from as int, to as int),
            p == pad9(f),
            p.len() == 9,
            all_digits(f),
            acc as nat == digits_value(p.subrange(0, i as int)),
            acc < pow10(i as nat),
        decreases 9 - i,
    {
        let d: u64 = if i < to - from {
            assert(p[i as int] == f[i as int]);
            let c = s[from + i];
            assert(is_digit(f[i as int]));
            (c as u32 - '0' as u32) as u64
        } else {
            assert(p[i as int] == '0');
            0
        };
        assert(d as nat == digit_value(p[i as int]));
        assert(d < 10);
        assert(p.subrange(0, i + 1).drop_last() =~= p.subrange(0, i as int));
        assert(acc * 10 + d < pow10((i + 1) as nat)) by (nonlinear_arith)
            requires
                acc < pow10(i as nat),
                d < 10,
                pow10((i + 1) as nat) == 10 * pow10(i as nat),
        ;
        assert(pow10(10) == 10_000_000_000) by {
            reveal_with_fuel(pow10, 11);
        }
        assert(pow10((i + 1) as nat) <= pow10(10)) by {
            lemma_pow10_mono((i + 1) as nat, 10);
        }
        acc = acc * 10 + d;
        i = i + 1;
    }
    assert(p.subrange(0, 9) =~= p);
    reveal_with_fuel(pow10, 10);
    assert(pow10(9) == 1_000_000_000);
    acc
}

pub proof fn lemma_pow10_mono(a: nat, b: nat)
    requires
        a <= b,
    ensures
        pow10(a) <= pow10(b),
    decreases b,
{
    if a < b {
        lemma_pow10_mono(a, (b - 1) as nat);
    }
}

/// `take_secs` on `s[pos..]`.
fn take_secs_exec(s: &Vec<char>, pos: usize) -> (r: (Component, u64, usize))
    requires
        pos <= s.len(),
    ensures
        pos <= r.2 <= s.len(),
        component_matches(
            r.0,
            match take_secs(s@.subrange(pos as int, s.len() as int)).0 {
                Some(p) => Some(p.0),
                None => None,
            },
        ),
        take_secs(s@.subrange(pos as int, s.len() as int)).0 matches Some(p) ==> p.1 == r.1 as nat,
        r.1 < 1_000_000_000,
        take_secs(s@.subrange(pos as int, s.len() as int)).1 == s@.subrange(
            r.2 as int,
            s.len() as int,
        ),
{
    let ghost t = s@.subrange(pos as int, s.len() as int);
    let e = digit_run_end(s, pos);
    proof {
        lemma_digit_run_len(t);
    }
    if e == pos || e >= s.len() {
        return (Component::Absent, 0, pos);
    }
    assert(t[e - pos] == s@[e as int]);
    assert(t.subrange(0, e - pos) =~= s@.subrange(pos as int, e as int));
    let ghost digits = s@.subrange(pos as int, e as int);
    assert(uint_of(digits) == Some(digits_value(digits))) by {
        assert(digits.len() > 0);
        assert(is_digit(t.subrange(0, e - pos)[0]));
    }
    let whole = match parse_uint(s, pos, e, u64::MAX) {
        Some(v) => Component::Value(v),
        None => Component::TooLarge,
    };
    if s[e] == 'S' {
        assert(t.subrange(e - pos + 1, t.len() as int) =~= s@.subrange(e + 1, s.len() as int));
        (whole, 0, e + 1)
    } else if s[e] == '.' {
        let ghost f = t.subrange(e - pos + 1, t.len() as int);
        assert(f =~= s@.subrange(e + 1, s.len() as int));
        let e2 = digit_run_end(s, e + 1);
        proof {
            lemma_digit_run_len(f);
        }
        if e2 > e + 1 && e2 < s.len() && s[e2] == 'S' {
            assert(f[e2 - e - 1] == s@[e2 as int]);
            assert(f.subrange(0, e2 - e - 1) =~= s@.subrange(e + 1, e2 as int));
            assert(f.subrange(e2 - e, f.len() as int) =~= s@.subrange(e2 + 1, s.len() as int));
            let n = nanos_of(s, e + 1, e2);
            (whole, n, e2 + 1)
        } else {
            (Component::Absent, 0, pos)
        }
    } else {
        (Component::Absent, 0, pos)
    }
}

/// Adds `mult` times a component to a running total of seconds; the flag
/// says the total is past `u64::MAX`.
fn add_component(total: u64, big: bool, c: &Component, mult: u64, Ghost(t): Ghost<nat>, Ghost(
    o,
): Ghost<Option<nat>>) -> (r: (u64, bool))
    requires
        component_matches(*c, o),
        1 <= mult <= 31_536_000,
        !big ==> total as nat == t,
        big ==> t > u64::MAX,
    ensures
        !r.1 ==> r.0 as nat == t + or_zero(o) * mult,
        r.1 ==> t + or_zero(o) * mult > u64::MAX,
{
    if big {
        assert(t + or_zero(o) * mult >= t) by (nonlinear_arith);
        return (total, true);
    }
    match c {
        Component::Absent => {
            assert(or_zero(o) == 0);
            (total, false)
        },
        Component::TooLarge => {
            assert(or_zero(o) * mult >= or_zero(o)) by (nonlinear_arith)
                requires
                    mult >= 1,
            ;
            (total, true)
        },
        Component::Value(v) => {
            assert((*v as u128) * (mult as u128) <= 0xffff_ffff_ffff_ffffu128 * 31_536_000u128)
                by (nonlinear_arith)
                requires
                    mult <= 31_536_000,
            ;
            let sum: u128 = total as u128 + (*v as u128) * (mult as u128);
            if sum > u64::MAX as u128 {
                (total, true)
            } else {
                (sum as u64, false)
            }
        },
    }
}

/// `date_of` on `s[pos..]`: the seconds, whether they pass `u64::MAX`,
/// whether any component is there, and the position after them.
fn date_exec(s: &Vec<char>, pos: usize) -> (r: (u64, bool, bool, usize))
    requires
        pos <= s.len(),
    ensures
        pos <= r.3 <= s.len(),
        ({
            let (date, any, rest) = date_of(s@.subrange(pos as int, s.len() as int));
            &&& !r.1 ==> r.0 as nat == date
            &&& r.1 ==> date > u64::MAX
            &&& r.2 == any
            &&& rest == s@.subrange(r.3 as int, s.len() as int)
        }),
{
    let ghost b = s@.subrange(pos as int, s.len() as int);
    let (y, after_y) = take_int_exec(s, pos, 'Y');
    let (mo, after_m) = take_int_exec(s, after_y, 'M');
    let (d, after_d) = take_int_exec(s, after_m, 'D');
    let ghost oy = take_int(b, 'Y').0;
    let ghost omo = take_int(take_int(b, 'Y').1, 'M').0;
    let ghost od = take_int(take_int(take_int(b, 'Y').1, 'M').1, 'D').0;
    let (t1, b1) = add_component(0, false, &y, 31_536_000, Ghost(0), Ghost(oy));
    let (t2, b2) = add_component(t1, b1, &mo, 2_592_000, Ghost(or_zero(oy) * 31_536_000), Ghost(omo));
    let (t3, b3) = add_component(
        t2,
        b2,
        &d,
        86_400,
        Ghost(or_zero(oy) * 31_536_000 + or_zero(omo) * 2_592_000),
        Ghost(od),
    );
    let any = !matches!(y, Component::Absent) || !matches!(mo, Component::Absent)
        || !matches!(d, Component::Absent);
    (t3, b3, any, after_d)
}

/// `time_of` on `s[pos..]`: the seconds, whether they pass `u64::MAX`, and
/// the nanoseconds.
fn time_exec(s: &Vec<char>, pos: usize) -> (r: Option<(u64, bool, u64)>)
    requires
        pos <= s.len(),
    ensures
        match time_of(s@.subrange(pos as int, s.len() as int)) {
            Some((ts, ns)) => r matches Some((v, big, n)) && (!big ==> v as nat == ts) && (big
                ==> ts > u64::MAX) && n as nat == ns && n < 1_000_000_000,
            None => r is None,
        },
{
    reveal(time_of);
    let ghost t = s@.subrange(pos as int, s.len() as int);
    let (h, q1) = take_int_exec(s, pos, 'H');
    let (mi, q2) = take_int_exec(s, q1, 'M');
    let (sec, ns, q3) = take_secs_exec(s, q2);
    if q3 != s.len() {
        return None;
    }
    if matches!(h, Component::Absent) && matches!(mi, Component::Absent)
        && matches!(sec, Component::Absent) {
        return None;
    }
    let ghost oh = take_int(t, 'H').0;
    let ghost omi = take_int(take_int(t, 'H').1, 'M').0;
    let ghost osec = take_secs(take_int(take_int(t, 'H').1, 'M').1).0;
    let ghost ows: Option<nat> = match osec {
        Some(p) => Some(p.0),
        None => None,
    };
    let (t1, b1) = add_component(0, false, &h, 3600, Ghost(0), Ghost(oh));
    let (t2, b2) = add_component(t1, b1, &mi, 60, Ghost(or_zero(oh) * 3600), Ghost(omi));
    let (t3, b3) = add_component(
        t2,
        b2,
        &sec,
        1,
        Ghost(or_zero(oh) * 3600 + or_zero(omi) * 60),
        Ghost(ows),
    );
    let n = if matches!(sec, Component::Absent) {
        0
    } else {
        ns
    };
    Some((t3, b3, n))
}

impl XsDuration {
    /// The sign, the whole seconds and the nanoseconds.
    pub closed spec fn view(&self) -> (bool, nat, nat) {
        (self.is_negative, self.secs as nat, self.nanos as nat)
    }

    /// A non-negative duration of `secs` seconds and `nanos` nanoseconds.
    pub fn new(secs: u64, nanos: u32) -> (r: XsDuration)
        requires
            nanos < 1_000_000_000,
        ensures
            r.view() == (false, secs as nat, nanos as nat),
    {
        XsDuration { secs, nanos, is_negative: false }
    }

    pub fn from_secs(secs: u64) -> (r: XsDuration)
        ensures
            r.view() == (false, secs as nat, 0nat),
    {
        XsDuration { secs, nanos: 0, is_negative: false }
    }

    pub fn as_secs(&self) -> (r: u64)
        ensures
            r as nat == self.view().1,
    {
        self.secs
    }

    pub fn subsec_nanos(&self) -> (r: u32)
        ensures
            r as nat == self.view().2,
    {
        self.nanos
    }

    pub fn is_negative(&self) -> (r: bool)
        ensures
            r == self.view().0,
    {
        self.is_negative
    }

    #[verifier::type_invariant]
    closed spec fn inv(&self) -> bool {
        self.nanos < 1_000_000_000
    }

    pub closed spec fn wf(&self) -> bool {
        self.nanos < 1_000_000_000
    }

    #[verifier::rlimit(100)]
    pub fn from_str(s: &str) -> (r: Result<XsDuration, MpdError>)
        ensures
            match duration_parse(s@) {
                Some(m) => r is Ok && r->Ok_0.view() == m && r->Ok_0.wf(),
                None => r matches Err(MpdError::UnmatchedPattern),
            },
    {
        let cs = chars_of(s);
        let n = cs.len();
        let neg = n > 0 && cs[0] == '-';
        let start: usize = if neg {
            1
        } else {
            0
        };
        let ghost r = cs@.subrange(start as int, n as int);
        assert(r =~= (if neg {
            s@.subrange(1, s@.len() as int)
        } else {
            s@
        }));
        if !(start < n && cs[start] == 'P') {
            return Err(MpdError::UnmatchedPattern);
        }
        assert(r.subrange(1, r.len() as int) =~= cs@.subrange(start + 1, n as int));
        let (date, big, any, after_d) = date_exec(&cs, start + 1);
        let ghost b3 = cs@.subrange(after_d as int, n as int);
        if after_d == n {
            if !any || big {
                return Err(MpdError::UnmatchedPattern);
            }
            return Ok(XsDuration { secs: date, nanos: 0, is_negative: neg });
        }
        if cs[after_d] != 'T' {
            return Err(MpdError::UnmatchedPattern);
        }
        assert(b3.subrange(1, b3.len() as int) =~= cs@.subrange(after_d + 1, n as int));
        match time_exec(&cs, after_d + 1) {
            Some((ts, tbig, ns)) => {
                if big || tbig || date as u128 + ts as u128 > u64::MAX as u128 {
                    return Err(MpdError::UnmatchedPattern);
                }
                Ok(XsDuration { secs: date + ts, nanos: ns as u32, is_negative: neg })
            },
            None => Err(MpdError::UnmatchedPattern),
        }
    }

    /// `[-]PT[hH][mM][s[.f]S]` with only the non-zero parts; a zero duration
    /// is `PT0S`.
    pub fn to_string(&self) -> (r: String)
        ensures
            r@ == duration_text(self.view()),
    {
        proof {
            use_type_invariant(self);
        }
        let mut out: Vec<char> = Vec::new();
        if self.is_negative {
            out.push('-');
        }
        out.push('P');
        out.push('T');
        let t = time_text_exec(self.secs / 3600, (self.secs % 3600) / 60, self.secs % 60, self.nanos);
        append_chars(&mut out, &t);
        assert(out@ =~= duration_text(self.view()));
        string_of(&out)
    }
}

/// `time_text` of the given parts.
fn time_text_exec(h: u64, mi: u64, sec: u64, nanos: u32) -> (r: Vec<char>)
    requires
        nanos < 1_000_000_000,
    ensures
        r@ == time_text(h as nat, mi as nat, sec as nat, nanos as nat),
{
    reveal(time_text);
    let mut hp: Vec<char> = Vec::new();
    if h != 0 {
        hp = dec_exec(h);
        hp.push('H');
    }
    let mut mp: Vec<char> = Vec::new();
    if mi != 0 {
        mp = dec_exec(mi);
        mp.push('M');
    }
    let mut sp: Vec<char> = Vec::new();
    if nanos != 0 {
        sp = dec_exec(sec);
        sp.push('.');
        let f = frac_exec(nanos);
        append_chars(&mut sp, &f);
        sp.push('S');
    } else if sec != 0 || (h == 0 && mi == 0) {
        sp = dec_exec(sec);
        sp.push('S');
    }
    let mut out = hp;
    append_chars(&mut out, &mp);
    append_chars(&mut out, &sp);
    out
}

/// The fraction digits of `n` nanoseconds, without trailing zeros.
fn frac_exec(n: u32) -> (r: Vec<char>)
    requires
        n < 1_000_000_000,
    ensures
        r@ == frac_text(n as nat),
{
    let d = dec_exec(n as u64);
    proof {
        reveal_with_fuel(pow10, 10);
    assert(pow10(9) == 1_000_000_000);
        lemma_dec_len_bound(n as nat, 9);
    }
    let mut out: Vec<char> = Vec::new();
    let mut i: usize = 0;
    let pad = 9 - d.len();
    while i < pad
        invariant
            pad == 9 - d@.len(),
            i <= pad,
            out@ == zeros(i as nat),
        decreases pad - i,
    {
        out.push('0');
        assert(out@ =~= zeros((i + 1) as nat));
        i = i + 1;
    }
    append_chars(&mut out, &d);
    let ghost full = out@;
    assert(strip_zeros(full) == strip_zeros(out@));
    while out.len() > 0 && out[out.len() - 1] == '0'
        invariant
            strip_zeros(full) == strip_zeros(out@),
        decreases out.len(),
    {
        let ghost before = out@;
        out.pop();
        assert(out@ =~= before.drop_last());
    }
    out
}

} // verus!
