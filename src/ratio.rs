use vstd::prelude::*;

use crate::error::MpdError;
use crate::text::{
    chars_of, dec, dec_exec, has_no, lemma_dec, lemma_dec_has_no, lemma_split_concat, lemma_split_single,
    lemma_uint_of_dec, parse_uint, split, split_exec, string_of, uint_upto,
};

verus! {

/// The greatest common divisor, with `gcd(0, 0) == 0`.
pub open spec fn gcd(a: nat, b: nat) -> nat
    decreases b,
{
    if b == 0 {
        a
    } else {
        gcd(b, a % b)
    }
}

pub proof fn lemma_gcd_divides(a: nat, b: nat)
    ensures
        gcd(a, b) == 0 <==> (a == 0 && b == 0),
        gcd(a, b) > 0 ==> a % gcd(a, b) == 0 && b % gcd(a, b) == 0,
    decreases b,
{
    if b == 0 {
        if a > 0 {
            vstd::arithmetic::div_mod::lemma_mod_multiples_basic(1, a as int);
            vstd::arithmetic::div_mod::lemma_mod_multiples_basic(0, a as int);
        }
    } else {
        lemma_gcd_divides(b, a % b);
        let g = gcd(a, b);
        assert(g == gcd(b, a % b));
        assert(g > 0);
        vstd::arithmetic::div_mod::lemma_fundamental_div_mod(b as int, g as int);
        vstd::arithmetic::div_mod::lemma_fundamental_div_mod((a % b) as int, g as int);
        vstd::arithmetic::div_mod::lemma_fundamental_div_mod(a as int, b as int);
        let i = b / g;
        let j = (a % b) / g;
        let q = a / b;
        assert(a == g * (i * q + j)) by (nonlinear_arith)
            requires
                b == g * i,
                a % b == g * j,
                a == b * q + a % b,
        ;
        vstd::arithmetic::div_mod::lemma_mod_multiples_basic((i * q + j) as int, g as int);
        assert(a as int == (i * q + j) * g) by (nonlinear_arith)
            requires
                a == g * (i * q + j),
        ;
    }
}

pub proof fn lemma_gcd_scale(a: nat, b: nat, k: nat)
    ensures
        gcd(a * k, b * k) == gcd(a, b) * k,
    decreases b,
{
    if k == 0 {
        assert(a * k == 0 && b * k == 0) by (nonlinear_arith)
            requires
                k == 0,
        ;
        assert(gcd(0, 0) == 0);
    } else if b == 0 {
        assert(b * k == 0);
    } else {
        assert(b * k > 0) by (nonlinear_arith)
            requires
                b > 0,
                k > 0,
        ;
        vstd::arithmetic::div_mod::lemma_truncate_middle(a as int, k as int, b as int);
        assert((a * k) % (b * k) == (a % b) * k) by (nonlinear_arith)
            requires
                (k * a) % (k * b) == k * (a % b),
        ;
        lemma_gcd_scale(b, a % b, k);
    }
}

/// Dividing both numbers by their greatest common divisor leaves them coprime.
pub proof fn lemma_gcd_reduced(a: nat, b: nat)
    requires
        gcd(a, b) > 0,
    ensures
        gcd(a / gcd(a, b), b / gcd(a, b)) == 1,
{
    let g = gcd(a, b);
    lemma_gcd_divides(a, b);
    vstd::arithmetic::div_mod::lemma_fundamental_div_mod(a as int, g as int);
    vstd::arithmetic::div_mod::lemma_fundamental_div_mod(b as int, g as int);
    let a1 = a / g;
    let b1 = b / g;
    assert(a == a1 * g && b == b1 * g) by (nonlinear_arith)
        requires
            a == g * a1,
            b == g * b1,
    ;
    lemma_gcd_scale(a1, b1, g);
    assert(gcd(a1, b1) * g == 1 * g);
    assert(gcd(a1, b1) == 1) by (nonlinear_arith)
        requires
            gcd(a1, b1) * g == 1 * g,
            g > 0,
    ;
}

/// Relies on `num::integer::gcd`: the greatest common divisor of two
/// integers, `0` for `(0, 0)`.
#[verifier::external_body]
fn gcd_u32(a: u32, b: u32) -> (r: u32)
    ensures
        r as nat == gcd(a as nat, b as nat),
{
    num::integer::gcd(a, b)
}

/// Relies on `num::rational::Ratio::new`: the fraction in lowest terms, as
/// its numerator and denominator.
#[verifier::external_body]
fn lowest_terms(numer: u32, denom: u32) -> (r: (u32, u32))
    requires
        denom != 0,
    ensures
        r.0 as nat == numer as nat / gcd(numer as nat, denom as nat),
        r.1 as nat == denom as nat / gcd(numer as nat, denom as nat),
{
    let q = num::rational::Ratio::new(numer, denom);
    (*q.numer(), *q.denom())
}

// ---------------------------------------------------------------------------
// Ratio
// ---------------------------------------------------------------------------

/// `(h, v)` divided by its greatest common divisor; `(0, 0)` stays.
pub open spec fn reduce(h: nat, v: nat) -> (nat, nat) {
    let g = gcd(h, v);
    if g == 0 {
        (h, v)
    } else {
        (h / g, v / g)
    }
}

/// What a ratio text holds: `Some(Ok(..))` for two integers, `Some(Err(()))`
/// for two parts that are not both integers, `None` for another shape.
pub open spec fn ratio_parts(s: Seq<char>) -> Option<Option<(nat, nat)>> {
    let parts = split(s, ':');
    if parts.len() != 2 {
        None
    } else {
        match (uint_upto(parts[0], u32::MAX as nat), uint_upto(parts[1], u32::MAX as nat)) {
            (Some(h), Some(v)) => Some(Some((h, v))),
            _ => Some(None),
        }
    }
}

pub open spec fn ratio_parse(s: Seq<char>) -> Option<(nat, nat)> {
    match ratio_parts(s) {
        Some(Some((h, v))) => Some(reduce(h, v)),
        _ => None,
    }
}

/// The error for a text that is not a ratio.
pub open spec fn ratio_error(s: Seq<char>) -> MpdError {
    if ratio_parts(s) is None {
        MpdError::UnmatchedPattern
    } else {
        MpdError::ParseIntError
    }
}

pub open spec fn ratio_text(m: (nat, nat)) -> Seq<char> {
    dec(m.0) + seq![':'] + dec(m.1)
}

pub open spec fn ratio_wf(m: (nat, nat)) -> bool {
    m.0 <= u32::MAX && m.1 <= u32::MAX && gcd(m.0, m.1) <= 1
}

/// An aspect ratio, always in lowest terms.
#[derive(Debug, Default, Clone, Copy, PartialEq, Eq, Hash)]
pub struct Ratio {
    horizontal: u32,
    vertical: u32,
}

impl Ratio {
    pub closed spec fn view(&self) -> (nat, nat) {
        (self.horizontal as nat, self.vertical as nat)
    }

    /// The ratio `h:v` in lowest terms.
    pub fn new(h: u32, v: u32) -> (r: Ratio)
        ensures
            r.view() == reduce(h as nat, v as nat),
            ratio_wf(r.view()),
    {
        let g = gcd_u32(h, v);
        proof {
            lemma_gcd_divides(h as nat, v as nat);
            if g > 0 {
                lemma_gcd_reduced(h as nat, v as nat);
            }
        }
        if g == 0 {
            Ratio { horizontal: h, vertical: v }
        } else {
            Ratio { horizontal: h / g, vertical: v / g }
        }
    }

    pub fn horizontal(&self) -> (r: u32)
        ensures
            r == self.view().0,
    {
        self.horizontal
    }

    pub fn vertical(&self) -> (r: u32)
        ensures
            r == self.view().1,
    {
        self.vertical
    }

    /// Reads `h:v`; the result is in lowest terms.
    pub fn from_str(s: &str) -> (r: Result<Ratio, MpdError>)
        ensures
            match ratio_parse(s@) {
                Some(m) => r is Ok && r->Ok_0.view() == m,
                None => r is Err,
            },
            ratio_parse(s@) is None ==> r is Err && r->Err_0 == ratio_error(s@),
    {
        let cs = chars_of(s);
        let parts = split_exec(&cs, ':');
        if parts.len() != 2 {
            return Err(MpdError::UnmatchedPattern);
        }
        assert(parts@[0]@ == split(s@, ':')[0]);
        assert(parts@[1]@ == split(s@, ':')[1]);
        assert(parts@[0]@.subrange(0, parts@[0]@.len() as int) =~= parts@[0]@);
        assert(parts@[1]@.subrange(0, parts@[1]@.len() as int) =~= parts@[1]@);
        let h = parse_uint(&parts[0], 0, parts[0].len(), u32::MAX as u64);
        let v = parse_uint(&parts[1], 0, parts[1].len(), u32::MAX as u64);
        match (h, v) {
            (Some(h), Some(v)) => Ok(Ratio::new(h as u32, v as u32)),
            _ => Err(MpdError::ParseIntError),
        }
    }

    /// `h:v`
    pub fn to_string(&self) -> (r: String)
        ensures
            r@ == ratio_text(self.view()),
    {
        let mut out = dec_exec(self.horizontal as u64);
        out.push(':');
        let tail = dec_exec(self.vertical as u64);
        crate::text::append_chars(&mut out, &tail);
        string_of(&out)
    }
}

pub proof fn lemma_ratio_round_trip(m: (nat, nat))
    requires
        ratio_wf(m),
    ensures
        ratio_parse(ratio_text(m)) == Some(m),
{
    lemma_dec_has_no(m.0, ':');
    lemma_dec_has_no(m.1, ':');
    lemma_split_concat(dec(m.0), dec(m.1), ':');
    lemma_split_single(dec(m.0), ':');
    lemma_split_single(dec(m.1), ':');
    assert(split(ratio_text(m), ':') =~= seq![dec(m.0), dec(m.1)]);
    lemma_uint_of_dec(m.0);
    lemma_uint_of_dec(m.1);
    lemma_gcd_divides(m.0, m.1);
    if gcd(m.0, m.1) == 1 {
        assert(m.0 / 1 == m.0);
        assert(m.1 / 1 == m.1);
    }
    assert(reduce(m.0, m.1) == m);
}

pub proof fn lemma_ratio_parse_wf(s: Seq<char>)
    ensures
        ratio_parse(s) matches Some(m) ==> ratio_wf(m),
{
    if let Some(Some((h, v))) = ratio_parts(s) {
        lemma_gcd_divides(h, v);
        if gcd(h, v) > 0 {
            lemma_gcd_reduced(h, v);
            assert(h / gcd(h, v) <= h) by {
                vstd::arithmetic::div_mod::lemma_div_is_ordered_by_denominator(h as int, 1, gcd(h, v) as int);
            }
            assert(v / gcd(h, v) <= v) by {
                vstd::arithmetic::div_mod::lemma_div_is_ordered_by_denominator(v as int, 1, gcd(h, v) as int);
            }
        }
    }
}

// ---------------------------------------------------------------------------
// FrameRate
// ---------------------------------------------------------------------------

/// What a frame-rate text holds: `Some(Ok(..))` for a numerator and a
/// denominator (`1` when omitted), `Some(Err(()))` for parts that are not
/// integers, `None` for more than one `/`.
pub open spec fn framerate_parts(s: Seq<char>) -> Option<Option<(nat, nat)>> {
    let parts = split(s, '/');
    if parts.len() > 2 {
        None
    } else {
        let n = uint_upto(parts[0], u32::MAX as nat);
        let d = if parts.len() == 2 {
            uint_upto(parts[1], u32::MAX as nat)
        } else {
            Some(1nat)
        };
        match (n, d) {
            (Some(n), Some(d)) => Some(Some((n, d))),
            _ => Some(None),
        }
    }
}

pub open spec fn framerate_parse(s: Seq<char>) -> Option<(nat, nat)> {
    match framerate_parts(s) {
        Some(Some((n, d))) => if d != 0 {
            Some(reduce(n, d))
        } else {
            None
        },
        _ => None,
    }
}

/// The error for a text that is not a frame rate.
pub open spec fn framerate_error(s: Seq<char>) -> MpdError {
    match framerate_parts(s) {
        None => MpdError::UnmatchedPattern,
        Some(None) => MpdError::ParseIntError,
        Some(Some(_)) => MpdError::InvalidData("Don't set ZERO to the framerate denom"),
    }
}

pub open spec fn framerate_text(m: (nat, nat)) -> Seq<char> {
    dec(m.0) + seq!['/'] + dec(m.1)
}

pub open spec fn framerate_wf(m: (nat, nat)) -> bool {
    m.0 <= u32::MAX && m.1 <= u32::MAX && m.1 > 0 && gcd(m.0, m.1) == 1
}

/// A frame rate: a fraction in lowest terms with a non-zero denominator.
#[derive(Debug, Clone, Copy, PartialEq, Eq, Hash)]
pub struct FrameRate {
    numer: u32,
    denom: u32,
}

impl FrameRate {
    pub closed spec fn view(&self) -> (nat, nat) {
        (self.numer as nat, self.denom as nat)
    }

    pub closed spec fn wf(&self) -> bool {
        framerate_wf(self.view())
    }

    /// The frame rate `numer/denom` in lowest terms.
    pub fn new(numer: u32, denom: u32) -> (r: FrameRate)
        requires
            denom != 0,
        ensures
            r.view() == reduce(numer as nat, denom as nat),
            r.wf(),
    {
        let (n, d) = lowest_terms(numer, denom);
        proof {
            lemma_gcd_divides(numer as nat, denom as nat);
            lemma_gcd_reduced(numer as nat, denom as nat);
            let g = gcd(numer as nat, denom as nat);
            vstd::arithmetic::div_mod::lemma_div_is_ordered_by_denominator(numer as int, 1, g as int);
            vstd::arithmetic::div_mod::lemma_div_is_ordered_by_denominator(denom as int, 1, g as int);
            vstd::arithmetic::div_mod::lemma_fundamental_div_mod(denom as int, g as int);
            let dn = denom as nat;
            assert(dn / g > 0) by (nonlinear_arith)
                requires
                    dn == g * (dn / g) + dn % g,
                    dn % g == 0,
                    dn > 0,
            ;
        }
        FrameRate { numer: n, denom: d }
    }

    pub fn numer(&self) -> (r: u32)
        ensures
            r == self.view().0,
    {
        self.numer
    }

    pub fn denom(&self) -> (r: u32)
        ensures
            r == self.view().1,
    {
        self.denom
    }

    /// Reads `numer[/denom]`; the denominator is `1` when omitted and may not
    /// be `0`. The result is in lowest terms.
    pub fn from_str(s: &str) -> (r: Result<FrameRate, MpdError>)
        ensures
            match framerate_parse(s@) {
                Some(m) => r is Ok && r->Ok_0.view() == m && r->Ok_0.wf(),
                None => r is Err,
            },
            framerate_parts(s@) is None ==> r matches Err(MpdError::UnmatchedPattern),
            framerate_parts(s@) == Some(None::<(nat, nat)>) ==> r matches Err(
                MpdError::ParseIntError,
            ),
            framerate_parse(s@) is None ==> r is Err && r->Err_0 == framerate_error(s@),
    {
        let cs = chars_of(s);
        let parts = split_exec(&cs, '/');
        proof {
            crate::text::lemma_split_len(s@, '/');
        }
        if parts.len() > 2 {
            return Err(MpdError::UnmatchedPattern);
        }
        assert(parts@[0]@ == split(s@, '/')[0]);
        assert(parts@[0]@.subrange(0, parts@[0]@.len() as int) =~= parts@[0]@);
        let n = parse_uint(&parts[0], 0, parts[0].len(), u32::MAX as u64);
        let d = if parts.len() == 2 {
            assert(parts@[1]@ == split(s@, '/')[1]);
            assert(parts@[1]@.subrange(0, parts@[1]@.len() as int) =~= parts@[1]@);
            parse_uint(&parts[1], 0, parts[1].len(), u32::MAX as u64)
        } else {
            Some(1u64)
        };
        match (n, d) {
            (Some(n), Some(d)) => {
                if d == 0 {
                    Err(MpdError::InvalidData("Don't set ZERO to the framerate denom"))
                } else {
                    Ok(FrameRate::new(n as u32, d as u32))
                }
            },
            _ => Err(MpdError::ParseIntError),
        }
    }

    /// `numer/denom`
    pub fn to_string(&self) -> (r: String)
        ensures
            r@ == framerate_text(self.view()),
    {
        let mut out = dec_exec(self.numer as u64);
        out.push('/');
        let tail = dec_exec(self.denom as u64);
        crate::text::append_chars(&mut out, &tail);
        string_of(&out)
    }
}

pub proof fn lemma_framerate_round_trip(m: (nat, nat))
    requires
        framerate_wf(m),
    ensures
        framerate_parse(framerate_text(m)) == Some(m),
{
    lemma_dec_has_no(m.0, '/');
    lemma_dec_has_no(m.1, '/');
    lemma_split_concat(dec(m.0), dec(m.1), '/');
    lemma_split_single(dec(m.0), '/');
    lemma_split_single(dec(m.1), '/');
    assert(split(framerate_text(m), '/') =~= seq![dec(m.0), dec(m.1)]);
    lemma_uint_of_dec(m.0);
    lemma_uint_of_dec(m.1);
    assert(m.0 / 1 == m.0);
    assert(m.1 / 1 == m.1);
}

pub proof fn lemma_framerate_parse_wf(s: Seq<char>)
    ensures
        framerate_parse(s) matches Some(m) ==> framerate_wf(m),
{
    if let Some(Some((n, d))) = framerate_parts(s) {
        if d != 0 {
            let g = gcd(n, d);
            lemma_gcd_divides(n, d);
            lemma_gcd_reduced(n, d);
            vstd::arithmetic::div_mod::lemma_div_is_ordered_by_denominator(n as int, 1, g as int);
            vstd::arithmetic::div_mod::lemma_div_is_ordered_by_denominator(d as int, 1, g as int);
            vstd::arithmetic::div_mod::lemma_fundamental_div_mod(d as int, g as int);
            assert(d / g > 0) by (nonlinear_arith)
                requires
                    d == g * (d / g) + d % g,
                    d % g == 0,
                    d > 0,
            ;
        }
    }
}

impl Default for FrameRate {
    /// `0/1`
    fn default() -> (r: FrameRate)
        ensures
            r.view() == (0nat, 1nat),
            r.wf(),
    {
        assert(gcd(0, 1) == gcd(1, 0));
        assert(gcd(1, 0) == 1);
        FrameRate { numer: 0, denom: 1 }
    }
}

} // verus!
