use vstd::prelude::*;

use crate::error::MpdError;
use crate::text::{
    all_digits, append_chars, chars_of, dec, dec_exec, digit_char, digit_value, digits_value,
    is_digit, is_digit_exec, lemma_dec, string_of, sub_chars,
};

verus! {

/// `[-+]?[0-9]+`: the integer it denotes.
pub open spec fn integer_parse(s: Seq<char>) -> Option<int> {
    let signed = s.len() > 0 && (s[0] == '+' || s[0] == '-');
    let d = if signed {
        s.subrange(1, s.len() as int)
    } else {
        s
    };
    if d.len() >= 1 && all_digits(d) {
        if signed && s[0] == '-' {
            Some(-(digits_value(d) as int))
        } else {
            Some(digits_value(d) as int)
        }
    } else {
        None
    }
}

/// The canonical decimal form: a `-` for negative values, no leading zeros.
pub open spec fn integer_text(v: int) -> Seq<char> {
    if v < 0 {
        seq!['-'] + dec((-v) as nat)
    } else {
        dec(v as nat)
    }
}

/// Digits without a leading zero, or the single digit `0`.
pub open spec fn canonical_digits(s: Seq<char>) -> bool {
    s.len() >= 1 && all_digits(s) && (s[0] != '0' || s.len() == 1)
}

pub proof fn lemma_digit_char_value(c: char)
    requires
        is_digit(c),
    ensures
        digit_char(digit_value(c)) == c,
        digit_value(c) < 10,
{
}

pub proof fn lemma_canonical_value_bound(s: Seq<char>)
    requires
        canonical_digits(s),
        s.len() >= 2,
    ensures
        digits_value(s) >= 10,
    decreases s.len(),
{
    let s1 = s.drop_last();
    assert(digits_value(s) == digits_value(s1) * 10 + digit_value(s.last()));
    if s1.len() >= 2 {
        assert(canonical_digits(s1)) by {
            assert forall|i: int| 0 <= i < s1.len() implies is_digit(#[trigger] s1[i]) by {
                assert(s1[i] == s[i]);
            }
        }
        lemma_canonical_value_bound(s1);
    } else {
        assert(s1.drop_last() =~= Seq::<char>::empty());
        assert(digits_value(s1) == digits_value(s1.drop_last()) * 10 + digit_value(s1.last()));
        assert(digits_value(Seq::<char>::empty()) == 0);
        assert(s1.last() == s1[0] && s1[0] == s[0]);
        assert(is_digit(s1[0]) && s1[0] != '0');
        assert(digit_value(s1[0]) >= 1);
    }
}

/// Canonical digits are those of their value.
pub proof fn lemma_canonical_dec(s: Seq<char>)
    requires
        canonical_digits(s),
    ensures
        dec(digits_value(s)) == s,
    decreases s.len(),
{
    let c = s.last();
    assert(is_digit(c));
    lemma_digit_char_value(c);
    assert(digits_value(s) == digits_value(s.drop_last()) * 10 + digit_value(c));
    if s.len() == 1 {
        assert(s.drop_last() =~= Seq::<char>::empty());
        assert(digits_value(Seq::<char>::empty()) == 0);
        assert(seq![c] =~= s);
        assert(dec(digits_value(s)) == seq![digit_char(digit_value(c))]);
    } else {
        let s1 = s.drop_last();
        assert(canonical_digits(s1)) by {
            assert forall|i: int| 0 <= i < s1.len() implies is_digit(#[trigger] s1[i]) by {
                assert(s1[i] == s[i]);
            }
        }
        lemma_canonical_dec(s1);
        lemma_canonical_value_bound(s);
        let n = digits_value(s);
        vstd::arithmetic::div_mod::lemma_fundamental_div_mod_converse(
            n as int,
            10,
            digits_value(s1) as int,
            digit_value(c) as int,
        );
        assert(n / 10 == digits_value(s1));
        assert(n % 10 == digit_value(c));
        assert(dec(n) == dec(n / 10).push(digit_char(n % 10)));
        assert(s1.push(c) =~= s);
    }
}

/// xs:integer: an integer of any size.
#[derive(Debug, PartialEq, Eq, Hash)]
pub struct XsInteger {
    negative: bool,
    digits: String,
}

impl XsInteger {
    pub closed spec fn view(&self) -> int {
        if self.negative {
            -(digits_value(self.digits@) as int)
        } else {
            digits_value(self.digits@) as int
        }
    }

    #[verifier::type_invariant]
    closed spec fn inv(&self) -> bool {
        canonical_digits(self.digits@) && (self.negative ==> self.digits@ != seq!['0'])
    }

    pub closed spec fn wf(&self) -> bool {
        canonical_digits(self.digits@) && (self.negative ==> self.digits@ != seq!['0'])
    }

    pub fn from_i64(v: i64) -> (r: XsInteger)
        ensures
            r.view() == v as int,
            r.wf(),
    {
        let negative = v < 0;
        let mag: u64 = if v < 0 {
            if v == i64::MIN {
                0x8000_0000_0000_0000u64
            } else {
                (-v) as u64
            }
        } else {
            v as u64
        };
        let d = dec_exec(mag);
        proof {
            lemma_dec(mag as nat);
        }
        XsInteger { negative, digits: string_of(&d) }
    }

    pub fn from_str(s: &str) -> (r: Result<XsInteger, MpdError>)
        ensures
            match integer_parse(s@) {
                Some(v) => r is Ok && r->Ok_0.view() == v && r->Ok_0.wf(),
                None => r matches Err(MpdError::UnmatchedPattern),
            },
    {
        let cs = chars_of(s);
        let n = cs.len();
        let signed = n > 0 && (cs[0] == '+' || cs[0] == '-');
        let start: usize = if signed {
            1
        } else {
            0
        };
        let ghost d = cs@.subrange(start as int, n as int);
        assert(d =~= (if signed {
            s@.subrange(1, s@.len() as int)
        } else {
            s@
        }));
        if start == n {
            return Err(MpdError::UnmatchedPattern);
        }
        let mut i = start;
        while i < n
            invariant
                start <= i <= n == cs.len(),
                d == cs@.subrange(start as int, n as int),
                cs@ == s@,
                signed == (n > 0 && (cs@[0] == '+' || cs@[0] == '-')),
                d == (if signed {
                    s@.subrange(1, s@.len() as int)
                } else {
                    s@
                }),
                forall|j: int| start <= j < i ==> is_digit(#[trigger] cs@[j]),
            decreases n - i,
        {
            if !is_digit_exec(cs[i]) {
                assert(d[i - start] == cs@[i as int]);
                assert(!is_digit(d[(i - start) as int]));
                return Err(MpdError::UnmatchedPattern);
            }
            i = i + 1;
        }
        assert(all_digits(d)) by {
            assert forall|j: int| 0 <= j < d.len() implies is_digit(#[trigger] d[j]) by {
                assert(d[j] == cs@[start + j]);
            }
        }
        // drop leading zeros, keeping one digit
        let mut k = start;
        while k + 1 < n && cs[k] == '0'
            invariant
                start <= k < n == cs.len(),
                all_digits(d),
                d == cs@.subrange(start as int, n as int),
                digits_value(cs@.subrange(k as int, n as int)) == digits_value(d),
            decreases n - k,
        {
            proof {
                let ghost sk = cs@.subrange(k as int, n as int);
                assert forall|j: int| 0 <= j < sk.len() implies is_digit(#[trigger] sk[j]) by {
                    assert(sk[j] == d[k - start + j]);
                }
                lemma_leading_zero(sk);
            }
            assert(cs@.subrange(k as int, n as int).subrange(1, n - k) =~= cs@.subrange(
                k + 1,
                n as int,
            ));
            k = k + 1;
        }
        let mag = sub_chars(&cs, k, n);
        assert(canonical_digits(mag@)) by {
            assert forall|j: int| 0 <= j < mag@.len() implies is_digit(#[trigger] mag@[j]) by {
                assert(mag@[j] == d[k - start + j]);
            }
        }
        let is_zero = mag.len() == 1 && mag[0] == '0';
        let negative = signed && cs[0] == '-' && !is_zero;
        proof {
            if is_zero {
                assert(mag@.drop_last() =~= Seq::<char>::empty());
                assert(digits_value(mag@) == digits_value(mag@.drop_last()) * 10 + digit_value(
                    mag@.last(),
                ));
                assert(digits_value(Seq::<char>::empty()) == 0);
                assert(digit_value('0') == 0);
                assert(digits_value(mag@) == 0);
            }
        }
        assert(is_zero ==> mag@ =~= seq!['0']);
        Ok(XsInteger { negative, digits: string_of(&mag) })
    }

    /// The canonical decimal form.
    pub fn to_string(&self) -> (r: String)
        ensures
            r@ == integer_text(self.view()),
    {
        proof {
            use_type_invariant(self);
        }
        let mut out: Vec<char> = Vec::new();
        if self.negative {
            out.push('-');
        }
        let d = chars_of(self.digits.as_str());
        append_chars(&mut out, &d);
        proof {
            lemma_canonical_dec(self.digits@);
            if self.negative {
                assert(digits_value(self.digits@) != 0) by {
                    if self.digits@.len() >= 2 {
                        lemma_canonical_value_bound(self.digits@);
                    } else {
                        assert(self.digits@.drop_last() =~= Seq::<char>::empty());
                        assert(self.digits@ =~= seq![self.digits@[0]]);
                    }
                }
            }
        }
        string_of(&out)
    }
}

pub proof fn lemma_leading_zero(s: Seq<char>)
    requires
        s.len() >= 2,
        s[0] == '0',
        all_digits(s),
    ensures
        digits_value(s.subrange(1, s.len() as int)) == digits_value(s),
    decreases s.len(),
{
    let t = s.subrange(1, s.len() as int);
    let s1 = s.drop_last();
    assert(digits_value(s) == digits_value(s1) * 10 + digit_value(s.last()));
    assert(digits_value(t) == digits_value(t.drop_last()) * 10 + digit_value(t.last()));
    assert(t.last() == s.last());
    if s.len() == 2 {
        assert(s1 =~= seq!['0']);
        assert(s1.drop_last() =~= Seq::<char>::empty());
        assert(digits_value(s1) == digits_value(s1.drop_last()) * 10 + digit_value(s1.last()));
        assert(t.drop_last() =~= Seq::<char>::empty());
        assert(digits_value(Seq::<char>::empty()) == 0);
        assert(digit_value('0') == 0);
    } else {
        assert(all_digits(s1)) by {
            assert forall|i: int| 0 <= i < s1.len() implies is_digit(#[trigger] s1[i]) by {
                assert(s1[i] == s[i]);
            }
        }
        lemma_leading_zero(s1);
        assert(t.drop_last() =~= s1.subrange(1, s1.len() as int));
    }
}

pub proof fn lemma_integer_round_trip(v: int)
    ensures
        integer_parse(integer_text(v)) == Some(v),
{
    if v < 0 {
        let t = integer_text(v);
        lemma_dec((-v) as nat);
        assert(t.subrange(1, t.len() as int) =~= dec((-v) as nat));
    } else {
        lemma_dec(v as nat);
    }
}

impl Default for XsInteger {
    fn default() -> (r: XsInteger)
        ensures
            r.view() == 0,
    {
        XsInteger::from_i64(0)
    }
}

impl Clone for XsInteger {
    fn clone(&self) -> (r: XsInteger)
        ensures
            r == *self,
    {
        proof {
            use_type_invariant(self);
        }
        XsInteger { negative: self.negative, digits: self.digits.clone() }
    }
}

} // verus!
