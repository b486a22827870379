use vstd::prelude::*;
use vstd::arithmetic::div_mod::lemma_fundamental_div_mod_converse;
use vstd::utf8::{decode_utf8, encode_utf8, valid_utf8};

use crate::error::MpdError;
use crate::patterns::{
    all_solid, all_solid_exec, is_language, is_language_exec, is_nc_name, is_nc_name_exec,
    lemma_language_trim, lemma_nc_name_trim, trim, trim_exec,
};
use crate::text::{
    chars_of, dec, dec_exec, is_digit, lemma_dec_has_no, lemma_split_concat, lemma_split_single,
    lemma_uint_of_dec, parse_uint, split, split_exec, string_of, uint_upto,
};

verus! {

// ---------------------------------------------------------------------------
// Texts
// ---------------------------------------------------------------------------

/// xs:anyURI
#[derive(Debug, Default, Clone, PartialEq, Eq, Hash)]
pub struct XsAnyURI {
    value: String,
}

impl XsAnyURI {
    pub closed spec fn view(&self) -> Seq<char> {
        self.value@
    }

    /// Any text is a URI reference here.
    pub fn from_str(s: &str) -> (r: Result<XsAnyURI, MpdError>)
        ensures
            r is Ok && r->Ok_0.view() == s@,
    {
        Ok(XsAnyURI { value: s.to_owned() })
    }

    pub fn from(s: &str) -> (r: XsAnyURI)
        ensures
            r.view() == s@,
    {
        XsAnyURI { value: s.to_owned() }
    }

    pub fn to_string(&self) -> (r: String)
        ensures
            r@ == self.view(),
    {
        self.value.clone()
    }
}

/// A tag: any text.
#[derive(Debug, Default, Clone, PartialEq, Eq, Hash)]
pub struct Tag {
    value: String,
}

impl Tag {
    pub closed spec fn view(&self) -> Seq<char> {
        self.value@
    }

    pub fn from_str(s: &str) -> (r: Result<Tag, MpdError>)
        ensures
            r is Ok && r->Ok_0.view() == s@,
    {
        Ok(Tag { value: s.to_owned() })
    }

    pub fn from(s: &str) -> (r: Tag)
        ensures
            r.view() == s@,
    {
        Tag { value: s.to_owned() }
    }

    pub fn to_string(&self) -> (r: String)
        ensures
            r@ == self.view(),
    {
        self.value.clone()
    }
}

pub open spec fn xs_id_parse(s: Seq<char>) -> Option<Seq<char>> {
    if is_nc_name(trim(s)) {
        Some(trim(s))
    } else {
        None
    }
}

/// xs:ID: an NCName, read as a token (surrounding whitespace dropped).
///
/// Uniqueness within a document is not checked.
#[derive(Debug, Default, Clone, PartialEq, Eq, Hash)]
pub struct XsId {
    value: String,
}

impl XsId {
    pub closed spec fn view(&self) -> Seq<char> {
        self.value@
    }

    pub fn from_str(s: &str) -> (r: Result<XsId, MpdError>)
        ensures
            match xs_id_parse(s@) {
                Some(v) => r is Ok && r->Ok_0.view() == v,
                None => r matches Err(MpdError::UnmatchedPattern),
            },
    {
        let cs = chars_of(s);
        let t = trim_exec(&cs);
        if !is_nc_name_exec(&t) {
            return Err(MpdError::UnmatchedPattern);
        }
        Ok(XsId { value: string_of(&t) })
    }

    pub fn to_string(&self) -> (r: String)
        ensures
            r@ == self.view(),
    {
        self.value.clone()
    }
}

pub proof fn lemma_xs_id_round_trip(m: Seq<char>)
    requires
        is_nc_name(m),
    ensures
        xs_id_parse(m) == Some(m),
{
    lemma_nc_name_trim(m);
}

pub open spec fn xs_language_parse(s: Seq<char>) -> Option<Seq<char>> {
    if is_language(trim(s)) {
        Some(trim(s))
    } else {
        None
    }
}

/// xs:language, read as a token (surrounding whitespace dropped).
#[derive(Debug, Default, Clone, PartialEq, Eq, Hash)]
pub struct XsLanguage {
    value: String,
}

impl XsLanguage {
    pub closed spec fn view(&self) -> Seq<char> {
        self.value@
    }

    pub fn from_str(s: &str) -> (r: Result<XsLanguage, MpdError>)
        ensures
            match xs_language_parse(s@) {
                Some(v) => r is Ok && r->Ok_0.view() == v,
                None => r matches Err(MpdError::UnmatchedPattern),
            },
    {
        let cs = chars_of(s);
        let t = trim_exec(&cs);
        if !is_language_exec(&t) {
            return Err(MpdError::UnmatchedPattern);
        }
        Ok(XsLanguage { value: string_of(&t) })
    }

    pub fn to_string(&self) -> (r: String)
        ensures
            r@ == self.view(),
    {
        self.value.clone()
    }
}

pub proof fn lemma_xs_language_round_trip(m: Seq<char>)
    requires
        is_language(m),
    ensures
        xs_language_parse(m) == Some(m),
{
    lemma_language_trim(m);
}

pub open spec fn no_whitespace_parse(s: Seq<char>) -> Option<Seq<char>> {
    if all_solid(s) {
        Some(s)
    } else {
        None
    }
}

/// A string without whitespace or separator characters.
#[derive(Debug, Default, Clone, PartialEq, Eq, Hash)]
pub struct NoWhitespace {
    value: String,
}

impl NoWhitespace {
    pub closed spec fn view(&self) -> Seq<char> {
        self.value@
    }

    pub fn from_str(s: &str) -> (r: Result<NoWhitespace, MpdError>)
        ensures
            match no_whitespace_parse(s@) {
                Some(v) => r is Ok && r->Ok_0.view() == v,
                None => r matches Err(MpdError::UnmatchedPattern),
            },
    {
        let cs = chars_of(s);
        if !all_solid_exec(&cs) {
            return Err(MpdError::UnmatchedPattern);
        }
        Ok(NoWhitespace { value: s.to_owned() })
    }

    pub fn to_string(&self) -> (r: String)
        ensures
            r@ == self.view(),
    {
        self.value.clone()
    }
}

// ---------------------------------------------------------------------------
// FourCC
// ---------------------------------------------------------------------------

/// What `String::from_utf8_lossy` makes of bytes.
pub uninterp spec fn lossy_text(b: Seq<u8>) -> Seq<char>;

/// Relies on `String::from_utf8_lossy`: valid UTF-8 is decoded as it is,
/// invalid sequences become replacement characters.
#[verifier::external_body]
fn utf8_lossy(b: &[u8]) -> (r: String)
    ensures
        valid_utf8(b@) ==> r@ == decode_utf8(b@),
        !valid_utf8(b@) ==> r@ == lossy_text(b@),
{
    String::from_utf8_lossy(b).into_owned()
}

pub open spec fn fourcc_parse(s: Seq<char>) -> Option<Seq<u8>> {
    if encode_utf8(s).len() == 4 {
        Some(encode_utf8(s))
    } else {
        None
    }
}

pub open spec fn fourcc_text(b: Seq<u8>) -> Seq<char> {
    if valid_utf8(b) {
        decode_utf8(b)
    } else {
        lossy_text(b)
    }
}

/// The four bytes of `n`, most significant first.
pub open spec fn be_bytes(n: nat) -> Seq<u8> {
    seq![(n / 0x100_0000) as u8, ((n / 0x1_0000) % 0x100) as u8, ((n / 0x100) % 0x100) as u8, (n
        % 0x100) as u8]
}

/// The integer whose bytes, most significant first, are `b`.
pub open spec fn be_value(b: Seq<u8>) -> nat {
    (b[0] as nat) * 0x100_0000 + (b[1] as nat) * 0x1_0000 + (b[2] as nat) * 0x100 + (b[3] as nat)
}

/// A four-character code: exactly four bytes.
#[derive(Debug, Default, Clone, Copy, PartialEq, Eq, Hash)]
pub struct FourCC {
    value: [u8; 4],
}

impl FourCC {
    pub closed spec fn view(&self) -> Seq<u8> {
        self.value@
    }

    /// A text of exactly four bytes in UTF-8.
    pub fn from_str(s: &str) -> (r: Result<FourCC, MpdError>)
        ensures
            match fourcc_parse(s@) {
                Some(b) => r is Ok && r->Ok_0.view() == b,
                None => r matches Err(MpdError::UnmatchedPattern),
            },
    {
        let b = s.as_bytes();
        if b.len() == 4 {
            let value = [b[0], b[1], b[2], b[3]];
            assert(value@ =~= b@);
            Ok(FourCC { value })
        } else {
            Err(MpdError::UnmatchedPattern)
        }
    }

    pub fn from_bytes(value: [u8; 4]) -> (r: FourCC)
        ensures
            r.view() == value@,
    {
        FourCC { value }
    }

    /// The code whose bytes are those of `n`, most significant first.
    pub fn from_u32(n: u32) -> (r: FourCC)
        ensures
            r.view() == be_bytes(n as nat),
    {
        let value = [
            (n / 0x100_0000) as u8,
            ((n / 0x1_0000) % 0x100) as u8,
            ((n / 0x100) % 0x100) as u8,
            (n % 0x100) as u8,
        ];
        assert(value@ =~= be_bytes(n as nat));
        FourCC { value }
    }

    /// The bytes read as an integer, most significant first.
    pub fn to_u32(&self) -> (r: u32)
        ensures
            r as nat == be_value(self.view()),
    {
        let v = self.value;
        (v[0] as u32) * 0x100_0000 + (v[1] as u32) * 0x1_0000 + (v[2] as u32) * 0x100 + (
        v[3] as u32)
    }

    /// The bytes as text; bytes that are not UTF-8 become replacement
    /// characters.
    pub fn to_string(&self) -> (r: String)
        ensures
            r@ == fourcc_text(self.view()),
    {
        utf8_lossy(self.value.as_slice())
    }
}

pub proof fn lemma_fourcc_round_trip(b: Seq<u8>)
    requires
        b.len() == 4,
        valid_utf8(b),
    ensures
        fourcc_parse(decode_utf8(b)) == Some(b),
{
    vstd::utf8::decode_utf8_encode_utf8(b);
}

/// The integer form and the byte form of a code carry the same value.
pub proof fn lemma_fourcc_u32(n: nat)
    requires
        n <= u32::MAX,
    ensures
        be_value(be_bytes(n)) == n,
{
}

/// The byte form and the integer form of a code carry the same bytes.
pub proof fn lemma_fourcc_bytes(b: Seq<u8>)
    requires
        b.len() == 4,
    ensures
        be_bytes(be_value(b)) == b,
{
    let n = be_value(b) as int;
    let (b0, b1, b2, b3) = (b[0] as int, b[1] as int, b[2] as int, b[3] as int);
    lemma_fundamental_div_mod_converse(n, 0x100_0000, b0, b1 * 0x1_0000 + b2 * 0x100 + b3);
    lemma_fundamental_div_mod_converse(n, 0x1_0000, b0 * 0x100 + b1, b2 * 0x100 + b3);
    lemma_fundamental_div_mod_converse(b0 * 0x100 + b1, 0x100, b0, b1);
    lemma_fundamental_div_mod_converse(n, 0x100, b0 * 0x1_0000 + b1 * 0x100 + b2, b3);
    lemma_fundamental_div_mod_converse(b0 * 0x1_0000 + b1 * 0x100 + b2, 0x100, b0 * 0x100 + b1, b2);
    assert(be_bytes(n as nat) =~= b);
}

// ---------------------------------------------------------------------------
// SingleByteRange
// ---------------------------------------------------------------------------

/// What a byte-range text holds: `Some(Ok(..))` for `first-[last]` with
/// integers, `Some(Err(()))` for parts that are not, `None` for another
/// shape.
pub open spec fn byte_range_parts(s: Seq<char>) -> Option<Option<(nat, Option<nat>)>> {
    let parts = split(s, '-');
    if parts.len() != 2 {
        None
    } else {
        let first = uint_upto(parts[0], u32::MAX as nat);
        let last = if parts[1].len() == 0 {
            Some(None)
        } else {
            match uint_upto(parts[1], u32::MAX as nat) {
                Some(l) => Some(Some(l)),
                None => None,
            }
        };
        match (first, last) {
            (Some(f), Some(l)) => Some(Some((f, l))),
            _ => Some(None),
        }
    }
}

pub open spec fn byte_range_parse(s: Seq<char>) -> Option<(nat, Option<nat>)> {
    match byte_range_parts(s) {
        Some(Some((f, l))) => match l {
            Some(l) => if l < f {
                None
            } else {
                Some((f, Some(l)))
            },
            None => Some((f, None)),
        },
        _ => None,
    }
}

/// The error for a text that is not a byte range: the wrong shape or
/// `last < first` give `UnmatchedPattern`, bounds that are not integers
/// `ParseIntError`.
pub open spec fn byte_range_error(s: Seq<char>) -> MpdError {
    if byte_range_parts(s) == Some(None::<(nat, Option<nat>)>) {
        MpdError::ParseIntError
    } else {
        MpdError::UnmatchedPattern
    }
}

pub open spec fn byte_range_text(m: (nat, Option<nat>)) -> Seq<char> {
    dec(m.0) + seq!['-'] + match m.1 {
        Some(l) => dec(l),
        None => Seq::empty(),
    }
}

pub open spec fn byte_range_wf(m: (nat, Option<nat>)) -> bool {
    m.0 <= u32::MAX && match m.1 {
        Some(l) => m.0 <= l <= u32::MAX,
        None => true,
    }
}

/// One byte range `first-[last]`, both inclusive; `last` is at least `first`.
#[derive(Debug, Default, Clone, Copy, PartialEq, Eq, Hash)]
pub struct SingleByteRange {
    first: u32,
    last: Option<u32>,
}

impl SingleByteRange {
    pub closed spec fn view(&self) -> (nat, Option<nat>) {
        (
            self.first as nat,
            match self.last {
                Some(l) => Some(l as nat),
                None => None,
            },
        )
    }

    /// The range from `first` to the end.
    pub fn from(first: u32) -> (r: SingleByteRange)
        ensures
            r.view() == (first as nat, None::<nat>),
    {
        SingleByteRange { first, last: None }
    }

    /// The range `first-last`; fails where `last < first`.
    pub fn try_from(pair: (u32, u32)) -> (r: Result<SingleByteRange, MpdError>)
        ensures
            pair.0 <= pair.1 <==> r is Ok,
            r is Ok ==> r->Ok_0.view() == (pair.0 as nat, Some(pair.1 as nat)),
            r is Err ==> r matches Err(MpdError::UnmatchedPattern),
    {
        if pair.0 > pair.1 {
            return Err(MpdError::UnmatchedPattern);
        }
        Ok(SingleByteRange { first: pair.0, last: Some(pair.1) })
    }

    pub fn first(&self) -> (r: u32)
        ensures
            r == self.view().0,
    {
        self.first
    }

    pub fn last(&self) -> (r: Option<u32>)
        ensures
            r is Some <==> self.view().1 is Some,
            r is Some ==> r->0 == self.view().1->0,
    {
        self.last
    }

    pub fn from_str(s: &str) -> (r: Result<SingleByteRange, MpdError>)
        ensures
            match byte_range_parse(s@) {
                Some(m) => r is Ok && r->Ok_0.view() == m,
                None => r is Err,
            },
            byte_range_parse(s@) is None ==> r is Err && r->Err_0 == byte_range_error(s@),
    {
        let cs = chars_of(s);
        let parts = split_exec(&cs, '-');
        if parts.len() != 2 {
            return Err(MpdError::UnmatchedPattern);
        }
        assert(parts@[0]@ == split(s@, '-')[0]);
        assert(parts@[1]@ == split(s@, '-')[1]);
        assert(parts@[0]@.subrange(0, parts@[0]@.len() as int) =~= parts@[0]@);
        assert(parts@[1]@.subrange(0, parts@[1]@.len() as int) =~= parts@[1]@);
        let first = parse_uint(&parts[0], 0, parts[0].len(), u32::MAX as u64);
        let last: Option<Option<u64>> = if parts[1].len() == 0 {
            Some(None)
        } else {
            match parse_uint(&parts[1], 0, parts[1].len(), u32::MAX as u64) {
                Some(l) => Some(Some(l)),
                None => None,
            }
        };
        match (first, last) {
            (Some(f), Some(l)) => match l {
                Some(l) => {
                    if l < f {
                        Err(MpdError::UnmatchedPattern)
                    } else {
                        Ok(SingleByteRange { first: f as u32, last: Some(l as u32) })
                    }
                },
                None => Ok(SingleByteRange { first: f as u32, last: None }),
            },
            _ => Err(MpdError::ParseIntError),
        }
    }

    /// `first-last`, or `first-` for a range open at its end.
    pub fn to_string(&self) -> (r: String)
        ensures
            r@ == byte_range_text(self.view()),
    {
        let mut out = dec_exec(self.first as u64);
        out.push('-');
        match self.last {
            Some(l) => {
                let tail = dec_exec(l as u64);
                crate::text::append_chars(&mut out, &tail);
            },
            None => {
                assert(out@ =~= byte_range_text(self.view()));
            },
        }
        string_of(&out)
    }
}

pub proof fn lemma_byte_range_round_trip(m: (nat, Option<nat>))
    requires
        byte_range_wf(m),
    ensures
        byte_range_parse(byte_range_text(m)) == Some(m),
{
    let tail: Seq<char> = match m.1 {
        Some(l) => dec(l),
        None => Seq::empty(),
    };
    lemma_dec_has_no(m.0, '-');
    if let Some(l) = m.1 {
        lemma_dec_has_no(l, '-');
        lemma_uint_of_dec(l);
        crate::text::lemma_dec(l);
    }
    lemma_split_concat(dec(m.0), tail, '-');
    lemma_split_single(dec(m.0), '-');
    lemma_split_single(tail, '-');
    assert(split(byte_range_text(m), '-') =~= seq![dec(m.0), tail]);
    lemma_uint_of_dec(m.0);
}

// ---------------------------------------------------------------------------
// StreamAccessPoint
// ---------------------------------------------------------------------------

/// Stream access point types.
#[derive(Debug, Default, Clone, Copy, PartialEq, Eq, Hash)]
pub enum StreamAccessPoint {
    /// Closed GoP random access point: Tept = Tdec = Tsap = Tptf
    #[default]
    Type1,
    /// Closed GoP random access point: Tept = Tdec = Tsap < Tptf
    Type2,
    /// Open GoP random access point: Tept < Tdec = Tsap <= Tptf
    Type3,
    /// Gradual decoding refresh random access point: Tept <= Tptf < Tdec = Tsap
    Type4,
    /// Tept = Tdec < Tsap
    Type5,
    /// Tept < Tdec < Tsap
    Type6,
}

pub open spec fn sap_parse(s: Seq<char>) -> Option<nat> {
    match uint_upto(s, u8::MAX as nat) {
        Some(n) => if 1 <= n <= 6 {
            Some(n)
        } else {
            None
        },
        None => None,
    }
}

/// The error for a text that is not a stream access point type.
pub open spec fn sap_error(s: Seq<char>) -> MpdError {
    if uint_upto(s, u8::MAX as nat) is None {
        MpdError::ParseIntError
    } else {
        MpdError::InvalidData("SAP values must be 1 to 6")
    }
}

impl StreamAccessPoint {
    /// The type's number, 1 to 6.
    pub open spec fn view(&self) -> nat {
        match self {
            StreamAccessPoint::Type1 => 1,
            StreamAccessPoint::Type2 => 2,
            StreamAccessPoint::Type3 => 3,
            StreamAccessPoint::Type4 => 4,
            StreamAccessPoint::Type5 => 5,
            StreamAccessPoint::Type6 => 6,
        }
    }

    pub fn to_u8(&self) -> (r: u8)
        ensures
            r as nat == self.view(),
    {
        match self {
            StreamAccessPoint::Type1 => 1,
            StreamAccessPoint::Type2 => 2,
            StreamAccessPoint::Type3 => 3,
            StreamAccessPoint::Type4 => 4,
            StreamAccessPoint::Type5 => 5,
            StreamAccessPoint::Type6 => 6,
        }
    }

    /// The type with number `value`; fails outside 1 to 6.
    pub fn try_from(value: u8) -> (r: Result<StreamAccessPoint, MpdError>)
        ensures
            1 <= value <= 6 <==> r is Ok,
            r is Ok ==> r->Ok_0.view() == value as nat,
            r is Err ==> r->Err_0 == MpdError::InvalidData("SAP values must be 1 to 6"),
    {
        match value {
            1 => Ok(StreamAccessPoint::Type1),
            2 => Ok(StreamAccessPoint::Type2),
            3 => Ok(StreamAccessPoint::Type3),
            4 => Ok(StreamAccessPoint::Type4),
            5 => Ok(StreamAccessPoint::Type5),
            6 => Ok(StreamAccessPoint::Type6),
            _ => Err(MpdError::InvalidData("SAP values must be 1 to 6")),
        }
    }

    pub fn from_str(s: &str) -> (r: Result<StreamAccessPoint, MpdError>)
        ensures
            match sap_parse(s@) {
                Some(n) => r is Ok && r->Ok_0.view() == n,
                None => r is Err,
            },
            sap_parse(s@) is None ==> r is Err && r->Err_0 == sap_error(s@),
    {
        let cs = chars_of(s);
        assert(cs@.subrange(0, cs@.len() as int) =~= s@);
        match parse_uint(&cs, 0, cs.len(), u8::MAX as u64) {
            Some(n) => StreamAccessPoint::try_from(n as u8),
            None => Err(MpdError::ParseIntError),
        }
    }

    pub fn to_string(&self) -> (r: String)
        ensures
            r@ == dec(self.view()),
    {
        string_of(&dec_exec(self.to_u8() as u64))
    }
}

pub proof fn lemma_sap_round_trip(n: nat)
    requires
        1 <= n <= 6,
    ensures
        sap_parse(dec(n)) == Some(n),
{
    lemma_uint_of_dec(n);
}

// ---------------------------------------------------------------------------
// xs:double
// ---------------------------------------------------------------------------

/// `s` without one leading `+` or `-`.
pub open spec fn unsigned_part(s: Seq<char>) -> Seq<char> {
    if s.len() > 0 && (s[0] == '+' || s[0] == '-') {
        s.subrange(1, s.len() as int)
    } else {
        s
    }
}

/// `[+-]?(d+(.d*)?|.d+)`
pub open spec fn is_mantissa(s: Seq<char>) -> bool {
    let q = split(unsigned_part(s), '.');
    (q.len() == 1 && q[0].len() >= 1 && crate::text::all_digits(q[0])) || (q.len() == 2
        && crate::text::all_digits(q[0]) && crate::text::all_digits(q[1]) && q[0].len() + q[1].len()
        >= 1)
}

/// `[+-]?d+`
pub open spec fn is_exponent(s: Seq<char>) -> bool {
    unsigned_part(s).len() >= 1 && crate::text::all_digits(unsigned_part(s))
}

pub open spec fn lower_e(s: Seq<char>) -> Seq<char> {
    s.map_values(|c: char| if c == 'E' { 'e' } else { c })
}

/// The lexical space of xs:double: a decimal mantissa with an optional
/// exponent, or `INF`, `+INF`, `-INF`, `NaN`.
pub open spec fn is_double_text(s: Seq<char>) -> bool {
    s == "INF"@ || s == "+INF"@ || s == "-INF"@ || s == "NaN"@ || {
        let p = split(lower_e(s), 'e');
        (p.len() == 1 && is_mantissa(p[0])) || (p.len() == 2 && is_mantissa(p[0]) && is_exponent(
            p[1],
        ))
    }
}

fn all_digits_exec(s: &Vec<char>) -> (r: bool)
    ensures
        r == crate::text::all_digits(s@),
{
    let mut i: usize = 0;
    while i < s.len()
        invariant
            i <= s.len(),
            forall|j: int| 0 <= j < i ==> is_digit(#[trigger] s@[j]),
        decreases s.len() - i,
    {
        if !crate::text::is_digit_exec(s[i]) {
            return false;
        }
        i = i + 1;
    }
    true
}

fn unsigned_part_exec(s: &Vec<char>) -> (r: Vec<char>)
    ensures
        r@ == unsigned_part(s@),
{
    if s.len() > 0 && (s[0] == '+' || s[0] == '-') {
        crate::text::sub_chars(s, 1, s.len())
    } else {
        crate::text::sub_chars(s, 0, s.len())
    }
}

fn is_mantissa_exec(s: &Vec<char>) -> (r: bool)
    ensures
        r == is_mantissa(s@),
{
    let u = unsigned_part_exec(s);
    let q = split_exec(&u, '.');
    proof {
        crate::text::lemma_split_len(u@, '.');
    }
    if q.len() == 1 {
        q[0].len() >= 1 && all_digits_exec(&q[0])
    } else if q.len() == 2 {
        let a = all_digits_exec(&q[0]);
        let b = all_digits_exec(&q[1]);
        a && b && (q[0].len() >= 1 || q[1].len() >= 1)
    } else {
        false
    }
}

fn is_exponent_exec(s: &Vec<char>) -> (r: bool)
    ensures
        r == is_exponent(s@),
{
    let u = unsigned_part_exec(s);
    u.len() >= 1 && all_digits_exec(&u)
}

pub fn is_double_text_exec(s: &Vec<char>) -> (r: bool)
    ensures
        r == is_double_text(s@),
{
    if crate::definition::eq_text(s, "INF") || crate::definition::eq_text(s, "+INF")
        || crate::definition::eq_text(s, "-INF") || crate::definition::eq_text(s, "NaN") {
        return true;
    }
    let mut l: Vec<char> = Vec::new();
    let mut i: usize = 0;
    while i < s.len()
        invariant
            i <= s.len(),
            l@ == lower_e(s@).subrange(0, i as int),
        decreases s.len() - i,
    {
        let c = if s[i] == 'E' {
            'e'
        } else {
            s[i]
        };
        l.push(c);
        assert(lower_e(s@).subrange(0, i + 1) =~= lower_e(s@).subrange(0, i as int).push(c));
        i = i + 1;
    }
    assert(lower_e(s@).subrange(0, s.len() as int) =~= lower_e(s@));
    let p = split_exec(&l, 'e');
    proof {
        crate::text::lemma_split_len(l@, 'e');
    }
    if p.len() == 1 {
        is_mantissa_exec(&p[0])
    } else if p.len() == 2 {
        is_mantissa_exec(&p[0]) && is_exponent_exec(&p[1])
    } else {
        false
    }
}

pub open spec fn double_parse(s: Seq<char>) -> Option<Seq<char>> {
    if is_double_text(s) {
        Some(s)
    } else {
        None
    }
}

/// xs:double, held as its lexical form.
#[derive(Debug, Clone, PartialEq, Eq, Hash)]
pub struct XsDouble {
    value: String,
}

impl XsDouble {
    pub closed spec fn view(&self) -> Seq<char> {
        self.value@
    }

    pub fn from_str(s: &str) -> (r: Result<XsDouble, MpdError>)
        ensures
            match double_parse(s@) {
                Some(v) => r is Ok && r->Ok_0.view() == v,
                None => r matches Err(MpdError::UnmatchedPattern),
            },
    {
        let cs = chars_of(s);
        if !is_double_text_exec(&cs) {
            return Err(MpdError::UnmatchedPattern);
        }
        Ok(XsDouble { value: s.to_owned() })
    }

    pub fn to_string(&self) -> (r: String)
        ensures
            r@ == self.view(),
    {
        self.value.clone()
    }
}

} // verus!
