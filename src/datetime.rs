use vstd::prelude::*;

use crate::error::MpdError;
use crate::text::{chars_of, contains, contains_exec, split, split_exec};

verus! {

/// A date and time without a zone.
#[verifier::external_type_specification]
#[verifier::external_body]
pub struct ExNaiveDateTime(chrono::NaiveDateTime);

/// The instant that an RFC 3339 text names, as seconds since the Unix epoch
/// and nanoseconds.
pub uninterp spec fn rfc3339_instant(s: Seq<char>) -> Option<(int, nat)>;

/// The RFC 3339 text, in UTC, of an instant given as seconds since the Unix
/// epoch and nanoseconds.
pub uninterp spec fn rfc3339_of(secs: int, nanos: nat) -> Option<Seq<char>>;

/// Relies on `chrono::DateTime::parse_from_rfc3339`: the instant as seconds
/// since the Unix epoch and nanoseconds.
#[verifier::external_body]
fn parse_rfc3339(s: &str) -> (r: Result<(i64, u32), chrono::format::ParseError>)
    ensures
        r is Ok <==> rfc3339_instant(s@) is Some,
        r matches Ok(v) ==> rfc3339_instant(s@) == Some((v.0 as int, v.1 as nat)),
{
    chrono::DateTime::parse_from_rfc3339(s).map(|d| (d.timestamp(), d.timestamp_subsec_nanos()))
}

/// Relies on `chrono::NaiveDateTime::parse_from_str`.
#[verifier::external_body]
fn parse_naive(s: &str, fmt: &str) -> (r: Result<
    chrono::NaiveDateTime,
    chrono::format::ParseError,
>) {
    chrono::NaiveDateTime::parse_from_str(s, fmt)
}

/// Relies on `chrono::NaiveDateTime::and_local_timezone` with the machine's
/// zone: the instant where the local time names exactly one
/// (`MappedLocalTime::single`), as seconds since the Unix epoch and
/// nanoseconds.
#[verifier::external_body]
fn local_instant(n: &chrono::NaiveDateTime) -> (r: Option<(i64, u32)>) {
    n.and_local_timezone(chrono::Local).single().map(
        |d| (d.timestamp(), d.timestamp_subsec_nanos()),
    )
}

/// Relies on `chrono::DateTime::to_rfc3339_opts` with automatic fraction
/// digits and `Z` for UTC, on the instant that `DateTime::from_timestamp`
/// gives; `None` where that instant is out of the supported range.
#[verifier::external_body]
fn rfc3339_text(secs: i64, nanos: u32) -> (r: Option<String>)
    ensures
        r is Some <==> rfc3339_of(secs as int, nanos as nat) is Some,
        r matches Some(t) ==> rfc3339_of(secs as int, nanos as nat) == Some(t@),
{
    chrono::DateTime::from_timestamp(secs, nanos).map(
        |d| d.to_rfc3339_opts(chrono::SecondsFormat::AutoSi, true),
    )
}

/// What follows the first `T`, if there is one, and whether it carries a
/// zone (`Z`, `+` or `-`).
pub open spec fn zone_marked(s: Seq<char>) -> Option<bool> {
    let parts = split(s, 'T');
    if parts.len() < 2 {
        None
    } else {
        Some(contains(parts[1], 'Z') || contains(parts[1], '+') || contains(parts[1], '-'))
    }
}

/// xs:dateTime, held as an instant: seconds since the Unix epoch (UTC) and
/// nanoseconds.
#[derive(Debug, Default, Clone, Copy, PartialEq, Eq, Hash)]
pub struct XsDateTime {
    secs: i64,
    nanos: u32,
}

impl XsDateTime {
    pub closed spec fn view(&self) -> (int, nat) {
        (self.secs as int, self.nanos as nat)
    }

    /// The instant `secs` seconds and `nanos` nanoseconds after the Unix
    /// epoch, where the date library can write it.
    pub fn from_timestamp(secs: i64, nanos: u32) -> (r: Option<XsDateTime>)
        ensures
            r is Some <==> rfc3339_of(secs as int, nanos as nat) is Some,
            r matches Some(d) ==> d.view() == (secs as int, nanos as nat),
    {
        match rfc3339_text(secs, nanos) {
            Some(_) => Some(XsDateTime { secs, nanos }),
            None => None,
        }
    }

    pub fn timestamp(&self) -> (r: i64)
        ensures
            r as int == self.view().0,
    {
        self.secs
    }

    pub fn timestamp_subsec_nanos(&self) -> (r: u32)
        ensures
            r as nat == self.view().1,
    {
        self.nanos
    }

    /// A timestamp with a zone is read as RFC 3339; one without is read as
    /// `%Y-%m-%dT%H:%M:%S%.f` in the machine's zone.
    pub fn from_str(s: &str) -> (r: Result<XsDateTime, MpdError>)
        ensures
            zone_marked(s@) is None ==> r matches Err(MpdError::UnmatchedPattern),
            zone_marked(s@) == Some(true) ==> (r is Ok <==> rfc3339_instant(s@) is Some),
            zone_marked(s@) == Some(true) ==> (r matches Ok(d) ==> rfc3339_instant(s@) == Some(
                d.view(),
            )),
            zone_marked(s@) == Some(true) ==> (r is Err ==> r matches Err(
                MpdError::ChronoParseError(_),
            )),
            zone_marked(s@) == Some(false) ==> (r is Err ==> (r->Err_0 is ChronoParseError
                || r->Err_0 is InvalidData)),
    {
        let cs = chars_of(s);
        let parts = split_exec(&cs, 'T');
        if parts.len() < 2 {
            return Err(MpdError::UnmatchedPattern);
        }
        let tp = &parts[1];
        if contains_exec(tp, 'Z') || contains_exec(tp, '+') || contains_exec(tp, '-') {
            match parse_rfc3339(s) {
                Ok((secs, nanos)) => Ok(XsDateTime { secs, nanos }),
                Err(e) => Err(MpdError::ChronoParseError(e)),
            }
        } else {
            match parse_naive(s, "%Y-%m-%dT%H:%M:%S%.f") {
                Ok(n) => match local_instant(&n) {
                    Some((secs, nanos)) => Ok(XsDateTime { secs, nanos }),
                    None => Err(
                        MpdError::InvalidData("The local time is ambiguous or does not exist"),
                    ),
                },
                Err(e) => Err(MpdError::ChronoParseError(e)),
            }
        }
    }

    /// RFC 3339 in UTC, with `Z` and as many fraction digits as needed.
    pub fn to_string(&self) -> (r: String)
        ensures
            rfc3339_of(self.view().0, self.view().1) matches Some(t) ==> r@ == t,
    {
        match rfc3339_text(self.secs, self.nanos) {
            Some(t) => t,
            None => String::new(),
        }
    }
}

} // verus!
