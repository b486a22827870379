use vstd::prelude::*;

verus! {

/// The ways in which reading a value or building an entity can fail.
#[derive(Debug)]
pub enum MpdError {
    /// A value that has the right shape but not an admissible content.
    InvalidData(&'static str),
    /// A text that does not match the lexical pattern of its type.
    UnmatchedPattern,
    /// A text that is not an unsigned integer of the expected width.
    ParseIntError,
    /// A timestamp that the date parser refused.
    ChronoParseError(chrono::format::ParseError),
    /// A field that must be set was not.
    MissingRequiredField(&'static str),
    /// Fields that are set together in a way the format forbids.
    InvalidFieldCombination(&'static str),
    /// A numeric field outside its closed interval.
    OutOfRange(&'static str),
    /// A repeated field that must hold at least one element is empty.
    EmptyRequiredCollection(&'static str),
}

/// The date parser's error.
#[verifier::external_type_specification]
#[verifier::external_body]
pub struct ExParseError(chrono::format::ParseError);

} // verus!
