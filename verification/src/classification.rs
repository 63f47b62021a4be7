//! The classification tag of a scored signal and its one-byte wire codes.

use vstd::prelude::*;

verus! {

/// Classification of a scored signal, stored as a single byte.
///
/// The numeric codes 0 through 5 are a wire contract with the external
/// signal scorer, so they are fixed by `classification_code` and
/// `classification_from_byte` rather than by declaration order.
#[derive(Clone, Copy, PartialEq, Eq, Structural, Debug)]
pub enum Classification {
    Capital,
    Info,
    Velocity,
    Liquidity,
    News,
    Time,
}

/// The stable one-byte code of a classification.
pub open spec fn spec_classification_code(c: Classification) -> u8 {
    match c {
        Classification::Capital => 0,
        Classification::Info => 1,
        Classification::Velocity => 2,
        Classification::Liquidity => 3,
        Classification::News => 4,
        Classification::Time => 5,
    }
}

/// The classification a byte decodes to; a byte above 5 decodes to nothing.
pub open spec fn spec_classification_from_byte(b: u8) -> Option<Classification> {
    if b == 0 {
        Some(Classification::Capital)
    } else if b == 1 {
        Some(Classification::Info)
    } else if b == 2 {
        Some(Classification::Velocity)
    } else if b == 3 {
        Some(Classification::Liquidity)
    } else if b == 4 {
        Some(Classification::News)
    } else if b == 5 {
        Some(Classification::Time)
    } else {
        None
    }
}

/// Encode a classification as its stable one-byte wire code.
#[verifier::when_used_as_spec(spec_classification_code)]
pub fn classification_code(c: Classification) -> (r: u8)
    ensures
        r == spec_classification_code(c),
{
    match c {
        Classification::Capital => 0,
        Classification::Info => 1,
        Classification::Velocity => 2,
        Classification::Liquidity => 3,
        Classification::News => 4,
        Classification::Time => 5,
    }
}

/// Decode a one-byte wire code; any byte above 5 is not a classification.
#[verifier::when_used_as_spec(spec_classification_from_byte)]
pub fn classification_from_byte(b: u8) -> (r: Option<Classification>)
    ensures
        r == spec_classification_from_byte(b),
{
    if b == 0 {
        Some(Classification::Capital)
    } else if b == 1 {
        Some(Classification::Info)
    } else if b == 2 {
        Some(Classification::Velocity)
    } else if b == 3 {
        Some(Classification::Liquidity)
    } else if b == 4 {
        Some(Classification::News)
    } else if b == 5 {
        Some(Classification::Time)
    } else {
        None
    }
}

/// Law: decoding inverts encoding, so every variant survives a round trip
/// through its wire code.
pub proof fn lemma_classification_round_trip(c: Classification)
    ensures
        spec_classification_from_byte(spec_classification_code(c)) == Some(c),
{
}

/// Law: exactly the bytes 0 through 5 decode to a classification, and the
/// decoded variant encodes back to the same byte.
pub proof fn lemma_classification_codes(b: u8)
    ensures
        (spec_classification_from_byte(b) is Some) <==> b < 6,
        b < 6 ==> spec_classification_code(spec_classification_from_byte(b)->Some_0) == b,
{
}

} // verus!
