//! The outcome of the asynchronous notification: the raw result the host
//! delivers for the dispatched call, and its decoding into the value the
//! resolution step works with.

use vstd::prelude::*;

verus! {

/// The delivered result of one notification dispatch: either the bytes the
/// receiver's handler returned, or its outright failure. The host guarantees
/// exactly one of these per dispatched notification.
pub enum PromiseStatus {
    Successful(Vec<u8>),
    Failed,
}

/// The decoded outcome of the receiver's notification handler.
#[derive(Clone, Copy, Debug, PartialEq, Eq)]
pub enum ResolveOutcome {
    /// The handler returned the portion of the transferred amount it did
    /// not use.
    Success(u128),
    /// The handler returned bytes that do not parse as an amount; treated
    /// as full failure.
    Unparsable,
    /// The handler failed outright.
    Failure,
}

/// What the JSON amount parser returns on the given bytes.
pub uninterp spec fn parsed_unused_amount(bytes: Seq<u8>) -> Option<u128>;

/// Relies on `near_sdk::serde_json::from_slice::<U128>`: parses a JSON
/// base-10 string into a 128-bit amount; the result depends on the bytes
/// alone.
#[verifier::external_body]
fn parse_unused_amount(value: &Vec<u8>) -> (r: Option<u128>)
    ensures
        r == parsed_unused_amount(value@),
{
    near_sdk::serde_json::from_slice::<near_sdk::json_types::U128>(value).ok().map(|u| u.0)
}

/// The outcome a delivered result decodes to.
pub open spec fn spec_outcome_of(result: PromiseStatus) -> ResolveOutcome {
    match result {
        PromiseStatus::Failed => ResolveOutcome::Failure,
        PromiseStatus::Successful(value) => match parsed_unused_amount(value@) {
            Some(unused) => ResolveOutcome::Success(unused),
            None => ResolveOutcome::Unparsable,
        },
    }
}

/// Decodes the delivered result of a notification: bytes that parse as an
/// amount become `Success`, bytes that do not become `Unparsable`, and an
/// outright failure becomes `Failure`.
pub fn decode_outcome(result: &PromiseStatus) -> (o: ResolveOutcome)
    ensures
        o == spec_outcome_of(*result),
{
    match result {
        PromiseStatus::Failed => ResolveOutcome::Failure,
        PromiseStatus::Successful(value) => match parse_unused_amount(value) {
            Some(unused) => ResolveOutcome::Success(unused),
            None => ResolveOutcome::Unparsable,
        },
    }
}

} // verus!
