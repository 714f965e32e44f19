//! Typed failures of the wire-to-domain decoders.

use vstd::prelude::*;

verus! {

/// The ways a decode operation can fail.
///
/// Every failure is surfaced to the immediate caller as one of these values;
/// nothing is retried, logged or defaulted, and no partial account value is
/// ever returned. A failing nested decode inside a `ModuleAccount` message
/// propagates the nested error unchanged. Encoding never fails.
#[derive(Clone, Copy, Debug, PartialEq, Eq, Structural)]
pub enum ParseError {
    /// The wire `address` string does not conform to the account-identifier
    /// grammar.
    IdentifierParse,
    /// The wire `pub_key` message does not decode into any supported
    /// public-key variant: unknown type tag, or a byte length that does not
    /// match the claimed algorithm.
    KeyDecode,
}

} // verus!
