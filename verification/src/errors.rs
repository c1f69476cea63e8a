use vstd::prelude::*;

verus! {

/// The failure taxonomy of the library.
///
/// Every fallible operation of the crate reports one of these; nothing is
/// fatal to the process.
#[derive(Clone, Copy, Debug, PartialEq, Eq, Structural)]
pub enum XpError {
    /// A socket bind, join, send or receive failed.
    Transport,
    /// A datagram was malformed or carried the wrong four-byte tag.
    ProtocolDecode,
    /// The named dataref was never subscribed, or no simulator was found.
    NotFound,
    /// An operation was attempted before the session reached `Connected`.
    NotConnected,
    /// A name or line exceeds its wire-format capacity, or an index is out
    /// of the allowed range.
    InvalidInput,
}

} // verus!
