use vstd::prelude::*;

verus! {

/// The declared type of a subscribed dataref. It is a display and decoding
/// hint only; every update arrives on the wire as a 32-bit float.
#[derive(Clone, Copy, Debug, PartialEq, Eq, Structural)]
pub enum DataRefType {
    Float,
    Int,
    Char,
}

/// The current value of a subscription, tagged with its declared type.
///
/// Numeric payloads carry the raw bits of the 32-bit float that arrived on
/// the wire; projecting those bits into a float, a truncated integer or a
/// character is floating-point work left to the embedding code.
#[derive(Clone, Copy, Debug, PartialEq, Eq, Structural)]
pub enum DataRefValueType {
    /// The subscription is registered but no update has arrived yet.
    Unknown,
    Float(u32),
    Int(u32),
    Char(u32),
}

} // verus!
