use vstd::prelude::*;

use crate::errors::XpError;

verus! {

/// The signed value whose two's-complement 32-bit representation is `v`.
pub open spec fn spec_i32_from_bits(v: u32) -> i32 {
    if v < 0x8000_0000 {
        v as i32
    } else {
        (v - 0x1_0000_0000) as i32
    }
}

/// The two's-complement 32-bit representation of `x`.
pub open spec fn spec_i32_to_bits(x: i32) -> u32 {
    if x >= 0 {
        x as u32
    } else {
        (x + 0x1_0000_0000) as u32
    }
}

pub proof fn lemma_i32_bits_roundtrip(x: i32)
    ensures
        spec_i32_from_bits(spec_i32_to_bits(x)) == x,
{
}

pub fn i32_from_bits(v: u32) -> (r: i32)
    ensures
        r == spec_i32_from_bits(v),
{
    if v < 0x8000_0000 {
        v as i32
    } else if v == 0x8000_0000 {
        i32::MIN
    } else {
        let complement: u32 = (0xFFFF_FFFF - v) + 1;
        -(complement as i32)
    }
}

pub fn i32_to_bits(x: i32) -> (r: u32)
    ensures
        r == spec_i32_to_bits(x),
{
    if x >= 0 {
        x as u32
    } else if x == i32::MIN {
        0x8000_0000
    } else {
        let magnitude: u32 = (-x) as u32;
        (0xFFFF_FFFF - magnitude) + 1
    }
}

/// Copies a byte buffer into a fixed-size array, rejecting any buffer whose
/// length does not match exactly.
pub fn parse_message_data<const N: usize>(bytes: &[u8]) -> (r: Result<[u8; N], XpError>)
    ensures
        match r {
            Ok(a) => bytes@.len() == N && a@ == bytes@,
            Err(e) => bytes@.len() != N && e == XpError::ProtocolDecode,
        },
{
    if bytes.len() != N {
        return Err(XpError::ProtocolDecode);
    }
    let mut out: [u8; N] = vstd::array::array_fill_for_copy_types(0u8);
    let mut i: usize = 0;
    while i < N
        invariant
            0 <= i <= N,
            bytes@.len() == N,
            out@.len() == N,
            forall|j: int| 0 <= j < i ==> out@[j] == bytes@[j],
        decreases N - i,
    {
        out[i] = bytes[i];
        i = i + 1;
    }
    proof {
        assert(out@ =~= bytes@);
    }
    Ok(out)
}

} // verus!
