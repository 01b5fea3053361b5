//! Fixed-width integer splitting.
//!
//! A fixed-width buffer is split at its midpoint into two equal halves,
//! each reassembled into one wide integer with a declared byte order.  A
//! buffer of any other length is rejected, never truncated or padded.

use vstd::prelude::*;

use crate::errors::PrepError;
use crate::wide::{be_bytes_val, le_bytes_val, u128_be_at, u128_le_at, wide_be_at, wide_val, Wide256};

verus! {

/// The byte order a split reassembles its halves with.
#[derive(Clone, Copy, Debug, PartialEq, Eq, Structural)]
pub enum SplitOrder {
    LittleEndian,
    BigEndian,
}

/// Splits a 32-byte buffer at the midpoint into two 128-bit integers,
/// read with the declared byte order.  A buffer of any other length
/// fails with a shape mismatch.
pub fn split_u128_pair(buf: &Vec<u8>, order: SplitOrder) -> (r: Result<(u128, u128), PrepError>)
    ensures
        (r is Ok) == (buf@.len() == 32),
        r matches Ok(p) ==> match order {
            SplitOrder::LittleEndian => p.0 == le_bytes_val(buf@.subrange(0, 16)) && p.1
                == le_bytes_val(buf@.subrange(16, 32)),
            SplitOrder::BigEndian => p.0 == be_bytes_val(buf@.subrange(0, 16)) && p.1
                == be_bytes_val(buf@.subrange(16, 32)),
        },
        r matches Err(e) ==> e == PrepError::ShapeMismatch,
{
    if buf.len() != 32 {
        return Err(PrepError::ShapeMismatch);
    }
    match order {
        SplitOrder::LittleEndian => {
            let first = u128_le_at(buf.as_slice(), 0);
            let second = u128_le_at(buf.as_slice(), 16);
            Ok((first, second))
        },
        SplitOrder::BigEndian => {
            let first = u128_be_at(buf.as_slice(), 0);
            let second = u128_be_at(buf.as_slice(), 16);
            Ok((first, second))
        },
    }
}

/// Splits a 64-byte buffer at the midpoint into two 256-bit big-endian
/// integers, as the signature and key buffers are read.  A buffer of any
/// other length fails with a shape mismatch.
pub fn split_u256_pair(buf: &Vec<u8>) -> (r: Result<(Wide256, Wide256), PrepError>)
    ensures
        (r is Ok) == (buf@.len() == 64),
        r matches Ok(p) ==> wide_val(p.0) == be_bytes_val(buf@.subrange(0, 32)) && wide_val(p.1)
            == be_bytes_val(buf@.subrange(32, 64)),
        r matches Err(e) ==> e == PrepError::ShapeMismatch,
{
    if buf.len() != 64 {
        return Err(PrepError::ShapeMismatch);
    }
    let first = wide_be_at(buf.as_slice(), 0);
    let second = wide_be_at(buf.as_slice(), 32);
    Ok((first, second))
}

} // verus!
