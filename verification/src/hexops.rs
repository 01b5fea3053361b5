//! Hex text of byte buffers.
//!
//! The collateral carries its signer measurement and attribute masks as hex
//! text, and the felt-text encoding renders byte buffers as hex.  The two
//! spec functions here state exactly what the hex crate's `encode` and
//! `decode` compute; the wrappers are the only unverified bodies.

use vstd::prelude::*;

use crate::chars::{
    all_hex_digits, hex_digit_char, hex_digit_val, hex_val, is_hex_digit, lemma_hex_val_take_mono,
};
use vstd::string::StrSliceExecFns;

verus! {

/// The lowercase hex rendering of a byte string: two digits for each byte,
/// high nibble first.
pub open spec fn hex_lower_of(bytes: Seq<u8>) -> Seq<char> {
    Seq::new(
        bytes.len() * 2,
        |i: int|
            if i % 2 == 0 {
                hex_digit_char((bytes[i / 2] >> 4) as nat)
            } else {
                hex_digit_char((bytes[i / 2] & 0xf) as nat)
            },
    )
}

/// The bytes encoded by an even-length hex digit string, two digits each.
pub open spec fn hex_decode_of(s: Seq<char>) -> Seq<u8> {
    Seq::new(
        (s.len() / 2) as nat,
        |i: int| (hex_digit_val(s[2 * i]) * 16 + hex_digit_val(s[2 * i + 1])) as u8,
    )
}

/// Relies on hex::encode: every byte becomes exactly two lowercase hex
/// digits, high nibble first.
#[verifier::external_body]
pub(crate) fn hex_encode(b: &[u8]) -> (r: String)
    ensures
        r@ == hex_lower_of(b@),
{
    hex::encode(b)
}

/// Relies on hex::decode: an even-length string of hex digits, either
/// case, decodes pairwise to bytes; an odd length or any other character
/// fails.
#[verifier::external_body]
pub(crate) fn hex_decode(s: &str) -> (r: Option<Vec<u8>>)
    ensures
        (r is Some) == (s@.len() % 2 == 0 && all_hex_digits(s@)),
        r matches Some(v) ==> v@ == hex_decode_of(s@),
{
    hex::decode(s).ok()
}

/// Parses a whole string of hex digits as an unsigned 64-bit integer.
/// Returns `None` exactly when the string is empty, holds a non-hex
/// character, or encodes a value past 64 bits.
pub fn parse_hex_u64(s: &str) -> (r: Option<u64>)
    ensures
        match r {
            Some(v) => s@.len() > 0 && all_hex_digits(s@) && hex_val(s@) <= u64::MAX && v == hex_val(
                s@,
            ),
            None => !(s@.len() > 0 && all_hex_digits(s@) && hex_val(s@) <= u64::MAX),
        },
{
    let n = s.unicode_len();
    if n == 0 {
        return None;
    }
    let mut acc: u64 = 0;
    proof {
        assert(s@.take(0) =~= Seq::<char>::empty());
    }
    let mut i: usize = 0;
    while i < n
        invariant
            0 <= i <= n,
            n == s@.len(),
            all_hex_digits(s@.take(i as int)),
            acc == hex_val(s@.take(i as int)),
        decreases n - i,
    {
        let c = s.get_char(i);
        let cv = c as u32;
        let d: u8 = if 48 <= cv && cv <= 57 {
            (cv - 48) as u8
        } else if 97 <= cv && cv <= 102 {
            (cv - 87) as u8
        } else if 65 <= cv && cv <= 70 {
            (cv - 55) as u8
        } else {
            proof {
                assert(!is_hex_digit(s@[i as int]));
            }
            return None;
        };
        proof {
            assert(s@.take(i as int + 1).drop_last() =~= s@.take(i as int));
            assert(s@.take(i as int + 1).last() == s@[i as int]);
            assert(hex_digit_val(s@[i as int]) == d);
        }
        let wide: u128 = (acc as u128) * 16 + (d as u128);
        if wide > u64::MAX as u128 {
            proof {
                lemma_hex_val_take_mono(s@, i as int + 1, n as int);
                assert(s@.take(n as int) =~= s@);
            }
            return None;
        }
        acc = (wide) as u64;
        proof {
            assert forall|k: int| 0 <= k < i + 1 implies is_hex_digit(
                #[trigger] s@.take(i as int + 1)[k],
            ) by {
                if k < i {
                    assert(s@.take(i as int + 1)[k] == s@.take(i as int)[k]);
                }
            }
        }
        i = i + 1;
    }
    proof {
        assert(s@.take(n as int) =~= s@);
    }
    Some(acc)
}

} // verus!
