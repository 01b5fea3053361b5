//! 256-bit unsigned values built from plain machine integers.
//!
//! The signature and key halves of an attestation record are 256-bit
//! big-endian integers, and the scalar tokens of the flat argument stream
//! carry values up to the VM's 256-bit working width.  `Wide256` holds such
//! a value as two 128-bit halves; `wide_val` is its mathematical reading.

use vstd::prelude::*;

use crate::chars::{
    all_dec_digits, dec_digit_val, dec_val, is_dec_digit, lemma_dec_val_take_mono,
};
use vstd::string::StrSliceExecFns;
use vstd::slice::spec_slice_len;

verus! {

broadcast use vstd::slice::group_slice_axioms;

/// 2^64 as a u128 literal, used to split a 128-bit half into machine words.
pub open spec fn two64() -> nat {
    0x1_0000_0000_0000_0000
}

/// 2^128, the weight of the upper half of a `Wide256`.
pub open spec fn two128() -> nat {
    two64() * two64()
}

/// 2^256, one past the largest value a `Wide256` can hold.
pub open spec fn two256() -> nat {
    two128() * two128()
}

/// An unsigned 256-bit integer: `hi * 2^128 + lo`.
#[derive(Clone, Copy, Debug, PartialEq, Eq, Structural)]
pub struct Wide256 {
    pub hi: u128,
    pub lo: u128,
}

/// The numeric value of a `Wide256`.
pub open spec fn wide_val(w: Wide256) -> nat {
    (w.hi as nat) * two128() + (w.lo as nat)
}

/// The value of a byte string read as one big-endian integer.
pub open spec fn be_bytes_val(s: Seq<u8>) -> nat
    decreases s.len(),
{
    if s.len() == 0 {
        0
    } else {
        be_bytes_val(s.drop_last()) * 256 + (s.last() as nat)
    }
}

/// The value of a byte string read as one little-endian integer.
pub open spec fn le_bytes_val(s: Seq<u8>) -> nat
    decreases s.len(),
{
    if s.len() == 0 {
        0
    } else {
        (s.first() as nat) + 256 * le_bytes_val(s.drop_first())
    }
}

/// 256^n, the number of byte strings of length n.
pub open spec fn byte_bound(n: nat) -> nat
    decreases n,
{
    if n == 0 {
        1
    } else {
        256 * byte_bound((n - 1) as nat)
    }
}

/// Reads the sixteen bytes of `b` starting at `start` as one big-endian
/// 128-bit integer.
pub fn u128_be_at(b: &[u8], start: usize) -> (r: u128)
    requires
        start + 16 <= b@.len(),
    ensures
        r == be_bytes_val(b@.subrange(start as int, start as int + 16)),
{
    proof {
        assert(spec_slice_len(b) <= usize::MAX);
    }
    let mut acc: u128 = 0;
    let mut i: usize = 0;
    while i < 16
        invariant
            0 <= i <= 16,
            acc == be_bytes_val(b@.subrange(start as int, start as int + i)),
            acc < byte_bound(i as nat),
        decreases 16 - i,
    {
        proof {
            lemma_byte_bound_16();
            lemma_byte_bound_mono((i + 1) as nat, 16);
            assert(acc * 256 + b@[start + i] < byte_bound(i as nat) * 256) by (nonlinear_arith)
                requires
                    acc < byte_bound(i as nat),
                    b@[start + i] < 256,
            ;
            assert(byte_bound((i + 1) as nat) == 256 * byte_bound(i as nat));
            assert(b@.subrange(start as int, start as int + i + 1).drop_last() =~= b@.subrange(
                start as int,
                start as int + i,
            ));
            assert(b@.subrange(start as int, start as int + i + 1).last() == b@[start + i]);
        }
        acc = acc * 256 + (b[start + i] as u128);
        i = i + 1;
    }
    acc
}

/// 256^16 is exactly 2^128, computed by unrolling the recursion.
pub proof fn lemma_byte_bound_16()
    ensures
        byte_bound(16) == two128(),
        two128() == u128::MAX + 1,
{
    assert(two64() * two64() == u128::MAX + 1) by (nonlinear_arith);
    assert(byte_bound(0) == 1);
    assert(byte_bound(1) == 256);
    assert(byte_bound(2) == 0x1_0000);
    assert(byte_bound(3) == 0x100_0000);
    assert(byte_bound(4) == 0x1_0000_0000);
    assert(byte_bound(5) == 0x100_0000_0000);
    assert(byte_bound(6) == 0x1_0000_0000_0000);
    assert(byte_bound(7) == 0x100_0000_0000_0000);
    assert(byte_bound(8) == 0x1_0000_0000_0000_0000);
    assert(byte_bound(9) == 0x100_0000_0000_0000_0000);
    assert(byte_bound(10) == 0x1_0000_0000_0000_0000_0000);
    assert(byte_bound(11) == 0x100_0000_0000_0000_0000_0000);
    assert(byte_bound(12) == 0x1_0000_0000_0000_0000_0000_0000);
    assert(byte_bound(13) == 0x100_0000_0000_0000_0000_0000_0000);
    assert(byte_bound(14) == 0x1_0000_0000_0000_0000_0000_0000_0000);
    assert(byte_bound(15) == 0x100_0000_0000_0000_0000_0000_0000_0000);
    assert(byte_bound(16) == 256 * 0x100_0000_0000_0000_0000_0000_0000_0000);
    assert(256 * 0x100_0000_0000_0000_0000_0000_0000_0000 == two64() * two64())
        by (nonlinear_arith);
}

/// 256^i divides 256^j when i <= j, hence the bounds are monotone.
pub proof fn lemma_byte_bound_mono(i: nat, j: nat)
    requires
        i <= j,
    ensures
        byte_bound(i) <= byte_bound(j),
        byte_bound(i) >= 1,
    decreases j,
{
    if j > 0 {
        if i == j {
            lemma_byte_bound_mono((i - 1) as nat, (j - 1) as nat);
        } else {
            lemma_byte_bound_mono(i, (j - 1) as nat);
        }
    }
}

/// Reads the sixteen bytes of `b` starting at `start` as one little-endian
/// 128-bit integer.
pub fn u128_le_at(b: &[u8], start: usize) -> (r: u128)
    requires
        start + 16 <= b@.len(),
    ensures
        r == le_bytes_val(b@.subrange(start as int, start as int + 16)),
{
    proof {
        assert(spec_slice_len(b) <= usize::MAX);
    }
    let mut acc: u128 = 0;
    let mut j: usize = 16;
    while j > 0
        invariant
            0 <= j <= 16,
            acc == le_bytes_val(b@.subrange(start as int + j, start as int + 16)),
            acc < byte_bound((16 - j) as nat),
        decreases j,
    {
        proof {
            lemma_byte_bound_16();
            lemma_byte_bound_mono((16 - j + 1) as nat, 16);
            assert(byte_bound((16 - j + 1) as nat) == 256 * byte_bound((16 - j) as nat));
            assert(acc * 256 + b@[start + j - 1] < byte_bound((16 - j) as nat) * 256)
                by (nonlinear_arith)
                requires
                    acc < byte_bound((16 - j) as nat),
                    b@[start + j - 1] < 256,
            ;
            assert(b@.subrange(start as int + j - 1, start as int + 16).drop_first() =~= b@
                .subrange(start as int + j, start as int + 16));
            assert(b@.subrange(start as int + j - 1, start as int + 16).first() == b@[start + j
                - 1]);
            assert(le_bytes_val(b@.subrange(start as int + j - 1, start as int + 16)) == b@[start
                + j - 1] + 256 * acc);
        }
        acc = (b[start + j - 1] as u128) + 256 * acc;
        j = j - 1;
    }
    acc
}

/// Splitting a big-endian byte string after its first part weighs the
/// first part by 256 to the length of the second.
pub proof fn lemma_be_bytes_val_concat(a: Seq<u8>, b: Seq<u8>)
    ensures
        be_bytes_val(a + b) == be_bytes_val(a) * byte_bound(b.len()) + be_bytes_val(b),
    decreases b.len(),
{
    if b.len() == 0 {
        assert(a + b =~= a);
        assert(byte_bound(0) == 1);
        assert(be_bytes_val(a) * byte_bound(b.len()) == be_bytes_val(a) * 1);
        assert(be_bytes_val(a) * 1 == be_bytes_val(a)) by (nonlinear_arith);
        assert(be_bytes_val(a + b) == be_bytes_val(a) * byte_bound(b.len()) + be_bytes_val(b));
    } else {
        lemma_be_bytes_val_concat(a, b.drop_last());
        assert((a + b).drop_last() =~= a + b.drop_last());
        assert((a + b).last() == b.last());
        assert(b.drop_last().len() == b.len() - 1);
        let x = be_bytes_val(a);
        let y = be_bytes_val(b.drop_last());
        let l = b.last() as nat;
        let b1 = byte_bound((b.len() - 1) as nat);
        assert(be_bytes_val(a + b) == (x * b1 + y) * 256 + l);
        assert(byte_bound(b.len()) == 256 * b1);
        assert(be_bytes_val(b) == y * 256 + l);
        assert((x * b1 + y) * 256 + l == x * (256 * b1) + (y * 256 + l)) by (nonlinear_arith);
        assert(x * byte_bound(b.len()) == x * (256 * b1)) by (nonlinear_arith)
            requires
                byte_bound(b.len()) == 256 * b1,
        ;
        assert(be_bytes_val(a + b) == be_bytes_val(a) * byte_bound(b.len()) + be_bytes_val(b));
    }
}

/// Reads the thirty-two bytes of `b` starting at `start` as one big-endian
/// 256-bit integer.
pub fn wide_be_at(b: &[u8], start: usize) -> (r: Wide256)
    requires
        start + 32 <= b@.len(),
    ensures
        wide_val(r) == be_bytes_val(b@.subrange(start as int, start as int + 32)),
{
    proof {
        assert(spec_slice_len(b) <= usize::MAX);
    }
    let hi = u128_be_at(b, start);
    let lo = u128_be_at(b, start + 16);
    proof {
        let whole = b@.subrange(start as int, start as int + 32);
        let first = b@.subrange(start as int, start as int + 16);
        let second = b@.subrange(start as int + 16, start as int + 32);
        assert(whole =~= first + second);
        lemma_be_bytes_val_concat(first, second);
        lemma_byte_bound_16();
    }
    Wide256 { hi, lo }
}

/// Multiplies a 256-bit value by ten and adds one decimal digit, reporting
/// overflow past 2^256 as `None`.
pub fn wide_mul10_add(w: Wide256, d: u8) -> (r: Option<Wide256>)
    requires
        d < 10,
    ensures
        match r {
            Some(v) => wide_val(v) == wide_val(w) * 10 + d && wide_val(w) * 10 + d < two256(),
            None => wide_val(w) * 10 + d >= two256(),
        },
{
    let two64c: u128 = 0x1_0000_0000_0000_0000;
    let lo_lo = w.lo % two64c;
    let lo_hi = w.lo / two64c;
    let p0 = lo_lo * 10 + (d as u128);
    let p1 = lo_hi * 10 + p0 / two64c;
    let new_lo = p0 % two64c + (p1 % two64c) * two64c;
    let carry = p1 / two64c;
    let hi_lo = w.hi % two64c;
    let hi_hi = w.hi / two64c;
    let q0 = hi_lo * 10 + carry;
    let q1 = hi_hi * 10 + q0 / two64c;
    let new_hi = q0 % two64c + (q1 % two64c) * two64c;
    let ovf = q1 / two64c;
    proof {
        lemma_mul10_step(w.lo as nat, d as nat, p0 as nat, p1 as nat, new_lo as nat, carry as nat);
        lemma_mul10_step(w.hi as nat, carry as nat, q0 as nat, q1 as nat, new_hi as nat, ovf as nat);
        // Combine the two halves: 10 * val + d decomposes limb by limb.
        assert(wide_val(w) * 10 + d == (w.hi * 10 + carry) * two128() + (w.lo * 10 + d) - carry
            * two128()) by (nonlinear_arith);
        assert((new_hi + ovf * two128()) * two128() == new_hi * two128() + ovf * two256())
            by (nonlinear_arith)
            requires
                two128() * two128() == two256(),
        ;
        assert(two128() * two128() == two256()) by (nonlinear_arith);
        assert(wide_val(w) * 10 + d == new_lo + new_hi * two128() + ovf * two256());
        if ovf == 0 {
            assert(new_lo + new_hi * two128() < two256()) by (nonlinear_arith)
                requires
                    new_lo < two128(),
                    new_hi < two128(),
                    two128() * two128() == two256(),
            ;
        } else {
            assert(new_lo + new_hi * two128() + ovf * two256() >= two256()) by (nonlinear_arith)
                requires
                    ovf >= 1,
            ;
        }
    }
    if ovf == 0 {
        Some(Wide256 { hi: new_hi, lo: new_lo })
    } else {
        None
    }
}

/// One limb-level step of the decimal accumulation: multiplying a 128-bit
/// half by ten and adding a small carry splits into a new half and an
/// outgoing carry.
proof fn lemma_mul10_step(x: nat, add: nat, p0: nat, p1: nat, new_x: nat, carry_out: nat)
    requires
        x < two128(),
        add < two64(),
        p0 == (x % two64()) * 10 + add,
        p1 == (x / two64()) * 10 + p0 / two64(),
        new_x == p0 % two64() + (p1 % two64()) * two64(),
        carry_out == p1 / two64(),
    ensures
        x * 10 + add == new_x + carry_out * two128(),
        new_x < two128(),
{
    let t = two64();
    assert(x == (x / t) * t + x % t) by (nonlinear_arith)
        requires
            t > 0,
    ;
    assert(p0 == (p0 / t) * t + p0 % t) by (nonlinear_arith)
        requires
            t > 0,
    ;
    assert(p1 == (p1 / t) * t + p1 % t) by (nonlinear_arith)
        requires
            t > 0,
    ;
    assert(p0 % t < t && p1 % t < t && x % t < t) by (nonlinear_arith)
        requires
            t > 0,
    ;
    let u = x / t;
    let r = x % t;
    assert(x * 10 == (u * t + r) * 10);
    assert((u * t + r) * 10 == (u * t) * 10 + r * 10);
    assert((u * t) * 10 == (u * 10) * t) by (nonlinear_arith);
    assert(x * 10 + add == (u * 10) * t + p0);
    assert((x / t) * 10 * t + p0 == p1 * t + p0 % t) by (nonlinear_arith)
        requires
            p1 == (x / t) * 10 + p0 / t,
            p0 == (p0 / t) * t + p0 % t,
    ;
    assert(p1 * t == (p1 % t) * t + (p1 / t) * (t * t)) by (nonlinear_arith)
        requires
            p1 == (p1 / t) * t + p1 % t,
    ;
    assert(t * t == two128()) by (nonlinear_arith)
        requires
            t == two64(),
    ;
    assert(new_x < two128()) by (nonlinear_arith)
        requires
            new_x == p0 % t + (p1 % t) * t,
            p0 % t < t,
            p1 % t < t,
            t * t == two128(),
    ;
}

/// Every value a `Wide256` can hold is below 2^256.
pub proof fn lemma_wide_val_bound(w: Wide256)
    ensures
        wide_val(w) < two256(),
{
    lemma_byte_bound_16();
    assert((w.hi as nat) * two128() + w.lo < two128() * two128()) by (nonlinear_arith)
        requires
            w.hi < two128(),
            w.lo < two128(),
    ;
}

/// Parses a whole string as one unsigned decimal integer of at most 256
/// bits: the numeric form of a scalar token of the flat argument stream.
/// Returns `None` exactly when the string is empty, holds a non-digit, or
/// encodes a value past the VM's 256-bit working width.
pub fn parse_dec_wide(s: &str) -> (r: Option<Wide256>)
    ensures
        match r {
            Some(w) => s@.len() > 0 && all_dec_digits(s@) && dec_val(s@) < two256() && wide_val(w)
                == dec_val(s@),
            None => !(s@.len() > 0 && all_dec_digits(s@) && dec_val(s@) < two256()),
        },
{
    let n = s.unicode_len();
    if n == 0 {
        return None;
    }
    let mut acc = Wide256 { hi: 0, lo: 0 };
    proof {
        assert(s@.take(0) =~= Seq::<char>::empty());
        assert(dec_val(Seq::<char>::empty()) == 0);
        assert((0 as nat) * two128() == 0) by (nonlinear_arith);
        assert(wide_val(acc) == 0);
    }
    let mut i: usize = 0;
    while i < n
        invariant
            0 <= i <= n,
            n == s@.len(),
            all_dec_digits(s@.take(i as int)),
            wide_val(acc) == dec_val(s@.take(i as int)),
        decreases n - i,
    {
        let c = s.get_char(i);
        let cv = c as u32;
        if cv < 48 || cv > 57 {
            proof {
                assert(!is_dec_digit(s@[i as int]));
            }
            return None;
        }
        let d = (cv - 48) as u8;
        proof {
            assert(s@.take(i as int + 1).drop_last() =~= s@.take(i as int));
            assert(s@.take(i as int + 1).last() == s@[i as int]);
            assert(dec_val(s@.take(i as int + 1)) == dec_val(s@.take(i as int)) * 10
                + dec_digit_val(s@[i as int]));
            assert(dec_digit_val(s@[i as int]) == d);
        }
        match wide_mul10_add(acc, d) {
            Some(w) => {
                acc = w;
            },
            None => {
                proof {
                    lemma_dec_val_take_mono(s@, i as int + 1, n as int);
                    assert(s@.take(n as int) =~= s@);
                    assert(dec_val(s@) >= two256());
                }
                return None;
            },
        }
        proof {
            assert forall|k: int| 0 <= k < i + 1 implies is_dec_digit(
                #[trigger] s@.take(i as int + 1)[k],
            ) by {
                if k < i {
                    assert(s@.take(i as int + 1)[k] == s@.take(i as int)[k]);
                }
            }
        }
        i = i + 1;
    }
    proof {
        assert(s@.take(n as int) =~= s@);
        lemma_wide_val_bound(acc);
    }
    Some(acc)
}

} // verus!
