//! Field elements as decimal text.
//!
//! The felt-text encoding sends a hex string through the VM's field-element
//! constructor and renders the element in decimal.  The construction
//! succeeds exactly for an optionally `0x`-prefixed string of one to
//! sixty-four hex digits whose value does not exceed the field modulus;
//! the value is then reduced into the field.

use vstd::prelude::*;

use crate::chars::{all_hex_digits, dec_str, hex_val};
use crate::wide::two64;

verus! {

/// The modulus of the VM's field: 2^251 + 17 * 2^192 + 1.
pub open spec fn stark_prime() -> nat {
    0x0800_0000_0000_0011 * (two64() * two64() * two64()) + 1
}

/// A hex string with its optional `0x` prefix removed.  The prefix is
/// recognized only when at least one digit follows it.
pub open spec fn strip_hex_prefix(s: Seq<char>) -> Seq<char> {
    if s.len() > 2 && s[0] == '0' && s[1] == 'x' {
        s.subrange(2, s.len() as int)
    } else {
        s
    }
}

/// Whether the field-element constructor accepts the hex string: after
/// prefix stripping, one to sixty-four hex digits whose value does not
/// exceed the modulus.
pub open spec fn felt_hex_valid(s: Seq<char>) -> bool {
    let t = strip_hex_prefix(s);
    &&& t.len() > 0
    &&& t.len() <= 64
    &&& all_hex_digits(t)
    &&& hex_val(t) <= stark_prime()
}

/// The field element a hex string constructs: its value reduced by the
/// modulus.
pub open spec fn felt_of_hex(s: Seq<char>) -> nat {
    hex_val(strip_hex_prefix(s)) % stark_prime()
}

/// Relies on cairo_vm's Felt252: `from_hex` accepts an optionally
/// `0x`-prefixed string of at most sixty-four hex digits and rejects a
/// value above the field modulus, and the Display rendering is the
/// canonical decimal of the constructed element.
#[verifier::external_body]
pub(crate) fn felt_hex_to_dec(s: &str) -> (r: Option<String>)
    ensures
        (r is Some) == felt_hex_valid(s@),
        r matches Some(d) ==> d@ == dec_str(felt_of_hex(s@)),
{
    match cairo_vm::Felt252::from_hex(s) {
        Ok(f) => Some(f.to_string()),
        Err(_) => None,
    }
}

/// The constructed field element is below the modulus.
pub proof fn lemma_felt_of_hex_bound(s: Seq<char>)
    ensures
        felt_of_hex(s) < stark_prime(),
{
    let p = stark_prime();
    let v = hex_val(strip_hex_prefix(s));
    assert(v % p < p) by (nonlinear_arith)
        requires
            p >= 1,
    ;
}

} // verus!
