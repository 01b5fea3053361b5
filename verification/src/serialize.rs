//! The flat serializer.
//!
//! A record is linearized into one strictly ordered sequence of decimal
//! scalar tokens: header fields, report-body fields, signature and key as
//! field-element decimals, the module identity with its TCB levels, and
//! the per-component security version bytes.  `flat_tokens` is the exact
//! token sequence; the wire form is that sequence joined by single
//! spaces.

use vstd::prelude::*;

use crate::chars::{dec_str, dec_str_u64};
use crate::errors::PrepError;
use crate::felt::{felt_hex_to_dec, felt_hex_valid, felt_of_hex, stark_prime};
use crate::hexops::{hex_encode, hex_lower_of};
use crate::types::{
    CairoQuoteHeader, CairoTD10Report, CairoTDXModule, CairoTdxModuleTcbLevel,
    CairoVerificationInputs,
};
use crate::wide::two64;
use vstd::string::StringExecFns;

verus! {

broadcast use vstd::string::group_string_axioms;

/// The views of a token list.
pub open spec fn views_of(ts: Seq<String>) -> Seq<Seq<char>> {
    ts.map_values(|s: String| s@)
}

/// Each byte of a buffer as its own decimal token.
pub open spec fn dec_tokens_of_bytes(b: Seq<u8>) -> Seq<Seq<char>> {
    b.map_values(|x: u8| dec_str(x as nat))
}

/// A hex string with the `0x` prefix in front.
pub open spec fn with_0x(t: Seq<char>) -> Seq<char> {
    seq!['0', 'x'] + t
}

/// The decimal token of the field element a hex string constructs.
pub open spec fn felt_dec_token(hexstr: Seq<char>) -> Seq<char> {
    dec_str(felt_of_hex(hexstr))
}

/// The fixed placeholder rendered in place of each level's TCB date.
pub open spec fn tcb_date_placeholder() -> Seq<char> {
    seq!['0', 'x', '1', '2', '3']
}

/// The placeholder is a valid field-element hex text of value 291.
pub proof fn lemma_placeholder_felt_valid()
    ensures
        felt_hex_valid(tcb_date_placeholder()),
        felt_of_hex(tcb_date_placeholder()) == 291,
{
    let p = tcb_date_placeholder();
    let t = crate::felt::strip_hex_prefix(p);
    let e = Seq::<char>::empty();
    let t1 = seq!['1'];
    let t2 = seq!['1', '2'];
    assert(t =~= seq!['1', '2', '3']);
    assert(t1.drop_last() =~= e);
    assert(crate::chars::hex_val(e) == 0);
    assert(t1.last() == '1');
    assert(crate::chars::hex_val(t1) == 1);
    assert(t2.drop_last() =~= t1);
    assert(t2.last() == '2');
    assert(crate::chars::hex_val(t2) == 0x12);
    assert(t.drop_last() =~= t2);
    assert(t.last() == '3');
    assert(crate::chars::hex_val(t) == 291);
    assert(two64() * two64() * two64() >= 1) by (nonlinear_arith);
    assert(stark_prime() >= 0x0800_0000_0000_0011 + 1) by (nonlinear_arith)
        requires
            two64() * two64() * two64() >= 1,
    ;
    assert(291nat % stark_prime() == 291) by (nonlinear_arith)
        requires
            stark_prime() > 291,
    ;
}

/// The tokens of the quote header: three scalars, then its four buffers
/// byte-wise.
pub open spec fn header_tokens(h: CairoQuoteHeader) -> Seq<Seq<char>> {
    seq![dec_str(h.version as nat), dec_str(h.att_key_type as nat), dec_str(h.tee_type as nat)]
        + dec_tokens_of_bytes(h.qe_svn@) + dec_tokens_of_bytes(h.pce_svn@) + dec_tokens_of_bytes(
        h.qe_vendor_id@,
    ) + dec_tokens_of_bytes(h.user_data@)
}

/// The tokens of the report body: its buffers byte-wise and its three
/// scalars, in declared field order.
pub open spec fn body_tokens(b: CairoTD10Report) -> Seq<Seq<char>> {
    dec_tokens_of_bytes(b.tee_tcb_svn@) + dec_tokens_of_bytes(b.mrseam@) + dec_tokens_of_bytes(
        b.mrsignerseam@,
    ) + seq![dec_str(b.seam_attributes as nat), dec_str(b.td_attributes as nat), dec_str(
        b.xfam as nat,
    )] + dec_tokens_of_bytes(b.mrtd@) + dec_tokens_of_bytes(b.mrconfigid@) + dec_tokens_of_bytes(
        b.mrowner@,
    ) + dec_tokens_of_bytes(b.mrownerconfig@) + dec_tokens_of_bytes(b.rtmr0@)
        + dec_tokens_of_bytes(b.rtmr1@) + dec_tokens_of_bytes(b.rtmr2@) + dec_tokens_of_bytes(
        b.rtmr3@,
    ) + dec_tokens_of_bytes(b.report_data@)
}

/// The three tokens of one TCB level: version, date placeholder, status.
pub open spec fn level_tokens(l: CairoTdxModuleTcbLevel) -> Seq<Seq<char>> {
    seq![dec_str(l.tcb.isvsvn as nat), felt_dec_token(tcb_date_placeholder()), dec_str(
        l.tcb_status as nat,
    )]
}

/// The tokens of all TCB levels in order.
pub open spec fn levels_tokens(ls: Seq<CairoTdxModuleTcbLevel>) -> Seq<Seq<char>>
    decreases ls.len(),
{
    if ls.len() == 0 {
        Seq::empty()
    } else {
        levels_tokens(ls.drop_last()) + level_tokens(ls.last())
    }
}

/// The felt hex text of an identity tag: the tag's bytes as prefixed hex.
pub open spec fn id_hex_text(id: Seq<char>) -> Seq<char> {
    with_0x(hex_lower_of(vstd::utf8::encode_utf8(id)))
}

/// The tokens of the module identity: signer buffer byte-wise, the two
/// attribute scalars, the two identity tags as field-element decimals,
/// then each TCB level.
pub open spec fn module_tokens(m: CairoTDXModule) -> Seq<Seq<char>> {
    dec_tokens_of_bytes(m.mrsigner@) + seq![dec_str(m.attributes as nat), dec_str(
        m.attributes_mask as nat,
    ), felt_dec_token(id_hex_text(m.identity_id@)), felt_dec_token(id_hex_text(m.expected_id@))]
        + levels_tokens(m.tcb_levels@)
}

/// The complete token sequence of a record, in serialization order:
/// header, body, the two signature halves, the two key coordinates, the
/// module identity, the per-component security version bytes.
pub open spec fn flat_tokens(v: CairoVerificationInputs) -> Seq<Seq<char>> {
    header_tokens(v.quote_header) + body_tokens(v.quote_body) + seq![felt_dec_token(
        v.attestation_signature.r@,
    ), felt_dec_token(v.attestation_signature.s@), felt_dec_token(
        v.attestation_pubkey.x@,
    ), felt_dec_token(v.attestation_pubkey.y@)] + module_tokens(v.tdx_module)
        + dec_tokens_of_bytes(v.tcb_info_svn@)
}

/// Whether every field-element text of the record is accepted by the
/// field-element constructor: the signature halves, the two key
/// coordinates, and the two identity tags.
pub open spec fn serializable(v: CairoVerificationInputs) -> bool {
    &&& felt_hex_valid(v.attestation_signature.r@)
    &&& felt_hex_valid(v.attestation_signature.s@)
    &&& felt_hex_valid(v.attestation_pubkey.x@)
    &&& felt_hex_valid(v.attestation_pubkey.y@)
    &&& felt_hex_valid(id_hex_text(v.tdx_module.identity_id@))
    &&& felt_hex_valid(id_hex_text(v.tdx_module.expected_id@))
}

/// The token sequence joined by single spaces.
pub open spec fn join_spaces(ts: Seq<Seq<char>>) -> Seq<char>
    decreases ts.len(),
{
    if ts.len() == 0 {
        Seq::empty()
    } else if ts.len() == 1 {
        ts.last()
    } else {
        join_spaces(ts.drop_last()) + seq![' '] + ts.last()
    }
}

// ---------------------------------------------------------------------
// Token building blocks.
// ---------------------------------------------------------------------

/// Appends one decimal token per byte of the buffer.
fn push_byte_tokens(out: &mut Vec<String>, b: &Vec<u8>)
    ensures
        views_of(final(out)@) == views_of(old(out)@) + dec_tokens_of_bytes(b@),
{
    let ghost base = views_of(out@);
    let mut i: usize = 0;
    proof {
        assert(views_of(out@) =~= base + dec_tokens_of_bytes(b@.take(0)));
    }
    while i < b.len()
        invariant
            0 <= i <= b@.len(),
            views_of(out@) == base + dec_tokens_of_bytes(b@.take(i as int)),
        decreases b@.len() - i,
    {
        let ghost prev = out@;
        let tok = dec_str_u64(b[i] as u64);
        out.push(tok);
        proof {
            assert(out@ == prev.push(tok));
            let lhs = views_of(out@);
            let rhs = base + dec_tokens_of_bytes(b@.take(i as int + 1));
            assert(lhs.len() == rhs.len());
            assert forall|k: int| 0 <= k < lhs.len() implies lhs[k] == rhs[k] by {
                if k < prev.len() {
                    assert(out@[k] == prev[k]);
                    assert(lhs[k] == views_of(prev)[k]);
                    assert(views_of(prev)[k] == (base + dec_tokens_of_bytes(b@.take(i as int)))[k]);
                    if k >= base.len() {
                        assert(dec_tokens_of_bytes(b@.take(i as int))[k - base.len()]
                            == dec_tokens_of_bytes(b@.take(i as int + 1))[k - base.len()]);
                    }
                } else {
                    assert(out@[k] == tok);
                    assert(lhs[k] == tok@);
                    assert(rhs[k] == dec_tokens_of_bytes(b@.take(i as int + 1))[i as int]);
                    assert(rhs[k] == dec_str(b@[i as int] as nat));
                }
            }
            assert(lhs =~= rhs);
        }
        i = i + 1;
    }
    proof {
        assert(b@.take(b@.len() as int) =~= b@);
    }
}

/// Appends the decimal token of one 64-bit scalar.
fn push_u64_token(out: &mut Vec<String>, v: u64)
    ensures
        views_of(final(out)@) == views_of(old(out)@) + seq![dec_str(v as nat)],
{
    out.push(dec_str_u64(v));
    proof {
        assert(views_of(out@) =~= views_of(old(out)@) + seq![dec_str(v as nat)]);
    }
}

/// Appends the decimal token of the field element a hex text constructs,
/// reporting whether the constructor accepted the text.
fn push_felt_token(out: &mut Vec<String>, hexstr: &str) -> (ok: bool)
    ensures
        ok == felt_hex_valid(hexstr@),
        ok ==> views_of(final(out)@) == views_of(old(out)@) + seq![felt_dec_token(hexstr@)],
        !ok ==> final(out)@ == old(out)@,
{
    match felt_hex_to_dec(hexstr) {
        Some(d) => {
            out.push(d);
            proof {
                assert(views_of(out@) =~= views_of(old(out)@) + seq![felt_dec_token(hexstr@)]);
            }
            true
        },
        None => false,
    }
}

/// The prefixed hex text of a string's bytes.
fn id_hex_text_exec(s0: &str) -> (r: String)
    ensures
        r@ == id_hex_text(s0@),
{
    let b = s0.as_bytes();
    let h = hex_encode(b);
    let mut t = String::from_str("0x");
    proof {
        reveal_strlit("0x");
    }
    t.append(h.as_str());
    proof {
        assert(t@ =~= id_hex_text(s0@));
    }
    t
}

/// Joins the tokens with single spaces.
fn join_tokens(ts: &Vec<String>) -> (r: String)
    ensures
        r@ == join_spaces(views_of(ts@)),
{
    let mut s = String::new();
    let mut i: usize = 0;
    proof {
        reveal_strlit(" ");
        assert(views_of(ts@).take(0) =~= Seq::<Seq<char>>::empty());
    }
    while i < ts.len()
        invariant
            0 <= i <= ts@.len(),
            s@ == join_spaces(views_of(ts@).take(i as int)),
        decreases ts@.len() - i,
    {
        if i > 0 {
            s.append(" ");
        }
        s.append(ts[i].as_str());
        proof {
            reveal_strlit(" ");
            assert(" "@ =~= seq![' ']);
            let vs = views_of(ts@);
            assert(vs.take(i as int + 1).drop_last() =~= vs.take(i as int));
            assert(vs.take(i as int + 1).last() == vs[i as int]);
            assert(vs[i as int] == ts@[i as int]@);
            if i == 0 {
                assert(s@ =~= join_spaces(vs.take(1)));
            } else {
                assert(s@ =~= join_spaces(vs.take(i as int + 1)));
            }
        }
        i = i + 1;
    }
    proof {
        assert(views_of(ts@).take(ts@.len() as int) =~= views_of(ts@));
    }
    s
}

// ---------------------------------------------------------------------
// The serializer.
// ---------------------------------------------------------------------

/// Linearizes a record into the flat wire text: every token of
/// `flat_tokens`, in order, joined by single spaces.  Fails exactly when
/// one of the record's field-element texts is rejected by the
/// field-element constructor.
#[verifier::rlimit(60)]
pub fn serialize_inputs(inputs: CairoVerificationInputs) -> (r: Result<String, PrepError>)
    ensures
        (r is Ok) == serializable(inputs),
        r matches Ok(s) ==> s@ == join_spaces(flat_tokens(inputs)),
        r matches Err(e) ==> e == PrepError::InvalidHexOrRangeOverflow,
{
    let mut toks: Vec<String> = Vec::new();
    proof {
        assert(views_of(toks@) =~= Seq::<Seq<char>>::empty());
    }
    // Quote header: three scalars, then the four buffers byte-wise.
    push_u64_token(&mut toks, inputs.quote_header.version as u64);
    push_u64_token(&mut toks, inputs.quote_header.att_key_type as u64);
    push_u64_token(&mut toks, inputs.quote_header.tee_type as u64);
    push_byte_tokens(&mut toks, &inputs.quote_header.qe_svn);
    push_byte_tokens(&mut toks, &inputs.quote_header.pce_svn);
    push_byte_tokens(&mut toks, &inputs.quote_header.qe_vendor_id);
    push_byte_tokens(&mut toks, &inputs.quote_header.user_data);
    proof {
        assert(views_of(toks@) =~= header_tokens(inputs.quote_header));
    }
    let ghost after_header = views_of(toks@);
    // Report body, in declared field order.
    push_byte_tokens(&mut toks, &inputs.quote_body.tee_tcb_svn);
    push_byte_tokens(&mut toks, &inputs.quote_body.mrseam);
    push_byte_tokens(&mut toks, &inputs.quote_body.mrsignerseam);
    push_u64_token(&mut toks, inputs.quote_body.seam_attributes);
    push_u64_token(&mut toks, inputs.quote_body.td_attributes);
    push_u64_token(&mut toks, inputs.quote_body.xfam);
    push_byte_tokens(&mut toks, &inputs.quote_body.mrtd);
    push_byte_tokens(&mut toks, &inputs.quote_body.mrconfigid);
    push_byte_tokens(&mut toks, &inputs.quote_body.mrowner);
    push_byte_tokens(&mut toks, &inputs.quote_body.mrownerconfig);
    push_byte_tokens(&mut toks, &inputs.quote_body.rtmr0);
    push_byte_tokens(&mut toks, &inputs.quote_body.rtmr1);
    push_byte_tokens(&mut toks, &inputs.quote_body.rtmr2);
    push_byte_tokens(&mut toks, &inputs.quote_body.rtmr3);
    push_byte_tokens(&mut toks, &inputs.quote_body.report_data);
    proof {
        assert(views_of(toks@) =~= after_header + body_tokens(inputs.quote_body));
    }
    let ghost after_body = views_of(toks@);
    // Signature halves and key coordinates as field-element decimals.
    if !push_felt_token(&mut toks, inputs.attestation_signature.r.as_str()) {
        return Err(PrepError::InvalidHexOrRangeOverflow);
    }
    if !push_felt_token(&mut toks, inputs.attestation_signature.s.as_str()) {
        return Err(PrepError::InvalidHexOrRangeOverflow);
    }
    if !push_felt_token(&mut toks, inputs.attestation_pubkey.x.as_str()) {
        return Err(PrepError::InvalidHexOrRangeOverflow);
    }
    if !push_felt_token(&mut toks, inputs.attestation_pubkey.y.as_str()) {
        return Err(PrepError::InvalidHexOrRangeOverflow);
    }
    proof {
        assert(views_of(toks@) =~= after_body + seq![felt_dec_token(
            inputs.attestation_signature.r@,
        ), felt_dec_token(inputs.attestation_signature.s@), felt_dec_token(
            inputs.attestation_pubkey.x@,
        ), felt_dec_token(inputs.attestation_pubkey.y@)]);
    }
    let ghost after_sig = views_of(toks@);
    // Module identity: signer buffer, attribute scalars, identity tags.
    push_byte_tokens(&mut toks, &inputs.tdx_module.mrsigner);
    push_u64_token(&mut toks, inputs.tdx_module.attributes);
    push_u64_token(&mut toks, inputs.tdx_module.attributes_mask);
    let id_hex = id_hex_text_exec(inputs.tdx_module.identity_id.as_str());
    if !push_felt_token(&mut toks, id_hex.as_str()) {
        return Err(PrepError::InvalidHexOrRangeOverflow);
    }
    let exp_hex = id_hex_text_exec(inputs.tdx_module.expected_id.as_str());
    if !push_felt_token(&mut toks, exp_hex.as_str()) {
        return Err(PrepError::InvalidHexOrRangeOverflow);
    }
    let ghost before_levels = views_of(toks@);
    // Each TCB level: version, date placeholder, mapped status.
    let mut i: usize = 0;
    proof {
        assert(inputs.tdx_module.tcb_levels@.take(0) =~= Seq::<CairoTdxModuleTcbLevel>::empty());
        assert(before_levels + levels_tokens(inputs.tdx_module.tcb_levels@.take(0)) =~=
        before_levels);
    }
    while i < inputs.tdx_module.tcb_levels.len()
        invariant
            0 <= i <= inputs.tdx_module.tcb_levels@.len(),
            views_of(toks@) == before_levels + levels_tokens(
                inputs.tdx_module.tcb_levels@.take(i as int),
            ),
        decreases inputs.tdx_module.tcb_levels@.len() - i,
    {
        let level = inputs.tdx_module.tcb_levels[i];
        push_u64_token(&mut toks, level.tcb.isvsvn as u64);
        proof {
            reveal_strlit("0x123");
            assert("0x123"@ =~= tcb_date_placeholder());
            lemma_placeholder_felt_valid();
        }
        if !push_felt_token(&mut toks, "0x123") {
            return Err(PrepError::InvalidHexOrRangeOverflow);
        }
        push_u64_token(&mut toks, level.tcb_status as u64);
        proof {
            let ls = inputs.tdx_module.tcb_levels@;
            assert(ls.take(i as int + 1).drop_last() =~= ls.take(i as int));
            assert(ls.take(i as int + 1).last() == ls[i as int]);
            assert(views_of(toks@) =~= before_levels + levels_tokens(ls.take(i as int + 1)));
        }
        i = i + 1;
    }
    proof {
        let ls = inputs.tdx_module.tcb_levels@;
        assert(ls.take(ls.len() as int) =~= ls);
        assert(views_of(toks@) =~= after_sig + module_tokens(inputs.tdx_module));
    }
    // The per-component security version bytes.
    push_byte_tokens(&mut toks, &inputs.tcb_info_svn);
    proof {
        assert(views_of(toks@) =~= flat_tokens(inputs));
    }
    Ok(join_tokens(&toks))
}

} // verus!
