//! The round trip: parsing a serialized record reproduces its values.
//!
//! `flat_values` enumerates a record's integer values directly, field by
//! field, in serialization order.  The flat tokens are exactly the
//! canonical decimal renderings of these values, and parsing the joined
//! wire text yields exactly these values as scalars: serialization and
//! parsing are inverses at the token level.

use vstd::prelude::*;

use crate::argstream::{
    bracket_expand, expand_all, is_ws, parse_args_spec, parse_state, tokenize_spec, ws_split,
    ws_split_rec, FlatArgumentModel, valid_num_token,
};
use crate::chars::{
    all_dec_digits, dec_str, dec_val, is_dec_digit, lemma_dec_str_digits, lemma_dec_val_of_dec_str,
};
use crate::felt::{felt_of_hex, lemma_felt_of_hex_bound, stark_prime};
use crate::serialize::{
    body_tokens, dec_tokens_of_bytes, felt_dec_token, flat_tokens, header_tokens, id_hex_text,
    join_spaces, level_tokens, levels_tokens, module_tokens, tcb_date_placeholder,
};
use crate::types::{
    CairoQuoteHeader, CairoTD10Report, CairoTDXModule, CairoTdxModuleTcbLevel,
    CairoVerificationInputs,
};
use crate::wide::{two256, two64};

verus! {

// ---------------------------------------------------------------------
// The direct enumeration of a record's integer values.
// ---------------------------------------------------------------------

/// Each byte of a buffer as its own value.
pub open spec fn byte_values(b: Seq<u8>) -> Seq<nat> {
    b.map_values(|x: u8| x as nat)
}

/// The values of the quote header fields, in order.
pub open spec fn header_values(h: CairoQuoteHeader) -> Seq<nat> {
    seq![h.version as nat, h.att_key_type as nat, h.tee_type as nat] + byte_values(h.qe_svn@)
        + byte_values(h.pce_svn@) + byte_values(h.qe_vendor_id@) + byte_values(h.user_data@)
}

/// The values of the report body fields, in order.
pub open spec fn body_values(b: CairoTD10Report) -> Seq<nat> {
    byte_values(b.tee_tcb_svn@) + byte_values(b.mrseam@) + byte_values(b.mrsignerseam@)
        + seq![b.seam_attributes as nat, b.td_attributes as nat, b.xfam as nat] + byte_values(
        b.mrtd@,
    ) + byte_values(b.mrconfigid@) + byte_values(b.mrowner@) + byte_values(b.mrownerconfig@)
        + byte_values(b.rtmr0@) + byte_values(b.rtmr1@) + byte_values(b.rtmr2@) + byte_values(
        b.rtmr3@,
    ) + byte_values(b.report_data@)
}

/// The values of one TCB level: version, the placeholder's field value,
/// status code.
pub open spec fn level_values(l: CairoTdxModuleTcbLevel) -> Seq<nat> {
    seq![l.tcb.isvsvn as nat, felt_of_hex(tcb_date_placeholder()), l.tcb_status as nat]
}

/// The values of all TCB levels, in order.
pub open spec fn levels_values(ls: Seq<CairoTdxModuleTcbLevel>) -> Seq<nat>
    decreases ls.len(),
{
    if ls.len() == 0 {
        Seq::empty()
    } else {
        levels_values(ls.drop_last()) + level_values(ls.last())
    }
}

/// The values of the module identity fields, in order.
pub open spec fn module_values(m: CairoTDXModule) -> Seq<nat> {
    byte_values(m.mrsigner@) + seq![m.attributes as nat, m.attributes_mask as nat, felt_of_hex(
        id_hex_text(m.identity_id@),
    ), felt_of_hex(id_hex_text(m.expected_id@))] + levels_values(m.tcb_levels@)
}

/// The complete value sequence of a record: the direct enumeration of
/// its fields in serialization order.
pub open spec fn flat_values(v: CairoVerificationInputs) -> Seq<nat> {
    header_values(v.quote_header) + body_values(v.quote_body) + seq![felt_of_hex(
        v.attestation_signature.r@,
    ), felt_of_hex(v.attestation_signature.s@), felt_of_hex(
        v.attestation_pubkey.x@,
    ), felt_of_hex(v.attestation_pubkey.y@)] + module_values(v.tdx_module) + byte_values(
        v.tcb_info_svn@,
    )
}

// ---------------------------------------------------------------------
// The tokens are the decimal renderings of the values.
// ---------------------------------------------------------------------

/// Rendering distributes over concatenation.
proof fn lemma_map_dec_concat(a: Seq<nat>, b: Seq<nat>)
    ensures
        (a + b).map_values(|n: nat| dec_str(n)) == a.map_values(|n: nat| dec_str(n)) + b.map_values(
            |n: nat| dec_str(n),
        ),
{
    assert((a + b).map_values(|n: nat| dec_str(n)) =~= a.map_values(|n: nat| dec_str(n))
        + b.map_values(|n: nat| dec_str(n)));
}

/// The byte-wise tokens are the renderings of the byte values.
proof fn lemma_byte_tokens_values(b: Seq<u8>)
    ensures
        dec_tokens_of_bytes(b) == byte_values(b).map_values(|n: nat| dec_str(n)),
{
    assert(dec_tokens_of_bytes(b) =~= byte_values(b).map_values(|n: nat| dec_str(n)));
}

/// The header tokens are the renderings of the header values.
proof fn lemma_header_tokens_values(h: CairoQuoteHeader)
    ensures
        header_tokens(h) == header_values(h).map_values(|n: nat| dec_str(n)),
{
    lemma_byte_tokens_values(h.qe_svn@);
    lemma_byte_tokens_values(h.pce_svn@);
    lemma_byte_tokens_values(h.qe_vendor_id@);
    lemma_byte_tokens_values(h.user_data@);
    let s3 = seq![h.version as nat, h.att_key_type as nat, h.tee_type as nat];
    lemma_map_dec_concat(s3, byte_values(h.qe_svn@));
    lemma_map_dec_concat(s3 + byte_values(h.qe_svn@), byte_values(h.pce_svn@));
    lemma_map_dec_concat(
        s3 + byte_values(h.qe_svn@) + byte_values(h.pce_svn@),
        byte_values(h.qe_vendor_id@),
    );
    lemma_map_dec_concat(
        s3 + byte_values(h.qe_svn@) + byte_values(h.pce_svn@) + byte_values(h.qe_vendor_id@),
        byte_values(h.user_data@),
    );
    assert(s3.map_values(|n: nat| dec_str(n)) =~= seq![dec_str(h.version as nat), dec_str(
        h.att_key_type as nat,
    ), dec_str(h.tee_type as nat)]);
}

/// The body tokens are the renderings of the body values.
proof fn lemma_body_tokens_values(b: CairoTD10Report)
    ensures
        body_tokens(b) == body_values(b).map_values(|n: nat| dec_str(n)),
{
    lemma_byte_tokens_values(b.tee_tcb_svn@);
    lemma_byte_tokens_values(b.mrseam@);
    lemma_byte_tokens_values(b.mrsignerseam@);
    lemma_byte_tokens_values(b.mrtd@);
    lemma_byte_tokens_values(b.mrconfigid@);
    lemma_byte_tokens_values(b.mrowner@);
    lemma_byte_tokens_values(b.mrownerconfig@);
    lemma_byte_tokens_values(b.rtmr0@);
    lemma_byte_tokens_values(b.rtmr1@);
    lemma_byte_tokens_values(b.rtmr2@);
    lemma_byte_tokens_values(b.rtmr3@);
    lemma_byte_tokens_values(b.report_data@);
    assert(body_tokens(b) =~= body_values(b).map_values(|n: nat| dec_str(n))) by {
        assert forall|i: int| 0 <= i < body_values(b).len() implies body_tokens(b)[i]
            == body_values(b).map_values(|n: nat| dec_str(n))[i] by {
            assert(body_tokens(b).len() == body_values(b).len());
        }
        assert(body_tokens(b).len() == body_values(b).len());
    }
}

/// The level tokens are the renderings of the level values.
proof fn lemma_levels_tokens_values(ls: Seq<CairoTdxModuleTcbLevel>)
    ensures
        levels_tokens(ls) == levels_values(ls).map_values(|n: nat| dec_str(n)),
    decreases ls.len(),
{
    if ls.len() == 0 {
        assert(levels_tokens(ls) =~= levels_values(ls).map_values(|n: nat| dec_str(n)));
    } else {
        lemma_levels_tokens_values(ls.drop_last());
        lemma_map_dec_concat(levels_values(ls.drop_last()), level_values(ls.last()));
        assert(level_tokens(ls.last()) =~= level_values(ls.last()).map_values(
            |n: nat| dec_str(n),
        ));
    }
}

/// The module tokens are the renderings of the module values.
proof fn lemma_module_tokens_values(m: CairoTDXModule)
    ensures
        module_tokens(m) == module_values(m).map_values(|n: nat| dec_str(n)),
{
    lemma_byte_tokens_values(m.mrsigner@);
    lemma_levels_tokens_values(m.tcb_levels@);
    let s4 = seq![m.attributes as nat, m.attributes_mask as nat, felt_of_hex(
        id_hex_text(m.identity_id@),
    ), felt_of_hex(id_hex_text(m.expected_id@))];
    lemma_map_dec_concat(byte_values(m.mrsigner@), s4);
    lemma_map_dec_concat(byte_values(m.mrsigner@) + s4, levels_values(m.tcb_levels@));
    assert(s4.map_values(|n: nat| dec_str(n)) =~= seq![dec_str(m.attributes as nat), dec_str(
        m.attributes_mask as nat,
    ), felt_dec_token(id_hex_text(m.identity_id@)), felt_dec_token(id_hex_text(m.expected_id@))]);
}

/// Every flat token is the canonical decimal rendering of the value at
/// its position in the direct enumeration.
pub proof fn lemma_flat_tokens_are_rendered_values(v: CairoVerificationInputs)
    ensures
        flat_tokens(v) == flat_values(v).map_values(|n: nat| dec_str(n)),
{
    lemma_header_tokens_values(v.quote_header);
    lemma_body_tokens_values(v.quote_body);
    lemma_module_tokens_values(v.tdx_module);
    lemma_byte_tokens_values(v.tcb_info_svn@);
    let felts = seq![felt_of_hex(v.attestation_signature.r@), felt_of_hex(
        v.attestation_signature.s@,
    ), felt_of_hex(v.attestation_pubkey.x@), felt_of_hex(v.attestation_pubkey.y@)];
    lemma_map_dec_concat(header_values(v.quote_header), body_values(v.quote_body));
    lemma_map_dec_concat(header_values(v.quote_header) + body_values(v.quote_body), felts);
    lemma_map_dec_concat(
        header_values(v.quote_header) + body_values(v.quote_body) + felts,
        module_values(v.tdx_module),
    );
    lemma_map_dec_concat(
        header_values(v.quote_header) + body_values(v.quote_body) + felts + module_values(
            v.tdx_module,
        ),
        byte_values(v.tcb_info_svn@),
    );
    assert(felts.map_values(|n: nat| dec_str(n)) =~= seq![felt_dec_token(
        v.attestation_signature.r@,
    ), felt_dec_token(v.attestation_signature.s@), felt_dec_token(
        v.attestation_pubkey.x@,
    ), felt_dec_token(v.attestation_pubkey.y@)]);
}

// ---------------------------------------------------------------------
// Joining and splitting are inverse on plain tokens.
// ---------------------------------------------------------------------

/// A token with no whitespace and at least one character.
pub open spec fn plain_token(t: Seq<char>) -> bool {
    t.len() > 0 && (forall|i: int| 0 <= i < t.len() ==> !is_ws(#[trigger] t[i]))
}

/// The join, recursed from the front.
spec fn join_front(ts: Seq<Seq<char>>) -> Seq<char>
    decreases ts.len(),
{
    if ts.len() == 0 {
        Seq::empty()
    } else if ts.len() == 1 {
        ts.first()
    } else {
        ts.first() + seq![' '] + join_front(ts.drop_first())
    }
}

/// Appending one token to a join appends a space and the token.
proof fn lemma_join_front_push(ts: Seq<Seq<char>>, t: Seq<char>)
    ensures
        join_front(ts.push(t)) == if ts.len() == 0 {
            t
        } else {
            join_front(ts) + seq![' '] + t
        },
    decreases ts.len(),
{
    if ts.len() == 0 {
        assert(ts.push(t).len() == 1);
        assert(ts.push(t).first() == t);
    } else {
        lemma_join_front_push(ts.drop_first(), t);
        assert(ts.push(t).drop_first() =~= ts.drop_first().push(t));
        assert(ts.push(t).first() == ts.first());
        if ts.len() == 1 {
            assert(ts.drop_first().len() == 0);
            assert(join_front(ts.push(t)) == ts.first() + seq![' '] + t);
            assert(join_front(ts) == ts.first());
        } else {
            assert(join_front(ts.push(t)) == ts.first() + seq![' '] + (join_front(ts.drop_first())
                + seq![' '] + t));
            assert(ts.first() + seq![' '] + (join_front(ts.drop_first()) + seq![' '] + t) =~= (
            ts.first() + seq![' '] + join_front(ts.drop_first())) + seq![' '] + t);
        }
    }
}

/// The back-recursed and the front-recursed join agree.
proof fn lemma_join_spaces_eq_front(ts: Seq<Seq<char>>)
    ensures
        join_spaces(ts) == join_front(ts),
    decreases ts.len(),
{
    if ts.len() == 0 {
    } else if ts.len() == 1 {
        assert(ts.last() == ts.first());
    } else {
        lemma_join_spaces_eq_front(ts.drop_last());
        lemma_join_front_push(ts.drop_last(), ts.last());
        assert(ts.drop_last().push(ts.last()) =~= ts);
    }
}

/// The whitespace splitter consumes a whitespace-free run into the
/// current token.
proof fn lemma_ws_consume(t: Seq<char>, r: Seq<char>, cur: Seq<char>, acc: Seq<Seq<char>>)
    requires
        forall|i: int| 0 <= i < t.len() ==> !is_ws(#[trigger] t[i]),
    ensures
        ws_split_rec(t + r, cur, acc) == ws_split_rec(r, cur + t, acc),
    decreases t.len(),
{
    if t.len() == 0 {
        assert(t + r =~= r);
        assert(cur + t =~= cur);
    } else {
        assert((t + r).len() > 0);
        assert((t + r).first() == t.first());
        assert(!is_ws(t.first()));
        assert((t + r).drop_first() =~= t.drop_first() + r);
        assert(forall|i: int|
            0 <= i < t.drop_first().len() ==> !is_ws(#[trigger] t.drop_first()[i]));
        lemma_ws_consume(t.drop_first(), r, cur.push(t.first()), acc);
        assert(cur.push(t.first()) + t.drop_first() =~= cur + t);
    }
}

/// Splitting the join of plain tokens yields the tokens back.
proof fn lemma_split_of_join(ts: Seq<Seq<char>>, acc: Seq<Seq<char>>)
    requires
        forall|k: int| 0 <= k < ts.len() ==> plain_token(#[trigger] ts[k]),
    ensures
        ws_split_rec(join_front(ts), Seq::empty(), acc) == acc + ts,
    decreases ts.len(),
{
    if ts.len() == 0 {
        assert(acc + ts =~= acc);
    } else if ts.len() == 1 {
        assert(ts.first() + Seq::<char>::empty() =~= ts.first());
        lemma_ws_consume(ts.first(), Seq::empty(), Seq::empty(), acc);
        assert(Seq::<char>::empty() + ts.first() =~= ts.first());
        assert(ws_split_rec(Seq::<char>::empty(), ts.first(), acc) == acc.push(ts.first()));
        assert(acc.push(ts.first()) =~= acc + ts);
    } else {
        let rest = ts.drop_first();
        let tail = seq![' '] + join_front(rest);
        assert(join_front(ts) =~= ts.first() + tail);
        lemma_ws_consume(ts.first(), tail, Seq::empty(), acc);
        assert(Seq::<char>::empty() + ts.first() =~= ts.first());
        // One whitespace step flushes the token.
        assert(tail.first() == ' ');
        assert(is_ws(' '));
        assert(tail.drop_first() =~= join_front(rest));
        assert(ws_split_rec(tail, ts.first(), acc) == ws_split_rec(
            join_front(rest),
            Seq::empty(),
            acc.push(ts.first()),
        ));
        assert(forall|k: int| 0 <= k < rest.len() ==> plain_token(#[trigger] rest[k]));
        lemma_split_of_join(rest, acc.push(ts.first()));
        assert(acc.push(ts.first()) + rest =~= acc + ts);
    }
}

/// A token with no bracket at its edges passes bracket splitting whole.
proof fn lemma_bracket_noop(t: Seq<char>)
    requires
        t.len() > 0,
        t.first() != '[',
        t.last() != ']',
    ensures
        bracket_expand(t) == seq![t],
{
    assert(bracket_expand(t) =~= seq![t]);
}

/// Bracket splitting of bracket-free tokens is the identity.
proof fn lemma_expand_noop(ts: Seq<Seq<char>>)
    requires
        forall|k: int|
            0 <= k < ts.len() ==> (#[trigger] ts[k]).len() > 0 && ts[k].first() != '['
                && ts[k].last() != ']',
    ensures
        expand_all(ts) == ts,
    decreases ts.len(),
{
    if ts.len() > 0 {
        lemma_expand_noop(ts.drop_last());
        lemma_bracket_noop(ts.last());
        assert(ts.drop_last() + seq![ts.last()] =~= ts);
    }
}

/// A stream of valid numeric tokens parses to scalars of their values.
proof fn lemma_parse_scalars(ts: Seq<Seq<char>>, acc: Seq<FlatArgumentModel>)
    requires
        forall|k: int| 0 <= k < ts.len() ==> valid_num_token(#[trigger] ts[k]),
    ensures
        parse_state(ts, false, Seq::empty(), acc) == Ok::<Seq<FlatArgumentModel>, Seq<char>>(
            acc + ts.map_values(|t: Seq<char>| FlatArgumentModel::Scalar(dec_val(t))),
        ),
    decreases ts.len(),
{
    if ts.len() == 0 {
        assert(acc + ts.map_values(|t: Seq<char>| FlatArgumentModel::Scalar(dec_val(t))) =~= acc);
    } else {
        let t0 = ts.first();
        assert(valid_num_token(t0));
        assert(t0 != seq!['[']) by {
            if t0 == seq!['['] {
                assert(is_dec_digit(t0[0]));
            }
        }
        assert(forall|k: int|
            0 <= k < ts.drop_first().len() ==> valid_num_token(#[trigger] ts.drop_first()[k]));
        lemma_parse_scalars(ts.drop_first(), acc.push(FlatArgumentModel::Scalar(dec_val(t0))));
        assert(acc.push(FlatArgumentModel::Scalar(dec_val(t0))) + ts.drop_first().map_values(
            |t: Seq<char>| FlatArgumentModel::Scalar(dec_val(t)),
        ) =~= acc + ts.map_values(|t: Seq<char>| FlatArgumentModel::Scalar(dec_val(t))));
    }
}

// ---------------------------------------------------------------------
// Every enumerated value fits the VM's working width.
// ---------------------------------------------------------------------

/// Whether every value of the list is below 2^256.
pub open spec fn values_bounded(vs: Seq<nat>) -> bool {
    forall|i: int| 0 <= i < vs.len() ==> (#[trigger] vs[i]) < two256()
}

/// 2^256 exceeds every 64-bit value and the field modulus.
proof fn lemma_two256_big()
    ensures
        two256() > 0xffff_ffff_ffff_ffff,
        stark_prime() < two256(),
{
    let t = two64();
    assert(t * t >= t * 1 && t * 1 == t) by (nonlinear_arith);
    assert((t * t) * (t * t) >= (t * t) * 1 && (t * t) * 1 == t * t) by (nonlinear_arith);
    assert(two256() >= two64());
    let c: nat = 0x0800_0000_0000_0011;
    let cube = t * t * t;
    assert(cube >= 2) by (nonlinear_arith)
        requires
            t >= 2,
            cube == t * t * t,
    ;
    assert(c * cube + 1 < t * cube) by (nonlinear_arith)
        requires
            c + 1 <= t,
            cube >= 2,
    ;
    assert(stark_prime() == c * cube + 1);
    assert(t * cube == (t * t) * (t * t)) by (nonlinear_arith)
        requires
            cube == t * t * t,
    ;
}

/// Bounded lists stay bounded under concatenation.
proof fn lemma_bounded_concat(a: Seq<nat>, b: Seq<nat>)
    requires
        values_bounded(a),
        values_bounded(b),
    ensures
        values_bounded(a + b),
{
    assert forall|i: int| 0 <= i < (a + b).len() implies (#[trigger] (a + b)[i]) < two256() by {
        if i < a.len() {
            assert((a + b)[i] == a[i]);
        } else {
            assert((a + b)[i] == b[i - a.len()]);
        }
    }
}

/// Byte values are bounded.
proof fn lemma_byte_values_bounded(b: Seq<u8>)
    ensures
        values_bounded(byte_values(b)),
{
    lemma_two256_big();
}

/// Level values are bounded.
proof fn lemma_levels_values_bounded(ls: Seq<CairoTdxModuleTcbLevel>)
    ensures
        values_bounded(levels_values(ls)),
    decreases ls.len(),
{
    lemma_two256_big();
    if ls.len() > 0 {
        lemma_levels_values_bounded(ls.drop_last());
        lemma_felt_of_hex_bound(tcb_date_placeholder());
        assert(values_bounded(level_values(ls.last())));
        lemma_bounded_concat(levels_values(ls.drop_last()), level_values(ls.last()));
    }
}

/// Every value of the direct enumeration fits the VM's working width.
pub proof fn lemma_flat_values_bounded(v: CairoVerificationInputs)
    ensures
        values_bounded(flat_values(v)),
{
    lemma_two256_big();
    let h = v.quote_header;
    let b = v.quote_body;
    let m = v.tdx_module;
    lemma_byte_values_bounded(h.qe_svn@);
    lemma_byte_values_bounded(h.pce_svn@);
    lemma_byte_values_bounded(h.qe_vendor_id@);
    lemma_byte_values_bounded(h.user_data@);
    let s3 = seq![h.version as nat, h.att_key_type as nat, h.tee_type as nat];
    assert(values_bounded(s3));
    lemma_bounded_concat(s3, byte_values(h.qe_svn@));
    lemma_bounded_concat(s3 + byte_values(h.qe_svn@), byte_values(h.pce_svn@));
    lemma_bounded_concat(
        s3 + byte_values(h.qe_svn@) + byte_values(h.pce_svn@),
        byte_values(h.qe_vendor_id@),
    );
    lemma_bounded_concat(
        s3 + byte_values(h.qe_svn@) + byte_values(h.pce_svn@) + byte_values(h.qe_vendor_id@),
        byte_values(h.user_data@),
    );
    assert(values_bounded(header_values(h)));
    assert(values_bounded(body_values(b))) by {
        assert forall|i: int| 0 <= i < body_values(b).len() implies (#[trigger] body_values(
            b,
        )[i]) < two256() by {
            lemma_byte_values_bounded(b.tee_tcb_svn@);
            lemma_byte_values_bounded(b.mrseam@);
            lemma_byte_values_bounded(b.mrsignerseam@);
            lemma_byte_values_bounded(b.mrtd@);
            lemma_byte_values_bounded(b.mrconfigid@);
            lemma_byte_values_bounded(b.mrowner@);
            lemma_byte_values_bounded(b.mrownerconfig@);
            lemma_byte_values_bounded(b.rtmr0@);
            lemma_byte_values_bounded(b.rtmr1@);
            lemma_byte_values_bounded(b.rtmr2@);
            lemma_byte_values_bounded(b.rtmr3@);
            lemma_byte_values_bounded(b.report_data@);
        }
    }
    let felts = seq![felt_of_hex(v.attestation_signature.r@), felt_of_hex(
        v.attestation_signature.s@,
    ), felt_of_hex(v.attestation_pubkey.x@), felt_of_hex(v.attestation_pubkey.y@)];
    assert(values_bounded(felts)) by {
        lemma_felt_of_hex_bound(v.attestation_signature.r@);
        lemma_felt_of_hex_bound(v.attestation_signature.s@);
        lemma_felt_of_hex_bound(v.attestation_pubkey.x@);
        lemma_felt_of_hex_bound(v.attestation_pubkey.y@);
    }
    assert(values_bounded(module_values(m))) by {
        lemma_byte_values_bounded(m.mrsigner@);
        lemma_levels_values_bounded(m.tcb_levels@);
        let s4 = seq![m.attributes as nat, m.attributes_mask as nat, felt_of_hex(
            id_hex_text(m.identity_id@),
        ), felt_of_hex(id_hex_text(m.expected_id@))];
        assert(values_bounded(s4)) by {
            lemma_felt_of_hex_bound(id_hex_text(m.identity_id@));
            lemma_felt_of_hex_bound(id_hex_text(m.expected_id@));
        }
        lemma_bounded_concat(byte_values(m.mrsigner@), s4);
        lemma_bounded_concat(byte_values(m.mrsigner@) + s4, levels_values(m.tcb_levels@));
    }
    lemma_byte_values_bounded(v.tcb_info_svn@);
    lemma_bounded_concat(header_values(h), body_values(b));
    lemma_bounded_concat(header_values(h) + body_values(b), felts);
    lemma_bounded_concat(header_values(h) + body_values(b) + felts, module_values(m));
    lemma_bounded_concat(
        header_values(h) + body_values(b) + felts + module_values(m),
        byte_values(v.tcb_info_svn@),
    );
}

// ---------------------------------------------------------------------
// The round trip.
// ---------------------------------------------------------------------

/// Round trip: parsing the serialized wire text of any record yields
/// exactly the record's integer values, in order, each as a scalar:
/// serialization and parsing are inverses at the token level.
pub proof fn lemma_serialize_parse_round_trip(v: CairoVerificationInputs)
    ensures
        parse_args_spec(join_spaces(flat_tokens(v))) == Ok::<Seq<FlatArgumentModel>, Seq<char>>(
            flat_values(v).map_values(|n: nat| FlatArgumentModel::Scalar(n)),
        ),
        flat_tokens(v) == flat_values(v).map_values(|n: nat| dec_str(n)),
{
    let ts = flat_tokens(v);
    let vs = flat_values(v);
    lemma_flat_tokens_are_rendered_values(v);
    lemma_flat_values_bounded(v);
    // Every token is a nonempty string of decimal digits.
    assert forall|k: int| 0 <= k < ts.len() implies (#[trigger] ts[k]).len() > 0 && all_dec_digits(
        ts[k],
    ) && dec_val(ts[k]) == vs[k] by {
        assert(ts[k] == dec_str(vs[k]));
        lemma_dec_str_digits(vs[k]);
        lemma_dec_val_of_dec_str(vs[k]);
    }
    // Digits are not whitespace and not brackets.
    assert forall|k: int| 0 <= k < ts.len() implies plain_token(#[trigger] ts[k]) by {
        assert forall|i: int| 0 <= i < ts[k].len() implies !is_ws(#[trigger] ts[k][i]) by {
            assert(is_dec_digit(ts[k][i]));
        }
    }
    assert forall|k: int| 0 <= k < ts.len() implies (#[trigger] ts[k]).first() != '[' && ts[k].last()
        != ']' by {
        assert(is_dec_digit(ts[k].first()));
        assert(is_dec_digit(ts[k].last()));
    }
    // Splitting the joined text yields the tokens back.
    lemma_join_spaces_eq_front(ts);
    lemma_split_of_join(ts, Seq::empty());
    assert(Seq::<Seq<char>>::empty() + ts =~= ts);
    assert(ws_split(join_spaces(ts)) == ts);
    lemma_expand_noop(ts);
    assert(tokenize_spec(join_spaces(ts)) == ts);
    // Every token is a valid numeric literal, so the parse is all
    // scalars of the enumerated values.
    assert forall|k: int| 0 <= k < ts.len() implies valid_num_token(#[trigger] ts[k]) by {
        assert(dec_val(ts[k]) == vs[k]);
        assert(vs[k] < two256());
    }
    lemma_parse_scalars(ts, Seq::empty());
    assert(Seq::<FlatArgumentModel>::empty() + ts.map_values(
        |t: Seq<char>| FlatArgumentModel::Scalar(dec_val(t)),
    ) =~= ts.map_values(|t: Seq<char>| FlatArgumentModel::Scalar(dec_val(t))));
    assert(ts.map_values(|t: Seq<char>| FlatArgumentModel::Scalar(dec_val(t))) =~= vs.map_values(
        |n: nat| FlatArgumentModel::Scalar(n),
    ));
}

} // verus!
