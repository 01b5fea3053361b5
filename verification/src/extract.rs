//! The field extractor: from a decoded quote and collateral view to a
//! complete record.
//!
//! The stage enforces shape: the report body must be the TD10 variant and
//! every fixed-width buffer must have its declared length, or extraction
//! fails.  Buffers are copied verbatim; scalars keep their native width.

use vstd::prelude::*;

use crate::errors::PrepError;
use crate::hexops::{hex_encode, hex_lower_of};
use crate::resolver::{
    expected_id_spec, matching_levels_spec, resolve_err, resolve_ok, resolve_tdx_module,
    sort_desc_spec,
};
use crate::felt::felt_hex_valid;
use crate::serialize::{
    flat_tokens, id_hex_text, join_spaces, serializable, serialize_inputs, with_0x,
};
use crate::types::{
    body_wf, header_wf, AttestationPubKey, CairoAttestationPubKey, CairoECDSASignature,
    CairoQuoteHeader, CairoTD10Report, CairoTDXModule, CairoTdxModuleTcb,
    CairoTdxModuleTcbLevel, CairoVerificationInputs, QuoteHeader, QuoteView, ReportBodyView,
    ContractInputs, Signature, TD10ReportBody, TcbInfoView, TdxModuleIdentityTcbLevel,
};
use crate::wide::{be_bytes_val, wide_be_at, wide_val};
use vstd::string::StringExecFns;

verus! {

broadcast use vstd::string::group_string_axioms;

// ---------------------------------------------------------------------
// Small verified building blocks.
// ---------------------------------------------------------------------

/// A verbatim copy of a byte buffer.
fn copy_bytes(b: &Vec<u8>) -> (out: Vec<u8>)
    ensures
        out@ == b@,
{
    let mut out: Vec<u8> = Vec::new();
    let mut i: usize = 0;
    while i < b.len()
        invariant
            0 <= i <= b@.len(),
            out@ == b@.take(i as int),
        decreases b@.len() - i,
    {
        out.push(b[i]);
        proof {
            assert(out@ =~= b@.take(i as int + 1));
        }
        i = i + 1;
    }
    proof {
        assert(b@.take(b@.len() as int) =~= b@);
    }
    out
}

/// The bytes of `b` from `start` to `end`, exclusive.
fn sub_bytes(b: &Vec<u8>, start: usize, end: usize) -> (out: Vec<u8>)
    requires
        start <= end <= b@.len(),
    ensures
        out@ == b@.subrange(start as int, end as int),
{
    let mut out: Vec<u8> = Vec::new();
    let mut i: usize = start;
    proof {
        assert(out@ =~= b@.subrange(start as int, start as int));
    }
    while i < end
        invariant
            start <= i <= end <= b@.len(),
            out@ == b@.subrange(start as int, i as int),
        decreases end - i,
    {
        out.push(b[i]);
        proof {
            assert(out@ =~= b@.subrange(start as int, i as int + 1));
        }
        i = i + 1;
    }
    out
}

/// The `0x`-prefixed lowercase hex text of a byte range.
fn prefixed_hex_of_range(b: &Vec<u8>, start: usize, end: usize) -> (r: String)
    requires
        start <= end <= b@.len(),
    ensures
        r@ == with_0x(hex_lower_of(b@.subrange(start as int, end as int))),
{
    let sub = sub_bytes(b, start, end);
    let h = hex_encode(sub.as_slice());
    let mut t = String::from_str("0x");
    proof {
        reveal_strlit("0x");
    }
    t.append(h.as_str());
    proof {
        assert(t@ =~= with_0x(hex_lower_of(b@.subrange(start as int, end as int))));
    }
    t
}

/// The felt-text image of one resolved TCB level.
pub open spec fn to_cairo_level_spec(l: TdxModuleIdentityTcbLevel) -> CairoTdxModuleTcbLevel {
    CairoTdxModuleTcbLevel {
        tcb: CairoTdxModuleTcb { isvsvn: l.tcb.isvsvn },
        tcb_status: l.tcb_status,
    }
}

/// Converts resolved TCB levels to the felt-text record family.
fn to_cairo_levels(ls: &Vec<TdxModuleIdentityTcbLevel>) -> (out: Vec<CairoTdxModuleTcbLevel>)
    ensures
        out@ == ls@.map_values(|l: TdxModuleIdentityTcbLevel| to_cairo_level_spec(l)),
{
    let mut out: Vec<CairoTdxModuleTcbLevel> = Vec::new();
    let mut i: usize = 0;
    while i < ls.len()
        invariant
            0 <= i <= ls@.len(),
            out@ == ls@.take(i as int).map_values(
                |l: TdxModuleIdentityTcbLevel| to_cairo_level_spec(l),
            ),
        decreases ls@.len() - i,
    {
        let l = ls[i];
        out.push(CairoTdxModuleTcbLevel { tcb: CairoTdxModuleTcb { isvsvn: l.tcb.isvsvn }, tcb_status: l.tcb_status });
        proof {
            assert(out@ =~= ls@.take(i as int + 1).map_values(
                |l: TdxModuleIdentityTcbLevel| to_cairo_level_spec(l),
            ));
        }
        i = i + 1;
    }
    proof {
        assert(ls@.take(ls@.len() as int) =~= ls@);
    }
    out
}

// ---------------------------------------------------------------------
// Shape conditions and error order.
// ---------------------------------------------------------------------

/// The TD10 body of a quote view.
pub open spec fn td10_body(q: QuoteView) -> TD10ReportBody {
    q.body->Td10_0
}

/// Whether the quote has the expected variant and every buffer its
/// declared width.
pub open spec fn quote_shape_ok(q: QuoteView) -> bool {
    &&& q.body is Td10
    &&& header_wf(q.header)
    &&& body_wf(td10_body(q))
    &&& q.quote_signature@.len() == 64
    &&& q.ecdsa_attestation_key@.len() == 64
}

/// The module version a quote declares: the second byte of the TD
/// report's TEE TCB SVN buffer.
pub open spec fn module_version_of(q: QuoteView) -> u8
    recommends
        quote_shape_ok(q),
{
    td10_body(q).tee_tcb_svn@[1]
}

/// The per-component security version bytes of the collateral's first
/// TCB level, or none when the level list is empty.
pub open spec fn tcb_svn_of(t: TcbInfoView) -> Seq<u8>
    recommends
        t.tcb_levels@.len() > 0,
{
    if t.tcb_levels@[0].tdxtcbcomponents is Some {
        t.tcb_levels@[0].tdxtcbcomponents->0@
    } else {
        Seq::empty()
    }
}

/// Everything extraction needs: the quote's shape, a resolvable module
/// identity, and a nonempty TCB level list in the collateral.
pub open spec fn extract_ok(q: QuoteView, t: TcbInfoView) -> bool {
    &&& quote_shape_ok(q)
    &&& resolve_ok(t, module_version_of(q))
    &&& t.tcb_levels@.len() > 0
}

/// The failure an extraction reports, checked in stage order.
pub open spec fn extract_err(q: QuoteView, t: TcbInfoView) -> PrepError {
    if !(q.body is Td10) {
        PrepError::VariantMismatch
    } else if !header_wf(q.header) || !body_wf(td10_body(q)) || q.quote_signature@.len() != 64
        || q.ecdsa_attestation_key@.len() != 64 {
        PrepError::ShapeMismatch
    } else if !resolve_ok(t, module_version_of(q)) {
        resolve_err(t, module_version_of(q))
    } else {
        PrepError::MissingCollateralSection
    }
}

// ---------------------------------------------------------------------
// Field relations of the extracted record.
// ---------------------------------------------------------------------

/// The extracted header copies every field verbatim.
pub open spec fn cairo_header_from(out: CairoQuoteHeader, h: QuoteHeader) -> bool {
    &&& out.version == h.version
    &&& out.att_key_type == h.att_key_type
    &&& out.tee_type == h.tee_type
    &&& out.qe_svn@ == h.qe_svn@
    &&& out.pce_svn@ == h.pce_svn@
    &&& out.qe_vendor_id@ == h.qe_vendor_id@
    &&& out.user_data@ == h.user_data@
}

/// The extracted body copies every field verbatim.
pub open spec fn cairo_body_from(out: CairoTD10Report, b: TD10ReportBody) -> bool {
    &&& out.tee_tcb_svn@ == b.tee_tcb_svn@
    &&& out.mrseam@ == b.mrseam@
    &&& out.mrsignerseam@ == b.mrsignerseam@
    &&& out.seam_attributes == b.seam_attributes
    &&& out.td_attributes == b.td_attributes
    &&& out.xfam == b.xfam
    &&& out.mrtd@ == b.mrtd@
    &&& out.mrconfigid@ == b.mrconfigid@
    &&& out.mrowner@ == b.mrowner@
    &&& out.mrownerconfig@ == b.mrownerconfig@
    &&& out.rtmr0@ == b.rtmr0@
    &&& out.rtmr1@ == b.rtmr1@
    &&& out.rtmr2@ == b.rtmr2@
    &&& out.rtmr3@ == b.rtmr3@
    &&& out.report_data@ == b.report_data@
}

/// What the extracted felt-text record holds, field by field, in terms
/// of the quote and collateral views.
pub open spec fn cairo_inputs_from(out: CairoVerificationInputs, q: QuoteView, t: TcbInfoView) -> bool {
    let version = module_version_of(q);
    let exp = expected_id_spec(version);
    &&& cairo_header_from(out.quote_header, q.header)
    &&& cairo_body_from(out.quote_body, td10_body(q))
    &&& out.attestation_signature.r@ == with_0x(hex_lower_of(q.quote_signature@.subrange(0, 32)))
    &&& out.attestation_signature.s@ == with_0x(hex_lower_of(q.quote_signature@.subrange(32, 64)))
    &&& out.attestation_pubkey.x@ == with_0x(
        hex_lower_of(q.ecdsa_attestation_key@.subrange(0, 32)),
    )
    &&& out.attestation_pubkey.y@ == with_0x(
        hex_lower_of(q.ecdsa_attestation_key@.subrange(32, 64)),
    )
    &&& out.tdx_module.identity_id@ == exp
    &&& out.tdx_module.expected_id@ == exp
    &&& out.tdx_module.mrsigner@ == crate::hexops::hex_decode_of(t.tdx_module->0.mrsigner@)
    &&& out.tdx_module.mrsigner@.len() == 48
    &&& out.tdx_module.attributes == crate::chars::hex_val(t.tdx_module->0.attributes@)
    &&& out.tdx_module.attributes_mask == crate::chars::hex_val(t.tdx_module->0.attributes_mask@)
    &&& out.tdx_module.tcb_levels@ == sort_desc_spec(
        matching_levels_spec(t.tdx_module_identities->0@, exp),
    ).map_values(|l: TdxModuleIdentityTcbLevel| to_cairo_level_spec(l))
    &&& out.tcb_info_svn@ == tcb_svn_of(t)
}

// ---------------------------------------------------------------------
// Extraction, felt-text family.
// ---------------------------------------------------------------------

/// Extracts the felt-text record from a decoded quote and collateral
/// view, enforcing shape and resolving the module identity.
pub fn extract_cairo_inputs(quote: &QuoteView, collateral: &TcbInfoView) -> (r: Result<
    CairoVerificationInputs,
    PrepError,
>)
    ensures
        (r is Ok) == extract_ok(*quote, *collateral),
        r matches Ok(v) ==> cairo_inputs_from(v, *quote, *collateral),
        r matches Err(e) ==> e == extract_err(*quote, *collateral),
{
    let body = match &quote.body {
        ReportBodyView::Td10(b) => b,
        ReportBodyView::Unsupported => {
            return Err(PrepError::VariantMismatch);
        },
    };
    // Shape of the header buffers.
    if quote.header.qe_svn.len() != 2 || quote.header.pce_svn.len() != 2
        || quote.header.qe_vendor_id.len() != 16 || quote.header.user_data.len() != 20 {
        return Err(PrepError::ShapeMismatch);
    }
    // Shape of the report-body buffers.
    if body.tee_tcb_svn.len() != 16 || body.mrseam.len() != 48 || body.mrsignerseam.len() != 48
        || body.mrtd.len() != 48 || body.mrconfigid.len() != 48 || body.mrowner.len() != 48
        || body.mrownerconfig.len() != 48 || body.rtmr0.len() != 48 || body.rtmr1.len() != 48
        || body.rtmr2.len() != 48 || body.rtmr3.len() != 48 || body.report_data.len() != 64 {
        return Err(PrepError::ShapeMismatch);
    }
    // Shape of the signature and key buffers.
    if quote.quote_signature.len() != 64 || quote.ecdsa_attestation_key.len() != 64 {
        return Err(PrepError::ShapeMismatch);
    }
    let cairo_header = CairoQuoteHeader {
        version: quote.header.version,
        att_key_type: quote.header.att_key_type,
        tee_type: quote.header.tee_type,
        qe_svn: copy_bytes(&quote.header.qe_svn),
        pce_svn: copy_bytes(&quote.header.pce_svn),
        qe_vendor_id: copy_bytes(&quote.header.qe_vendor_id),
        user_data: copy_bytes(&quote.header.user_data),
    };
    let td10_body_out = CairoTD10Report {
        tee_tcb_svn: copy_bytes(&body.tee_tcb_svn),
        mrseam: copy_bytes(&body.mrseam),
        mrsignerseam: copy_bytes(&body.mrsignerseam),
        seam_attributes: body.seam_attributes,
        td_attributes: body.td_attributes,
        xfam: body.xfam,
        mrtd: copy_bytes(&body.mrtd),
        mrconfigid: copy_bytes(&body.mrconfigid),
        mrowner: copy_bytes(&body.mrowner),
        mrownerconfig: copy_bytes(&body.mrownerconfig),
        rtmr0: copy_bytes(&body.rtmr0),
        rtmr1: copy_bytes(&body.rtmr1),
        rtmr2: copy_bytes(&body.rtmr2),
        rtmr3: copy_bytes(&body.rtmr3),
        report_data: copy_bytes(&body.report_data),
    };
    // Signature halves and key coordinates as prefixed hex text.
    let r_hex = prefixed_hex_of_range(&quote.quote_signature, 0, 32);
    let s_hex = prefixed_hex_of_range(&quote.quote_signature, 32, 64);
    let signature = CairoECDSASignature { r: r_hex, s: s_hex };
    let x_hex = prefixed_hex_of_range(&quote.ecdsa_attestation_key, 0, 32);
    let y_hex = prefixed_hex_of_range(&quote.ecdsa_attestation_key, 32, 64);
    let pubkey = CairoAttestationPubKey { x: x_hex, y: y_hex };
    // Module identity resolution, keyed by the declared module version.
    let version = body.tee_tcb_svn[1];
    let module = match resolve_tdx_module(collateral, version) {
        Ok(m) => m,
        Err(e) => {
            return Err(e);
        },
    };
    let cairo_module = CairoTDXModule {
        mrsigner: module.mrsigner,
        attributes: module.attributes,
        attributes_mask: module.attributes_mask,
        identity_id: module.identity_id,
        expected_id: module.expected_id,
        tcb_levels: to_cairo_levels(&module.tcb_levels),
    };
    // The per-component security version bytes of the first TCB level.
    if collateral.tcb_levels.len() == 0 {
        return Err(PrepError::MissingCollateralSection);
    }
    let tcb_info_svn = match &collateral.tcb_levels[0].tdxtcbcomponents {
        Some(svns) => copy_bytes(svns),
        None => Vec::new(),
    };
    Ok(
        CairoVerificationInputs {
            quote_header: cairo_header,
            quote_body: td10_body_out,
            attestation_signature: signature,
            attestation_pubkey: pubkey,
            tdx_module: cairo_module,
            tcb_info_svn,
        },
    )
}

/// Whether every field-element text the extraction will produce is
/// accepted by the field-element constructor: the two signature halves,
/// the two key coordinates, and the identity tag.
pub open spec fn cairo_felts_ok(q: QuoteView, t: TcbInfoView) -> bool {
    &&& felt_hex_valid(with_0x(hex_lower_of(q.quote_signature@.subrange(0, 32))))
    &&& felt_hex_valid(with_0x(hex_lower_of(q.quote_signature@.subrange(32, 64))))
    &&& felt_hex_valid(with_0x(hex_lower_of(q.ecdsa_attestation_key@.subrange(0, 32))))
    &&& felt_hex_valid(with_0x(hex_lower_of(q.ecdsa_attestation_key@.subrange(32, 64))))
    &&& felt_hex_valid(id_hex_text(expected_id_spec(module_version_of(q))))
}

/// Prepares the flat wire text of a quote and collateral: extraction,
/// then serialization.  Succeeds exactly when extraction succeeds and
/// every field-element text of the extracted record is accepted; the
/// text is then the record's token sequence joined by spaces.
pub fn prepare_cairo_inputs(quote: &QuoteView, collateral: &TcbInfoView) -> (r: Result<
    String,
    PrepError,
>)
    ensures
        (r is Ok) == (extract_ok(*quote, *collateral) && cairo_felts_ok(*quote, *collateral)),
        r matches Ok(s) ==> exists|v: CairoVerificationInputs|
            {
                &&& #[trigger] cairo_inputs_from(v, *quote, *collateral)
                &&& serializable(v)
                &&& s@ == join_spaces(flat_tokens(v))
            },
        r matches Err(e) ==> e == (if !extract_ok(*quote, *collateral) {
            extract_err(*quote, *collateral)
        } else {
            PrepError::InvalidHexOrRangeOverflow
        }),
{
    let inputs = match extract_cairo_inputs(quote, collateral) {
        Ok(v) => v,
        Err(e) => {
            return Err(e);
        },
    };
    serialize_inputs(inputs)
}

// ---------------------------------------------------------------------
// Extraction, wide-integer family.
// ---------------------------------------------------------------------

/// The extracted header copies every field verbatim.
pub open spec fn header_from(out: QuoteHeader, h: QuoteHeader) -> bool {
    &&& out.version == h.version
    &&& out.att_key_type == h.att_key_type
    &&& out.tee_type == h.tee_type
    &&& out.qe_svn@ == h.qe_svn@
    &&& out.pce_svn@ == h.pce_svn@
    &&& out.qe_vendor_id@ == h.qe_vendor_id@
    &&& out.user_data@ == h.user_data@
}

/// The extracted body copies every field verbatim.
pub open spec fn body_from(out: TD10ReportBody, b: TD10ReportBody) -> bool {
    &&& out.tee_tcb_svn@ == b.tee_tcb_svn@
    &&& out.mrseam@ == b.mrseam@
    &&& out.mrsignerseam@ == b.mrsignerseam@
    &&& out.seam_attributes == b.seam_attributes
    &&& out.td_attributes == b.td_attributes
    &&& out.xfam == b.xfam
    &&& out.mrtd@ == b.mrtd@
    &&& out.mrconfigid@ == b.mrconfigid@
    &&& out.mrowner@ == b.mrowner@
    &&& out.mrownerconfig@ == b.mrownerconfig@
    &&& out.rtmr0@ == b.rtmr0@
    &&& out.rtmr1@ == b.rtmr1@
    &&& out.rtmr2@ == b.rtmr2@
    &&& out.rtmr3@ == b.rtmr3@
    &&& out.report_data@ == b.report_data@
}

/// What the extracted wide-integer record holds, field by field, in
/// terms of the quote and collateral views.
pub open spec fn contract_inputs_from(out: ContractInputs, q: QuoteView, t: TcbInfoView) -> bool {
    let version = module_version_of(q);
    let exp = expected_id_spec(version);
    &&& header_from(out.quote_header, q.header)
    &&& body_from(out.quote_body, td10_body(q))
    &&& wide_val(out.attestation_signature.r) == be_bytes_val(q.quote_signature@.subrange(0, 32))
    &&& wide_val(out.attestation_signature.s) == be_bytes_val(q.quote_signature@.subrange(32, 64))
    &&& out.attestation_signature.y_parity == false
    &&& wide_val(out.attestation_pubkey.x) == be_bytes_val(
        q.ecdsa_attestation_key@.subrange(0, 32),
    )
    &&& wide_val(out.attestation_pubkey.y) == be_bytes_val(
        q.ecdsa_attestation_key@.subrange(32, 64),
    )
    &&& out.tdx_module.identity_id@ == exp
    &&& out.tdx_module.expected_id@ == exp
    &&& out.tdx_module.mrsigner@ == crate::hexops::hex_decode_of(t.tdx_module->0.mrsigner@)
    &&& out.tdx_module.mrsigner@.len() == 48
    &&& out.tdx_module.attributes == crate::chars::hex_val(t.tdx_module->0.attributes@)
    &&& out.tdx_module.attributes_mask == crate::chars::hex_val(t.tdx_module->0.attributes_mask@)
    &&& out.tdx_module.tcb_levels@ == sort_desc_spec(
        matching_levels_spec(t.tdx_module_identities->0@, exp),
    )
    &&& out.tcb_info_svn@ == tcb_svn_of(t)
}

/// Extracts the wide-integer record from a decoded quote and collateral
/// view: the signature and key buffers are split at the midpoint and
/// each half read as one 256-bit big-endian integer; the parity bit is
/// not recoverable and defaults to false.
pub fn prepare_contract_inputs(quote: &QuoteView, collateral: &TcbInfoView) -> (r: Result<
    ContractInputs,
    PrepError,
>)
    ensures
        (r is Ok) == extract_ok(*quote, *collateral),
        r matches Ok(v) ==> contract_inputs_from(v, *quote, *collateral),
        r matches Err(e) ==> e == extract_err(*quote, *collateral),
{
    let body = match &quote.body {
        ReportBodyView::Td10(b) => b,
        ReportBodyView::Unsupported => {
            return Err(PrepError::VariantMismatch);
        },
    };
    if quote.header.qe_svn.len() != 2 || quote.header.pce_svn.len() != 2
        || quote.header.qe_vendor_id.len() != 16 || quote.header.user_data.len() != 20 {
        return Err(PrepError::ShapeMismatch);
    }
    if body.tee_tcb_svn.len() != 16 || body.mrseam.len() != 48 || body.mrsignerseam.len() != 48
        || body.mrtd.len() != 48 || body.mrconfigid.len() != 48 || body.mrowner.len() != 48
        || body.mrownerconfig.len() != 48 || body.rtmr0.len() != 48 || body.rtmr1.len() != 48
        || body.rtmr2.len() != 48 || body.rtmr3.len() != 48 || body.report_data.len() != 64 {
        return Err(PrepError::ShapeMismatch);
    }
    if quote.quote_signature.len() != 64 || quote.ecdsa_attestation_key.len() != 64 {
        return Err(PrepError::ShapeMismatch);
    }
    let header = QuoteHeader {
        version: quote.header.version,
        att_key_type: quote.header.att_key_type,
        tee_type: quote.header.tee_type,
        qe_svn: copy_bytes(&quote.header.qe_svn),
        pce_svn: copy_bytes(&quote.header.pce_svn),
        qe_vendor_id: copy_bytes(&quote.header.qe_vendor_id),
        user_data: copy_bytes(&quote.header.user_data),
    };
    let body_out = TD10ReportBody {
        tee_tcb_svn: copy_bytes(&body.tee_tcb_svn),
        mrseam: copy_bytes(&body.mrseam),
        mrsignerseam: copy_bytes(&body.mrsignerseam),
        seam_attributes: body.seam_attributes,
        td_attributes: body.td_attributes,
        xfam: body.xfam,
        mrtd: copy_bytes(&body.mrtd),
        mrconfigid: copy_bytes(&body.mrconfigid),
        mrowner: copy_bytes(&body.mrowner),
        mrownerconfig: copy_bytes(&body.mrownerconfig),
        rtmr0: copy_bytes(&body.rtmr0),
        rtmr1: copy_bytes(&body.rtmr1),
        rtmr2: copy_bytes(&body.rtmr2),
        rtmr3: copy_bytes(&body.rtmr3),
        report_data: copy_bytes(&body.report_data),
    };
    // The two signature halves as 256-bit big-endian integers.
    let r_wide = wide_be_at(quote.quote_signature.as_slice(), 0);
    let s_wide = wide_be_at(quote.quote_signature.as_slice(), 32);
    let signature = Signature { r: r_wide, s: s_wide, y_parity: false };
    // The two key coordinates likewise.
    let x_wide = wide_be_at(quote.ecdsa_attestation_key.as_slice(), 0);
    let y_wide = wide_be_at(quote.ecdsa_attestation_key.as_slice(), 32);
    let pubkey = AttestationPubKey { x: x_wide, y: y_wide };
    let version = body.tee_tcb_svn[1];
    let module = match resolve_tdx_module(collateral, version) {
        Ok(m) => m,
        Err(e) => {
            return Err(e);
        },
    };
    if collateral.tcb_levels.len() == 0 {
        return Err(PrepError::MissingCollateralSection);
    }
    let tcb_info_svn = match &collateral.tcb_levels[0].tdxtcbcomponents {
        Some(svns) => copy_bytes(svns),
        None => Vec::new(),
    };
    Ok(
        ContractInputs {
            quote_header: header,
            quote_body: body_out,
            attestation_signature: signature,
            attestation_pubkey: pubkey,
            tdx_module: module,
            tcb_info_svn,
        },
    )
}

} // verus!
