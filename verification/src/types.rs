//! The data model of the pipeline.
//!
//! Two record families coexist, one per scalar-encoding strategy: the
//! `Cairo*` family renders signature, key and identity tags as
//! field-element hex text, while the second family holds them as wide
//! big-endian integers.  Both are fed from the same decoded quote and
//! collateral views, which carry as plain values exactly what the logic
//! reads from the outside decoder's types.

use vstd::prelude::*;

use crate::wide::Wide256;

verus! {

// ---------------------------------------------------------------------
// Record family rendered as field-element hex text.
// ---------------------------------------------------------------------

/// Quote header of the felt-text record family.
#[derive(Clone, Debug)]
pub struct CairoQuoteHeader {
    pub version: u16,
    pub att_key_type: u16,
    pub tee_type: u32,
    /// 2 bytes.
    pub qe_svn: Vec<u8>,
    /// 2 bytes.
    pub pce_svn: Vec<u8>,
    /// 16 bytes.
    pub qe_vendor_id: Vec<u8>,
    /// 20 bytes.
    pub user_data: Vec<u8>,
}

/// TD10 report body of the felt-text record family.
#[derive(Clone, Debug)]
pub struct CairoTD10Report {
    /// 16 bytes.
    pub tee_tcb_svn: Vec<u8>,
    /// 48 bytes.
    pub mrseam: Vec<u8>,
    /// 48 bytes.
    pub mrsignerseam: Vec<u8>,
    pub seam_attributes: u64,
    pub td_attributes: u64,
    pub xfam: u64,
    /// 48 bytes.
    pub mrtd: Vec<u8>,
    /// 48 bytes.
    pub mrconfigid: Vec<u8>,
    /// 48 bytes.
    pub mrowner: Vec<u8>,
    /// 48 bytes.
    pub mrownerconfig: Vec<u8>,
    /// 48 bytes.
    pub rtmr0: Vec<u8>,
    /// 48 bytes.
    pub rtmr1: Vec<u8>,
    /// 48 bytes.
    pub rtmr2: Vec<u8>,
    /// 48 bytes.
    pub rtmr3: Vec<u8>,
    /// 64 bytes.
    pub report_data: Vec<u8>,
}

/// One TCB level of the resolved module identity: a security version
/// number and the mapped status code.
#[derive(Clone, Copy, Debug, PartialEq, Eq, Structural)]
pub struct CairoTdxModuleTcb {
    pub isvsvn: u8,
}

/// One resolved TCB level with its mapped status code.
#[derive(Clone, Copy, Debug, PartialEq, Eq, Structural)]
pub struct CairoTdxModuleTcbLevel {
    pub tcb: CairoTdxModuleTcb,
    pub tcb_status: u8,
}

/// The resolved module identity of the felt-text record family.
#[derive(Clone, Debug)]
pub struct CairoTDXModule {
    /// 48 bytes, hex-decoded from the collateral.
    pub mrsigner: Vec<u8>,
    pub attributes: u64,
    pub attributes_mask: u64,
    /// The id of the matching identity, rendered as felt hex text later.
    pub identity_id: String,
    /// The expected identity tag computed from the quote's module version.
    pub expected_id: String,
    pub tcb_levels: Vec<CairoTdxModuleTcbLevel>,
}

/// ECDSA signature halves as `0x`-prefixed hex text.
#[derive(Clone, Debug)]
pub struct CairoECDSASignature {
    pub r: String,
    pub s: String,
}

/// Attestation public key coordinates as `0x`-prefixed hex text.
#[derive(Clone, Debug)]
pub struct CairoAttestationPubKey {
    pub x: String,
    pub y: String,
}

/// The aggregate record of the felt-text family, the unit handed to the
/// flat serializer.
#[derive(Clone, Debug)]
pub struct CairoVerificationInputs {
    pub quote_header: CairoQuoteHeader,
    pub quote_body: CairoTD10Report,
    pub attestation_signature: CairoECDSASignature,
    pub attestation_pubkey: CairoAttestationPubKey,
    pub tdx_module: CairoTDXModule,
    pub tcb_info_svn: Vec<u8>,
}

// ---------------------------------------------------------------------
// Record family carrying wide big-endian integers.
// ---------------------------------------------------------------------

/// Quote header of the wide-integer record family.
#[derive(Clone, Debug)]
pub struct QuoteHeader {
    pub version: u16,
    pub att_key_type: u16,
    pub tee_type: u32,
    /// 2 bytes.
    pub qe_svn: Vec<u8>,
    /// 2 bytes.
    pub pce_svn: Vec<u8>,
    /// 16 bytes.
    pub qe_vendor_id: Vec<u8>,
    /// 20 bytes.
    pub user_data: Vec<u8>,
}

/// TD10 report body of the wide-integer record family.
#[derive(Clone, Debug)]
pub struct TD10ReportBody {
    /// 16 bytes.
    pub tee_tcb_svn: Vec<u8>,
    /// 48 bytes.
    pub mrseam: Vec<u8>,
    /// 48 bytes.
    pub mrsignerseam: Vec<u8>,
    pub seam_attributes: u64,
    pub td_attributes: u64,
    pub xfam: u64,
    /// 48 bytes.
    pub mrtd: Vec<u8>,
    /// 48 bytes.
    pub mrconfigid: Vec<u8>,
    /// 48 bytes.
    pub mrowner: Vec<u8>,
    /// 48 bytes.
    pub mrownerconfig: Vec<u8>,
    /// 48 bytes.
    pub rtmr0: Vec<u8>,
    /// 48 bytes.
    pub rtmr1: Vec<u8>,
    /// 48 bytes.
    pub rtmr2: Vec<u8>,
    /// 48 bytes.
    pub rtmr3: Vec<u8>,
    /// 64 bytes.
    pub report_data: Vec<u8>,
}

/// A quote reduced to its verification outcome fields.
#[derive(Clone, Debug)]
pub struct VerifiedQuote {
    pub quote_version: u16,
    pub tee_type: u32,
    pub tcb_status: u8,
    /// 6 bytes.
    pub fmspc: Vec<u8>,
    pub quote_body: TD10ReportBody,
}

/// One TCB level of the resolved module identity.
#[derive(Clone, Copy, Debug, PartialEq, Eq, Structural)]
pub struct TdxModuleTcb {
    pub isvsvn: u8,
}

/// One resolved TCB level with its mapped status code.
#[derive(Clone, Copy, Debug, PartialEq, Eq, Structural)]
pub struct TdxModuleIdentityTcbLevel {
    pub tcb: TdxModuleTcb,
    pub tcb_status: u8,
}

/// The resolved module identity of the wide-integer record family.
#[derive(Clone, Debug)]
pub struct TdxModule {
    /// 48 bytes, hex-decoded from the collateral.
    pub mrsigner: Vec<u8>,
    pub attributes: u64,
    pub attributes_mask: u64,
    pub identity_id: String,
    pub expected_id: String,
    pub tcb_levels: Vec<TdxModuleIdentityTcbLevel>,
}

/// An attestation public key split into its two 256-bit coordinates.
#[derive(Clone, Copy, Debug, PartialEq, Eq, Structural)]
pub struct AttestationPubKey {
    pub x: Wide256,
    pub y: Wide256,
}

/// An ECDSA signature with 256-bit components.  The parity bit is not
/// recoverable from the quote and defaults to false.
#[derive(Clone, Copy, Debug, PartialEq, Eq, Structural)]
pub struct Signature {
    pub r: Wide256,
    pub s: Wide256,
    pub y_parity: bool,
}

/// The aggregate record of the wide-integer family, the unit rendered as
/// contract-call text by the front-end.
#[derive(Clone, Debug)]
pub struct ContractInputs {
    pub quote_header: QuoteHeader,
    pub quote_body: TD10ReportBody,
    pub attestation_signature: Signature,
    pub attestation_pubkey: AttestationPubKey,
    pub tdx_module: TdxModule,
    pub tcb_info_svn: Vec<u8>,
}

// ---------------------------------------------------------------------
// Decoded input views: what the logic reads from the outside decoder.
// ---------------------------------------------------------------------

/// The report body of a decoded quote.  Only the TD10 variant carries the
/// fields this pipeline encodes; any other variant is rejected.
#[derive(Clone, Debug)]
pub enum ReportBodyView {
    Td10(TD10ReportBody),
    Unsupported,
}

/// A decoded attestation quote, reduced to the plain values the pipeline
/// reads: header fields, report body, and the raw signature and key
/// buffers.
#[derive(Clone, Debug)]
pub struct QuoteView {
    pub header: QuoteHeader,
    pub body: ReportBodyView,
    /// 64 bytes: r then s, each 32 bytes big-endian.
    pub quote_signature: Vec<u8>,
    /// 64 bytes: x then y, each 32 bytes big-endian.
    pub ecdsa_attestation_key: Vec<u8>,
}

/// The module section of the collateral's TCB info: hex text exactly as
/// the collateral carries it.
#[derive(Clone, Debug)]
pub struct TdxModuleRaw {
    /// Hex text of the 48-byte signer measurement.
    pub mrsigner: String,
    /// Hex text of the 8-byte attributes value.
    pub attributes: String,
    /// Hex text of the 8-byte attributes mask.
    pub attributes_mask: String,
}

/// One TCB level of a module identity as the collateral carries it: a
/// security version number and a textual status category.
#[derive(Clone, Debug)]
pub struct TdxModuleIdentityTcbLevelRaw {
    pub isvsvn: u8,
    pub tcb_status: String,
}

/// One module identity of the collateral, tagged with its id.
#[derive(Clone, Debug)]
pub struct TdxModuleIdentityRaw {
    pub id: String,
    pub tcb_levels: Vec<TdxModuleIdentityTcbLevelRaw>,
}

/// One TCB level of the collateral's TCB info, reduced to the TDX
/// component security version numbers.
#[derive(Clone, Debug)]
pub struct TcbLevelRaw {
    pub tdxtcbcomponents: Option<Vec<u8>>,
}

/// The queryable view of the collateral's TCB info, reduced to the
/// sections this pipeline reads.
#[derive(Clone, Debug)]
pub struct TcbInfoView {
    pub tdx_module: Option<TdxModuleRaw>,
    pub tdx_module_identities: Option<Vec<TdxModuleIdentityRaw>>,
    pub tcb_levels: Vec<TcbLevelRaw>,
}

// ---------------------------------------------------------------------
// Shape invariants.
// ---------------------------------------------------------------------

/// Every header buffer has its declared fixed width.
pub open spec fn cairo_header_wf(h: CairoQuoteHeader) -> bool {
    &&& h.qe_svn@.len() == 2
    &&& h.pce_svn@.len() == 2
    &&& h.qe_vendor_id@.len() == 16
    &&& h.user_data@.len() == 20
}

/// Every report-body buffer has its declared fixed width.
pub open spec fn cairo_body_wf(b: CairoTD10Report) -> bool {
    &&& b.tee_tcb_svn@.len() == 16
    &&& b.mrseam@.len() == 48
    &&& b.mrsignerseam@.len() == 48
    &&& b.mrtd@.len() == 48
    &&& b.mrconfigid@.len() == 48
    &&& b.mrowner@.len() == 48
    &&& b.mrownerconfig@.len() == 48
    &&& b.rtmr0@.len() == 48
    &&& b.rtmr1@.len() == 48
    &&& b.rtmr2@.len() == 48
    &&& b.rtmr3@.len() == 48
    &&& b.report_data@.len() == 64
}

/// The resolved module's signer measurement has its fixed width.
pub open spec fn cairo_module_wf(m: CairoTDXModule) -> bool {
    m.mrsigner@.len() == 48
}

/// The shape invariant of a complete felt-text record.
pub open spec fn cairo_inputs_wf(v: CairoVerificationInputs) -> bool {
    &&& cairo_header_wf(v.quote_header)
    &&& cairo_body_wf(v.quote_body)
    &&& cairo_module_wf(v.tdx_module)
}

/// Every header buffer has its declared fixed width.
pub open spec fn header_wf(h: QuoteHeader) -> bool {
    &&& h.qe_svn@.len() == 2
    &&& h.pce_svn@.len() == 2
    &&& h.qe_vendor_id@.len() == 16
    &&& h.user_data@.len() == 20
}

/// Every report-body buffer has its declared fixed width.
pub open spec fn body_wf(b: TD10ReportBody) -> bool {
    &&& b.tee_tcb_svn@.len() == 16
    &&& b.mrseam@.len() == 48
    &&& b.mrsignerseam@.len() == 48
    &&& b.mrtd@.len() == 48
    &&& b.mrconfigid@.len() == 48
    &&& b.mrowner@.len() == 48
    &&& b.mrownerconfig@.len() == 48
    &&& b.rtmr0@.len() == 48
    &&& b.rtmr1@.len() == 48
    &&& b.rtmr2@.len() == 48
    &&& b.rtmr3@.len() == 48
    &&& b.report_data@.len() == 64
}

/// The shape invariant of a complete wide-integer record.
pub open spec fn contract_inputs_wf(v: ContractInputs) -> bool {
    &&& header_wf(v.quote_header)
    &&& body_wf(v.quote_body)
    &&& v.tdx_module.mrsigner@.len() == 48
}

} // verus!
