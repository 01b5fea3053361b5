use tdx_cairo_inputs::argstream::{process_args, FlatArgument};
use tdx_cairo_inputs::errors::PrepError;
use tdx_cairo_inputs::extract::{extract_cairo_inputs, prepare_cairo_inputs, prepare_contract_inputs};
use tdx_cairo_inputs::resolver::{expected_module_id, resolve_tdx_module};
use tdx_cairo_inputs::status::map_tcb_status;
use tdx_cairo_inputs::types::{
    QuoteHeader, QuoteView, ReportBodyView, TcbInfoView, TcbLevelRaw, TD10ReportBody,
    TdxModuleIdentityRaw, TdxModuleIdentityTcbLevelRaw, TdxModuleRaw,
};

fn sample_header() -> QuoteHeader {
    QuoteHeader {
        version: 4,
        att_key_type: 2,
        tee_type: 129,
        qe_svn: vec![1, 2],
        pce_svn: vec![3, 4],
        qe_vendor_id: vec![10; 16],
        user_data: vec![20; 20],
    }
}

fn sample_body() -> TD10ReportBody {
    let mut tee_tcb_svn = vec![0u8; 16];
    tee_tcb_svn[1] = 2;
    TD10ReportBody {
        tee_tcb_svn,
        mrseam: vec![5; 48],
        mrsignerseam: vec![6; 48],
        seam_attributes: 7,
        td_attributes: 8,
        xfam: 9,
        mrtd: vec![11; 48],
        mrconfigid: vec![12; 48],
        mrowner: vec![13; 48],
        mrownerconfig: vec![14; 48],
        rtmr0: vec![15; 48],
        rtmr1: vec![16; 48],
        rtmr2: vec![17; 48],
        rtmr3: vec![18; 48],
        report_data: vec![19; 64],
    }
}

fn tail_byte_buffer(last: u8) -> Vec<u8> {
    let mut half = vec![0u8; 32];
    half[31] = last;
    half
}

fn sample_quote() -> QuoteView {
    let mut sig = tail_byte_buffer(10);
    sig.extend_from_slice(&tail_byte_buffer(11));
    let mut key = tail_byte_buffer(12);
    key.extend_from_slice(&tail_byte_buffer(13));
    QuoteView {
        header: sample_header(),
        body: ReportBodyView::Td10(sample_body()),
        quote_signature: sig,
        ecdsa_attestation_key: key,
    }
}

fn level(isvsvn: u8, status: &str) -> TdxModuleIdentityTcbLevelRaw {
    TdxModuleIdentityTcbLevelRaw { isvsvn, tcb_status: status.to_owned() }
}

fn sample_collateral() -> TcbInfoView {
    TcbInfoView {
        tdx_module: Some(TdxModuleRaw {
            mrsigner: "ab".repeat(48),
            attributes: "ff00".to_owned(),
            attributes_mask: "ffff".to_owned(),
        }),
        tdx_module_identities: Some(vec![
            TdxModuleIdentityRaw {
                id: "TDX_01".to_owned(),
                tcb_levels: vec![level(9, "Revoked")],
            },
            TdxModuleIdentityRaw {
                id: "TDX_02".to_owned(),
                tcb_levels: vec![
                    level(2, "UpToDate"),
                    level(3, "OutOfDate"),
                    level(3, "SWHardeningNeeded"),
                ],
            },
        ]),
        tcb_levels: vec![TcbLevelRaw { tdxtcbcomponents: Some(vec![1, 2, 3]) }],
    }
}

fn felt_dec(hex_text: &str) -> String {
    cairo_vm::Felt252::from_hex(hex_text).unwrap().to_string()
}

fn expected_tokens() -> Vec<String> {
    let mut t: Vec<String> = Vec::new();
    let h = sample_header();
    let b = sample_body();
    let push_bytes = |t: &mut Vec<String>, bytes: &[u8]| {
        for x in bytes {
            t.push(x.to_string());
        }
    };
    t.push(h.version.to_string());
    t.push(h.att_key_type.to_string());
    t.push(h.tee_type.to_string());
    push_bytes(&mut t, &h.qe_svn);
    push_bytes(&mut t, &h.pce_svn);
    push_bytes(&mut t, &h.qe_vendor_id);
    push_bytes(&mut t, &h.user_data);
    push_bytes(&mut t, &b.tee_tcb_svn);
    push_bytes(&mut t, &b.mrseam);
    push_bytes(&mut t, &b.mrsignerseam);
    t.push(b.seam_attributes.to_string());
    t.push(b.td_attributes.to_string());
    t.push(b.xfam.to_string());
    push_bytes(&mut t, &b.mrtd);
    push_bytes(&mut t, &b.mrconfigid);
    push_bytes(&mut t, &b.mrowner);
    push_bytes(&mut t, &b.mrownerconfig);
    push_bytes(&mut t, &b.rtmr0);
    push_bytes(&mut t, &b.rtmr1);
    push_bytes(&mut t, &b.rtmr2);
    push_bytes(&mut t, &b.rtmr3);
    push_bytes(&mut t, &b.report_data);
    // Signature halves and both key coordinates as field-element decimals.
    t.push(felt_dec(&format!("0x{}", hex::encode(tail_byte_buffer(10)))));
    t.push(felt_dec(&format!("0x{}", hex::encode(tail_byte_buffer(11)))));
    t.push(felt_dec(&format!("0x{}", hex::encode(tail_byte_buffer(12)))));
    t.push(felt_dec(&format!("0x{}", hex::encode(tail_byte_buffer(13)))));
    // Module identity: signer bytes, attributes, the two identity tags.
    push_bytes(&mut t, &vec![0xab; 48]);
    t.push(0xff00u64.to_string());
    t.push(0xffffu64.to_string());
    t.push(felt_dec(&format!("0x{}", hex::encode("TDX_02"))));
    t.push(felt_dec(&format!("0x{}", hex::encode("TDX_02"))));
    // Levels sorted by version descending, ties in original order.
    for (svn, status) in [(3u8, 4u8), (3, 1), (2, 0)] {
        t.push(svn.to_string());
        t.push(felt_dec("0x123"));
        t.push(status.to_string());
    }
    // The per-component security version bytes.
    push_bytes(&mut t, &[1, 2, 3]);
    t
}

#[test]
fn prepares_the_exact_wire_text() {
    let s = prepare_cairo_inputs(&sample_quote(), &sample_collateral()).unwrap();
    assert_eq!(s, expected_tokens().join(" "));
}

#[test]
fn wire_text_round_trips_through_the_parser() {
    let s = prepare_cairo_inputs(&sample_quote(), &sample_collateral()).unwrap();
    let args = process_args(&s).unwrap();
    let toks = expected_tokens();
    assert_eq!(args.len(), toks.len());
    for (a, tok) in args.iter().zip(toks.iter()) {
        match a {
            FlatArgument::Scalar(v) => {
                // Reassemble the decimal rendering of the parsed value.
                let hi = ethnum::u256::from(v.hi);
                let lo = ethnum::u256::from(v.lo);
                let val: ethnum::u256 = (hi << 128) | lo;
                assert_eq!(val.to_string(), *tok);
            }
            FlatArgument::Array(_) => panic!("a serialized record has no arrays"),
        }
    }
}

#[test]
fn placeholder_field_element_renders_as_291() {
    let s = prepare_cairo_inputs(&sample_quote(), &sample_collateral()).unwrap();
    // Each of the three levels carries the placeholder between its
    // version and status tokens.
    let toks: Vec<&str> = s.split(' ').collect();
    let count = toks.iter().filter(|t| **t == "291").count();
    assert_eq!(count, 3);
}

#[test]
fn small_signature_half_renders_as_small_decimal() {
    // The signature's r half ends in byte 10, so its field element is 10:
    // the hex text is transformed, not handed back.
    let s = prepare_cairo_inputs(&sample_quote(), &sample_collateral()).unwrap();
    let toks: Vec<&str> = s.split(' ').collect();
    // Position: 3 header scalars + 40 header bytes, then 560 body bytes
    // and 3 body scalars = 606 tokens before the signature; then r, s,
    // x, y.
    assert_eq!(toks[606], "10");
    assert_eq!(toks[607], "11");
    assert_eq!(toks[608], "12");
    assert_eq!(toks[609], "13");
}

#[test]
fn rejects_signature_value_beyond_field_modulus() {
    let mut q = sample_quote();
    q.quote_signature = vec![0xff; 64];
    match prepare_cairo_inputs(&q, &sample_collateral()) {
        Err(PrepError::InvalidHexOrRangeOverflow) => {}
        _ => panic!("expected a range overflow"),
    }
}

#[test]
fn rejects_non_td10_body() {
    let mut q = sample_quote();
    q.body = ReportBodyView::Unsupported;
    assert!(matches!(
        prepare_cairo_inputs(&q, &sample_collateral()),
        Err(PrepError::VariantMismatch)
    ));
    assert!(matches!(
        prepare_contract_inputs(&q, &sample_collateral()),
        Err(PrepError::VariantMismatch)
    ));
}

#[test]
fn rejects_misshapen_buffers() {
    let mut q = sample_quote();
    q.quote_signature = vec![0u8; 63];
    assert!(matches!(
        prepare_cairo_inputs(&q, &sample_collateral()),
        Err(PrepError::ShapeMismatch)
    ));
    let mut q2 = sample_quote();
    q2.header.qe_svn = vec![1, 2, 3];
    assert!(matches!(
        prepare_cairo_inputs(&q2, &sample_collateral()),
        Err(PrepError::ShapeMismatch)
    ));
    let mut q3 = sample_quote();
    q3.ecdsa_attestation_key = vec![0u8; 65];
    assert!(matches!(
        prepare_contract_inputs(&q3, &sample_collateral()),
        Err(PrepError::ShapeMismatch)
    ));
}

#[test]
fn contract_inputs_carry_wide_integers() {
    let v = prepare_contract_inputs(&sample_quote(), &sample_collateral()).unwrap();
    assert_eq!(v.attestation_signature.r.hi, 0);
    assert_eq!(v.attestation_signature.r.lo, 10);
    assert_eq!(v.attestation_signature.s.lo, 11);
    assert!(!v.attestation_signature.y_parity);
    assert_eq!(v.attestation_pubkey.x.lo, 12);
    assert_eq!(v.attestation_pubkey.y.lo, 13);
    assert_eq!(v.tdx_module.attributes, 0xff00);
    assert_eq!(v.tdx_module.attributes_mask, 0xffff);
    assert_eq!(v.tdx_module.mrsigner, vec![0xab; 48]);
    assert_eq!(v.tcb_info_svn, vec![1, 2, 3]);
    assert_eq!(v.quote_header.version, 4);
    assert_eq!(v.quote_body.xfam, 9);
}

#[test]
fn resolution_selects_only_the_declared_version() {
    let m = resolve_tdx_module(&sample_collateral(), 2).unwrap();
    assert_eq!(m.identity_id, "TDX_02");
    assert_eq!(m.expected_id, "TDX_02");
    // Only the version-2 identity's levels, sorted descending, stable.
    let got: Vec<(u8, u8)> = m.tcb_levels.iter().map(|l| (l.tcb.isvsvn, l.tcb_status)).collect();
    assert_eq!(got, vec![(3, 4), (3, 1), (2, 0)]);
}

#[test]
fn resolution_ignores_identity_order() {
    let mut c = sample_collateral();
    let ids = c.tdx_module_identities.take().unwrap();
    let reversed: Vec<_> = ids.into_iter().rev().collect();
    c.tdx_module_identities = Some(reversed);
    let m1 = resolve_tdx_module(&sample_collateral(), 2).unwrap();
    let m2 = resolve_tdx_module(&c, 2).unwrap();
    let l1: Vec<(u8, u8)> = m1.tcb_levels.iter().map(|l| (l.tcb.isvsvn, l.tcb_status)).collect();
    let l2: Vec<(u8, u8)> = m2.tcb_levels.iter().map(|l| (l.tcb.isvsvn, l.tcb_status)).collect();
    assert_eq!(l1, l2);
}

#[test]
fn resolution_failures_name_their_cause() {
    let mut c = sample_collateral();
    c.tdx_module = None;
    assert!(matches!(
        resolve_tdx_module(&c, 2),
        Err(PrepError::MissingCollateralSection)
    ));
    let mut c2 = sample_collateral();
    c2.tdx_module_identities = None;
    assert!(matches!(
        resolve_tdx_module(&c2, 2),
        Err(PrepError::MissingCollateralSection)
    ));
    assert!(matches!(
        resolve_tdx_module(&sample_collateral(), 9),
        Err(PrepError::NoMatchingIdentity)
    ));
    let mut c3 = sample_collateral();
    c3.tdx_module.as_mut().unwrap().mrsigner = "xyz".to_owned();
    assert!(matches!(
        resolve_tdx_module(&c3, 2),
        Err(PrepError::InvalidHexOrRangeOverflow)
    ));
    let mut c4 = sample_collateral();
    c4.tdx_module.as_mut().unwrap().mrsigner = "ab".repeat(47);
    assert!(matches!(resolve_tdx_module(&c4, 2), Err(PrepError::ShapeMismatch)));
    let mut c5 = sample_collateral();
    c5.tdx_module.as_mut().unwrap().attributes = "zz".to_owned();
    assert!(matches!(
        resolve_tdx_module(&c5, 2),
        Err(PrepError::InvalidHexOrRangeOverflow)
    ));
}

#[test]
fn empty_tcb_level_list_is_missing_collateral() {
    let mut c = sample_collateral();
    c.tcb_levels = Vec::new();
    assert!(matches!(
        prepare_cairo_inputs(&sample_quote(), &c),
        Err(PrepError::MissingCollateralSection)
    ));
}

#[test]
fn absent_tdx_components_yield_empty_svn_list() {
    let mut c = sample_collateral();
    c.tcb_levels = vec![TcbLevelRaw { tdxtcbcomponents: None }];
    let v = prepare_contract_inputs(&sample_quote(), &c).unwrap();
    assert_eq!(v.tcb_info_svn.len(), 0);
}

#[test]
fn expected_identity_tag_is_prefixed_hex() {
    assert_eq!(expected_module_id(0x2a), "TDX_2a");
    assert_eq!(expected_module_id(0), "TDX_00");
    assert_eq!(expected_module_id(0xff), "TDX_ff");
}

#[test]
fn status_mapping_is_total() {
    assert_eq!(map_tcb_status("UpToDate"), 0);
    assert_eq!(map_tcb_status("SWHardeningNeeded"), 1);
    assert_eq!(map_tcb_status("ConfigurationNeeded"), 2);
    assert_eq!(map_tcb_status("ConfigurationAndSWHardeningNeeded"), 3);
    assert_eq!(map_tcb_status("OutOfDate"), 4);
    assert_eq!(map_tcb_status("OutOfDateConfigurationNeeded"), 5);
    assert_eq!(map_tcb_status("Revoked"), 6);
    assert_eq!(map_tcb_status("Unknown"), 7);
    assert_eq!(map_tcb_status(""), 7);
    assert_eq!(map_tcb_status("upToDate"), 7);
}

#[test]
fn identity_tag_renders_through_the_field_element() {
    // The identity tag token is the decimal of the tag's bytes read as a
    // field element, not the tag text itself.
    let record = extract_cairo_inputs(&sample_quote(), &sample_collateral()).unwrap();
    assert_eq!(record.tdx_module.identity_id, "TDX_02");
    let s = prepare_cairo_inputs(&sample_quote(), &sample_collateral()).unwrap();
    let expected = felt_dec(&format!("0x{}", hex::encode("TDX_02")));
    assert!(s.split(' ').any(|t| t == expected));
    assert!(!s.split(' ').any(|t| t == "TDX_02"));
}

#[test]
fn seventeen_zero_digits_still_parse_as_attributes() {
    let mut c = sample_collateral();
    c.tdx_module.as_mut().unwrap().attributes = "00000000000000000".to_owned();
    let m = resolve_tdx_module(&c, 2).unwrap();
    assert_eq!(m.attributes, 0);
}
