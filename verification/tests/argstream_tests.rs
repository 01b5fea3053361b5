use tdx_cairo_inputs::argstream::{process_args, tokenize, FlatArgument};
use tdx_cairo_inputs::chars::dec_str_u64;
use tdx_cairo_inputs::encode::{split_u128_pair, split_u256_pair, SplitOrder};
use tdx_cairo_inputs::errors::PrepError;
use tdx_cairo_inputs::hexops::parse_hex_u64;
use tdx_cairo_inputs::wide::{parse_dec_wide, Wide256};

fn w(v: u128) -> Wide256 {
    Wide256 { hi: 0, lo: v }
}

#[test]
fn parses_scalars_and_one_array() {
    let args = process_args("1 [ 2 3 ] 4").unwrap();
    assert_eq!(args.len(), 3);
    match &args[0] {
        FlatArgument::Scalar(v) => assert_eq!(*v, w(1)),
        _ => panic!("expected scalar"),
    }
    match &args[1] {
        FlatArgument::Array(vs) => {
            assert_eq!(vs.len(), 2);
            assert_eq!(vs[0], w(2));
            assert_eq!(vs[1], w(3));
        }
        _ => panic!("expected array"),
    }
    match &args[2] {
        FlatArgument::Scalar(v) => assert_eq!(*v, w(4)),
        _ => panic!("expected scalar"),
    }
}

#[test]
fn parses_empty_array() {
    let args = process_args("[ ]").unwrap();
    assert_eq!(args.len(), 1);
    match &args[0] {
        FlatArgument::Array(vs) => assert_eq!(vs.len(), 0),
        _ => panic!("expected array"),
    }
}

#[test]
fn parses_attached_brackets() {
    let args = process_args("[1 2]").unwrap();
    assert_eq!(args.len(), 1);
    match &args[0] {
        FlatArgument::Array(vs) => {
            assert_eq!(vs.len(), 2);
            assert_eq!(vs[0], w(1));
            assert_eq!(vs[1], w(2));
        }
        _ => panic!("expected array"),
    }
    let args2 = process_args("[]").unwrap();
    assert_eq!(args2.len(), 1);
    match &args2[0] {
        FlatArgument::Array(vs) => assert_eq!(vs.len(), 0),
        _ => panic!("expected array"),
    }
}

#[test]
fn rejects_stray_close_bracket() {
    match process_args("1 ] 2") {
        Err(PrepError::InvalidNumericToken(t)) => assert_eq!(t.as_str(), "]"),
        _ => panic!("expected an invalid-token error"),
    }
    match process_args("]") {
        Err(PrepError::InvalidNumericToken(t)) => assert_eq!(t.as_str(), "]"),
        _ => panic!("expected an invalid-token error"),
    }
}

#[test]
fn rejects_nested_open_bracket() {
    match process_args("[ [ 1 ] ]") {
        Err(PrepError::InvalidNumericToken(t)) => assert_eq!(t.as_str(), "["),
        _ => panic!("expected an invalid-token error"),
    }
}

#[test]
fn rejects_non_numeric_token() {
    match process_args("12a") {
        Err(PrepError::InvalidNumericToken(t)) => assert_eq!(t.as_str(), "12a"),
        _ => panic!("expected an invalid-token error"),
    }
}

#[test]
fn accepts_unterminated_array() {
    let args = process_args("[ 1 2").unwrap();
    assert_eq!(args.len(), 1);
    match &args[0] {
        FlatArgument::Array(vs) => {
            assert_eq!(vs.len(), 2);
            assert_eq!(vs[0], w(1));
            assert_eq!(vs[1], w(2));
        }
        _ => panic!("expected array"),
    }
}

#[test]
fn parses_empty_input_to_no_arguments() {
    let args = process_args("   ").unwrap();
    assert_eq!(args.len(), 0);
}

#[test]
fn tokenizer_splits_whitespace_and_brackets() {
    let toks = tokenize("10 [20 30] \t 40\n");
    let views: Vec<&str> = toks.iter().map(|t| t.as_str()).collect();
    assert_eq!(views, vec!["10", "[", "20", "30", "]", "40"]);
}

#[test]
fn parses_large_scalar_up_to_width() {
    // 2^256 - 1, the largest value of the working width.
    let max = "115792089237316195423570985008687907853269984665640564039457584007913129639935";
    let args = process_args(max).unwrap();
    match &args[0] {
        FlatArgument::Scalar(v) => {
            assert_eq!(v.hi, u128::MAX);
            assert_eq!(v.lo, u128::MAX);
        }
        _ => panic!("expected scalar"),
    }
    // 2^256 is past the width and rejected.
    let over = "115792089237316195423570985008687907853269984665640564039457584007913129639936";
    assert!(matches!(
        process_args(over),
        Err(PrepError::InvalidNumericToken(_))
    ));
}

#[test]
fn parse_dec_wide_matches_decimal_reading() {
    assert_eq!(parse_dec_wide("0"), Some(w(0)));
    assert_eq!(parse_dec_wide("340282366920938463463374607431768211456"), Some(Wide256 { hi: 1, lo: 0 }));
    assert_eq!(parse_dec_wide(""), None);
    assert_eq!(parse_dec_wide("12 3"), None);
    assert_eq!(parse_dec_wide("-1"), None);
}

#[test]
fn dec_rendering_is_canonical() {
    assert_eq!(dec_str_u64(0).as_str(), "0");
    assert_eq!(dec_str_u64(7).as_str(), "7");
    assert_eq!(dec_str_u64(12345).as_str(), "12345");
    assert_eq!(dec_str_u64(u64::MAX).as_str(), "18446744073709551615");
}

#[test]
fn hex_u64_parsing_matches_radix_reading() {
    assert_eq!(parse_hex_u64("ff"), Some(255));
    assert_eq!(parse_hex_u64("FF"), Some(255));
    assert_eq!(parse_hex_u64("0000000000000000000000ff"), Some(255));
    assert_eq!(parse_hex_u64("ffffffffffffffff"), Some(u64::MAX));
    assert_eq!(parse_hex_u64("10000000000000000"), None);
    assert_eq!(parse_hex_u64(""), None);
    assert_eq!(parse_hex_u64("0g"), None);
}

#[test]
fn splits_32_byte_buffer_into_two_halves() {
    let buf: Vec<u8> = (1u8..=32).collect();
    let (lo1, lo2) = split_u128_pair(&buf, SplitOrder::LittleEndian).unwrap();
    let mut first = [0u8; 16];
    first.copy_from_slice(&buf[0..16]);
    let mut second = [0u8; 16];
    second.copy_from_slice(&buf[16..32]);
    assert_eq!(lo1, u128::from_le_bytes(first));
    assert_eq!(lo2, u128::from_le_bytes(second));
    let (b1, b2) = split_u128_pair(&buf, SplitOrder::BigEndian).unwrap();
    assert_eq!(b1, u128::from_be_bytes(first));
    assert_eq!(b2, u128::from_be_bytes(second));
}

#[test]
fn rejects_31_and_33_byte_buffers() {
    let short: Vec<u8> = vec![0u8; 31];
    let long: Vec<u8> = vec![0u8; 33];
    assert!(matches!(
        split_u128_pair(&short, SplitOrder::LittleEndian),
        Err(PrepError::ShapeMismatch)
    ));
    assert!(matches!(
        split_u128_pair(&long, SplitOrder::BigEndian),
        Err(PrepError::ShapeMismatch)
    ));
}

#[test]
fn splits_64_byte_buffer_into_wide_halves() {
    let mut buf: Vec<u8> = vec![0u8; 64];
    buf[31] = 5;
    buf[32] = 1;
    let (r, s) = split_u256_pair(&buf).unwrap();
    assert_eq!(r, Wide256 { hi: 0, lo: 5 });
    // The second half starts with byte 1 followed by 31 zero bytes.
    let expected = ethnum::u256::from_be_bytes({
        let mut arr = [0u8; 32];
        arr.copy_from_slice(&buf[32..64]);
        arr
    });
    let shifted: ethnum::u256 = expected >> 128;
    assert_eq!(s.hi, shifted.as_u128());
    let masked: ethnum::u256 = expected & ethnum::u256::from(u128::MAX);
    assert_eq!(s.lo, masked.as_u128());
    let bad: Vec<u8> = vec![0u8; 63];
    assert!(matches!(split_u256_pair(&bad), Err(PrepError::ShapeMismatch)));
}
