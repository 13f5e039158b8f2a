use wei_amount::{deserialize, serialize, Amount, AmountError, RawInput};

const GWEI: u128 = 1_000_000_000;
const ETHER: u128 = 1_000_000_000_000_000_000;

fn text(s: &str) -> Result<Amount, AmountError> {
    deserialize(RawInput::Text(s.to_string()))
}

fn wei(n: u128) -> Result<Amount, AmountError> {
    Ok(Amount::from_u128(n))
}

fn is_invalid(r: Result<Amount, AmountError>) -> bool {
    matches!(r, Err(AmountError::InvalidMagnitude(_)))
}

fn is_malformed(r: Result<Amount, AmountError>) -> bool {
    matches!(r, Err(AmountError::MalformedInput(_)))
}

#[test]
fn format_then_parse_round_trips() {
    let values = [
        Amount::from_u64(0),
        Amount::from_u64(1),
        Amount::from_u64(u64::MAX),
        Amount::from_u128(u128::MAX),
        Amount { limbs: [7, 0, 0, 1] },
        Amount { limbs: [u64::MAX; 4] },
    ];
    for a in values {
        let s = serialize(&a);
        assert_eq!(deserialize(RawInput::Text(s)), Ok(a));
    }
}

#[test]
fn serialize_writes_canonical_decimal() {
    assert_eq!(serialize(&Amount::from_u64(0)), "0");
    assert_eq!(serialize(&Amount::from_u64(1234)), "1234");
    assert_eq!(serialize(&Amount::from_u128(u128::MAX)), u128::MAX.to_string());
    assert_eq!(
        serialize(&Amount { limbs: [u64::MAX; 4] }),
        "115792089237316195423570985008687907853269984665640564039457584007913129639935"
    );
    assert_eq!(serialize(&Amount { limbs: [0, 1, 0, 0] }), "18446744073709551616");
}

#[test]
fn every_spelling_scales_by_its_unit() {
    assert_eq!(text("2 ether"), wei(2 * ETHER));
    assert_eq!(text("2 ETHER"), wei(2 * ETHER));
    assert_eq!(text("3 eth"), wei(3 * ETHER));
    assert_eq!(text("3 Eth"), wei(3 * ETHER));
    assert_eq!(text("5 gwei"), wei(5 * GWEI));
    assert_eq!(text("5 GWei"), wei(5 * GWEI));
    assert_eq!(text("7 wei"), wei(7));
    assert_eq!(text("7 WEI"), wei(7));
    assert_eq!(text("4ether"), wei(4 * ETHER));
    assert_eq!(text("4ETH"), wei(4 * ETHER));
}

#[test]
fn underscores_are_ignored() {
    assert_eq!(text("1_000"), text("1000"));
    assert_eq!(text("1_000"), wei(1000));
    assert_eq!(text("1_000_000 gwei"), wei(1_000_000 * GWEI));
    assert_eq!(text("1_0.5_0 gwei"), wei(10_500_000_000));
}

#[test]
fn unit_with_or_without_space() {
    assert_eq!(text("100 gwei"), wei(100 * GWEI));
    assert_eq!(text("100gwei"), wei(100 * GWEI));
    assert_eq!(text("100 \t gwei"), wei(100 * GWEI));
}

#[test]
fn unknown_word_after_space_is_read_as_number() {
    assert!(is_invalid(text("5 foo")));
    assert!(is_invalid(text("1 foo")));
}

#[test]
fn fractional_wei_is_rejected() {
    assert!(is_invalid(text("1.5 wei")));
    assert!(is_invalid(text("1.5")));
    assert!(is_invalid(text("1.0000000001 gwei")));
    assert!(is_invalid(text("1.0000000000000000001 ether")));
}

#[test]
fn fraction_within_precision_is_accepted() {
    assert_eq!(text("1.5 gwei"), wei(1_500_000_000));
    assert_eq!(text("1.5 ether"), wei(1_500_000_000_000_000_000));
    assert_eq!(text("1.000000000000000001 ether"), wei(ETHER + 1));
    assert_eq!(text(".5 gwei"), wei(500_000_000));
    assert_eq!(text("2. gwei"), wei(2 * GWEI));
    assert_eq!(text("1.0 wei"), Err(AmountError::InvalidMagnitude("1.0".to_string())));
}

#[test]
fn empty_text_is_malformed() {
    assert!(is_malformed(text("")));
    assert!(is_malformed(text("   ")));
    assert!(is_malformed(text("\t\n")));
}

#[test]
fn unit_without_number_is_malformed() {
    assert!(is_malformed(text("gwei")));
    assert!(is_malformed(text("ether")));
    assert!(is_malformed(text("foo")));
}

#[test]
fn unknown_unit_is_reported_lower_cased() {
    assert_eq!(text("1foo"), Err(AmountError::UnknownUnit("foo".to_string())));
    assert_eq!(text("1FOO"), Err(AmountError::UnknownUnit("foo".to_string())));
    assert_eq!(text("3kwei"), Err(AmountError::UnknownUnit("kwei".to_string())));
}

#[test]
fn bare_integers_are_wei() {
    assert_eq!(deserialize(RawInput::U64(0)), wei(0));
    assert_eq!(deserialize(RawInput::U64(42)), wei(42));
    assert_eq!(deserialize(RawInput::U64(u64::MAX)), Ok(Amount::from_u64(u64::MAX)));
    assert_eq!(deserialize(RawInput::U128(u128::MAX)), wei(u128::MAX));
    assert_eq!(deserialize(RawInput::U128(5 * ETHER)), wei(5 * ETHER));
}

#[test]
fn surrounding_whitespace_is_trimmed() {
    assert_eq!(text("  42  "), wei(42));
    assert_eq!(text("\t1 gwei\n"), wei(GWEI));
    assert_eq!(text("\u{a0}7\u{3000}"), wei(7));
}

#[test]
fn signs_and_stray_characters_are_invalid() {
    assert!(is_invalid(text("+1")));
    assert!(is_invalid(text("-1")));
    assert!(is_invalid(text("-1 wei")));
    assert!(is_invalid(text(".")));
    assert!(is_invalid(text(". gwei")));
    assert!(is_invalid(text("1.2.3")));
    assert!(is_invalid(text("1,000")));
    assert!(is_invalid(text("0x10")));
    assert!(is_invalid(text("1 2 gwei")));
}

#[test]
fn values_past_256_bits_are_invalid() {
    let max = "115792089237316195423570985008687907853269984665640564039457584007913129639935";
    let over = "115792089237316195423570985008687907853269984665640564039457584007913129639936";
    assert_eq!(text(max), Ok(Amount { limbs: [u64::MAX; 4] }));
    assert!(is_invalid(text(over)));
    assert!(is_invalid(text("115792089237316195423570985008687907853269984665640564039457584007913129639935 gwei")));
    assert!(is_invalid(text("1000000000000000000000000000000000000000000000000000000000000 ether")));
}

#[test]
fn leading_zeros_are_accepted() {
    assert_eq!(text("000123"), wei(123));
    assert_eq!(text("0.000000001 ether"), wei(GWEI));
}
