use lnd_fees::outpoint::parse_outpoint;

#[test]
fn parses_txid_and_index() {
    let op = parse_outpoint("deadbeef:1").unwrap();
    assert_eq!(op.funding_txid, "deadbeef");
    assert_eq!(op.output_index, 1);
}

#[test]
fn parses_largest_index() {
    let op = parse_outpoint("aa:4294967295").unwrap();
    assert_eq!(op.output_index, u32::MAX);
}

#[test]
fn rejects_index_overflow() {
    assert!(parse_outpoint("aa:4294967296").is_none());
    assert!(parse_outpoint("aa:99999999999999999999").is_none());
}

#[test]
fn rejects_missing_colon() {
    assert!(parse_outpoint("deadbeef").is_none());
    assert!(parse_outpoint("").is_none());
}

#[test]
fn rejects_empty_index() {
    assert!(parse_outpoint("deadbeef:").is_none());
}

#[test]
fn rejects_non_digit_index() {
    assert!(parse_outpoint("deadbeef:1a").is_none());
    assert!(parse_outpoint("deadbeef:-1").is_none());
    assert!(parse_outpoint("deadbeef: 1").is_none());
}

#[test]
fn index_stops_at_second_colon() {
    let op = parse_outpoint("abc:1:2").unwrap();
    assert_eq!(op.funding_txid, "abc");
    assert_eq!(op.output_index, 1);
}

#[test]
fn txid_may_be_empty() {
    let op = parse_outpoint(":5").unwrap();
    assert_eq!(op.funding_txid, "");
    assert_eq!(op.output_index, 5);
}
