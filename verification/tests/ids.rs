use moon::ids::{AuthToken, CorId, SessionId, parse_build_id, parse_u128_digits, u128_to_dec_string};

#[test]
fn parse_exact_value() {
    assert_eq!(parse_u128_digits("0"), Some(0));
    assert_eq!(parse_u128_digits("42"), Some(42));
    assert_eq!(parse_u128_digits("340282366920938463463374607431768211455"), Some(u128::MAX));
}

#[test]
fn parse_rejects_non_digits() {
    assert_eq!(parse_u128_digits(""), None);
    assert_eq!(parse_u128_digits("4x"), None);
    assert_eq!(parse_u128_digits("-1"), None);
    assert_eq!(parse_u128_digits("+1"), None);
    assert_eq!(parse_u128_digits(" 7"), None);
    assert_eq!(parse_u128_digits("7 "), None);
}

#[test]
fn parse_rejects_overflow() {
    // one past u128::MAX
    assert_eq!(parse_u128_digits("340282366920938463463374607431768211456"), None);
    assert_eq!(parse_u128_digits("999999999999999999999999999999999999999999"), None);
}

#[test]
fn format_exact_value() {
    assert_eq!(u128_to_dec_string(0), "0");
    assert_eq!(u128_to_dec_string(9), "9");
    assert_eq!(u128_to_dec_string(1203), "1203");
    assert_eq!(
        u128_to_dec_string(u128::MAX),
        "340282366920938463463374607431768211455"
    );
}

#[test]
fn format_parse_round_trip() {
    for n in [0u128, 1, 10, 99, 1_000_000, u128::MAX] {
        let s = u128_to_dec_string(n);
        assert_eq!(parse_u128_digits(&s), Some(n));
    }
}

#[test]
fn session_id_round_trip() {
    let id = SessionId::new(77);
    let s = id.to_string();
    assert_eq!(s, "77");
    assert_eq!(SessionId::parse(&s), Some(id));
    assert_eq!(SessionId::parse("not-an-id"), None);
}

#[test]
fn cor_id_round_trip() {
    let id = CorId::new(123456789);
    assert_eq!(CorId::parse(&id.to_string()), Some(id));
}

#[test]
fn auth_token_holds_credential() {
    let token = AuthToken::new("bearer-1");
    assert_eq!(token.token(), "bearer-1");
    let copy = token.clone();
    assert_eq!(copy.token(), token.token());
}

#[test]
fn build_id_parses_or_defaults() {
    assert_eq!(parse_build_id(Some("12345")), 12345);
    assert_eq!(parse_build_id(Some("12345\n")), 0);
    assert_eq!(parse_build_id(Some("")), 0);
    assert_eq!(parse_build_id(None), 0);
}
