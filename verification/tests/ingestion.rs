use moon::up_msg::{
    MAX_UP_MSG_BYTES, UpMsgError, ingest_up_msg, parse_auth_token, parse_cor_id, parse_session_id,
    parse_up_msg,
};

fn chunks(parts: &[&str]) -> Vec<Vec<u8>> {
    parts.iter().map(|p| p.as_bytes().to_vec()).collect()
}

#[test]
fn valid_request_carries_exact_ids() {
    let body = chunks(&[r#"{"kind":"greet","#, r#""name":"john"}"#]);
    let r = ingest_up_msg(&body, MAX_UP_MSG_BYTES, Some("11"), Some("22"), None).unwrap();
    assert_eq!(r.session_id.value, 11);
    assert_eq!(r.cor_id.value, 22);
    assert!(r.auth_token.is_none());
    assert_eq!(r.up_msg["kind"], "greet");
    assert_eq!(r.up_msg["name"], "john");
}

#[test]
fn auth_token_is_optional_but_kept() {
    let body = chunks(&["{}"]);
    let r = ingest_up_msg(&body, MAX_UP_MSG_BYTES, Some("1"), Some("2"), Some("tok")).unwrap();
    let token = r.auth_token.expect("token should be kept");
    assert_eq!(token.token(), "tok");
}

#[test]
fn missing_session_id_is_rejected() {
    let body = chunks(&["{}"]);
    let r = ingest_up_msg(&body, MAX_UP_MSG_BYTES, None, Some("2"), None);
    assert_eq!(r.err(), Some(UpMsgError::MissingSessionId));
}

#[test]
fn invalid_session_id_is_rejected() {
    let body = chunks(&["{}"]);
    let r = ingest_up_msg(&body, MAX_UP_MSG_BYTES, Some("abc"), Some("2"), None);
    assert_eq!(r.err(), Some(UpMsgError::InvalidSessionId));
}

#[test]
fn missing_cor_id_is_rejected() {
    let body = chunks(&["{}"]);
    let r = ingest_up_msg(&body, MAX_UP_MSG_BYTES, Some("1"), None, None);
    assert_eq!(r.err(), Some(UpMsgError::MissingCorId));
}

#[test]
fn invalid_cor_id_is_rejected() {
    let body = chunks(&["{}"]);
    let r = ingest_up_msg(&body, MAX_UP_MSG_BYTES, Some("1"), Some(""), None);
    assert_eq!(r.err(), Some(UpMsgError::InvalidCorId));
}

#[test]
fn unparsable_body_is_rejected() {
    let body = chunks(&["{not json"]);
    let r = ingest_up_msg(&body, MAX_UP_MSG_BYTES, Some("1"), Some("2"), None);
    assert_eq!(r.err(), Some(UpMsgError::Deserialize));
}

#[test]
fn oversized_body_is_rejected_even_if_it_would_parse() {
    // 16 bytes of perfectly valid JSON against a 10-byte budget
    let body = chunks(&[r#"{"k":"abcdefg"}"#, " "]);
    let r = ingest_up_msg(&body, 10, Some("1"), Some("2"), None);
    assert_eq!(r.err(), Some(UpMsgError::Overflow { limit: 10 }));
}

#[test]
fn overflow_beats_header_errors() {
    let body = chunks(&["0123456789abcdef"]);
    let r = ingest_up_msg(&body, 4, None, None, None);
    assert_eq!(r.err(), Some(UpMsgError::Overflow { limit: 4 }));
}

#[test]
fn budget_boundary_is_inclusive() {
    let body = chunks(&["{}"]);
    assert!(parse_up_msg(&body, 2).is_ok());
    assert_eq!(parse_up_msg(&body, 1).err(), Some(UpMsgError::Overflow { limit: 1 }));
}

#[test]
fn chunks_concatenate_in_order() {
    let body = chunks(&["[1,", "2,", "3]"]);
    let v = parse_up_msg(&body, MAX_UP_MSG_BYTES).unwrap();
    assert_eq!(v[0], 1);
    assert_eq!(v[2], 3);
}

#[test]
fn empty_body_is_not_json() {
    let body: Vec<Vec<u8>> = Vec::new();
    let r = parse_up_msg(&body, MAX_UP_MSG_BYTES);
    assert_eq!(r.err(), Some(UpMsgError::Deserialize));
}

#[test]
fn header_parsers_each_report_their_own_error() {
    assert_eq!(parse_session_id(None).err(), Some(UpMsgError::MissingSessionId));
    assert_eq!(parse_session_id(Some("x")).err(), Some(UpMsgError::InvalidSessionId));
    assert_eq!(parse_session_id(Some("5")).unwrap().value, 5);
    assert_eq!(parse_cor_id(None).err(), Some(UpMsgError::MissingCorId));
    assert_eq!(parse_cor_id(Some("x")).err(), Some(UpMsgError::InvalidCorId));
    assert_eq!(parse_cor_id(Some("6")).unwrap().value, 6);
    assert!(parse_auth_token(None).is_none());
    assert_eq!(parse_auth_token(Some("t")).unwrap().token(), "t");
}
