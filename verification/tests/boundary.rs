use gojinn_sdk::ai;
use gojinn_sdk::db;
use gojinn_sdk::kv;
use gojinn_sdk::logger;
use gojinn_sdk::marshal;
use gojinn_sdk::read_input;
use gojinn_sdk::send_response;

use std::collections::HashMap;

/// A transfer buffer of the given capacity after a host wrote `bytes` into
/// its front, as the real boundary leaves it.
fn host_buffer(capacity: usize, bytes: &[u8]) -> Vec<u8> {
    assert!(bytes.len() <= capacity);
    let mut buffer = vec![0u8; capacity];
    buffer[..bytes.len()].copy_from_slice(bytes);
    buffer
}

#[test]
fn marshal_round_trip_ascii() {
    let text = "hello, host";
    let exported = marshal::export_bytes(text);
    let buffer = host_buffer(65536, &exported);
    let got = marshal::import_buffer(&buffer, exported.len() as u64);
    assert_eq!(got, Some(text.to_string()));
}

#[test]
fn marshal_round_trip_multibyte() {
    let text = "h\u{e9}llo \u{2192} \u{1f30d}";
    let exported = marshal::export_bytes(text);
    let buffer = host_buffer(65536, &exported);
    let got = marshal::import_buffer(&buffer, exported.len() as u64);
    assert_eq!(got, Some(text.to_string()));
}

#[test]
fn marshal_export_is_utf8() {
    let text = "ab\u{e9}";
    assert_eq!(marshal::export_bytes(text), text.as_bytes().to_vec());
}

#[test]
fn marshal_over_capacity_is_absent() {
    let buffer = host_buffer(10, b"aaaaaaaaaa");
    assert_eq!(marshal::import_buffer(&buffer, 11), None);
    assert_eq!(marshal::import_buffer(&buffer, u64::MAX), None);
}

#[test]
fn marshal_zero_written_is_empty_text() {
    let buffer = host_buffer(10, b"leftovers!");
    assert_eq!(marshal::import_buffer(&buffer, 0), Some(String::new()));
}

#[test]
fn marshal_invalid_bytes_are_replaced_not_fatal() {
    let buffer = host_buffer(8, &[0xff, b'a', 0xc3]);
    let got = marshal::import_buffer(&buffer, 3);
    assert_eq!(got, Some("\u{fffd}a\u{fffd}".to_string()));
}

#[test]
fn marshal_transfer_buffer_is_zeroed() {
    let buffer = marshal::transfer_buffer(4096);
    assert_eq!(buffer.len(), 4096);
    assert!(buffer.iter().all(|&b| b == 0));
}

#[test]
fn kv_set_carries_exported_bytes() {
    let call = kv::set("the-key", "the value");
    assert_eq!(call.key, b"the-key".to_vec());
    assert_eq!(call.value, b"the value".to_vec());
}

#[test]
fn kv_set_then_get_round_trip() {
    // A fake host: stores what set's call carries, echoes it back for get.
    let mut store: HashMap<Vec<u8>, Vec<u8>> = HashMap::new();
    let call = kv::set("user:7", "Ada Lovelace");
    store.insert(call.key.clone(), call.value.clone());

    let stored = store.get(&kv::set("user:7", "").key).unwrap();
    let buffer = host_buffer(kv::KV_BUFFER_LEN, stored);
    let got = kv::get(stored.len() as u64, &buffer);
    assert_eq!(got, Some("Ada Lovelace".to_string()));
}

#[test]
fn kv_get_over_capacity_is_none_never_truncated() {
    // The host reports a value larger than the transfer buffer: the whole
    // value is absent, not cut down to the buffer's capacity.
    let big = "x".repeat(kv::KV_BUFFER_LEN + 1);
    let buffer = host_buffer(kv::KV_BUFFER_LEN, &big.as_bytes()[..kv::KV_BUFFER_LEN]);
    assert_eq!(kv::get(big.len() as u64, &buffer), None);
}

#[test]
fn kv_get_zero_written_is_empty_value() {
    let buffer = host_buffer(kv::KV_BUFFER_LEN, b"");
    assert_eq!(kv::get(0, &buffer), Some(String::new()));
}

#[test]
fn db_zero_written_is_empty_or_failed() {
    let buffer = host_buffer(db::QUERY_BUFFER_LEN, b"ignored");
    let got = db::query(0, &buffer);
    assert_eq!(got, Err(db::DbError::EmptyOrFailedQuery));
}

#[test]
fn db_over_capacity_report_is_a_failure_not_a_panic() {
    let buffer = host_buffer(db::QUERY_BUFFER_LEN, br#"[{"id": 1}]"#);
    let got = db::query((db::QUERY_BUFFER_LEN + 1) as u32, &buffer);
    assert_eq!(got, Err(db::DbError::EmptyOrFailedQuery));
}

#[test]
fn db_rows_come_back_in_order() {
    let bytes = br#"[{"id": 1}, {"id": 2}]"#;
    let buffer = host_buffer(db::QUERY_BUFFER_LEN, bytes);
    let rows = db::query(bytes.len() as u32, &buffer).unwrap();
    assert_eq!(rows.len(), 2);
    assert_eq!(rows[0].get("id").and_then(|v| v.as_i64()), Some(1));
    assert_eq!(rows[1].get("id").and_then(|v| v.as_i64()), Some(2));
}

#[test]
fn db_empty_array_is_ok() {
    let bytes = b"[]";
    let buffer = host_buffer(db::QUERY_BUFFER_LEN, bytes);
    let rows = db::query(bytes.len() as u32, &buffer).unwrap();
    assert_eq!(rows.len(), 0);
}

#[test]
fn db_first_row_error_field_fails_the_call() {
    let bytes = br#"[{"error": "boom"}]"#;
    let buffer = host_buffer(db::QUERY_BUFFER_LEN, bytes);
    let got = db::query(bytes.len() as u32, &buffer);
    assert_eq!(got, Err(db::DbError::DatabaseError("boom".to_string())));
}

#[test]
fn db_first_row_error_field_not_text_gets_fallback() {
    let bytes = br#"[{"error": 5}]"#;
    let buffer = host_buffer(db::QUERY_BUFFER_LEN, bytes);
    let got = db::query(bytes.len() as u32, &buffer);
    assert_eq!(got, Err(db::DbError::DatabaseError("Unknown DB Error".to_string())));
}

#[test]
fn db_error_field_past_the_first_row_is_ordinary_data() {
    let bytes = br#"[{"id": 1}, {"error": "late"}]"#;
    let buffer = host_buffer(db::QUERY_BUFFER_LEN, bytes);
    let rows = db::query(bytes.len() as u32, &buffer).unwrap();
    assert_eq!(rows.len(), 2);
    assert_eq!(rows[1].get("error").and_then(|v| v.as_str()), Some("late"));
}

#[test]
fn db_malformed_bytes_carry_a_diagnostic() {
    let bytes = b"not json at all";
    let buffer = host_buffer(db::QUERY_BUFFER_LEN, bytes);
    match db::query(bytes.len() as u32, &buffer) {
        Err(db::DbError::MalformedResponse(diag)) => assert!(!diag.is_empty()),
        other => panic!("expected a malformed-response failure, got {:?}", other),
    }
}

#[test]
fn db_truncated_json_is_malformed_not_partial() {
    // A response the host had to cut at the buffer's capacity parses as a
    // failure instead of yielding partial rows.
    let bytes = br#"[{"id": 1}, {"id"#;
    let buffer = host_buffer(db::QUERY_BUFFER_LEN, bytes);
    assert!(matches!(
        db::query(bytes.len() as u32, &buffer),
        Err(db::DbError::MalformedResponse(_))
    ));
}

#[test]
fn db_non_array_is_malformed() {
    let bytes = br#"{"id": 1}"#;
    let buffer = host_buffer(db::QUERY_BUFFER_LEN, bytes);
    assert!(matches!(
        db::query(bytes.len() as u32, &buffer),
        Err(db::DbError::MalformedResponse(_))
    ));
}

#[test]
fn db_error_report_prefers_the_text() {
    assert_eq!(db::error_report(Some("why".to_string())), "why");
    assert_eq!(db::error_report(None), "Unknown DB Error");
}

#[test]
fn ai_zero_written_is_the_sentinel_text() {
    let buffer = host_buffer(ai::AI_BUFFER_LEN, b"ignored");
    assert_eq!(ai::ask(0, &buffer), "AI Error");
}

#[test]
fn ai_over_capacity_report_is_the_sentinel_not_a_panic() {
    let buffer = host_buffer(ai::AI_BUFFER_LEN, b"half a completion");
    assert_eq!(ai::ask((ai::AI_BUFFER_LEN as u64) + 1, &buffer), "AI Error");
}

#[test]
fn ai_completion_text_comes_back() {
    let bytes = "42.".as_bytes();
    let buffer = host_buffer(ai::AI_BUFFER_LEN, bytes);
    assert_eq!(ai::ask(bytes.len() as u64, &buffer), "42.");
}

#[test]
fn ai_sentinel_is_indistinguishable_from_a_real_completion() {
    // A genuine completion equal to the sentinel text reads the same as the
    // host's zero-written error: the ambiguity is part of the contract.
    let bytes = b"AI Error";
    let buffer = host_buffer(ai::AI_BUFFER_LEN, bytes);
    assert_eq!(ai::ask(bytes.len() as u64, &buffer), "AI Error");
}

#[test]
fn logger_info_is_level_one() {
    let call = logger::info("all well");
    assert_eq!(call.level, 1);
    assert_eq!(call.message, b"all well".to_vec());
}

#[test]
fn logger_error_is_level_three() {
    let call = logger::error("all wrong");
    assert_eq!(call.level, 3);
    assert_eq!(call.message, b"all wrong".to_vec());
}

#[test]
fn read_input_empty_stream_is_the_default_request() {
    let req = read_input("").unwrap();
    assert_eq!(req.body, "");
    assert!(req.headers.is_none());
    assert!(req.method.is_none());
}

#[test]
fn read_input_whitespace_stream_is_the_default_request() {
    let req = read_input(" \t\r\n \u{a0} ").unwrap();
    assert_eq!(req.body, "");
    assert!(req.headers.is_none());
    assert!(req.method.is_none());
}

#[test]
fn read_input_body_and_method() {
    let req = read_input(r#"{"body":"hi","method":"POST"}"#).unwrap();
    assert_eq!(req.body, "hi");
    assert_eq!(req.method, Some("POST".to_string()));
    assert!(req.headers.is_none());
}

#[test]
fn read_input_headers_come_back_as_text_lists() {
    let req = read_input(r#"{"body":"b","headers":{"A":["1","2"],"B":[]}}"#).unwrap();
    let headers = req.headers.unwrap();
    assert_eq!(
        headers,
        vec![
            ("A".to_string(), vec!["1".to_string(), "2".to_string()]),
            ("B".to_string(), vec![]),
        ]
    );
}

#[test]
fn read_input_null_headers_and_method_are_absent() {
    let req = read_input(r#"{"body":"b","headers":null,"method":null}"#).unwrap();
    assert!(req.headers.is_none());
    assert!(req.method.is_none());
}

#[test]
fn read_input_missing_body_is_an_error() {
    assert!(read_input(r#"{"method":"GET"}"#).is_err());
}

#[test]
fn read_input_non_text_body_is_an_error() {
    assert!(read_input(r#"{"body":5}"#).is_err());
}

#[test]
fn read_input_wrongly_shaped_headers_are_an_error() {
    assert!(read_input(r#"{"body":"b","headers":{"A":"1"}}"#).is_err());
    assert!(read_input(r#"{"body":"b","headers":[]}"#).is_err());
    assert!(read_input(r#"{"body":"b","headers":{"A":[1]}}"#).is_err());
}

#[test]
fn read_input_broken_json_carries_a_diagnostic() {
    match read_input("{") {
        Err(diag) => assert!(!diag.is_empty()),
        Ok(_) => panic!("a broken envelope must not decode"),
    }
}

#[test]
fn send_response_injects_the_two_markers() {
    let resp = send_response(200, "ok".to_string());
    assert_eq!(resp.status, 200);
    assert_eq!(resp.body, "ok");
    assert_eq!(resp.headers.len(), 2);
    assert_eq!(
        resp.headers[0],
        ("Content-Type".to_string(), vec!["application/json".to_string()])
    );
    assert_eq!(resp.headers[1].0, "X-Runtime");
    assert_eq!(resp.headers[1].1, vec!["Gojinn-Rust".to_string()]);
}
