use violet::endpoint::{is_success, valid_domain};
use violet::fetch::{
    comment_block_of, comments_from_response, rank_entries_of, rank_from_response, render_rank,
    reply_text, FetchError,
};
use violet::stamp::{push_stamp, Stamp};
use violet::text::{join, push_padded, push_signed};
use violet::token::create_hmac;
use violet::usage::format_usage;

#[test]
fn token_has_decimal_timestamp_and_digest_prefix() {
    let (stamp, prefix) = create_hmac(1700000000000, "salt");
    assert_eq!(stamp, "1700000000000");
    assert_eq!(prefix, "1f34895");
}

#[test]
fn token_is_deterministic() {
    assert_eq!(create_hmac(1700000000000, "salt"), create_hmac(1700000000000, "salt"));
}

#[test]
fn token_changes_with_timestamp_or_salt() {
    assert_eq!(create_hmac(1700000000001, "salt").1, "6483877");
    assert_eq!(create_hmac(1700000000000, "pepper").1, "2984ac5");
    assert_eq!(create_hmac(0, "").0, "0");
    assert_eq!(create_hmac(0, "").1, "31bca02");
}

#[test]
fn token_prefix_is_seven_lower_hex_digits() {
    for t in [0u128, 1, 99, 1700000000000, u128::MAX] {
        let (_, prefix) = create_hmac(t, "secret");
        assert_eq!(prefix.len(), 7);
        assert!(prefix.chars().all(|c| c.is_ascii_digit() || ('a'..='f').contains(&c)));
    }
}

#[test]
fn url_on_server_uses_loopback() {
    assert_eq!(valid_domain(true, "/x"), "http://127.0.0.1:7788/x");
}

#[test]
fn url_elsewhere_uses_public_api() {
    assert_eq!(valid_domain(false, "/x"), "https://koromo.xyz/api/x");
    assert_eq!(
        valid_domain(false, "/top?offset=0&count=10&type=daily"),
        "https://koromo.xyz/api/top?offset=0&count=10&type=daily"
    );
}

#[test]
fn success_class_bounds() {
    assert!(!is_success(199));
    assert!(is_success(200));
    assert!(is_success(299));
    assert!(!is_success(300));
    assert!(!is_success(500));
}

#[test]
fn rank_renders_numbered_lines() {
    let r = rank_from_response(200, r#"{"result": [[111,5],[222,3]]}"#);
    assert_eq!(r, Ok("1. 111(5)\n2. 222(3)".to_string()));
}

#[test]
fn rank_keeps_api_order_and_signs() {
    let r = rank_from_response(200, r#"{"result": [[3,-1],[-7,9,4]], "extra": true}"#);
    assert_eq!(r, Ok("1. 3(-1)\n2. -7(9)".to_string()));
}

#[test]
fn rank_of_empty_result_is_empty() {
    assert_eq!(rank_from_response(200, r#"{"result": []}"#), Ok(String::new()));
}

#[test]
fn rank_failed_status() {
    assert_eq!(rank_from_response(500, r#"{"result": [[1,2]]}"#), Err(FetchError::RequestFailed));
    assert_eq!(rank_from_response(404, "not json"), Err(FetchError::RequestFailed));
}

#[test]
fn rank_malformed_body() {
    assert_eq!(rank_from_response(200, "{\"result\": [[1,2]"), Err(FetchError::MalformedResponse));
    assert_eq!(rank_from_response(200, ""), Err(FetchError::MalformedResponse));
}

#[test]
fn rank_schema_violations() {
    for body in [
        r#"{}"#,
        r#"{"result": 3}"#,
        r#"{"result": [[1]]}"#,
        r#"{"result": [[1, "2"]]}"#,
        r#"{"result": [[1, 2.5]]}"#,
        r#"{"result": [[1, 18446744073709551615]]}"#,
        r#"[[1, 2]]"#,
    ] {
        assert_eq!(rank_from_response(200, body), Err(FetchError::SchemaViolation), "{body}");
    }
}

#[test]
fn rank_entries_from_document() {
    let doc: serde_json::Value = serde_json::from_str(r#"{"result": [[1,2],[3,4]]}"#).unwrap();
    assert_eq!(rank_entries_of(&doc), Ok(vec![(1, 2), (3, 4)]));
}

#[test]
fn render_rank_lines() {
    assert_eq!(render_rank(&vec![(111, 5), (222, 3)]), "1. 111(5)\n2. 222(3)");
    assert_eq!(render_rank(&vec![]), "");
}

fn comment(i: usize) -> String {
    format!(
        r#"{{"UserAppId": "user{i:04}abcdef", "TimeStamp": "2023-05-{:02}T0{}:0{}:0{}+09:00", "Body": "body {i}"}}"#,
        20 - i,
        i % 10,
        i % 6,
        i % 10
    )
}

#[test]
fn comments_show_ten_oldest_of_window_first() {
    let items: Vec<String> = (0..11).map(comment).collect();
    let body = format!("{{\"result\": [{}]}}", items.join(","));
    let text = comments_from_response(200, &body).unwrap();
    let blocks: Vec<&str> = text.split_terminator("\n\n").collect();
    assert_eq!(blocks.len(), 10);
    assert!(text.ends_with("\n\n"));
    assert_eq!(blocks[0], "user0009 (2023-05-11 09:03:09)\nbody 9");
    assert_eq!(blocks[9], "user0000 (2023-05-20 00:00:00)\nbody 0");
    assert!(!text.contains("body 10"));
}

#[test]
fn comments_fewer_than_ten() {
    let body = format!("{{\"result\": [{},{}]}}", comment(0), comment(1));
    let text = comments_from_response(200, &body).unwrap();
    assert_eq!(
        text,
        "user0001 (2023-05-19 01:01:01)\nbody 1\n\nuser0000 (2023-05-20 00:00:00)\nbody 0\n\n"
    );
}

#[test]
fn comments_keep_local_time_of_offset() {
    let doc: serde_json::Value = serde_json::from_str(
        r#"{"UserAppId": "abcdefghijkl", "TimeStamp": "1999-12-31T23:59:58.123-05:30", "Body": "hi"}"#,
    )
    .unwrap();
    assert_eq!(
        comment_block_of(&doc),
        Some("abcdefgh (1999-12-31 23:59:58)\nhi\n\n".to_string())
    );
}

#[test]
fn comments_schema_violations() {
    for item in [
        r#"{"UserAppId": "short", "TimeStamp": "2023-05-01T00:00:00Z", "Body": "b"}"#,
        r#"{"UserAppId": "abcdefghij", "TimeStamp": "yesterday", "Body": "b"}"#,
        r#"{"UserAppId": "abcdefghij", "TimeStamp": "2023-05-01T00:00:00Z"}"#,
        r#"{"UserAppId": 12345678, "TimeStamp": "2023-05-01T00:00:00Z", "Body": "b"}"#,
        r#"[1, 2]"#,
    ] {
        let body = format!("{{\"result\": [{item}]}}");
        assert_eq!(comments_from_response(200, &body), Err(FetchError::SchemaViolation), "{item}");
    }
    assert_eq!(comments_from_response(200, r#"{"result": {}}"#), Err(FetchError::SchemaViolation));
}

#[test]
fn comments_ignore_items_past_the_window() {
    let mut items: Vec<String> = (0..10).map(comment).collect();
    items.push("null".to_string());
    let body = format!("{{\"result\": [{}]}}", items.join(","));
    assert!(comments_from_response(200, &body).is_ok());
}

#[test]
fn comments_failed_status_and_malformed_body() {
    assert_eq!(comments_from_response(500, r#"{"result": []}"#), Err(FetchError::RequestFailed));
    assert_eq!(comments_from_response(200, "<html>"), Err(FetchError::MalformedResponse));
}

#[test]
fn reply_falls_back_on_any_error() {
    for e in [FetchError::RequestFailed, FetchError::MalformedResponse, FetchError::SchemaViolation] {
        assert_eq!(reply_text(Err(e)), "Internal Server Error 😢");
    }
    assert_eq!(reply_text(Ok("1. 1(1)".to_string())), "1. 1(1)");
}

#[test]
fn memory_usage_half() {
    let mib = 1024 * 1024;
    assert_eq!(
        format_usage(512 * mib, 1024 * mib),
        Some("512.000MB/1024.000MB(50.0%)".to_string())
    );
}

#[test]
fn memory_usage_rounding() {
    assert_eq!(format_usage(1, 3), Some("0.000MB/0.000MB(33.3%)".to_string()));
    assert_eq!(format_usage(2, 3), Some("0.000MB/0.000MB(66.7%)".to_string()));
    assert_eq!(format_usage(1572864, 1048576), Some("1.500MB/1.000MB(150.0%)".to_string()));
    assert_eq!(format_usage(1, 1999), Some("0.000MB/0.002MB(0.1%)".to_string()));
}

#[test]
fn memory_usage_zero_total() {
    assert_eq!(format_usage(0, 0), None);
    assert_eq!(format_usage(5, 0), None);
}

#[test]
fn memory_usage_largest() {
    let text = format_usage(u64::MAX, u64::MAX).unwrap();
    assert_eq!(text, "17592186044416.000MB/17592186044416.000MB(100.0%)");
}

#[test]
fn join_with_separator() {
    let parts = vec!["1.000%".to_string(), "2.500%".to_string(), "0.000%".to_string()];
    assert_eq!(join(&parts, ", "), "1.000%, 2.500%, 0.000%");
    assert_eq!(join(&vec![], ", "), "");
    assert_eq!(join(&vec!["a".to_string()], ", "), "a");
}

#[test]
fn padded_and_signed_text() {
    let mut s = String::new();
    push_padded(&mut s, 7, 3);
    push_padded(&mut s, 1234, 2);
    push_signed(&mut s, i64::MIN);
    assert_eq!(s, "0071234-9223372036854775808");
}

#[test]
fn stamp_text_is_zero_padded() {
    let mut s = String::new();
    push_stamp(&mut s, Stamp { year: 5, month: 1, day: 2, hour: 3, minute: 4, second: 5, nanosecond: 0 });
    assert_eq!(s, "0005-01-02 03:04:05");
}

#[test]
fn leap_second_shows_as_sixty() {
    let doc: serde_json::Value = serde_json::from_str(
        r#"{"UserAppId": "abcdefghijkl", "TimeStamp": "2016-12-31T23:59:60Z", "Body": "leap"}"#,
    )
    .unwrap();
    assert_eq!(
        comment_block_of(&doc),
        Some("abcdefgh (2016-12-31 23:59:60)\nleap\n\n".to_string())
    );
    let mut s = String::new();
    push_stamp(&mut s, Stamp { year: 2016, month: 12, day: 31, hour: 23, minute: 59, second: 59, nanosecond: 1_000_000_000 });
    assert_eq!(s, "2016-12-31 23:59:60");
}
