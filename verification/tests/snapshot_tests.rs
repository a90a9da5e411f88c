use cryptopanic_fetcher::{
    amount, capture_date, print_portfolio_data, process_portfolio_data, process_response,
    summary_line, ApplicationError, Timestamp,
};

const MOCK: &str = r#"{"portfolio":{"totals":{"BTC":"1.5","USD":"9000"}}}"#;

#[test]
fn process_keeps_the_response_and_adds_the_date() {
    let snapshot = process_response(MOCK, "2024-05-06T07:08:09+00:00").unwrap();
    assert_eq!(
        snapshot.get("portfolio"),
        Some(r#"{"totals":{"BTC":"1.5","USD":"9000"}}"#.to_string())
    );
    assert_eq!(
        snapshot.get("date"),
        Some(r#""2024-05-06T07:08:09+00:00""#.to_string())
    );
    assert_eq!(snapshot.get("totals"), None);
}

#[test]
fn process_overwrites_a_date_of_the_response() {
    let snapshot = process_response(r#"{"date":12,"n":1}"#, "now").unwrap();
    assert_eq!(snapshot.get("date"), Some(r#""now""#.to_string()));
    assert_eq!(snapshot.get("n"), Some("1".to_string()));
}

#[test]
fn the_date_is_written_as_a_json_string() {
    let snapshot = process_response("{}", "a\"b\\c\n").unwrap();
    assert_eq!(snapshot.get("date"), Some(r#""a\"b\\c\n""#.to_string()));
}

#[test]
fn values_are_held_as_compact_json() {
    let raw = r#" { "list" : [ 1 , 2.5 , null , true ] , "text" : "a b" , "inner" : { "z" : 1 , "a" : { } } } "#;
    let snapshot = process_response(raw, "d").unwrap();
    assert_eq!(snapshot.get("list"), Some("[1,2.5,null,true]".to_string()));
    assert_eq!(snapshot.get("text"), Some(r#""a b""#.to_string()));
    assert_eq!(snapshot.get("inner"), Some(r#"{"a":{},"z":1}"#.to_string()));
}

#[test]
fn malformed_json_is_a_parse_error() {
    assert_eq!(process_response("not json", "d").unwrap_err(), ApplicationError::ParseError);
    assert_eq!(process_response("", "d").unwrap_err(), ApplicationError::ParseError);
    assert_eq!(process_response("{", "d").unwrap_err(), ApplicationError::ParseError);
    assert_eq!(process_response(r#"{"a":1} x"#, "d").unwrap_err(), ApplicationError::ParseError);
}

#[test]
fn json_that_is_no_object_is_a_parse_error() {
    assert_eq!(process_response("[1,2]", "d").unwrap_err(), ApplicationError::ParseError);
    assert_eq!(process_response(r#""text""#, "d").unwrap_err(), ApplicationError::ParseError);
    assert_eq!(process_response("null", "d").unwrap_err(), ApplicationError::ParseError);
    assert_eq!(process_response("17", "d").unwrap_err(), ApplicationError::ParseError);
}

#[test]
fn empty_object_gets_only_the_date() {
    let snapshot = process_response("{}", "d").unwrap();
    assert_eq!(snapshot.to_json(), Some(r#"{"date":"d"}"#.to_string()));
}

#[test]
fn snapshot_text_holds_every_member() {
    let snapshot = process_response(r#"{"b":[1,2],"a":"x","portfolio":{"totals":{}}}"#, "D").unwrap();
    let text = snapshot.to_json().unwrap();
    assert_eq!(text, r#"{"a":"x","b":[1,2],"date":"D","portfolio":{"totals":{}}}"#);
    let parsed: serde_json::Value = serde_json::from_str(&text).unwrap();
    assert_eq!(parsed["a"], serde_json::Value::String("x".to_string()));
    assert_eq!(parsed["date"], serde_json::Value::String("D".to_string()));
    assert!(parsed["b"].is_array());
    assert!(parsed["portfolio"]["totals"].is_object());
}

#[test]
fn summary_of_the_mock_response() {
    let snapshot = process_response(MOCK, "d").unwrap();
    let lines = print_portfolio_data(&snapshot);
    assert_eq!(
        lines,
        vec![r#"Total (BTC): "1.5""#.to_string(), r#"Total (USD): "9000""#.to_string()]
    );
    assert!(lines[0].contains("BTC") && lines[0].contains("1.5"));
    assert!(lines[1].contains("USD") && lines[1].contains("9000"));
}

#[test]
fn summary_of_numeric_totals() {
    let raw = r#"{"portfolio":{"totals":{"USD":9000,"BTC":1.5,"ETH":3}}}"#;
    let snapshot = process_response(raw, "d").unwrap();
    assert_eq!(
        print_portfolio_data(&snapshot),
        vec!["Total (BTC): 1.5".to_string(), "Total (USD): 9000".to_string()]
    );
    assert_eq!(snapshot.total("ETH"), Some("3".to_string()));
    assert_eq!(snapshot.total("EUR"), None);
}

#[test]
fn summary_marks_missing_totals() {
    let both = vec!["Total (BTC): N/A".to_string(), "Total (USD): N/A".to_string()];
    for raw in [
        "{}",
        r#"{"portfolio":null}"#,
        r#"{"portfolio":"text"}"#,
        r#"{"portfolio":{}}"#,
        r#"{"portfolio":{"totals":[1,2]}}"#,
        r#"{"portfolio":{"totals":{}}}"#,
        r#"{"totals":{"BTC":1,"USD":2}}"#,
    ] {
        let snapshot = process_response(raw, "d").unwrap();
        assert_eq!(print_portfolio_data(&snapshot), both);
    }
}

#[test]
fn summary_shows_only_numbers_and_strings() {
    let raw = r#"{"portfolio":{"totals":{"BTC":null,"USD":-0.5}}}"#;
    let snapshot = process_response(raw, "d").unwrap();
    assert_eq!(
        print_portfolio_data(&snapshot),
        vec!["Total (BTC): N/A".to_string(), "Total (USD): -0.5".to_string()]
    );
    let raw = r#"{"portfolio":{"totals":{"BTC":{"amount":1},"USD":[9000],"a":true,"b":""}}}"#;
    let snapshot = process_response(raw, "d").unwrap();
    assert_eq!(
        print_portfolio_data(&snapshot),
        vec!["Total (BTC): N/A".to_string(), "Total (USD): N/A".to_string()]
    );
    assert_eq!(snapshot.total("a"), None);
    assert_eq!(snapshot.total("b"), Some(r#""""#.to_string()));
}

#[test]
fn amounts_are_numbers_and_strings() {
    for text in ["0", "9", "15", "-3", "1.5e3", "\"x\"", "\"\""] {
        assert!(amount(text), "{}", text);
    }
    for text in ["", "null", "true", "false", "[1]", "{}", " 1", "+1", ".5", "/", ":"] {
        assert!(!amount(text), "{}", text);
    }
}

#[test]
fn capture_date_is_rfc3339() {
    assert_eq!(
        capture_date(&Timestamp { secs: 0, nanos: 0 }),
        Some("1970-01-01T00:00:00+00:00".to_string())
    );
    assert_eq!(
        capture_date(&Timestamp { secs: 1_700_000_000, nanos: 0 }),
        Some("2023-11-14T22:13:20+00:00".to_string())
    );
    assert_eq!(
        capture_date(&Timestamp { secs: 1_700_000_000, nanos: 123_000_000 }),
        Some("2023-11-14T22:13:20.123+00:00".to_string())
    );
    assert_eq!(
        capture_date(&Timestamp { secs: 1_700_000_000, nanos: 123_456_789 }),
        Some("2023-11-14T22:13:20.123456789+00:00".to_string())
    );
    assert_eq!(
        capture_date(&Timestamp { secs: -1, nanos: 0 }),
        Some("1969-12-31T23:59:59+00:00".to_string())
    );
}

#[test]
fn capture_date_of_an_instant_out_of_range() {
    assert_eq!(capture_date(&Timestamp { secs: i64::MAX, nanos: 0 }), None);
    assert_eq!(capture_date(&Timestamp { secs: i64::MIN, nanos: 0 }), None);
    assert_eq!(capture_date(&Timestamp { secs: 0, nanos: 2_000_000_000 }), None);
}

#[test]
fn process_at_an_instant() {
    let at = Timestamp { secs: 1_700_000_000, nanos: 0 };
    let snapshot = process_portfolio_data(MOCK.to_string(), &at).unwrap();
    assert_eq!(
        snapshot.get("date"),
        Some(r#""2023-11-14T22:13:20+00:00""#.to_string())
    );
    assert_eq!(
        snapshot.to_json(),
        Some(
            r#"{"date":"2023-11-14T22:13:20+00:00","portfolio":{"totals":{"BTC":"1.5","USD":"9000"}}}"#
                .to_string()
        )
    );
}

#[test]
fn process_at_fails_on_bad_json_or_unwritable_instant() {
    let at = Timestamp { secs: 0, nanos: 0 };
    assert_eq!(
        process_portfolio_data("not json".to_string(), &at).unwrap_err(),
        ApplicationError::ParseError
    );
    let never = Timestamp { secs: i64::MAX, nanos: 0 };
    assert_eq!(
        process_portfolio_data(MOCK.to_string(), &never).unwrap_err(),
        ApplicationError::ParseError
    );
}

#[test]
fn duplicate_members_let_the_last_count() {
    let snapshot = process_response(r#"{"a":1,"a":2}"#, "d").unwrap();
    assert_eq!(snapshot.get("a"), Some("2".to_string()));
}

#[test]
fn summary_line_of_a_total() {
    assert_eq!(summary_line("BTC", Some("1.5".to_string())), "Total (BTC): 1.5");
    assert_eq!(summary_line("USD", Some("\"9000\"".to_string())), "Total (USD): \"9000\"");
    assert_eq!(summary_line("BTC", None), "Total (BTC): N/A");
    assert_eq!(summary_line("", Some(String::new())), "Total (): ");
}
