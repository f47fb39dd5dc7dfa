//! Tests of the departure board: the JSON scanning primitives, the
//! document reader and the HTTP response checks.
use sandos::firmware::departures::{
    expect, parse_json, parse_num, parse_str, response_body, skip_ws, ERR_EMPTY_RESPONSE,
    ERR_EXPECTED_STRING, ERR_NON_200, ERR_NON_UTF8, ERR_NON_UTF8_RESPONSE, ERR_NO_BODY,
    ERR_NO_STOPS, ERR_UNEXPECTED_CHAR, ERR_UNTERMINATED_STRING,
};

#[test]
fn skip_ws_stops_at_content() {
    assert_eq!(skip_ws(b"  \t\r\nx", 0), 5);
    assert_eq!(skip_ws(b"x", 0), 0);
    assert_eq!(skip_ws(b"   ", 1), 3);
    assert_eq!(skip_ws(b"ab", 7), 7);
}

#[test]
fn expect_checks_next_byte() {
    assert_eq!(expect(b"  {", 0, b'{'), Ok(3));
    assert_eq!(expect(b"  [", 0, b'{'), Err(ERR_UNEXPECTED_CHAR));
    assert_eq!(expect(b"  ", 0, b'{'), Err(ERR_UNEXPECTED_CHAR));
}

#[test]
fn parse_str_reads_raw_text() {
    assert_eq!(parse_str(br#" "U6" x"#, 0), Ok(("U6", 5)));
    assert_eq!(parse_str(br#""a\"b""#, 0), Ok((r#"a\"b"#, 6)));
    assert_eq!(parse_str(b"x", 0), Err(ERR_EXPECTED_STRING));
    assert_eq!(parse_str(br#""abc"#, 0), Err(ERR_UNTERMINATED_STRING));
    assert_eq!(parse_str(&[b'"', 0xFF, b'"'], 0), Err(ERR_NON_UTF8));
}

#[test]
fn parse_num_saturates() {
    assert_eq!(parse_num(b" 42,", 0), (42, 3));
    assert_eq!(parse_num(b"99999", 0), (65535, 5));
    assert_eq!(parse_num(b"x", 0), (0, 0));
}

const DOC: &str = r#"{
  "Floridsdorf": {
    "SIEBENHIRTEN": [{"l":"U6","t":[{"e":2,"h":"09:00"},{"e":6,"h":"09:04"}]}]
  },
  "Martinstraße": {
    "Schottentor U": [{"l":"40","t":[{"e":1,"h":"09:01"}]},{"l":"41","t":[]}]
  }
}"#;

#[test]
fn parse_json_reads_the_board() {
    let lines = parse_json(DOC, 1234).expect("board");
    assert_eq!(lines.last_update_ms, 1234);
    assert!(!lines.error && !lines.loading);
    assert_eq!(lines.stops.len(), 2);
    let s0 = &lines.stops[0];
    assert_eq!(s0.station.as_str(), "Floridsdorf");
    assert_eq!(s0.direction.as_str(), "SIEBENHIRTEN");
    assert_eq!(s0.routes.len(), 1);
    assert_eq!(s0.routes[0].line.as_str(), "U6");
    assert_eq!(s0.routes[0].departures.len(), 2);
    assert_eq!(s0.routes[0].departures[1].wait_minutes, 6);
    assert_eq!(s0.routes[0].departures[1].time_str.as_str(), "09:04");
    let s1 = &lines.stops[1];
    assert_eq!(s1.station.as_str(), "Martinstraße");
    assert_eq!(s1.routes.len(), 2);
    assert_eq!(s1.routes[1].line.as_str(), "41");
    assert_eq!(s1.routes[1].departures.len(), 0);
}

#[test]
fn parse_json_caps_lists_and_texts() {
    let doc = r#"{"S":{"D":[{"l":"TOO-LONG-LINE","t":[{"e":1},{"e":2},{"e":3},{"e":4},{"e":5}]}]}}"#;
    let lines = parse_json(doc, 0).expect("board");
    let route = &lines.stops[0].routes[0];
    assert_eq!(route.line.as_str(), "");
    assert_eq!(route.departures.len(), 4);
    assert_eq!(route.departures[3].wait_minutes, 4);
}

#[test]
fn parse_json_errors() {
    assert_eq!(parse_json("[]", 0).err(), Some(ERR_UNEXPECTED_CHAR));
    assert_eq!(parse_json("{}", 0).err(), Some(ERR_NO_STOPS));
    assert_eq!(parse_json(r#"{"S" {"#, 0).err(), Some(ERR_UNEXPECTED_CHAR));
    assert_eq!(parse_json(r#"{5}"#, 0).err(), Some(ERR_EXPECTED_STRING));
}

#[test]
fn response_body_checks() {
    assert_eq!(response_body(b""), Err(ERR_EMPTY_RESPONSE));
    assert_eq!(response_body(&[0xFF]), Err(ERR_NON_UTF8_RESPONSE));
    assert_eq!(response_body(b"HTTP/1.1 404 Not Found\r\n\r\n"), Err(ERR_NON_200));
    assert_eq!(response_body(b"HTTP/1.1 200 OK\r\nA: b"), Err(ERR_NO_BODY));
    assert_eq!(response_body(b"HTTP/1.0 200 OK\r\nA: b\r\n\r\n{\"x\":1}"), Ok("{\"x\":1}"));
}
