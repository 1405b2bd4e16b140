use dynapork::{
    answer_ping, credentials_json, decode_ping_response, find_member_text, frame_credentials, match_error_string,
    ping_request, ping_result, Credentials, PingResponse, PingSuccessResponse, PorkbunError, PorkbunFailureResponse,
};

fn member(key: &str, text: Option<&str>) -> (String, Option<String>) {
    (key.to_owned(), text.map(|t| t.to_owned()))
}

#[test]
fn known_message_is_credentials_error() {
    assert_eq!(match_error_string("Invalid API key. (002)"), PorkbunError::InvalidCredentialsError);
}

#[test]
fn other_messages_are_kept_verbatim() {
    assert_eq!(match_error_string(""), PorkbunError::APIError("".to_owned()));
    assert_eq!(match_error_string("Invalid API key. (002) "), PorkbunError::APIError("Invalid API key. (002) ".to_owned()));
    assert_eq!(match_error_string("invalid api key. (002)"), PorkbunError::APIError("invalid api key. (002)".to_owned()));
}

#[test]
fn member_lookup_takes_first_match() {
    let members = vec![member("a", Some("1")), member("b", None), member("a", Some("2"))];
    assert_eq!(find_member_text(&members, "a"), Some("1".to_owned()));
    assert_eq!(find_member_text(&members, "b"), None);
    assert_eq!(find_member_text(&members, "c"), None);
    assert_eq!(find_member_text(&Vec::new(), "a"), None);
}

#[test]
fn decodes_success_shape() {
    let members = vec![member("status", Some("SUCCESS")), member("yourIp", Some("10.1.2.3"))];
    match decode_ping_response(&members) {
        Some(PingResponse::Success(s)) => {
            assert_eq!(s.status, "SUCCESS");
            assert_eq!(s.your_ip, "10.1.2.3");
        }
        _ => panic!("expected the success shape"),
    }
}

#[test]
fn decodes_failure_shape() {
    let members = vec![member("message", Some("nope")), member("status", Some("ERROR")), member("yourIp", None)];
    match decode_ping_response(&members) {
        Some(PingResponse::Failure(f)) => {
            assert_eq!(f.status, "ERROR");
            assert_eq!(f.message, "nope");
        }
        _ => panic!("expected the failure shape"),
    }
}

#[test]
fn decodes_neither_shape() {
    assert!(decode_ping_response(&vec![member("status", Some("SUCCESS"))]).is_none());
    assert!(decode_ping_response(&vec![member("status", None), member("yourIp", Some("1.1.1.1"))]).is_none());
    assert!(decode_ping_response(&Vec::new()).is_none());
}

#[test]
fn ping_result_of_each_shape() {
    let ok = ping_result(PingResponse::Success(PingSuccessResponse {
        status: "SUCCESS".to_owned(),
        your_ip: "::1".to_owned(),
    }));
    assert_eq!(ok, Ok("::1".to_owned()));
    let bad_key = ping_result(PingResponse::Failure(PorkbunFailureResponse {
        status: "ERROR".to_owned(),
        message: "Invalid API key. (002)".to_owned(),
    }));
    assert_eq!(bad_key, Err(PorkbunError::InvalidCredentialsError));
    let other = ping_result(PingResponse::Failure(PorkbunFailureResponse {
        status: "ERROR".to_owned(),
        message: "Domain is not opted in to API access. (003)".to_owned(),
    }));
    assert_eq!(other, Err(PorkbunError::APIError("Domain is not opted in to API access. (003)".to_owned())));
}

#[test]
fn answer_ping_decodes_body() {
    let body = br#"{"status":"SUCCESS","yourIp":"1.2.3.4"}"#.to_vec();
    assert_eq!(answer_ping(Ok(body)), Ok("1.2.3.4".to_owned()));
}

#[test]
fn answer_ping_passes_errors_through() {
    assert_eq!(answer_ping(Err(PorkbunError::WebRequestError("timed out".to_owned()))),
        Err(PorkbunError::WebRequestError("timed out".to_owned())));
}

#[test]
fn frames_credentials_exactly() {
    assert_eq!(frame_credentials("\"k\"", "\"s\""), r#"{"apikey":"k","secretapikey":"s"}"#);
}

#[test]
fn credentials_are_quoted_and_escaped() {
    let credentials = Credentials { api_key: "a\"b".to_owned(), api_secret: "line\nbreak".to_owned() };
    assert_eq!(credentials_json(&credentials), r#"{"apikey":"a\"b","secretapikey":"line\nbreak"}"#);
}

#[test]
fn credentials_escape_control_characters_only() {
    let credentials = Credentials { api_key: "\u{1}\u{8}\t\u{c}\r\u{1f}\\".to_owned(), api_secret: "é/ü\u{7f}".to_owned() };
    assert_eq!(
        credentials_json(&credentials),
        "{\"apikey\":\"\\u0001\\b\\t\\f\\r\\u001f\\\\\",\"secretapikey\":\"é/ü\u{7f}\"}"
    );
}

#[test]
fn empty_credentials_give_empty_literals() {
    let credentials = Credentials { api_key: "".to_owned(), api_secret: "".to_owned() };
    assert_eq!(credentials_json(&credentials), r#"{"apikey":"","secretapikey":""}"#);
}

#[test]
fn ping_request_targets_ping_endpoint() {
    let credentials = Credentials { api_key: "pk1_x".to_owned(), api_secret: "sk1_y".to_owned() };
    let request = ping_request(&credentials);
    assert_eq!(request.url, "https://api-ipv4.porkbun.com/api/json/v3/ping");
    assert_eq!(request.body, r#"{"apikey":"pk1_x","secretapikey":"sk1_y"}"#);
}
