use olmmcc::form::{get_form_data, FieldMap, FormError};
use olmmcc::framer::{FrameStatus, Framer, MAX_REQUEST_BYTES};
use olmmcc::request::{handle_request, not_found_reply, ok, split_request, Intake};
use olmmcc::route::{route_of, Route};
use olmmcc::text::latin1_chars;

const NOT_ALLOWED: &str =
    "HTTP/1.1 405 Method Not Allowed\r\n\r\nThe OLMMCC api only supports multipart/form-data.";

fn part(name: &str, value: &str) -> String {
    format!(
        "--XYZ\r\nContent-Disposition: form-data; name=\"{}\"\r\n\r\n{}\r\n",
        name, value
    )
}

fn multipart_request(method: &str, path: &str, parts: &[(&str, &str)]) -> Vec<u8> {
    let mut text = format!(
        "{} {} HTTP/1.1\r\nContent-Type: multipart/form-data; boundary=XYZ\r\n\r\n",
        method, path
    );
    for (n, v) in parts {
        text.push_str(&part(n, v));
    }
    text.push_str("--XYZ--\r\n");
    text.into_bytes()
}

fn reply_text(i: Intake) -> String {
    match i {
        Intake::Reply(t) => t,
        Intake::Dispatch { .. } => panic!("expected a reply"),
    }
}

#[test]
fn framer_stops_at_sentinel_in_chunk() {
    let mut f = Framer::new();
    let st = f.feed(b"POST /x\0garbage", None);
    assert_eq!(st, FrameStatus::Complete);
    assert_eq!(f.request(), &b"POST /x".to_vec());
}

#[test]
fn framer_reads_on_until_sentinel() {
    let mut f = Framer::new();
    assert_eq!(f.feed(b"abc", Some(b'd')), FrameStatus::More);
    assert_eq!(f.feed(b"def", None), FrameStatus::More);
    assert_eq!(f.feed(b"gh", Some(0)), FrameStatus::Complete);
    assert_eq!(f.request(), &b"abcdefgh".to_vec());
}

#[test]
fn framer_reports_closed_peer() {
    let mut f = Framer::new();
    assert_eq!(f.feed(b"abc", None), FrameStatus::More);
    assert_eq!(f.feed(b"", None), FrameStatus::Closed);
    assert_eq!(f.request(), &b"abc".to_vec());
}

#[test]
fn framer_gives_up_on_oversized_request() {
    let mut f = Framer::new();
    let chunk = vec![b'a'; 128];
    let mut last = FrameStatus::More;
    let mut n = 0usize;
    while last == FrameStatus::More {
        last = f.feed(&chunk, None);
        n += 1;
    }
    assert_eq!(last, FrameStatus::TooLarge);
    assert_eq!(n * 128, MAX_REQUEST_BYTES + 128);
}

#[test]
fn other_methods_are_not_allowed() {
    for m in ["GET", "PUT", "DELETE", "post"] {
        let req = multipart_request(m, "/get_account", &[("session", "abc")]);
        assert_eq!(reply_text(handle_request(&req)), NOT_ALLOWED);
    }
}

#[test]
fn post_without_multipart_is_not_allowed() {
    let req = b"POST /get_account HTTP/1.1\r\nContent-Type: application/json\r\n\r\n{\"session\":\"abc\"}".to_vec();
    assert_eq!(reply_text(handle_request(&req)), NOT_ALLOWED);
}

#[test]
fn malformed_form_is_not_allowed() {
    let req = b"POST /login HTTP/1.1\r\nContent-Type: multipart/form-data; boundary=XYZ\r\n\r\n--XYZ\r\nContent-Disposition: form-data; name=\"email".to_vec();
    assert_eq!(reply_text(handle_request(&req)), NOT_ALLOWED);
}

#[test]
fn well_formed_form_is_dispatched() {
    let req = multipart_request("POST", "/get_account", &[("session", "abc"), ("details", "email admin")]);
    match handle_request(&req) {
        Intake::Dispatch { route, fields } => {
            assert_eq!(route, Route::GetAccount);
            assert_eq!(fields.entries().len(), 2);
            assert_eq!(fields.get("session"), Some("abc".to_string()));
            assert_eq!(fields.get("details"), Some("email admin".to_string()));
            assert_eq!(fields.get("missing"), None);
        }
        Intake::Reply(t) => panic!("unexpected reply {}", t),
    }
}

#[test]
fn unknown_path_is_named_in_not_found() {
    let req = multipart_request("POST", "/no_such_thing", &[("a", "1")]);
    let t = reply_text(handle_request(&req));
    assert_eq!(
        t,
        "HTTP/1.1 404 Not Found\r\n\r\n{\"message\":\"The provided url /no_such_thing could not be resolved.\"}"
    );
    assert!(t.contains("/no_such_thing"));
}

#[test]
fn not_found_escapes_quotes() {
    assert_eq!(
        not_found_reply("/a\"b"),
        "HTTP/1.1 404 Not Found\r\n\r\n{\"message\":\"The provided url /a\\\"b could not be resolved.\"}"
    );
}

#[test]
fn ok_wraps_reply() {
    assert_eq!(ok("{}"), "HTTP/1.1 200 Ok\r\n\r\n{}");
}

#[test]
fn dispatch_table_is_exact() {
    assert_eq!(route_of("/get_page"), Some(Route::GetPage));
    assert_eq!(route_of("/send_email"), Some(Route::SendEmail));
    assert_eq!(route_of("/move_row_to_start"), Some(Route::MoveRowToStart));
    assert_eq!(route_of("/Get_page"), None);
    assert_eq!(route_of("/get_page/"), None);
    assert_eq!(route_of(""), None);
}

#[test]
fn splitter_reads_method_path_body() {
    let text = latin1_chars(&b"  POST   /login HTTP/1.1\r\nA: b\r\n\r\nbody\r\n\r\nmore".to_vec());
    let (m, p, b) = split_request(&text);
    assert_eq!(m, "POST");
    assert_eq!(p, "/login");
    assert_eq!(b.iter().collect::<String>(), "body\r\n\r\nmore");
}

#[test]
fn splitter_without_blank_line_has_empty_body() {
    let text = latin1_chars(&b"GET".to_vec());
    let (m, p, b) = split_request(&text);
    assert_eq!(m, "GET");
    assert_eq!(p, "");
    assert!(b.is_empty());
}

#[test]
fn decoder_reads_every_part() {
    let mut body = String::new();
    for i in 0..5 {
        body.push_str(&part(&format!("f{}", i), &format!("value {}", i)));
    }
    body.push_str("--XYZ--\r\n");
    let chars: Vec<char> = body.chars().collect();
    let m = get_form_data(&chars).ok().unwrap();
    assert_eq!(m.entries().len(), 5);
    for i in 0..5 {
        assert_eq!(m.get(&format!("f{}", i)), Some(format!("value {}", i)));
    }
}

#[test]
fn decoder_keeps_later_duplicate() {
    let body = format!("{}{}--XYZ--\r\n", part("a", "1"), part("a", "2"));
    let chars: Vec<char> = body.chars().collect();
    let m = get_form_data(&chars).ok().unwrap();
    assert_eq!(m.get("a"), Some("2".to_string()));
}

#[test]
fn decoder_accepts_empty_body_and_values() {
    let m = get_form_data(&Vec::new()).ok().unwrap();
    assert_eq!(m.entries().len(), 0);
    let body = format!("{}--XYZ--\r\n", part("a", ""));
    let chars: Vec<char> = body.chars().collect();
    let m = get_form_data(&chars).ok().unwrap();
    assert_eq!(m.get("a"), Some(String::new()));
}

#[test]
fn decoder_fails_fast_on_cut_parts() {
    for body in [
        "name=\"abc",
        "name=\"abc\"\r\nno blank line",
        "name=\"abc\"\r\n\r\nvalue without line end",
        "a\r\n\r\nb",
        "--XYZ\r\nContent-Disposition: form-data\r\n\r\nvalue\r\n--XYZ--\r\n",
    ] {
        let chars: Vec<char> = body.chars().collect();
        assert!(matches!(get_form_data(&chars), Err(FormError::MalformedPart)));
    }
}

#[test]
fn field_map_insert_overrides() {
    let mut m = FieldMap::new();
    m.insert("k".to_string(), "v1".to_string());
    m.insert("k".to_string(), "v2".to_string());
    assert_eq!(m.get("k"), Some("v2".to_string()));
    m.clear();
    assert_eq!(m.get("k"), None);
}
