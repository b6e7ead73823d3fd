use editor_support::fetch::{
    content_type_from_header, html_handlers_for, json_code_block, json_message,
    message_from_response, normalize_url, plaintext_message, status_is_client_error,
    ConfirmBehavior, ContentType, FetchContextPickerDelegate, FetchError, FetchedMessage,
    HtmlHandlers,
};

#[test]
fn url_without_scheme_gets_https() {
    assert_eq!(normalize_url("example.com"), "https://example.com");
    assert_eq!(normalize_url("zed.dev/blog"), "https://zed.dev/blog");
    assert_eq!(normalize_url(""), "https://");
}

#[test]
fn url_with_scheme_is_kept() {
    assert_eq!(normalize_url("https://example.com"), "https://example.com");
    assert_eq!(normalize_url("http://example.com"), "http://example.com");
}

#[test]
fn scheme_check_is_case_sensitive() {
    assert_eq!(normalize_url("HTTP://example.com"), "https://HTTP://example.com");
    assert_eq!(normalize_url("ftp://example.com"), "https://ftp://example.com");
}

#[test]
fn normalizing_twice_changes_nothing() {
    for url in ["example.com", "http://a", "https://b", "", "h"] {
        let once = normalize_url(url);
        assert_eq!(normalize_url(&once), once);
    }
}

#[test]
fn client_errors_are_4xx() {
    assert!(status_is_client_error(400));
    assert!(status_is_client_error(404));
    assert!(status_is_client_error(499));
    assert!(!status_is_client_error(399));
    assert!(!status_is_client_error(200));
    assert!(!status_is_client_error(500));
}

#[test]
fn content_types_by_header() {
    assert_eq!(content_type_from_header(b"text/html"), Some(ContentType::Html));
    assert_eq!(content_type_from_header(b"text/plain"), Some(ContentType::Plaintext));
    assert_eq!(content_type_from_header(b"application/json"), Some(ContentType::Json));
    assert_eq!(content_type_from_header(b"text/html; charset=utf-8"), Some(ContentType::Html));
    assert_eq!(content_type_from_header(b"text/plain; charset=utf-8"), Some(ContentType::Html));
    assert_eq!(content_type_from_header(b"image/png"), Some(ContentType::Html));
    assert_eq!(content_type_from_header(b""), Some(ContentType::Html));
    assert_eq!(content_type_from_header(b"text/\tplain"), Some(ContentType::Html));
}

#[test]
fn header_with_invisible_bytes_is_not_text() {
    assert_eq!(content_type_from_header(b"text/plain\x7f"), None);
    assert_eq!(content_type_from_header(b"text/\nplain"), None);
    assert_eq!(content_type_from_header("text/pl\u{e4}in".as_bytes()), None);
}

#[test]
fn wikipedia_pages_get_their_own_handlers() {
    assert_eq!(html_handlers_for("https://en.wikipedia.org/wiki/Rust"), HtmlHandlers::Wikipedia);
    assert_eq!(html_handlers_for("https://wikipedia.org"), HtmlHandlers::Wikipedia);
    assert_eq!(html_handlers_for("https://example.com/wikipedia"), HtmlHandlers::Generic);
    assert_eq!(html_handlers_for("https://wikipedia.or"), HtmlHandlers::Generic);
}

#[test]
fn json_is_fenced() {
    assert_eq!(json_code_block("{}"), "```json\n{}\n```");
}

#[test]
fn json_body_is_pretty_printed() {
    let text = json_message(br#"{"a":1,"b":[true,null]}"#).unwrap();
    assert_eq!(
        text,
        "```json\n{\n  \"a\": 1,\n  \"b\": [\n    true,\n    null\n  ]\n}\n```"
    );
}

#[test]
fn invalid_json_is_an_error() {
    assert!(matches!(json_message(b"{\"a\":"), Err(FetchError::Json(_))));
}

#[test]
fn plaintext_body_is_decoded() {
    assert_eq!(plaintext_message("h\u{e9}llo".as_bytes()).unwrap(), "h\u{e9}llo");
    assert!(matches!(plaintext_message(&[0x66, 0xff]), Err(FetchError::InvalidUtf8(_))));
}

#[test]
fn client_error_status_reports_body() {
    let r = message_from_response("https://a", 404, Some(b"text/plain"), b"not \xffhere");
    match r {
        Err(FetchError::Status { code, body }) => {
            assert_eq!(code, 404);
            assert_eq!(body, "not \u{fffd}here");
        }
        other => panic!("unexpected {:?}", other),
    }
}

#[test]
fn missing_content_type_is_an_error() {
    let r = message_from_response("https://a", 200, None, b"x");
    assert!(matches!(r, Err(FetchError::MissingContentType)));
}

#[test]
fn invalid_content_type_is_an_error() {
    let r = message_from_response("https://a", 200, Some(b"text/\x01plain"), b"x");
    assert!(matches!(r, Err(FetchError::InvalidContentType)));
}

#[test]
fn server_error_status_is_not_rejected() {
    let r = message_from_response("https://a", 500, Some(b"text/plain"), b"oops");
    assert!(matches!(r, Ok(FetchedMessage::Text(ref s)) if s == "oops"));
}

#[test]
fn plaintext_response_is_the_body() {
    let r = message_from_response("https://a", 200, Some(b"text/plain"), b"hello world");
    assert!(matches!(r, Ok(FetchedMessage::Text(ref s)) if s == "hello world"));
    let r = message_from_response("https://a", 200, Some(b"text/plain"), &[0xc3]);
    assert!(matches!(r, Err(FetchError::InvalidUtf8(_))));
}

#[test]
fn json_response_is_fenced() {
    let r = message_from_response("https://a", 200, Some(b"application/json"), b"[1]");
    assert!(matches!(r, Ok(FetchedMessage::Text(ref s)) if s == "```json\n[\n  1\n]\n```"));
    let r = message_from_response("https://a", 200, Some(b"application/json"), b"[1");
    assert!(matches!(r, Err(FetchError::Json(_))));
}

#[test]
fn html_response_asks_for_conversion() {
    let r = message_from_response("https://en.wikipedia.org/wiki/X", 200, Some(b"text/html"), b"<p>x</p>");
    assert!(matches!(r, Ok(FetchedMessage::ConvertHtml(HtmlHandlers::Wikipedia))));
    let r = message_from_response("https://example.com", 201, Some(b"text/css"), b"");
    assert!(matches!(r, Ok(FetchedMessage::ConvertHtml(HtmlHandlers::Generic))));
}

#[test]
fn delegate_counts_one_match_once_a_url_is_typed() {
    let mut d = FetchContextPickerDelegate::new(ConfirmBehavior::Close);
    assert_eq!(d.match_count(), 0);
    assert_eq!(d.selected_index(), 0);
    assert_eq!(d.url(), "");
    d.update_matches("example.com".to_string());
    assert_eq!(d.match_count(), 1);
    assert_eq!(d.url(), "example.com");
    d.update_matches(String::new());
    assert_eq!(d.match_count(), 0);
}

#[test]
fn delegate_confirm_behavior() {
    let keep = FetchContextPickerDelegate::new(ConfirmBehavior::KeepOpen);
    assert!(!keep.dismisses_after_confirm());
    assert_eq!(keep.confirm_behavior(), ConfirmBehavior::KeepOpen);
    let close = FetchContextPickerDelegate::new(ConfirmBehavior::Close);
    assert!(close.dismisses_after_confirm());
}

#[test]
fn delegate_texts() {
    let d = FetchContextPickerDelegate::new(ConfirmBehavior::KeepOpen);
    assert_eq!(d.no_matches_text(), "Enter the URL that you would like to fetch");
    assert_eq!(d.placeholder_text(), "Enter a URL\u{2026}");
}
