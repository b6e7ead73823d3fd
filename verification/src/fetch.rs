use crate::text::{chars_of, contains_chars, has_prefix, occurs_in, same_chars, starts_with_chars};
use vstd::prelude::*;
use vstd::string::*;
use vstd::utf8::{decode_utf8, valid_utf8};

verus! {

#[verifier::external_type_specification]
#[verifier::external_body]
pub struct ExUtf8Error(core::str::Utf8Error);

#[verifier::external_type_specification]
#[verifier::external_body]
pub struct ExJsonError(serde_json::Error);

/// What `String::from_utf8_lossy` makes of a byte string.
pub uninterp spec fn lossy_text(bytes: Seq<u8>) -> Seq<char>;

/// What serde_json makes of a byte string read as a `serde_json::Value` and
/// printed back with `to_string_pretty`: the text, or `None` where
/// `from_slice` rejects the bytes.
pub uninterp spec fn pretty_json_text(bytes: Seq<u8>) -> Option<Seq<char>>;

/// Calls `std::str::from_utf8` and copies the text out. Trusted: it succeeds
/// exactly on valid UTF-8, and the text is then what the bytes encode.
#[verifier::external_body]
fn utf8_text(bytes: &[u8]) -> (r: Result<String, core::str::Utf8Error>)
    ensures
        r is Ok <==> valid_utf8(bytes@),
        r matches Ok(s) ==> s@ == decode_utf8(bytes@),
{
    match std::str::from_utf8(bytes) {
        Ok(s) => Ok(s.to_owned()),
        Err(e) => Err(e),
    }
}

/// Calls `String::from_utf8_lossy` and copies the text out. Trusted: the text
/// is `lossy_text` of the bytes, and on valid UTF-8 it is what they encode.
#[verifier::external_body]
fn utf8_text_lossy(bytes: &[u8]) -> (s: String)
    ensures
        s@ == lossy_text(bytes@),
        valid_utf8(bytes@) ==> s@ == decode_utf8(bytes@),
{
    String::from_utf8_lossy(bytes).into_owned()
}

/// Calls `serde_json::from_slice` for a `serde_json::Value` and prints the
/// value with `serde_json::to_string_pretty`. Trusted: the result is the
/// text `pretty_json_text` names where the bytes parse, and the parse error
/// where they do not. Printing a parsed `Value` does not fail: it writes into
/// a `Vec`, and a `Value`'s map keys are strings.
#[verifier::external_body]
fn pretty_print_json(bytes: &[u8]) -> (r: Result<String, serde_json::Error>)
    ensures
        match r {
            Ok(s) => pretty_json_text(bytes@) == Some(s@),
            Err(_) => pretty_json_text(bytes@) is None,
        },
{
    match serde_json::from_slice::<serde_json::Value>(bytes) {
        Ok(value) => serde_json::to_string_pretty(&value),
        Err(e) => Err(e),
    }
}

/// How a fetched body is turned into text.
#[derive(Clone, Copy, Debug, PartialEq, Eq, Hash, Structural)]
pub enum ContentType {
    Html,
    Plaintext,
    Json,
}

/// Which set of HTML tag handlers converts a page to Markdown.
#[derive(Clone, Copy, Debug, PartialEq, Eq, Structural)]
pub enum HtmlHandlers {
    /// The generic handlers, with the one for Wikipedia's chrome, infoboxes and code.
    Wikipedia,
    /// The generic handlers, with the plain code handler.
    Generic,
}

/// What to do on confirming a fetch once the text has been stored.
#[derive(Clone, Copy, Debug, PartialEq, Eq, Structural)]
pub enum ConfirmBehavior {
    KeepOpen,
    Close,
}

/// The text of a fetched page, or what is still to be done to get it.
#[derive(Debug)]
pub enum FetchedMessage {
    /// The finished message.
    Text(String),
    /// The body is HTML: convert it to Markdown with these handlers.
    ConvertHtml(HtmlHandlers),
}

/// Why a fetched page could not be turned into a message.
#[derive(Debug)]
pub enum FetchError {
    /// The server answered with a client error (4xx); `body` is the
    /// response body read leniently as UTF-8.
    Status { code: u16, body: String },
    /// The response has no `Content-Type` header.
    MissingContentType,
    /// The `Content-Type` header holds a byte that is not visible ASCII.
    InvalidContentType,
    /// A plain-text body is not valid UTF-8.
    InvalidUtf8(core::str::Utf8Error),
    /// A JSON body could not be parsed or printed.
    Json(serde_json::Error),
}

pub open spec fn https_prefix() -> Seq<char> {
    "https://"@
}

pub open spec fn http_prefix() -> Seq<char> {
    "http://"@
}

/// A URL as it is fetched: one without an `https://` or `http://` scheme
/// gets `https://` in front.
pub open spec fn normalized_url(url: Seq<char>) -> Seq<char> {
    if has_prefix(url, https_prefix()) || has_prefix(url, http_prefix()) {
        url
    } else {
        https_prefix() + url
    }
}

/// HTTP status codes 400 to 499.
pub open spec fn is_client_error(code: u16) -> bool {
    400 <= code && code < 500
}

/// A byte that may stand in a header value read as text: visible ASCII or tab.
pub open spec fn is_visible_ascii(b: u8) -> bool {
    (32 <= b && b < 127) || b == 9
}

pub open spec fn all_visible_ascii(bytes: Seq<u8>) -> bool {
    forall|i: int| 0 <= i < bytes.len() ==> is_visible_ascii(#[trigger] bytes[i])
}

/// A header value of visible ASCII bytes, as characters.
pub open spec fn header_text(bytes: Seq<u8>) -> Seq<char> {
    bytes.map_values(|b: u8| b as char)
}

/// The content type named by a `Content-Type` value; anything unknown is HTML.
pub open spec fn content_type_of(text: Seq<char>) -> ContentType {
    if text == "text/plain"@ {
        ContentType::Plaintext
    } else if text == "application/json"@ {
        ContentType::Json
    } else {
        ContentType::Html
    }
}

/// The content type of a header value, or `None` where it is not text.
pub open spec fn header_content_type(value: Seq<u8>) -> Option<ContentType> {
    if all_visible_ascii(value) {
        Some(content_type_of(header_text(value)))
    } else {
        None
    }
}

pub open spec fn handlers_for(url: Seq<char>) -> HtmlHandlers {
    if occurs_in(url, "wikipedia.org"@) {
        HtmlHandlers::Wikipedia
    } else {
        HtmlHandlers::Generic
    }
}

/// Pretty-printed JSON as a fenced Markdown code block.
pub open spec fn json_block(pretty: Seq<char>) -> Seq<char> {
    "```json\n"@ + pretty + "\n```"@
}

/// Puts `https://` in front of a URL that has neither `https://` nor `http://`.
pub fn normalize_url(url: &str) -> (r: String)
    ensures
        r@ == normalized_url(url@),
{
    let chars = chars_of(url);
    let https = chars_of("https://");
    let http = chars_of("http://");
    if starts_with_chars(&chars, &https) || starts_with_chars(&chars, &http) {
        url.to_string()
    } else {
        let mut r = "https://".to_string();
        r.append(url);
        r
    }
}

/// Whether an HTTP status code is a client error (4xx).
pub fn status_is_client_error(code: u16) -> (r: bool)
    ensures
        r == is_client_error(code),
{
    400 <= code && code < 500
}

/// Reads a `Content-Type` value: `None` unless every byte is visible ASCII,
/// else the content type it names.
pub fn content_type_from_header(value: &[u8]) -> (r: Option<ContentType>)
    ensures
        r == header_content_type(value@),
{
    let mut text: Vec<char> = Vec::new();
    let mut i: usize = 0;
    while i < value.len()
        invariant
            i <= value.len(),
            text@ == header_text(value@.take(i as int)),
            all_visible_ascii(value@.take(i as int)),
        decreases value.len() - i,
    {
        let b = value[i];
        if !((32 <= b && b < 127) || b == 9) {
            assert(!is_visible_ascii(value@[i as int]));
            return None;
        }
        text.push(b as char);
        assert(value@.take(i + 1) =~= value@.take(i as int).push(b));
        assert(header_text(value@.take(i + 1)) =~= header_text(value@.take(i as int)).push(b as char));
        i += 1;
    }
    assert(value@.take(value.len() as int) =~= value@);
    let plain = chars_of("text/plain");
    let json = chars_of("application/json");
    if same_chars(&text, &plain) {
        Some(ContentType::Plaintext)
    } else if same_chars(&text, &json) {
        Some(ContentType::Json)
    } else {
        Some(ContentType::Html)
    }
}

/// The HTML handlers for a URL: Wikipedia's where it names `wikipedia.org`.
pub fn html_handlers_for(url: &str) -> (r: HtmlHandlers)
    ensures
        r == handlers_for(url@),
{
    let chars = chars_of(url);
    let wiki = chars_of("wikipedia.org");
    if contains_chars(&chars, &wiki) {
        HtmlHandlers::Wikipedia
    } else {
        HtmlHandlers::Generic
    }
}

/// Wraps pretty-printed JSON in a fenced Markdown code block.
pub fn json_code_block(pretty: &str) -> (r: String)
    ensures
        r@ == json_block(pretty@),
{
    let mut r = "```json\n".to_string();
    r.append(pretty);
    r.append("\n```");
    r
}

/// Parses a JSON body and prints it back, fenced as a Markdown code block.
pub fn json_message(body: &[u8]) -> (r: Result<String, FetchError>)
    ensures
        match pretty_json_text(body@) {
            Some(pretty) => r matches Ok(s) && s@ == json_block(pretty),
            None => r matches Err(FetchError::Json(_)),
        },
{
    match pretty_print_json(body) {
        Ok(pretty) => Ok(json_code_block(pretty.as_str())),
        Err(e) => Err(FetchError::Json(e)),
    }
}

/// Reads a plain-text body.
pub fn plaintext_message(body: &[u8]) -> (r: Result<String, FetchError>)
    ensures
        valid_utf8(body@) ==> (r matches Ok(s) && s@ == decode_utf8(body@)),
        !valid_utf8(body@) ==> r matches Err(FetchError::InvalidUtf8(_)),
{
    match utf8_text(body) {
        Ok(s) => Ok(s),
        Err(e) => Err(FetchError::InvalidUtf8(e)),
    }
}

/// Turns the answer to a fetch of `url` (already normalized) into a message:
/// a 4xx status, a missing or non-text `Content-Type` are errors; then the
/// body is read as HTML, plain text or JSON by its content type.
pub fn message_from_response(url: &str, status: u16, content_type: Option<&[u8]>, body: &[u8]) -> (r: Result<FetchedMessage, FetchError>)
    ensures
        is_client_error(status) ==> (r matches Err(FetchError::Status { code, body: text })
            && code == status && text@ == lossy_text(body@)),
        !is_client_error(status) && content_type is None ==> r matches Err(FetchError::MissingContentType),
        !is_client_error(status) ==> (content_type matches Some(v) ==> {
            match header_content_type(v@) {
                None => r matches Err(FetchError::InvalidContentType),
                Some(ContentType::Html) => (r matches Ok(FetchedMessage::ConvertHtml(h)) && h == handlers_for(url@)),
                Some(ContentType::Plaintext) => if valid_utf8(body@) {
                    (r matches Ok(FetchedMessage::Text(s)) && s@ == decode_utf8(body@))
                } else {
                    r matches Err(FetchError::InvalidUtf8(_))
                },
                Some(ContentType::Json) => match pretty_json_text(body@) {
                    Some(pretty) => r matches Ok(FetchedMessage::Text(s)) && s@ == json_block(pretty),
                    None => r matches Err(FetchError::Json(_)),
                },
            }
        }),
{
    if status_is_client_error(status) {
        return Err(FetchError::Status { code: status, body: utf8_text_lossy(body) });
    }
    let value = match content_type {
        Some(v) => v,
        None => return Err(FetchError::MissingContentType),
    };
    let kind = match content_type_from_header(value) {
        Some(k) => k,
        None => return Err(FetchError::InvalidContentType),
    };
    match kind {
        ContentType::Html => Ok(FetchedMessage::ConvertHtml(html_handlers_for(url))),
        ContentType::Plaintext => match plaintext_message(body) {
            Ok(s) => Ok(FetchedMessage::Text(s)),
            Err(e) => Err(e),
        },
        ContentType::Json => match json_message(body) {
            Ok(s) => Ok(FetchedMessage::Text(s)),
            Err(e) => Err(e),
        },
    }
}

/// The picker's model of a fetch: the URL typed so far, and what to do once
/// a fetch has been stored.
pub struct FetchContextPickerDelegate {
    confirm_behavior: ConfirmBehavior,
    url: String,
}

impl FetchContextPickerDelegate {
    /// The URL typed so far.
    pub closed spec fn url_text(&self) -> Seq<char> {
        self.url@
    }

    pub closed spec fn behavior(&self) -> ConfirmBehavior {
        self.confirm_behavior
    }

    pub fn new(confirm_behavior: ConfirmBehavior) -> (d: Self)
        ensures
            d.url_text() == Seq::<char>::empty(),
            d.behavior() == confirm_behavior,
    {
        FetchContextPickerDelegate { confirm_behavior, url: String::new() }
    }

    /// One match, the URL itself, once something has been typed.
    pub fn match_count(&self) -> (n: usize)
        ensures
            n == (if self.url_text().len() == 0 { 0usize } else { 1usize }),
    {
        if self.url.as_str().is_empty() {
            0
        } else {
            1
        }
    }

    pub fn selected_index(&self) -> (i: usize)
        ensures
            i == 0,
    {
        0
    }

    /// Takes the query as the URL to fetch.
    pub fn update_matches(&mut self, query: String)
        ensures
            final(self).url_text() == query@,
            final(self).behavior() == old(self).behavior(),
    {
        self.url = query;
    }

    pub fn url(&self) -> (url: &str)
        ensures
            url@ == self.url_text(),
    {
        self.url.as_str()
    }

    pub fn confirm_behavior(&self) -> (b: ConfirmBehavior)
        ensures
            b == self.behavior(),
    {
        self.confirm_behavior
    }

    /// Whether the picker is dismissed once a confirmed fetch has been stored.
    pub fn dismisses_after_confirm(&self) -> (r: bool)
        ensures
            r == (self.behavior() == ConfirmBehavior::Close),
    {
        match self.confirm_behavior {
            ConfirmBehavior::KeepOpen => false,
            ConfirmBehavior::Close => true,
        }
    }

    pub fn no_matches_text(&self) -> (s: String)
        ensures
            s@ == "Enter the URL that you would like to fetch"@,
    {
        "Enter the URL that you would like to fetch".to_string()
    }

    pub fn placeholder_text(&self) -> (s: String)
        ensures
            s@ == "Enter a URL\u{2026}"@,
    {
        "Enter a URL\u{2026}".to_string()
    }
}

/// A URL that already names `https://` or `http://` is fetched as it is.
pub proof fn law_schemed_url_unchanged(url: Seq<char>)
    requires
        has_prefix(url, https_prefix()) || has_prefix(url, http_prefix()),
    ensures
        normalized_url(url) == url,
{
}

/// Every normalized URL names a scheme, so normalizing twice changes nothing.
pub proof fn law_normalize_idempotent(url: Seq<char>)
    ensures
        has_prefix(normalized_url(url), https_prefix()) || has_prefix(normalized_url(url), http_prefix()),
        normalized_url(normalized_url(url)) == normalized_url(url),
{
    if !(has_prefix(url, https_prefix()) || has_prefix(url, http_prefix())) {
        let n = https_prefix() + url;
        assert(n.subrange(0, https_prefix().len() as int) =~= https_prefix());
    }
}

/// Only the exact value `application/json` is read as JSON and only the
/// exact value `text/plain` as plain text; every other text is HTML.
pub proof fn law_content_type_is_exact(text: Seq<char>)
    ensures
        content_type_of(text) == ContentType::Json <==> text == "application/json"@,
        content_type_of(text) == ContentType::Plaintext <==> text == "text/plain"@,
        content_type_of(text) == ContentType::Html <==> (text != "application/json"@ && text != "text/plain"@),
{
    reveal_strlit("application/json");
    reveal_strlit("text/plain");
    assert("application/json"@[0] != "text/plain"@[0]);
}

/// A header value of visible ASCII is read by its text alone: JSON exactly
/// for `application/json`, plain text exactly for `text/plain`, else HTML.
pub proof fn law_header_content_type(value: Seq<u8>)
    requires
        all_visible_ascii(value),
    ensures
        header_content_type(value) == Some(ContentType::Json) <==> header_text(value) == "application/json"@,
        header_content_type(value) == Some(ContentType::Plaintext) <==> header_text(value) == "text/plain"@,
        header_content_type(value) is Some,
{
    law_content_type_is_exact(header_text(value));
}

/// Every status from 400 to 499, and no other, is a client error.
pub proof fn law_client_errors_are_4xx(code: u16)
    ensures
        is_client_error(code) <==> (400 <= code && code <= 499),
{
}

} // verus!
