//! The parts of a native request that the HTTP stack validates: the method,
//! the URL, and the names and values of headers.
//!
//! The HTTP stack does the validating. What it accepts is stated here over
//! the characters of the text, so that the functions that call it can say when
//! they succeed.
use vstd::prelude::*;
use vstd::string::*;
use std::str::FromStr;
use reqwest::header::{HeaderMap, HeaderName, HeaderValue};
use crate::ordered_map::{keys_unique, put};

verus! {

/// The characters of an HTTP method: `!`, `*`, `+`, `-`, `.`, digits, letters,
/// `^`, `_`, `` ` ``, `|` and `~`.
pub open spec fn is_method_char(c: char) -> bool {
    let code = c as u32;
    ||| code == 33
    ||| code == 42
    ||| code == 43
    ||| code == 45
    ||| code == 46
    ||| 48 <= code <= 57
    ||| 65 <= code <= 90
    ||| 94 <= code <= 122
    ||| code == 124
    ||| code == 126
}

/// A method is one or more method characters.
pub open spec fn is_method(text: Seq<char>) -> bool {
    &&& text.len() >= 1
    &&& forall|i: int| 0 <= i < text.len() ==> is_method_char(#[trigger] text[i])
}

/// The characters of a header name: those of a method and `"`, `#`, `$`, `%`,
/// `&`, `'`.
pub open spec fn is_header_name_char(c: char) -> bool {
    let code = c as u32;
    ||| 33 <= code <= 39
    ||| code == 42
    ||| code == 43
    ||| code == 45
    ||| code == 46
    ||| 48 <= code <= 57
    ||| 65 <= code <= 90
    ||| 94 <= code <= 122
    ||| code == 124
    ||| code == 126
}

/// The longest header name, in characters.
pub const MAX_HEADER_NAME_LEN: usize = 65535;

/// A header name is between one and `MAX_HEADER_NAME_LEN` header-name
/// characters.
pub open spec fn is_header_name(text: Seq<char>) -> bool {
    &&& 1 <= text.len() <= MAX_HEADER_NAME_LEN
    &&& forall|i: int| 0 <= i < text.len() ==> is_header_name_char(#[trigger] text[i])
}

/// The lower-case form of an ASCII letter; any other character is itself.
pub open spec fn lower_char(c: char) -> char {
    if 65 <= c as u32 <= 90 {
        ((c as u32 + 32) as u8) as char
    } else {
        c
    }
}

/// The text with each ASCII capital replaced by its small letter.
pub open spec fn lowercase(text: Seq<char>) -> Seq<char> {
    Seq::new(text.len(), |i: int| lower_char(text[i]))
}

/// The lower-case form of a header name is a header name, and it is its own
/// lower-case form.
pub proof fn lowercase_name_is_a_name(text: Seq<char>)
    requires
        is_header_name(text),
    ensures
        is_header_name(lowercase(text)),
        lowercase(lowercase(text)) == lowercase(text),
{
    let lower = lowercase(text);
    assert forall|i: int| 0 <= i < lower.len() implies is_header_name_char(
        #[trigger] lower[i],
    ) && lower_char(lower[i]) == lower[i] by {
        assert(is_header_name_char(text[i]));
        let code = text[i] as u32;
        if 65 <= code <= 90 {
            assert(lower[i] as u32 == code + 32);
        }
    }
    assert(lowercase(lower) =~= lower);
}

/// The characters of a header value: the tab, and every character from the
/// space on but the delete character.
pub open spec fn is_header_value_char(c: char) -> bool {
    let code = c as u32;
    code == 9 || (code >= 32 && code != 127)
}

/// A header value is any number of header-value characters.
pub open spec fn is_header_value(text: Seq<char>) -> bool {
    forall|i: int| 0 <= i < text.len() ==> is_header_value_char(#[trigger] text[i])
}

/// `http::Method::from_str`, with the accepted method handed back as text.
/// The method is accepted exactly when the text is one or more method
/// characters, and its text is then the text that was given. (The crate
/// looks each byte of the text up in its table of method characters, which
/// admits no byte above 127; so a text passes exactly when each of its
/// characters is in that table.)
#[verifier::external_body]
pub(crate) fn method_from_str(text: &str) -> (method: Option<String>)
    ensures
        method is Some <==> is_method(text@),
        method is Some ==> method->0@ == text@,
{
    match reqwest::Method::from_str(text) {
        Ok(method) => Some(method.as_str().to_owned()),
        Err(_) => None,
    }
}

/// What `url::Url::parse` makes of a text: the serialization of the URL it
/// reads, or the text of the reason for which it reads none.
pub uninterp spec fn parsed_url(text: Seq<char>) -> Result<Seq<char>, Seq<char>>;

/// `url::Url::parse`, with the URL handed back as its serialization and the
/// error as its text. Both depend on the text alone.
#[verifier::external_body]
pub(crate) fn url_parse(text: &str) -> (parsed: Result<String, String>)
    ensures
        match parsed {
            Ok(url) => parsed_url(text@) == Ok::<Seq<char>, Seq<char>>(url@),
            Err(why) => parsed_url(text@) == Err::<Seq<char>, Seq<char>>(why@),
        },
{
    match reqwest::Url::parse(text) {
        Ok(url) => Ok(String::from(url)),
        Err(why) => Err(why.to_string()),
    }
}

/// `http::header::HeaderName`, a validated header name.
#[verifier::external_type_specification]
#[verifier::external_body]
pub struct ExHeaderName(HeaderName);

/// `http::header::HeaderValue`, a validated header value.
#[verifier::external_type_specification]
#[verifier::external_body]
pub struct ExHeaderValue(HeaderValue);

/// `http::header::HeaderMap`, the header map of the HTTP stack.
#[verifier::external_type_specification]
#[verifier::external_body]
#[verifier::reject_recursive_types(T)]
pub struct ExHeaderMap<T>(HeaderMap<T>);

/// The text of a header name, as `HeaderName::as_str` gives it.
pub uninterp spec fn header_name_text(name: HeaderName) -> Seq<char>;

/// The bytes of a header value, as `HeaderValue::as_bytes` gives them.
pub uninterp spec fn header_value_bytes(value: HeaderValue) -> Seq<u8>;

/// What a header map holds: each name beside the bytes of each of its values,
/// in the order in which `HeaderMap::iter` yields them.
pub uninterp spec fn header_entries(map: HeaderMap) -> Seq<(Seq<char>, Seq<u8>)>;

/// The bytes that are visible ASCII: the tab, and the bytes from the space up
/// to the tilde.
pub open spec fn is_visible_ascii(byte: u8) -> bool {
    (32 <= byte < 127) || byte == 9
}

/// Every byte of the value is visible ASCII.
pub open spec fn is_visible_value(value: Seq<u8>) -> bool {
    forall|i: int| 0 <= i < value.len() ==> is_visible_ascii(#[trigger] value[i])
}

/// The text whose characters are the given bytes, one for one.
pub open spec fn byte_text(bytes: Seq<u8>) -> Seq<char> {
    Seq::new(bytes.len(), |i: int| bytes[i] as char)
}

/// A header map that holds fewer names than this takes one more without
/// fail.
pub const SURE_HEADERS: usize = 6554;

/// `http::header::HeaderName::from_str`. The name is accepted exactly when
/// the text is a header name, and it is then the text in lower case; the
/// error is handed back as the text that its `Display` writes. (The crate
/// takes between 1 and 65535 bytes and maps each through its table of header
/// characters, which admits no byte above 127 and maps capitals to small
/// letters; so a text passes exactly when each of its characters is in that
/// table, and it then has as many characters as bytes.)
#[verifier::external_body]
pub(crate) fn header_name_from_str(text: &str) -> (parsed: Result<HeaderName, String>)
    ensures
        match parsed {
            Ok(name) => is_header_name(text@) && header_name_text(name) == lowercase(text@),
            Err(why) => !is_header_name(text@) && why@ == "invalid HTTP header name"@,
        },
{
    HeaderName::from_str(text).map_err(|why| why.to_string())
}

/// `http::header::HeaderValue::from_str`. The value is accepted exactly when
/// every character of the text is a header-value character, and its bytes are
/// then those of the text; the error is handed back as the text that its
/// `Display` writes. (The crate refuses the bytes below 32 other than the
/// tab, and the byte 127. A character beyond ASCII is made of bytes from 128
/// on, which all pass; so the rule on bytes is the same rule on characters.)
#[verifier::external_body]
pub(crate) fn header_value_from_str(text: &str) -> (parsed: Result<HeaderValue, String>)
    ensures
        match parsed {
            Ok(value) => is_header_value(text@) && header_value_bytes(value) == text.spec_bytes(),
            Err(why) => !is_header_value(text@) && why@ == "failed to parse header value"@,
        },
{
    HeaderValue::from_str(text).map_err(|why| why.to_string())
}

/// `http::header::HeaderValue::to_str`. The value is given as text exactly
/// when each of its bytes is visible ASCII, and the text is then made of
/// those bytes; the error is handed back as the text that its `Display`
/// writes.
#[verifier::external_body]
pub(crate) fn header_value_to_str(value: &HeaderValue) -> (text: Result<String, String>)
    ensures
        match text {
            Ok(visible) => is_visible_value(header_value_bytes(*value)) && visible@ == byte_text(
                header_value_bytes(*value),
            ),
            Err(why) => !is_visible_value(header_value_bytes(*value)) && why@
                == "failed to convert header to a str"@,
        },
{
    match value.to_str() {
        Ok(visible) => Ok(visible.to_owned()),
        Err(why) => Err(why.to_string()),
    }
}

/// `http::header::HeaderMap::new`: a map that holds nothing.
#[verifier::external_body]
pub(crate) fn header_map_new() -> (map: HeaderMap)
    ensures
        header_entries(map) == Seq::<(Seq<char>, Seq<u8>)>::empty(),
{
    HeaderMap::new()
}

/// `http::header::HeaderMap::try_insert`, on a map in which no name occurs
/// twice. Where the map takes the pair, the value of a name that is present
/// is replaced in place, and a pair under a new name is appended. Where it
/// refuses, the map holds what it held, and the refusal is handed back as the
/// text that its `Display` writes. (The crate refuses only where its table
/// would have to grow past 32768 slots or to hold more than 32768 names. It
/// asks for a larger table only with a fifth of the slots or more in use,
/// that is with no fewer than `SURE_HEADERS` names in 32768 slots.)
#[verifier::external_body]
pub(crate) fn header_map_try_insert(map: &mut HeaderMap, name: HeaderName, value: HeaderValue) -> (taken:
    Result<(), String>)
    requires
        keys_unique(header_entries(*old(map))),
    ensures
        match taken {
            Ok(()) => header_entries(*final(map)) == put(
                header_entries(*old(map)),
                header_name_text(name),
                header_value_bytes(value),
            ),
            Err(why) => header_entries(*final(map)) == header_entries(*old(map))
                && header_entries(*old(map)).len() >= SURE_HEADERS && why@ == "max size reached"@,
        },
{
    match map.try_insert(name, value) {
        Ok(_) => Ok(()),
        Err(why) => Err(why.to_string()),
    }
}

/// `http::header::HeaderMap::iter`, with each pair handed out as the text of
/// its name and a copy of its value, in the order of the iteration.
#[verifier::external_body]
pub(crate) fn header_map_items(map: &HeaderMap) -> (items: Vec<(String, HeaderValue)>)
    ensures
        items@.len() == header_entries(*map).len(),
        forall|i: int|
            0 <= i < items@.len() ==> (#[trigger] items@[i]).0@ == header_entries(*map)[i].0
                && header_value_bytes(items@[i].1) == header_entries(*map)[i].1,
{
    map.iter().map(|(name, value)| (name.as_str().to_owned(), value.clone())).collect()
}

/// A validated HTTP method.
pub struct HttpMethod {
    text: String,
}

impl View for HttpMethod {
    type V = Seq<char>;

    closed spec fn view(&self) -> Seq<char> {
        self.text@
    }
}

impl HttpMethod {
    #[verifier::type_invariant]
    spec fn valid(&self) -> bool {
        is_method(self.text@)
    }

    /// Reads a method. The text is accepted exactly when it is a method, and
    /// the method is then that text.
    pub fn parse(text: &str) -> (method: Option<HttpMethod>)
        ensures
            method is Some <==> is_method(text@),
            method is Some ==> method->0@ == text@,
    {
        match method_from_str(text) {
            Some(accepted) => Some(HttpMethod { text: accepted }),
            None => None,
        }
    }

    /// The method's text, which is a method.
    pub fn as_str(&self) -> (text: &str)
        ensures
            text@ == self@,
            is_method(self@),
    {
        proof {
            use_type_invariant(self);
        }
        self.text.as_str()
    }
}

/// Whether `text` is the serialization of a URL: what parsing some text gives.
pub open spec fn is_serialized_url(text: Seq<char>) -> bool {
    exists|source: Seq<char>| #[trigger] parsed_url(source) == Ok::<Seq<char>, Seq<char>>(text)
}

/// A parsed URL, held as its serialization.
pub struct RequestUrl {
    text: String,
}

impl View for RequestUrl {
    type V = Seq<char>;

    closed spec fn view(&self) -> Seq<char> {
        self.text@
    }
}

impl RequestUrl {
    #[verifier::type_invariant]
    spec fn valid(&self) -> bool {
        is_serialized_url(self.text@)
    }

    /// Parses a URL. The outcome is that of the URL parser: its URL, or the
    /// text of its error.
    pub fn parse(text: &str) -> (parsed: Result<RequestUrl, String>)
        ensures
            match parsed {
                Ok(url) => parsed_url(text@) == Ok::<Seq<char>, Seq<char>>(url@),
                Err(why) => parsed_url(text@) == Err::<Seq<char>, Seq<char>>(why@),
            },
    {
        match url_parse(text) {
            Ok(serialization) => Ok(RequestUrl { text: serialization }),
            Err(why) => Err(why),
        }
    }

    /// The URL's serialization.
    pub fn as_str(&self) -> (text: &str)
        ensures
            text@ == self@,
            is_serialized_url(self@),
    {
        proof {
            use_type_invariant(self);
        }
        self.text.as_str()
    }
}

} // verus!
