//! Translation between the caller's representation of a request or response
//! and the native one.
use vstd::prelude::*;
use vstd::string::*;
use crate::errors::{ErrorKind, TransportError};
use crate::extensions::{
    coerce, coerced, timeout_from_value, timeout_of, DynamicValue, ExtensionValue, Extensions,
    Scalar, TimeoutSetting,
};
use crate::native::{
    byte_text, header_entries, header_map_items, header_map_new, header_map_try_insert,
    header_name_from_str, header_value_bytes, header_value_from_str, header_value_to_str,
    is_header_name, is_header_value, is_method, is_visible_value, lowercase,
    lowercase_name_is_a_name, parsed_url, HttpMethod, RequestUrl, SURE_HEADERS,
};
use crate::ordered_map::{
    collect, keys_unique, last_value, lemma_collect_keeps_order, lemma_collect_last_wins,
    lemma_first_index, lemma_put_keeps_unique, lemma_put_members, lookup, put, OrderedMap,
};
use crate::response::{is_status, text_pairs_view, AbstractResponse, ResponseBody};
use reqwest::header::{HeaderMap, HeaderValue};
use vstd::utf8::encode_utf8;

verus! {

/// Reads the HTTP method of a request. The text is accepted exactly when it
/// is a method; any other text is a local protocol error that names it.
pub fn extract_method(method: &str) -> (parsed: Result<HttpMethod, TransportError>)
    ensures
        match parsed {
            Ok(accepted) => is_method(method@) && accepted@ == method@,
            Err(err) => !is_method(method@) && err@ == (
                ErrorKind::LocalProtocolError,
                "Invalid HTTP method: "@ + method@,
            ),
        },
{
    match HttpMethod::parse(method) {
        Some(accepted) => Ok(accepted),
        None => Err(
            TransportError::LocalProtocolError(
                String::from_str("Invalid HTTP method: ").concat(method),
            ),
        ),
    }
}

/// Reads the URL of a request. The text is accepted exactly when the URL
/// parser accepts it; its error is reported as an invalid URL.
pub fn extract_url(url: &str) -> (parsed: Result<RequestUrl, TransportError>)
    ensures
        match parsed {
            Ok(accepted) => parsed_url(url@) == Ok::<Seq<char>, Seq<char>>(accepted@),
            Err(err) => parsed_url(url@) is Err && err@ == (
                ErrorKind::InvalidURL,
                parsed_url(url@)->Err_0,
            ),
        },
{
    url_outcome(RequestUrl::parse(url))
}

/// What reading a URL comes to, given what the URL parser made of the text:
/// the URL it read is handed on, and the reason for which it read none is
/// reported as an invalid URL.
pub fn url_outcome(parsed: Result<RequestUrl, String>) -> (outcome: Result<
    RequestUrl,
    TransportError,
>)
    ensures
        match parsed {
            Ok(url) => outcome == Ok::<RequestUrl, TransportError>(url),
            Err(why) => outcome is Err && outcome->Err_0@ == (ErrorKind::InvalidURL, why@),
        },
{
    match parsed {
        Ok(accepted) => Ok(accepted),
        Err(why) => Err(TransportError::InvalidURL(why)),
    }
}

/// The extensions of a request, as the caller hands them over.
pub enum ExtensionsInput {
    /// No extensions were given.
    Absent,
    /// A mapping, as its pairs in the mapping's own order.
    Mapping(Vec<(String, DynamicValue)>),
    /// Something that is no mapping. It holds no extensions.
    Other,
}

/// The pairs that an extensions input holds, each value as it is coerced.
pub open spec fn coerced_pairs(input: ExtensionsInput) -> Seq<(Seq<char>, Scalar)> {
    match input {
        ExtensionsInput::Mapping(items) => Seq::new(
            items@.len(),
            |i: int| (items@[i].0@, coerced(items@[i].1)),
        ),
        _ => Seq::empty(),
    }
}

/// Reads the extensions of a request: each value is coerced to a scalar and
/// written under its key, in the order given. A key is never interpreted
/// here.
pub fn extract_extensions(input: &ExtensionsInput) -> (extensions: Extensions)
    ensures
        extensions@ == collect(coerced_pairs(*input)),
{
    let mut extensions: Extensions = OrderedMap::new();
    match input {
        ExtensionsInput::Mapping(items) => {
            let ghost pairs = coerced_pairs(*input);
            let count: usize = items.len();
            let mut at: usize = 0;
            while at < count
                invariant
                    count == items.len(),
                    at <= count,
                    pairs == coerced_pairs(*input),
                    *input == ExtensionsInput::Mapping(*items),
                    extensions@ == collect(pairs.take(at as int)),
                decreases count - at,
            {
                let key = items[at].0.clone();
                let value = coerce(&items[at].1);
                proof {
                    let next = pairs.take(at + 1);
                    assert(next.drop_last() =~= pairs.take(at as int));
                    assert(next.last() == pairs[at as int]);
                }
                extensions.insert(key, value);
                at += 1;
            }
            assert(pairs.take(count as int) =~= pairs);
        },
        _ => {},
    }
    extensions
}

/// The timeout that the extensions ask for: the value under `timeout`, where
/// it is a number greater than zero.
pub open spec fn requested_timeout(extensions: Seq<(Seq<char>, Scalar)>) -> Option<
    TimeoutSetting,
> {
    match lookup(extensions, "timeout"@) {
        Some(value) => timeout_of(value),
        None => None,
    }
}

/// The per-request timeout, if the extensions ask for one. Without one the
/// client's own timeout applies.
pub fn extract_timeout_from_extensions(extensions: &Extensions) -> (timeout: Option<
    TimeoutSetting,
>)
    ensures
        timeout == requested_timeout(extensions@),
{
    match extensions.get("timeout") {
        Some(value) => timeout_from_value(value),
        None => None,
    }
}

/// Streaming is asked for by the value `true` under `stream`, and by nothing
/// else.
pub open spec fn streaming_requested(extensions: Seq<(Seq<char>, Scalar)>) -> bool {
    lookup(extensions, "stream"@) == Some(Scalar::Bool(true))
}

/// Whether the extensions ask for a streamed response.
pub fn is_streaming_requested(extensions: &Extensions) -> (streaming: bool)
    ensures
        streaming == streaming_requested(extensions@),
{
    match extensions.get("stream") {
        Some(ExtensionValue::Bool(flag)) => *flag,
        _ => false,
    }
}

/// The headers of a request, as the caller hands them over.
pub enum HeaderInput {
    /// No headers were given.
    Absent,
    /// A mapping from name to value, as its pairs in the mapping's own order.
    Mapping(Vec<(String, String)>),
    /// A list of tuples, each of which should hold a name and a value.
    Pairs(Vec<Vec<String>>),
    /// Something that is neither. It holds no headers.
    Other,
}

/// The tuples that a header input holds. An entry of a mapping is a tuple of
/// two.
pub open spec fn header_items(input: HeaderInput) -> Seq<Seq<Seq<char>>> {
    match input {
        HeaderInput::Mapping(items) => Seq::new(
            items@.len(),
            |i: int| seq![items@[i].0@, items@[i].1@],
        ),
        HeaderInput::Pairs(items) => Seq::new(
            items@.len(),
            |i: int| Seq::new(items@[i]@.len(), |j: int| items@[i]@[j]@),
        ),
        _ => Seq::empty(),
    }
}

/// What can be wrong with one tuple of a header input.
pub enum HeaderFault {
    /// The tuple does not hold exactly two elements.
    Arity,
    /// The first element is no header name.
    Name,
    /// The second element is no header value.
    Value,
}

/// What is wrong with a tuple, if anything: its size is looked at first, then
/// the name, then the value.
pub open spec fn header_fault(item: Seq<Seq<char>>) -> Option<HeaderFault> {
    if item.len() != 2 {
        Some(HeaderFault::Arity)
    } else if !is_header_name(item[0]) {
        Some(HeaderFault::Name)
    } else if !is_header_value(item[1]) {
        Some(HeaderFault::Value)
    } else {
        None
    }
}

/// The error that reports a fault: a local protocol error in each case. A
/// name or a value that the HTTP stack refuses is reported with the stack's
/// own reason.
pub open spec fn fault_error(fault: HeaderFault) -> (ErrorKind, Seq<char>) {
    match fault {
        HeaderFault::Arity => (
            ErrorKind::LocalProtocolError,
            "Header tuples must have exactly 2 elements"@,
        ),
        HeaderFault::Name => (
            ErrorKind::LocalProtocolError,
            "Invalid header name: "@ + "invalid HTTP header name"@,
        ),
        HeaderFault::Value => (
            ErrorKind::LocalProtocolError,
            "Invalid header value: "@ + "failed to parse header value"@,
        ),
    }
}

/// The native header that a tuple without fault stands for: its name in lower
/// case and the bytes of its value.
pub open spec fn native_header(item: Seq<Seq<char>>) -> (Seq<char>, Seq<u8>) {
    (lowercase(item[0]), encode_utf8(item[1]))
}

/// The native headers of all tuples, one for one.
pub open spec fn native_headers(items: Seq<Seq<Seq<char>>>) -> Seq<(Seq<char>, Seq<u8>)> {
    Seq::new(items.len(), |i: int| native_header(items[i]))
}

/// No tuple has a fault.
pub open spec fn all_valid(items: Seq<Seq<Seq<char>>>) -> bool {
    forall|i: int| 0 <= i < items.len() ==> header_fault(#[trigger] items[i]) is None
}

/// Header translation: the tuples are taken in order, the first fault ends
/// the translation with its error, and each tuple without fault is written
/// into the header map.
pub open spec fn translated_headers(items: Seq<Seq<Seq<char>>>) -> Result<
    Seq<(Seq<char>, Seq<u8>)>,
    (ErrorKind, Seq<char>),
>
    decreases items.len(),
{
    if items.len() == 0 {
        Ok(Seq::empty())
    } else {
        match translated_headers(items.drop_last()) {
            Err(err) => Err(err),
            Ok(headers) => match header_fault(items.last()) {
                Some(fault) => Err(fault_error(fault)),
                None => Ok(
                    put(headers, native_header(items.last()).0, native_header(items.last()).1),
                ),
            },
        }
    }
}

/// The error that reports that the header map has refused a header: a local
/// protocol error with the map's own reason.
pub open spec fn refusal_error() -> (ErrorKind, Seq<char>) {
    (ErrorKind::LocalProtocolError, "Too many headers: "@ + "max size reached"@)
}

/// The header map has refused a tuple of the input: the tuples before it were
/// translated and left `SURE_HEADERS` names or more in the map, and the
/// tuple itself has no fault.
pub open spec fn map_refused(items: Seq<Seq<Seq<char>>>) -> bool {
    exists|upto: int|
        0 <= upto < items.len() && header_fault(items[upto]) is None && (#[trigger] translated_headers(
            items.take(upto),
        )) is Ok && translated_headers(items.take(upto))->Ok_0.len() >= SURE_HEADERS
}

/// Whether `err` may come of the headers of a request in place of their
/// translation: the error of the translation itself, or the refusal of the
/// header map.
pub open spec fn is_header_error(items: Seq<Seq<Seq<char>>>, err: (ErrorKind, Seq<char>)) -> bool {
    translated_headers(items) == Err::<Seq<(Seq<char>, Seq<u8>)>, (ErrorKind, Seq<char>)>(err) || (
    map_refused(items) && err == refusal_error())
}

/// Validates one name and one value and writes them into the map.
fn insert_header(headers: &mut HeaderMap, name: &str, value: &str) -> (done: Result<
    (),
    TransportError,
>)
    requires
        keys_unique(header_entries(*old(headers))),
    ensures
        match done {
            Ok(()) => header_fault(seq![name@, value@]) is None && header_entries(*final(headers))
                == put(header_entries(*old(headers)), lowercase(name@), encode_utf8(value@)),
            Err(err) => header_entries(*final(headers)) == header_entries(*old(headers)) && (
            if header_fault(seq![name@, value@]) is Some {
                err@ == fault_error(header_fault(seq![name@, value@])->0)
            } else {
                err@ == refusal_error() && header_entries(*old(headers)).len() >= SURE_HEADERS
            }),
        },
        keys_unique(header_entries(*final(headers))),
{
    let accepted_name = match header_name_from_str(name) {
        Ok(accepted) => accepted,
        Err(why) => {
            return Err(
                TransportError::LocalProtocolError(
                    String::from_str("Invalid header name: ").concat(why.as_str()),
                ),
            );
        },
    };
    let accepted_value = match header_value_from_str(value) {
        Ok(accepted) => accepted,
        Err(why) => {
            return Err(
                TransportError::LocalProtocolError(
                    String::from_str("Invalid header value: ").concat(why.as_str()),
                ),
            );
        },
    };
    proof {
        lemma_put_keeps_unique(
            header_entries(*headers),
            lowercase(name@),
            encode_utf8(value@),
        );
    }
    match header_map_try_insert(headers, accepted_name, accepted_value) {
        Ok(()) => Ok(()),
        Err(why) => Err(
            TransportError::LocalProtocolError(
                String::from_str("Too many headers: ").concat(why.as_str()),
            ),
        ),
    }
}

/// Builds the headers of a native request. Each name and each value is
/// validated on its own; a tuple of a list must hold exactly two elements; a
/// later header replaces an earlier one of the same name. The headers are
/// those of the translation wherever the header map takes them, which it
/// does for every input of up to `SURE_HEADERS` tuples; its refusal of a
/// further header is reported as a local protocol error.
pub fn extract_headers(input: &HeaderInput) -> (translated: Result<HeaderMap, TransportError>)
    ensures
        match translated {
            Ok(headers) => translated_headers(header_items(*input)) == Ok::<
                Seq<(Seq<char>, Seq<u8>)>,
                (ErrorKind, Seq<char>),
            >(header_entries(headers)),
            Err(err) => is_header_error(header_items(*input), err@),
        },
{
    let mut headers: HeaderMap = header_map_new();
    let ghost tuples = header_items(*input);
    match input {
        HeaderInput::Mapping(items) => {
            let count: usize = items.len();
            let mut at: usize = 0;
            while at < count
                invariant
                    count == items.len(),
                    at <= count,
                    tuples == header_items(*input),
                    *input == HeaderInput::Mapping(*items),
                    keys_unique(header_entries(headers)),
                    translated_headers(tuples.take(at as int)) == Ok::<
                        Seq<(Seq<char>, Seq<u8>)>,
                        (ErrorKind, Seq<char>),
                    >(header_entries(headers)),
                decreases count - at,
            {
                proof {
                    let next = tuples.take(at + 1);
                    assert(next.drop_last() =~= tuples.take(at as int));
                    assert(next.last() =~= seq![items@[at as int].0@, items@[at as int].1@]);
                    assert(tuples[at as int] == next.last());
                    lemma_translation_stops(tuples, at + 1);
                }
                match insert_header(&mut headers, items[at].0.as_str(), items[at].1.as_str()) {
                    Ok(()) => {},
                    Err(err) => {
                        return Err(err);
                    },
                }
                at += 1;
            }
            assert(tuples.take(count as int) =~= tuples);
        },
        HeaderInput::Pairs(items) => {
            let count: usize = items.len();
            let mut at: usize = 0;
            while at < count
                invariant
                    count == items.len(),
                    at <= count,
                    tuples == header_items(*input),
                    *input == HeaderInput::Pairs(*items),
                    keys_unique(header_entries(headers)),
                    translated_headers(tuples.take(at as int)) == Ok::<
                        Seq<(Seq<char>, Seq<u8>)>,
                        (ErrorKind, Seq<char>),
                    >(header_entries(headers)),
                decreases count - at,
            {
                let item = &items[at];
                proof {
                    let next = tuples.take(at + 1);
                    assert(next.drop_last() =~= tuples.take(at as int));
                    assert(next.last() == tuples[at as int]);
                    lemma_translation_stops(tuples, at + 1);
                }
                if item.len() != 2 {
                    return Err(
                        TransportError::LocalProtocolError(
                            String::from_str("Header tuples must have exactly 2 elements"),
                        ),
                    );
                }
                assert(tuples[at as int] =~= seq![item@[0]@, item@[1]@]);
                match insert_header(&mut headers, item[0].as_str(), item[1].as_str()) {
                    Ok(()) => {},
                    Err(err) => {
                        return Err(err);
                    },
                }
                at += 1;
            }
            assert(tuples.take(count as int) =~= tuples);
        },
        _ => {},
    }
    Ok(headers)
}

/// The translation of tuples leaves no more names in the map than there are
/// tuples.
pub proof fn translated_headers_are_no_more(items: Seq<Seq<Seq<char>>>)
    ensures
        translated_headers(items) matches Ok(headers) ==> headers.len() <= items.len(),
    decreases items.len(),
{
    if items.len() != 0 {
        translated_headers_are_no_more(items.drop_last());
        if translated_headers(items) is Ok {
            let before = translated_headers(items.drop_last())->Ok_0;
            lemma_first_index(before, native_header(items.last()).0);
        }
    }
}

/// The header map takes every input of up to `SURE_HEADERS` tuples: for such
/// an input the only error is that of the translation itself.
pub proof fn map_takes_sure_headers(items: Seq<Seq<Seq<char>>>)
    requires
        items.len() <= SURE_HEADERS,
    ensures
        !map_refused(items),
{
    assert forall|upto: int|
        0 <= upto < items.len() && (#[trigger] translated_headers(
            items.take(upto),
        )) is Ok implies translated_headers(items.take(upto))->Ok_0.len() < SURE_HEADERS by {
        translated_headers_are_no_more(items.take(upto));
    }
}

/// Once the translation of a prefix has failed, the translation of the whole
/// fails in the same way.
pub proof fn lemma_translation_stops(items: Seq<Seq<Seq<char>>>, upto: int)
    requires
        0 <= upto <= items.len(),
    ensures
        translated_headers(items.take(upto)) is Err ==> translated_headers(items)
            == translated_headers(items.take(upto)),
    decreases items.len() - upto,
{
    if upto < items.len() {
        let next = items.take(upto + 1);
        assert(next.drop_last() =~= items.take(upto));
        lemma_translation_stops(items, upto + 1);
    } else {
        assert(items.take(upto) =~= items);
    }
}

/// Header translation succeeds exactly when no tuple has a fault, and then
/// gives the map into which the native headers were written in order.
pub proof fn header_translation_succeeds(items: Seq<Seq<Seq<char>>>)
    ensures
        translated_headers(items) is Ok <==> all_valid(items),
        all_valid(items) ==> translated_headers(items) == Ok::<
            Seq<(Seq<char>, Seq<u8>)>,
            (ErrorKind, Seq<char>),
        >(collect(native_headers(items))),
    decreases items.len(),
{
    if items.len() != 0 {
        let front = items.drop_last();
        header_translation_succeeds(front);
        if all_valid(items) {
            assert forall|i: int| 0 <= i < front.len() implies header_fault(
                #[trigger] front[i],
            ) is None by {
                assert(front[i] == items[i]);
            }
            assert(header_fault(items[items.len() - 1]) is None);
            assert(native_headers(items).drop_last() =~= native_headers(front));
        }
        if translated_headers(items) is Ok {
            assert forall|i: int| 0 <= i < items.len() implies header_fault(
                #[trigger] items[i],
            ) is None by {
                if i < front.len() {
                    assert(front[i] == items[i]);
                }
            }
        }
    }
}

/// A header as a native request holds it: its name is a header name in lower
/// case, and its value is the bytes of a header value.
pub open spec fn is_native_header(header: (Seq<char>, Seq<u8>)) -> bool {
    &&& is_header_name(header.0)
    &&& lowercase(header.0) == header.0
    &&& exists|text: Seq<char>| is_header_value(text) && #[trigger] encode_utf8(text) == header.1
}

/// The headers that a translation gives are those of a native request: no
/// name occurs twice, each name is a header name in lower case, and each
/// value is the bytes of a header value.
pub proof fn translated_headers_are_native(items: Seq<Seq<Seq<char>>>)
    ensures
        translated_headers(items) matches Ok(headers) ==> keys_unique(headers) && forall|i: int|
            0 <= i < headers.len() ==> is_native_header(#[trigger] headers[i]),
    decreases items.len(),
{
    if items.len() != 0 {
        translated_headers_are_native(items.drop_last());
        if translated_headers(items) is Ok {
            let before = translated_headers(items.drop_last())->Ok_0;
            let written = native_header(items.last());
            let after = translated_headers(items)->Ok_0;
            lemma_put_keeps_unique(before, written.0, written.1);
            lemma_put_members(before, written.0, written.1);
            lowercase_name_is_a_name(items.last()[0]);
            assert(is_header_value(items.last()[1]));
            assert(is_native_header(written));
            assert forall|i: int| 0 <= i < after.len() implies is_native_header(
                #[trigger] after[i],
            ) by {
                if after[i] != written {
                    let at = choose|j: int| 0 <= j < before.len() && before[j] == after[i];
                    assert(is_native_header(before[at]));
                }
            }
        }
    }
}

/// The first fault decides: where a tuple has a fault and none before it has
/// one, the translation fails with the error of that fault.
pub proof fn header_translation_first_fault(items: Seq<Seq<Seq<char>>>, at: int)
    requires
        0 <= at < items.len(),
        header_fault(items[at]) is Some,
        all_valid(items.take(at)),
    ensures
        translated_headers(items) == Err::<Seq<(Seq<char>, Seq<u8>)>, (ErrorKind, Seq<char>)>(
            fault_error(header_fault(items[at])->0),
        ),
{
    let upto = items.take(at + 1);
    header_translation_succeeds(items.take(at));
    assert(upto.drop_last() =~= items.take(at));
    assert(upto.last() == items[at]);
    lemma_translation_stops(items, at + 1);
}

/// Header translation preserves order: where no tuple has a fault and the
/// names differ from one another once in lower case, the headers are the
/// tuples' native headers, one for one and in the order given.
pub proof fn header_translation_keeps_order(items: Seq<Seq<Seq<char>>>)
    requires
        all_valid(items),
        keys_unique(native_headers(items)),
    ensures
        translated_headers(items) == Ok::<Seq<(Seq<char>, Seq<u8>)>, (ErrorKind, Seq<char>)>(
            native_headers(items),
        ),
{
    header_translation_succeeds(items);
    lemma_collect_keeps_order(native_headers(items));
}

/// In header translation the last write wins: where no tuple has a fault,
/// each name holds the value of the last tuple that was given under it.
pub proof fn header_translation_last_wins(items: Seq<Seq<Seq<char>>>, name: Seq<char>)
    requires
        all_valid(items),
    ensures
        translated_headers(items) is Ok,
        lookup(translated_headers(items)->Ok_0, name) == last_value(native_headers(items), name),
{
    header_translation_succeeds(items);
    lemma_collect_last_wins(native_headers(items), name);
}

/// Every value is visible ASCII.
pub open spec fn all_visible(headers: Seq<(Seq<char>, Seq<u8>)>) -> bool {
    forall|i: int| 0 <= i < headers.len() ==> is_visible_value((#[trigger] headers[i]).1)
}

/// The headers of a response as pairs of texts: each name as it is, each
/// value as the text of its bytes, in the order given. A value with a byte
/// that is not visible ASCII is a remote protocol error with the reason of
/// the HTTP stack.
pub open spec fn converted_headers(headers: Seq<(Seq<char>, Seq<u8>)>) -> Result<
    Seq<(Seq<char>, Seq<char>)>,
    (ErrorKind, Seq<char>),
> {
    if all_visible(headers) {
        Ok(Seq::new(headers.len(), |i: int| (headers[i].0, byte_text(headers[i].1))))
    } else {
        Err(
            (
                ErrorKind::RemoteProtocolError,
                "Invalid header value: "@ + "failed to convert header to a str"@,
            ),
        )
    }
}

/// Converts the headers of a response to pairs of texts.
pub fn convert_headers_to_python(headers: &HeaderMap) -> (converted: Result<
    Vec<(String, String)>,
    TransportError,
>)
    ensures
        match converted {
            Ok(pairs) => converted_headers(header_entries(*headers)) == Ok::<
                Seq<(Seq<char>, Seq<char>)>,
                (ErrorKind, Seq<char>),
            >(text_pairs_view(pairs@)),
            Err(err) => converted_headers(header_entries(*headers)) == Err::<
                Seq<(Seq<char>, Seq<char>)>,
                (ErrorKind, Seq<char>),
            >(err@),
        },
{
    let ghost raw = header_entries(*headers);
    let items: Vec<(String, HeaderValue)> = header_map_items(headers);
    let mut pairs: Vec<(String, String)> = Vec::new();
    let count: usize = items.len();
    let mut at: usize = 0;
    while at < count
        invariant
            count == items.len(),
            count == raw.len(),
            raw == header_entries(*headers),
            at <= count,
            forall|i: int|
                0 <= i < count ==> (#[trigger] items@[i]).0@ == raw[i].0 && header_value_bytes(
                    items@[i].1,
                ) == raw[i].1,
            pairs@.len() == at,
            forall|i: int| 0 <= i < at ==> is_visible_value((#[trigger] raw[i]).1),
            forall|i: int|
                0 <= i < at ==> (#[trigger] pairs@[i]).0@ == raw[i].0 && pairs@[i].1@ == byte_text(
                    raw[i].1,
                ),
        decreases count - at,
    {
        assert(items@[at as int].0@ == raw[at as int].0);
        match header_value_to_str(&items[at].1) {
            Ok(value) => {
                let name = items[at].0.clone();
                pairs.push((name, value));
            },
            Err(why) => {
                assert(!is_visible_value(raw[at as int].1));
                return Err(
                    TransportError::RemoteProtocolError(
                        String::from_str("Invalid header value: ").concat(why.as_str()),
                    ),
                );
            },
        }
        at += 1;
    }
    assert(text_pairs_view(pairs@) =~= Seq::new(
        raw.len(),
        |i: int| (raw[i].0, byte_text(raw[i].1)),
    ));
    Ok(pairs)
}

/// The head of a response: its status code must be one of a response, and its
/// headers must convert. The status code is looked at first. The HTTP stack
/// can deliver codes up to 999; a code outside 100 to 599 is refused as a
/// remote protocol error, because no response holds one.
pub open spec fn response_head(status: u16, headers: Seq<(Seq<char>, Seq<u8>)>) -> Result<
    Seq<(Seq<char>, Seq<char>)>,
    (ErrorKind, Seq<char>),
> {
    if !is_status(status) {
        Err((ErrorKind::RemoteProtocolError, "Status code out of range"@))
    } else {
        converted_headers(headers)
    }
}

/// Builds the response that is handed back to the caller: the status, the
/// headers as pairs of texts, the body as it is given, and the extensions
/// (none where none are given). A status code outside 100 to 599 and a header
/// value that is not visible ASCII are remote protocol errors.
pub fn create_response_object(
    status: u16,
    headers: &HeaderMap,
    body: ResponseBody,
    extensions: Option<Extensions>,
) -> (built: Result<AbstractResponse, TransportError>)
    ensures
        match built {
            Ok(response) => response_head(status, header_entries(*headers)) == Ok::<
                Seq<(Seq<char>, Seq<char>)>,
                (ErrorKind, Seq<char>),
            >(response@.headers) && response.status == status && response.wf() && response.body
                == body && response@.extensions == match extensions {
                Some(given) => given@,
                None => Seq::empty(),
            },
            Err(err) => response_head(status, header_entries(*headers)) == Err::<
                Seq<(Seq<char>, Seq<char>)>,
                (ErrorKind, Seq<char>),
            >(err@),
        },
{
    if status < 100 || status > 599 {
        return Err(
            TransportError::RemoteProtocolError(String::from_str("Status code out of range")),
        );
    }
    let pairs = match convert_headers_to_python(headers) {
        Ok(pairs) => pairs,
        Err(err) => {
            return Err(err);
        },
    };
    let echoed = match extensions {
        Some(given) => given,
        None => OrderedMap::new(),
    };
    Ok(AbstractResponse { status, headers: pairs, body, extensions: echoed })
}

} // verus!
