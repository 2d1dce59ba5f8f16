//! The request headers of a download, and the `Range` header among them.

use crate::error::DownloadError;
use reqwest::header::{HeaderMap, HeaderValue, InvalidHeaderValue};
use vstd::prelude::*;
use vstd::string::*;

verus! {

/// The header collection of the `http` crate, opaque to the verifier.
#[verifier::external_type_specification]
#[verifier::external_body]
#[verifier::reject_recursive_types(T)]
pub struct ExHeaderMap<T>(HeaderMap<T>);

/// One header value of the `http` crate, opaque to the verifier.
#[verifier::external_type_specification]
#[verifier::external_body]
pub struct ExHeaderValue(HeaderValue);

/// The error of the `http` crate for a refused header value.
#[verifier::external_type_specification]
#[verifier::external_body]
pub struct ExInvalidHeaderValue(InvalidHeaderValue);

/// What a header map holds: for each header name, in lower case, the bytes of
/// its values in the order in which they are sent.
pub uninterp spec fn header_entries(headers: HeaderMap) -> Map<Seq<char>, Seq<Seq<u8>>>;

/// The contents of a header map without headers.
pub open spec fn no_headers() -> Map<Seq<char>, Seq<Seq<u8>>> {
    Map::empty()
}

/// The most header names a map may hold for one more to be inserted safely.
pub const MAX_HEADER_NAMES: usize = 6553;

/// The name under which a header map files the `Range` header.
pub open spec fn range_name() -> Seq<char> {
    seq!['r', 'a', 'n', 'g', 'e']
}

/// Whether a byte may stand in a header value: a tab, or anything from the
/// space upwards but the delete character.
pub open spec fn is_header_value_byte(b: u8) -> bool {
    (b >= 32 && b != 127) || b == 9
}

/// Whether every byte of `bytes` may stand in a header value.
pub open spec fn is_header_value(bytes: Seq<u8>) -> bool {
    forall|i: int| 0 <= i < bytes.len() ==> is_header_value_byte(#[trigger] bytes[i])
}

/// The character of a decimal digit.
pub open spec fn digit_char(d: int) -> char {
    if d == 0 {
        '0'
    } else if d == 1 {
        '1'
    } else if d == 2 {
        '2'
    } else if d == 3 {
        '3'
    } else if d == 4 {
        '4'
    } else if d == 5 {
        '5'
    } else if d == 6 {
        '6'
    } else if d == 7 {
        '7'
    } else if d == 8 {
        '8'
    } else {
        '9'
    }
}

/// The decimal numeral of `n`, without leading zeros.
pub open spec fn decimal(n: nat) -> Seq<char>
    decreases n,
{
    if n < 10 {
        seq![digit_char(n as int)]
    } else {
        decimal(n / 10).push(digit_char((n % 10) as int))
    }
}

/// The value of the `Range` header that asks for everything from byte
/// `offset` on: `bytes=`, the offset in decimal, and a hyphen.
pub open spec fn range_value(offset: nat) -> Seq<char> {
    seq!['b', 'y', 't', 'e', 's', '='] + decimal(offset) + seq!['-']
}

/// The bytes of a text of ASCII characters.
pub open spec fn ascii_bytes(text: Seq<char>) -> Seq<u8> {
    Seq::new(text.len(), |i: int| text[i] as u8)
}

/// The headers that go out with a request for everything from byte `offset`
/// on: the caller's headers, with the `Range` header set to that one value.
pub open spec fn with_range(
    base: Map<Seq<char>, Seq<Seq<u8>>>,
    offset: nat,
) -> Map<Seq<char>, Seq<Seq<u8>>> {
    base.insert(range_name(), seq![ascii_bytes(range_value(offset))])
}

/// `HeaderMap::new` of the `http` crate: a map that holds no header.
#[verifier::external_body]
pub(crate) fn new_header_map() -> (r: HeaderMap)
    ensures
        header_entries(r) == no_headers(),
{
    HeaderMap::new()
}

/// `HeaderMap::keys_len` of the `http` crate: the number of distinct header
/// names in the map.
#[verifier::external_body]
pub(crate) fn header_names_len(headers: &HeaderMap) -> (r: usize)
    ensures
        r == header_entries(*headers).dom().len(),
{
    headers.keys_len()
}

/// `HeaderValue::from_str` and `HeaderMap::insert` of the `http` crate, for
/// the `Range` header. The value is refused, and the map left as it was, where
/// one of its bytes may not stand in a header value. Otherwise the map files
/// the value under `range` in place of whatever stood there, and keeps every
/// other header. The map must hold few enough names: `insert` makes room
/// first and panics where the table cannot grow, which takes at least a fifth
/// of its 32768 slots in use.
#[verifier::external_body]
pub(crate) fn insert_range(headers: &mut HeaderMap, value: &str) -> (r: Result<
    (),
    InvalidHeaderValue,
>)
    requires
        header_entries(*old(headers)).dom().len() <= MAX_HEADER_NAMES,
    ensures
        r is Ok <==> is_header_value(value.spec_bytes()),
        r is Ok ==> header_entries(*final(headers)) == header_entries(*old(headers)).insert(
            range_name(),
            seq![value.spec_bytes()],
        ),
        r is Err ==> header_entries(*final(headers)) == header_entries(*old(headers)),
{
    let value = HeaderValue::from_str(value)?;
    headers.insert(reqwest::header::RANGE, value);
    Ok(())
}

/// The text of one decimal digit.
fn digit_text(d: u64) -> (r: &'static str)
    requires
        d < 10,
    ensures
        r@ == seq![digit_char(d as int)],
{
    proof {
        reveal_strlit("0");
        reveal_strlit("1");
        reveal_strlit("2");
        reveal_strlit("3");
        reveal_strlit("4");
        reveal_strlit("5");
        reveal_strlit("6");
        reveal_strlit("7");
        reveal_strlit("8");
        reveal_strlit("9");
    }
    let r = if d == 0 {
        "0"
    } else if d == 1 {
        "1"
    } else if d == 2 {
        "2"
    } else if d == 3 {
        "3"
    } else if d == 4 {
        "4"
    } else if d == 5 {
        "5"
    } else if d == 6 {
        "6"
    } else if d == 7 {
        "7"
    } else if d == 8 {
        "8"
    } else {
        "9"
    };
    assert(r@ =~= seq![digit_char(d as int)]);
    r
}

/// Appends the decimal numeral of `n` to `text`.
pub fn push_decimal(text: &mut String, n: u64)
    ensures
        final(text)@ == old(text)@ + decimal(n as nat),
    decreases n,
{
    if n >= 10 {
        push_decimal(text, n / 10);
    }
    text.append(digit_text(n % 10));
    assert(text@ =~= old(text)@ + decimal(n as nat));
}

/// The value of the `Range` header that resumes a download at byte `offset`.
pub fn range_header_value(offset: u64) -> (r: String)
    ensures
        r@ == range_value(offset as nat),
{
    let mut text = String::from_str("bytes=");
    proof {
        reveal_strlit("bytes=");
        reveal_strlit("-");
    }
    push_decimal(&mut text, offset);
    text.append("-");
    assert(text@ =~= range_value(offset as nat));
    text
}

/// Whether every character of `text` is a printable ASCII character.
pub open spec fn is_printable_ascii(text: Seq<char>) -> bool {
    forall|i: int| 0 <= i < text.len() ==> ' ' <= #[trigger] text[i] <= '~'
}

/// A decimal numeral is made of printable ASCII characters.
pub proof fn lemma_decimal_printable(n: nat)
    ensures
        is_printable_ascii(decimal(n)),
        decimal(n).len() >= 1,
    decreases n,
{
    if n >= 10 {
        lemma_decimal_printable(n / 10);
    }
}

/// The value of a `Range` header is printable ASCII, so its bytes are its
/// characters one by one, and each may stand in a header value.
pub proof fn lemma_range_value_bytes(offset: nat)
    ensures
        is_printable_ascii(range_value(offset)),
        vstd::utf8::encode_utf8(range_value(offset)) == ascii_bytes(range_value(offset)),
        is_header_value(ascii_bytes(range_value(offset))),
{
    let text = range_value(offset);
    lemma_decimal_printable(offset);
    assert(is_printable_ascii(text));
    assert(vstd::utf8::is_ascii_chars(text));
    vstd::utf8::is_ascii_chars_encode_utf8(text);
    assert(vstd::utf8::encode_utf8(text) =~= ascii_bytes(text));
    assert forall|i: int| 0 <= i < text.len() implies is_header_value_byte(
        #[trigger] ascii_bytes(text)[i],
    ) by {
        assert(' ' <= text[i] <= '~');
    }
}

/// What the caller's headers hold, where there are any.
pub open spec fn base_entries(base: Option<HeaderMap>) -> Map<Seq<char>, Seq<Seq<u8>>> {
    match base {
        Some(headers) => header_entries(headers),
        None => no_headers(),
    }
}

/// Whether the caller's headers leave room for the `Range` header.
pub open spec fn leaves_room(entries: Map<Seq<char>, Seq<Seq<u8>>>) -> bool {
    entries.dom().len() <= MAX_HEADER_NAMES
}

/// The headers of a request that resumes at byte `offset`: those of the
/// caller, with the `Range` header set to `bytes=`, the offset and a hyphen. A
/// `Range` header of the caller's gives way to it.
///
/// Fails with `TooManyHeaders`, and only so, where the caller's headers hold
/// more than `MAX_HEADER_NAMES` names.
pub fn request_headers(base: Option<HeaderMap>, offset: u64) -> (r: Result<
    HeaderMap,
    DownloadError,
>)
    ensures
        r is Ok <==> leaves_room(base_entries(base)),
        r matches Ok(headers) ==> header_entries(headers) == with_range(
            base_entries(base),
            offset as nat,
        ),
        r matches Err(e) ==> e is TooManyHeaders,
{
    let mut headers = match base {
        Some(headers) => headers,
        None => {
            let headers = new_header_map();
            proof {
                assert(no_headers().dom() =~= Set::<Seq<char>>::empty());
            }
            headers
        },
    };
    if header_names_len(&headers) > MAX_HEADER_NAMES {
        return Err(DownloadError::TooManyHeaders);
    }
    let value = range_header_value(offset);
    proof {
        lemma_range_value_bytes(offset as nat);
    }
    match insert_range(&mut headers, value.as_str()) {
        Ok(()) => Ok(headers),
        Err(e) => Err(DownloadError::InvalidHeaderValue(e)),
    }
}

} // verus!
