//! The calls that leave this crate. Each function here wraps one function of
//! another crate; Verus takes its contract on trust and does not read its
//! body. A contract states what the call returns where that can be said in
//! a few lines. What takes a book to say, the parsing of a URL and the
//! upper case of Unicode, has a name instead, a spec function without a
//! body, so that callers can speak of it.

use base64::Engine;
use vstd::arithmetic::power::pow;
use vstd::prelude::*;
use vstd::string::*;
use vstd::utf8::encode_utf8;

verus! {

/// The alphabet of standard base64, from the digit 0 to the digit 63.
pub open spec fn base64_alphabet() -> Seq<char> {
    seq![
        'A', 'B', 'C', 'D', 'E', 'F', 'G', 'H', 'I', 'J', 'K', 'L', 'M', 'N', 'O', 'P',
        'Q', 'R', 'S', 'T', 'U', 'V', 'W', 'X', 'Y', 'Z', 'a', 'b', 'c', 'd', 'e', 'f',
        'g', 'h', 'i', 'j', 'k', 'l', 'm', 'n', 'o', 'p', 'q', 'r', 's', 't', 'u', 'v',
        'w', 'x', 'y', 'z', '0', '1', '2', '3', '4', '5', '6', '7', '8', '9', '+', '/',
    ]
}

/// The standard base64 text, with padding, of a byte string: four digits
/// of six bits for every three bytes, and `=` in place of the digits that
/// the last bytes do not reach.
pub open spec fn base64_standard(bytes: Seq<u8>) -> Seq<char>
    decreases bytes.len(),
{
    let digit = base64_alphabet();
    if bytes.len() == 0 {
        Seq::empty()
    } else if bytes.len() == 1 {
        seq![digit[bytes[0] as int / 4], digit[(bytes[0] as int % 4) * 16], '=', '=']
    } else if bytes.len() == 2 {
        seq![
            digit[bytes[0] as int / 4],
            digit[(bytes[0] as int % 4) * 16 + bytes[1] as int / 16],
            digit[(bytes[1] as int % 16) * 4],
            '=',
        ]
    } else {
        seq![
            digit[bytes[0] as int / 4],
            digit[(bytes[0] as int % 4) * 16 + bytes[1] as int / 16],
            digit[(bytes[1] as int % 16) * 4 + bytes[2] as int / 64],
            digit[bytes[2] as int % 64],
        ] + base64_standard(bytes.skip(3))
    }
}

/// What stands for a character inside a JSON string literal: the
/// character itself, but for the quote, the backslash and the control
/// characters below the space, which are escaped.
pub open spec fn json_escape(c: char) -> Seq<char> {
    let n = c as int;
    if c == '"' {
        seq!['\\', '"']
    } else if c == '\\' {
        seq!['\\', '\\']
    } else if n == 8 {
        seq!['\\', 'b']
    } else if n == 9 {
        seq!['\\', 't']
    } else if n == 10 {
        seq!['\\', 'n']
    } else if n == 12 {
        seq!['\\', 'f']
    } else if n == 13 {
        seq!['\\', 'r']
    } else if 0 <= n < 32 {
        seq!['\\', 'u', '0', '0', hex_digits()[n / 16], hex_digits()[n % 16]]
    } else {
        seq![c]
    }
}

/// A text with each of its characters as it stands inside a JSON string
/// literal.
pub open spec fn json_escaped(s: Seq<char>) -> Seq<char>
    decreases s.len(),
{
    if s.len() == 0 {
        Seq::empty()
    } else {
        json_escaped(s.drop_last()) + json_escape(s.last())
    }
}

/// The JSON string literal for a text: the escaped text between quotes.
pub open spec fn json_string(s: Seq<char>) -> Seq<char> {
    seq!['"'] + json_escaped(s) + seq!['"']
}

/// The sixteen hexadecimal digits, in lower case.
pub open spec fn hex_digits() -> Seq<char> {
    seq!['0', '1', '2', '3', '4', '5', '6', '7', '8', '9', 'a', 'b', 'c', 'd', 'e', 'f']
}

/// The `k`-th of the 32 hexadecimal digits of `id`, counted from the most
/// significant one.
pub open spec fn hex_digit_at(id: u128, k: int) -> char {
    hex_digits()[(id as int / pow(16, (31 - k) as nat)) % 16]
}

/// How many hyphens stand before the `i`-th character of a hyphenated
/// identifier.
pub open spec fn hyphens_before(i: int) -> int {
    if i < 8 {
        0
    } else if i < 13 {
        1
    } else if i < 18 {
        2
    } else if i < 23 {
        3
    } else {
        4
    }
}

/// The hyphenated lower-case text of a 128-bit identifier: its 32
/// hexadecimal digits in groups of 8, 4, 4, 4 and 12, with a hyphen
/// between the groups.
pub open spec fn uuid_hyphenated(id: u128) -> Seq<char> {
    Seq::new(
        36,
        |i: int|
            if i == 8 || i == 13 || i == 18 || i == 23 {
                '-'
            } else {
                hex_digit_at(id, i - hyphens_before(i))
            },
    )
}

/// Whether a text parses as an absolute URL.
pub uninterp spec fn is_absolute_url(s: Seq<char>) -> bool;

/// Whether a byte may stand in the name of an HTTP header: a letter, a
/// digit, or one of the marks ``!#$%&'*+-.^_`|~``.
pub open spec fn is_header_name_byte(b: u8) -> bool {
    ||| b == 33
    ||| 35 <= b <= 39
    ||| b == 42
    ||| b == 43
    ||| b == 45
    ||| b == 46
    ||| 48 <= b <= 57
    ||| 65 <= b <= 90
    ||| 94 <= b <= 122
    ||| b == 124
    ||| b == 126
}

/// Whether a byte string is the name of an HTTP header: it is not empty,
/// it has fewer than 65536 bytes, and each of its bytes may stand in a
/// name.
pub open spec fn is_header_name(bytes: Seq<u8>) -> bool {
    &&& 1 <= bytes.len() <= 65535
    &&& forall|i: int| 0 <= i < bytes.len() ==> is_header_name_byte(#[trigger] bytes[i])
}

/// The upper-case form of a text.
pub uninterp spec fn uppercased(s: Seq<char>) -> Seq<char>;

/// Whether a byte may stand in the value of an HTTP header: a tab, or
/// anything from the space on but the delete character.
pub open spec fn is_header_value_byte(b: u8) -> bool {
    (b >= 32 && b != 127) || b == 9
}

/// Whether a byte string is the value of an HTTP header.
pub open spec fn is_header_value(bytes: Seq<u8>) -> bool {
    forall|i: int| 0 <= i < bytes.len() ==> is_header_value_byte(#[trigger] bytes[i])
}

/// `Engine::encode` of base64's `STANDARD` engine: the base64 text of the
/// bytes, in the standard alphabet and with padding. The call panics
/// where the encoded length does not fit a `usize`, which the precondition
/// leaves out.
#[verifier::external_body]
pub(crate) fn base64_encode(bytes: &[u8]) -> (r: String)
    requires
        bytes@.len() / 3 * 4 + 4 <= usize::MAX,
    ensures
        r@ == base64_standard(bytes@),
{
    base64::engine::general_purpose::STANDARD.encode(bytes)
}

/// `serde_json::to_string` on a string slice: the quoted and escaped JSON
/// literal. The serializer writes a string slice into memory and reports
/// no error on the way.
#[verifier::external_body]
pub(crate) fn json_quote(s: &str) -> (r: String)
    ensures
        r@ == json_string(s@),
{
    serde_json::to_string(s).unwrap_or_default()
}

/// `Uuid::from_u128` followed by the identifier's `Display`: the
/// hyphenated lower-case text of the number, most significant digit
/// first.
#[verifier::external_body]
pub(crate) fn uuid_text(id: u128) -> (r: String)
    ensures
        r@ == uuid_hyphenated(id),
{
    uuid::Uuid::from_u128(id).to_string()
}

/// `Url::parse`, as reqwest exports it: whether the text parses as an
/// absolute URL, a function of the text alone.
#[verifier::external_body]
pub(crate) fn url_parses(s: &str) -> (r: bool)
    ensures
        r == is_absolute_url(s@),
{
    reqwest::Url::parse(s).is_ok()
}

/// `HeaderName::from_bytes` of the http crate, as axum exports it. It
/// accepts a text exactly if it has between 1 and 65535 bytes and each of
/// them is a letter, a digit or one of the marks of a token.
#[verifier::external_body]
pub(crate) fn header_name_parses(name: &str) -> (r: bool)
    ensures
        r == is_header_name(encode_utf8(name@)),
{
    axum::http::HeaderName::from_bytes(name.as_bytes()).is_ok()
}

/// `HeaderValue::from_str` of the http crate, as axum exports it. It
/// accepts a text exactly if each of its bytes is a tab or at least 32 and
/// not 127.
#[verifier::external_body]
pub(crate) fn header_value_parses(value: &str) -> (r: bool)
    ensures
        r == is_header_value(encode_utf8(value@)),
{
    axum::http::HeaderValue::from_str(value).is_ok()
}

/// `str::to_uppercase`: the upper-case form of the text, a function of the
/// text alone.
#[verifier::external_body]
pub(crate) fn to_uppercase(s: &str) -> (r: String)
    ensures
        r@ == uppercased(s@),
{
    s.to_uppercase()
}

/// `Uuid::new_v4`, as a number: a fresh random identifier. Nothing is
/// promised of it, and two calls may differ. The call panics where the
/// system has no random bytes to give.
#[verifier::external_body]
pub(crate) fn fresh_id() -> (id: u128) {
    uuid::Uuid::new_v4().as_u128()
}

/// `Utc::now` of chrono, as microseconds since the Unix epoch: the
/// system's clock. Nothing is promised of it, and two calls may differ.
/// The call panics where the clock stands before the epoch.
#[verifier::external_body]
pub(crate) fn now_micros() -> (t: i64) {
    chrono::Utc::now().timestamp_micros()
}

} // verus!
