//! Addresses: the reading and joining of URLs, which the `url` crate does.
use vstd::prelude::*;
use vstd::utf8::encode_utf8;

verus! {

/// `url::ParseError`, of which nothing is known here but that it exists.
#[verifier::external_type_specification]
#[verifier::external_body]
pub struct ExParseError(url::ParseError);

/// What `url::Url::parse` makes of a text: the URL as the crate writes it
/// out again, or `None` where the text is no absolute URL.
pub uninterp spec fn parsed_url(input: Seq<char>) -> Option<Seq<char>>;

/// What `url::Url::join` makes of `input` read against the URL `base`: the
/// resulting URL as the crate writes it out, or `None` where `base` is no
/// absolute URL or `input` cannot be read against it.
pub uninterp spec fn joined_url(base: Seq<char>, input: Seq<char>) -> Option<Seq<char>>;

/// Whether a byte stands for itself in a form: a letter or a digit of
/// ASCII, or one of `*`, `-`, `.` and `_`.
pub open spec fn is_form_byte(byte: u8) -> bool {
    ||| byte == 0x2a
    ||| byte == 0x2d
    ||| byte == 0x2e
    ||| byte == 0x5f
    ||| 0x30 <= byte <= 0x39
    ||| 0x41 <= byte <= 0x5a
    ||| 0x61 <= byte <= 0x7a
}

/// The digit of base sixteen for a number below sixteen, in capitals.
pub open spec fn hex_digit(value: u8) -> char {
    if value < 10 {
        (0x30 + value) as u8 as char
    } else {
        (0x37 + value) as u8 as char
    }
}

/// What one byte becomes in a form: itself, a plus sign for a space, or a
/// percent sign and the byte's two digits of base sixteen.
pub open spec fn form_encoded_byte(byte: u8) -> Seq<char> {
    if is_form_byte(byte) {
        seq![byte as char]
    } else if byte == 0x20 {
        seq!['+']
    } else {
        seq!['%', hex_digit(byte / 16), hex_digit(byte % 16)]
    }
}

/// What bytes become in a form, byte by byte.
pub open spec fn form_encoded_bytes(bytes: Seq<u8>) -> Seq<char>
    decreases bytes.len(),
{
    if bytes.len() == 0 {
        Seq::empty()
    } else {
        form_encoded_bytes(bytes.drop_last()) + form_encoded_byte(bytes.last())
    }
}

/// What a text becomes in a form: its bytes in UTF-8, each as a form
/// writes it.
pub open spec fn form_encoded(input: Seq<char>) -> Seq<char> {
    form_encoded_bytes(encode_utf8(input))
}

/// Reads `input` as an absolute URL with `url::Url::parse` and hands back
/// the URL as the crate writes it out. The contract names the result and
/// claims no more.
#[verifier::external_body]
pub(crate) fn parse_url(input: &str) -> (r: Result<String, url::ParseError>)
    ensures
        match r {
            Ok(text) => parsed_url(input@) == Some(text@),
            Err(_) => parsed_url(input@) is None,
        },
{
    url::Url::parse(input).map(String::from)
}

/// Reads `input` against the URL `base` with `url::Url::join`, `base` being
/// read with `url::Url::parse` first, and hands back the resulting URL as
/// the crate writes it out. The contract names the result and claims no
/// more.
#[verifier::external_body]
pub(crate) fn join_url(base: &str, input: &str) -> (r: Result<String, url::ParseError>)
    ensures
        match r {
            Ok(text) => joined_url(base@, input@) == Some(text@),
            Err(_) => joined_url(base@, input@) is None,
        },
{
    url::Url::parse(base)?.join(input).map(String::from)
}

/// Encodes the bytes of `input` with `url::form_urlencoded::byte_serialize`.
/// The contract claims what the crate does byte by byte: letters and digits
/// of ASCII and the four signs `*`, `-`, `.` and `_` stay, a space becomes a
/// plus sign, and every other byte a percent sign and two digits of base
/// sixteen in capitals.
#[verifier::external_body]
pub(crate) fn byte_serialize(input: &str) -> (r: String)
    ensures
        r@ == form_encoded(input@),
{
    url::form_urlencoded::byte_serialize(input.as_bytes()).collect()
}

} // verus!
