//! How single values are written into and read out of the documents of the
//! feed: numbers and flags travel as strings.
use crate::census::constants::{CharacterID, Faction, Loadout, WorldID, ZoneID};
use crate::json::{
    get, items_view, lemma_array_view, member, members_view, Json, JsonValue, Member, MemberValue,
};
use crate::text::{
    decimal_text, i64_to_string, integer_text, parse_i64, parse_i64_spec, parse_u16, parse_u32,
    parse_u64, parse_u8, parse_unsigned_spec, same_text, u64_to_string,
};
use vstd::prelude::*;
use vstd::string::StringExecFns;

verus! {

/// Why a document was not accepted.
#[derive(Clone, Copy, Debug, PartialEq, Eq, Structural)]
pub enum DecodeError {
    /// The text is no JSON document.
    Syntax,
    /// A member that has to be there is not.
    MissingField,
    /// A value is of another kind than it has to be: a number for a string,
    /// anything but an object for a message.
    InvalidType,
    /// A value is of the right kind, and yet not one that is accepted.
    InvalidValue,
    /// The document says of itself that it is of a kind that is not known.
    UnknownVariant,
}

/// A kind of value that is read from a text.
pub trait FromText: Sized {
    /// What a text stands for; `None` where it stands for nothing.
    spec fn text_value(text: Seq<char>) -> Option<Self>;

    /// Reads a value from its text.
    fn from_text(text: &str) -> (r: Option<Self>)
        ensures
            r == Self::text_value(text@),
    ;
}

impl FromText for u64 {
    open spec fn text_value(text: Seq<char>) -> Option<u64> {
        match parse_unsigned_spec(text, u64::MAX as nat) {
            Some(v) => Some(v as u64),
            None => None,
        }
    }

    fn from_text(text: &str) -> (r: Option<u64>) {
        parse_u64(text)
    }
}

impl FromText for u32 {
    open spec fn text_value(text: Seq<char>) -> Option<u32> {
        match parse_unsigned_spec(text, u32::MAX as nat) {
            Some(v) => Some(v as u32),
            None => None,
        }
    }

    fn from_text(text: &str) -> (r: Option<u32>) {
        parse_u32(text)
    }
}

impl FromText for u16 {
    open spec fn text_value(text: Seq<char>) -> Option<u16> {
        match parse_unsigned_spec(text, u16::MAX as nat) {
            Some(v) => Some(v as u16),
            None => None,
        }
    }

    fn from_text(text: &str) -> (r: Option<u16>) {
        parse_u16(text)
    }
}

impl FromText for u8 {
    open spec fn text_value(text: Seq<char>) -> Option<u8> {
        match parse_unsigned_spec(text, u8::MAX as nat) {
            Some(v) => Some(v as u8),
            None => None,
        }
    }

    fn from_text(text: &str) -> (r: Option<u8>) {
        parse_u8(text)
    }
}

impl FromText for i64 {
    open spec fn text_value(text: Seq<char>) -> Option<i64> {
        parse_i64_spec(text)
    }

    fn from_text(text: &str) -> (r: Option<i64>) {
        parse_i64(text)
    }
}

impl FromText for bool {
    open spec fn text_value(text: Seq<char>) -> Option<bool> {
        if text == "true"@ {
            Some(true)
        } else if text == "false"@ {
            Some(false)
        } else {
            None
        }
    }

    fn from_text(text: &str) -> (r: Option<bool>) {
        if same_text(text, "true") {
            Some(true)
        } else if same_text(text, "false") {
            Some(false)
        } else {
            None
        }
    }
}

impl FromText for WorldID {
    open spec fn text_value(text: Seq<char>) -> Option<WorldID> {
        WorldID::spec_from_str(text)
    }

    fn from_text(text: &str) -> (r: Option<WorldID>) {
        match WorldID::from_str(text) {
            Ok(v) => Some(v),
            Err(_) => None,
        }
    }
}

impl FromText for Faction {
    open spec fn text_value(text: Seq<char>) -> Option<Faction> {
        Faction::spec_from_str(text)
    }

    fn from_text(text: &str) -> (r: Option<Faction>) {
        match Faction::from_str(text) {
            Ok(v) => Some(v),
            Err(_) => None,
        }
    }
}

impl FromText for Loadout {
    open spec fn text_value(text: Seq<char>) -> Option<Loadout> {
        Loadout::spec_from_str(text)
    }

    fn from_text(text: &str) -> (r: Option<Loadout>) {
        match Loadout::from_str(text) {
            Ok(v) => Some(v),
            Err(_) => None,
        }
    }
}

impl FromText for ZoneID {
    open spec fn text_value(text: Seq<char>) -> Option<ZoneID> {
        ZoneID::spec_from_str(text)
    }

    fn from_text(text: &str) -> (r: Option<ZoneID>) {
        match ZoneID::from_str(text) {
            Ok(v) => Some(v),
            Err(_) => None,
        }
    }
}

/// How an optional flag is written: `null` where there is none, else the
/// string `true` or `false`.
pub open spec fn spec_serialize_optional_bool(value: Option<bool>) -> JsonValue {
    match value {
        None => JsonValue::Null,
        Some(true) => JsonValue::Text("true"@),
        Some(false) => JsonValue::Text("false"@),
    }
}

pub fn serialize_optional_bool(value: &Option<bool>) -> (document: Json)
    ensures
        document@ == spec_serialize_optional_bool(*value),
{
    match value {
        None => Json::Null,
        Some(value) => match value {
            true => Json::Text(String::from_str("true")),
            false => Json::Text(String::from_str("false")),
        },
    }
}

/// How "all of them" is written: the list of the one word `all`.
pub open spec fn spec_serialize_all_subscription() -> JsonValue {
    JsonValue::Array(seq![JsonValue::Text("all"@)])
}

pub fn serialize_all_subscription() -> (document: Json)
    ensures
        document@ == spec_serialize_all_subscription(),
{
    let mut items: Vec<Json> = Vec::new();
    items.push(Json::Text(String::from_str("all")));
    proof {
        lemma_array_view(items);
        assert(items_view(items@) =~= seq![JsonValue::Text("all"@)]);
    }
    Json::Array(items)
}

/// How a list of characters is written: each number as a string of decimal
/// digits.
pub open spec fn spec_serialize_char_ids_subscription(value: Seq<CharacterID>) -> JsonValue {
    JsonValue::Array(Seq::new(value.len(), |i: int| JsonValue::Text(decimal_text(value[i] as nat))))
}

pub fn serialize_char_ids_subscription(value: &[CharacterID]) -> (document: Json)
    ensures
        document@ == spec_serialize_char_ids_subscription(value@),
{
    let mut ids: Vec<Json> = Vec::new();
    let mut i: usize = 0;
    while i < value.len()
        invariant
            i <= value.len(),
            ids@.len() == i,
            forall|j: int|
                0 <= j < i ==> (#[trigger] ids@[j])@ == JsonValue::Text(
                    decimal_text(value@[j] as nat),
                ),
        decreases value.len() - i,
    {
        ids.push(Json::Text(u64_to_string(value[i])));
        i = i + 1;
    }
    proof {
        lemma_array_view(ids);
        assert(items_view(ids@) =~= Seq::new(
            value@.len(),
            |i: int| JsonValue::Text(decimal_text(value@[i] as nat)),
        ));
    }
    Json::Array(ids)
}

/// How a list of worlds is written: each world's number as a string of
/// decimal digits.
pub open spec fn spec_serialize_world_ids_subscription(value: Seq<WorldID>) -> JsonValue {
    JsonValue::Array(
        Seq::new(value.len(), |i: int| JsonValue::Text(decimal_text(value[i].spec_id() as nat))),
    )
}

pub fn serialize_world_ids_subscription(value: &Vec<WorldID>) -> (document: Json)
    ensures
        document@ == spec_serialize_world_ids_subscription(value@),
{
    let mut ids: Vec<Json> = Vec::new();
    let mut i: usize = 0;
    while i < value.len()
        invariant
            i <= value.len(),
            ids@.len() == i,
            forall|j: int|
                0 <= j < i ==> (#[trigger] ids@[j])@ == JsonValue::Text(
                    decimal_text(value@[j].spec_id() as nat),
                ),
        decreases value.len() - i,
    {
        let number: u8 = value[i].id() as u8;
        ids.push(Json::Text(u64_to_string(number as u64)));
        i = i + 1;
    }
    proof {
        lemma_array_view(ids);
        assert(items_view(ids@) =~= Seq::new(
            value@.len(),
            |i: int| JsonValue::Text(decimal_text(value@[i].spec_id() as nat)),
        ));
    }
    Json::Array(ids)
}

/// What a string of the feed stands for as a value of the kind `T`: the
/// document has to be a string, and its text has to read as a `T`.
pub open spec fn spec_deserialize_from_str<T: FromText>(value: JsonValue) -> Result<
    T,
    DecodeError,
> {
    match value {
        JsonValue::Text(text) => match T::text_value(text) {
            Some(v) => Ok(v),
            None => Err(DecodeError::InvalidValue),
        },
        _ => Err(DecodeError::InvalidType),
    }
}

pub fn deserialize_from_str<T: FromText>(value: &Json) -> (r: Result<T, DecodeError>)
    ensures
        r == spec_deserialize_from_str::<T>(value@),
{
    match value {
        Json::Text(text) => match T::from_text(text.as_str()) {
            Some(v) => Ok(v),
            None => Err(DecodeError::InvalidValue),
        },
        _ => Err(DecodeError::InvalidType),
    }
}

pub fn deserialize_from_str_custom_impl<T: FromText>(value: &Json) -> (r: Result<T, DecodeError>)
    ensures
        r == spec_deserialize_from_str::<T>(value@),
{
    match value {
        Json::Text(text) => match T::from_text(text.as_str()) {
            Some(v) => Ok(v),
            None => Err(DecodeError::InvalidValue),
        },
        _ => Err(DecodeError::InvalidType),
    }
}

/// Reads a span of time, in seconds, from the string that holds it.
pub fn deserialize_duration_from_str(value: &Json) -> (r: Result<i64, DecodeError>)
    ensures
        r == spec_deserialize_from_str::<i64>(value@),
{
    deserialize_from_str::<i64>(value)
}

/// Writes a span of time as the number of its seconds.
pub fn serialize_duration(duration: i64) -> (document: Json)
    ensures
        document@ == JsonValue::Number(integer_text(duration as int)),
{
    Json::Number(i64_to_string(duration))
}

/// What a string of the feed stands for as a flag: `0` is false and `1` is
/// true. A string that is no number of eight bits is of the wrong kind; any
/// other number is not accepted.
pub open spec fn spec_de_bool_from_str_int(value: JsonValue) -> Result<bool, DecodeError> {
    match value {
        JsonValue::Text(text) => match parse_unsigned_spec(text, u8::MAX as nat) {
            Some(v) => if v == 0 {
                Ok(false)
            } else if v == 1 {
                Ok(true)
            } else {
                Err(DecodeError::InvalidValue)
            },
            None => Err(DecodeError::InvalidType),
        },
        _ => Err(DecodeError::InvalidType),
    }
}

pub fn de_bool_from_str_int(value: &Json) -> (r: Result<bool, DecodeError>)
    ensures
        r == spec_de_bool_from_str_int(value@),
{
    let string = match value {
        Json::Text(text) => text,
        _ => return Err(DecodeError::InvalidType),
    };
    let int_value = match parse_u8(string.as_str()) {
        Some(v) => v,
        None => return Err(DecodeError::InvalidType),
    };
    match int_value {
        0 => Ok(false),
        1 => Ok(true),
        _ => Err(DecodeError::InvalidValue),
    }
}

/// What the member `key` of an object stands for as a value of the kind `T`.
pub open spec fn spec_field<T: FromText>(members: Seq<MemberValue>, key: Seq<char>) -> Result<
    T,
    DecodeError,
> {
    match member(members, key) {
        Some(value) => spec_deserialize_from_str::<T>(value),
        None => Err(DecodeError::MissingField),
    }
}

/// Reads the member `key` of an object as a value of the kind `T`.
pub fn field<T: FromText>(members: &Vec<Member>, key: &str) -> (r: Result<T, DecodeError>)
    ensures
        r == spec_field::<T>(members_view(members@), key@),
{
    match get(members, key) {
        Some(value) => deserialize_from_str::<T>(value),
        None => Err(DecodeError::MissingField),
    }
}

/// What the member `key` stands for as a value of the kind `T`, where a
/// missing member stands for `default`.
pub open spec fn spec_field_or<T: FromText>(
    members: Seq<MemberValue>,
    key: Seq<char>,
    default: T,
) -> Result<T, DecodeError> {
    match member(members, key) {
        Some(value) => spec_deserialize_from_str::<T>(value),
        None => Ok(default),
    }
}

/// Reads the member `key` as a value of the kind `T`; a missing member reads
/// as `default`.
pub fn field_or<T: FromText>(members: &Vec<Member>, key: &str, default: T) -> (r: Result<
    T,
    DecodeError,
>)
    ensures
        r == spec_field_or::<T>(members_view(members@), key@, default),
{
    match get(members, key) {
        Some(value) => deserialize_from_str::<T>(value),
        None => Ok(default),
    }
}

/// What the member `key` stands for as a flag.
pub open spec fn spec_flag_field(members: Seq<MemberValue>, key: Seq<char>) -> Result<
    bool,
    DecodeError,
> {
    match member(members, key) {
        Some(value) => spec_de_bool_from_str_int(value),
        None => Err(DecodeError::MissingField),
    }
}

/// Reads the member `key` as a flag.
pub fn flag_field(members: &Vec<Member>, key: &str) -> (r: Result<bool, DecodeError>)
    ensures
        r == spec_flag_field(members_view(members@), key@),
{
    match get(members, key) {
        Some(value) => de_bool_from_str_int(value),
        None => Err(DecodeError::MissingField),
    }
}

/// What the member `key` stands for as a number written as a number: it
/// has to be one, and a whole one of at most 64 bits.
pub open spec fn spec_number_field(members: Seq<MemberValue>, key: Seq<char>) -> Result<
    u64,
    DecodeError,
> {
    match member(members, key) {
        Some(JsonValue::Number(text)) => match parse_unsigned_spec(text, u64::MAX as nat) {
            Some(v) => Ok(v as u64),
            None => Err(DecodeError::InvalidValue),
        },
        Some(_) => Err(DecodeError::InvalidType),
        None => Err(DecodeError::MissingField),
    }
}

/// Reads the member `key` as a number written as a number.
pub fn number_field(members: &Vec<Member>, key: &str) -> (r: Result<u64, DecodeError>)
    ensures
        r == spec_number_field(members_view(members@), key@),
{
    match get(members, key) {
        Some(Json::Number(text)) => match parse_u64(text.as_str()) {
            Some(v) => Ok(v),
            None => Err(DecodeError::InvalidValue),
        },
        Some(_) => Err(DecodeError::InvalidType),
        None => Err(DecodeError::MissingField),
    }
}

/// What the member `key` stands for as a text: it has to be a string.
pub open spec fn spec_text_field(members: Seq<MemberValue>, key: Seq<char>) -> Result<
    Seq<char>,
    DecodeError,
> {
    match member(members, key) {
        Some(JsonValue::Text(text)) => Ok(text),
        Some(_) => Err(DecodeError::InvalidType),
        None => Err(DecodeError::MissingField),
    }
}

/// Reads the member `key` as a text.
pub fn text_field(members: &Vec<Member>, key: &str) -> (r: Result<String, DecodeError>)
    ensures
        match r {
            Ok(text) => spec_text_field(members_view(members@), key@) == Ok::<
                Seq<char>,
                DecodeError,
            >(text@),
            Err(e) => spec_text_field(members_view(members@), key@) == Err::<
                Seq<char>,
                DecodeError,
            >(e),
        },
{
    match get(members, key) {
        Some(Json::Text(text)) => Ok(text.clone()),
        Some(_) => Err(DecodeError::InvalidType),
        None => Err(DecodeError::MissingField),
    }
}

} // verus!
