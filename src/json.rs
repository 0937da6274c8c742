//! A JSON document as a tree of plain values, parsed by serde_json, and the
//! checks and lookups that the response decoders are built from.
use vstd::prelude::*;

verus! {

/// A JSON number: its value when it is an integer that fits `i64`, and its
/// text.
#[derive(Debug)]
pub struct JsonNumber {
    pub int: Option<i64>,
    pub text: String,
}

/// A JSON value. An object holds its members sorted by name, each name once:
/// of two members with the same name, the parser keeps the last.
#[derive(Debug)]
pub enum JsonValue {
    Null,
    Bool(bool),
    Number(JsonNumber),
    Str(String),
    Array(Vec<JsonValue>),
    Object(Vec<(String, JsonValue)>),
}

/// Why a response body could not be decoded.
#[derive(Debug, Clone, PartialEq, Eq)]
pub enum DecodeError {
    /// The body is not a JSON document; the parser's message says why.
    InvalidJson(String),
    /// A required member is missing; it is named.
    Missing(&'static str),
    /// A member has the wrong type; it is named.
    WrongType(&'static str),
    /// The document as a whole is not of the expected type.
    Document,
}

#[verifier::external_type_specification]
#[verifier::external_body]
pub struct ExJsonDocument(serde_json::Value);

/// The tree that serde_json reads from a text, or its error message when the
/// text is not JSON.
pub uninterp spec fn parsed_json(text: Seq<char>) -> Result<JsonValue, String>;

/// Relies on `serde_json::from_str::<serde_json::Value>`: it reads a text as
/// one JSON document, or fails with an error whose message (its `Display`)
/// gives the cause and the position; the outcome depends on the text alone.
#[verifier::external_body]
pub(crate) fn parse_json(text: &str) -> (r: Result<JsonValue, String>)
    ensures
        r == parsed_json(text@),
{
    match serde_json::from_str::<serde_json::Value>(text) {
        Ok(v) => Ok(json_from_document(v)),
        Err(e) => Err(e.to_string()),
    }
}

/// Moves a serde_json document into a `JsonValue`, one node for one node.
#[verifier::external_body]
fn json_from_document(v: serde_json::Value) -> JsonValue {
    match v {
        serde_json::Value::Null => JsonValue::Null,
        serde_json::Value::Bool(b) => JsonValue::Bool(b),
        serde_json::Value::Number(n) => JsonValue::Number(JsonNumber { int: n.as_i64(), text: n.to_string() }),
        serde_json::Value::String(s) => JsonValue::Str(s),
        serde_json::Value::Array(a) => JsonValue::Array(a.into_iter().map(json_from_document).collect()),
        serde_json::Value::Object(o) => JsonValue::Object(
            o.into_iter().map(|(k, x)| (k, json_from_document(x))).collect(),
        ),
    }
}

/// The value of the first member of an object named `key`.
pub open spec fn member(fields: Seq<(String, JsonValue)>, key: Seq<char>) -> Option<JsonValue>
    decreases fields.len(),
{
    if fields.len() == 0 {
        None
    } else if fields[0].0@ == key {
        Some(fields[0].1)
    } else {
        member(fields.subrange(1, fields.len() as int), key)
    }
}

pub open spec fn is_text(v: Option<JsonValue>) -> bool {
    v matches Some(JsonValue::Str(_))
}

pub open spec fn text_of(v: Option<JsonValue>) -> String {
    match v {
        Some(JsonValue::Str(s)) => s,
        _ => arbitrary(),
    }
}

/// An optional text member: absent, null, or a string.
pub open spec fn is_opt_text(v: Option<JsonValue>) -> bool {
    v matches None || v matches Some(JsonValue::Null) || v matches Some(JsonValue::Str(_))
}

pub open spec fn opt_text_of(v: Option<JsonValue>) -> Option<String> {
    match v {
        Some(JsonValue::Str(s)) => Some(s),
        _ => None,
    }
}

pub open spec fn is_integer(v: Option<JsonValue>) -> bool {
    v matches Some(JsonValue::Number(n)) && n.int is Some
}

pub open spec fn integer_of(v: Option<JsonValue>) -> i64 {
    match v {
        Some(JsonValue::Number(n)) => n.int->0,
        _ => arbitrary(),
    }
}

/// An optional integer member: absent, null, or an integer that fits `i64`.
pub open spec fn is_opt_integer(v: Option<JsonValue>) -> bool {
    v matches None || v matches Some(JsonValue::Null) || is_integer(v)
}

pub open spec fn opt_integer_of(v: Option<JsonValue>) -> Option<i64> {
    match v {
        Some(JsonValue::Number(n)) => n.int,
        _ => None,
    }
}

pub open spec fn is_number(v: Option<JsonValue>) -> bool {
    v matches Some(JsonValue::Number(_))
}

pub open spec fn number_text_of(v: Option<JsonValue>) -> String {
    match v {
        Some(JsonValue::Number(n)) => n.text,
        _ => arbitrary(),
    }
}

/// `Ok(value)` when a check holds, the error otherwise.
pub open spec fn checked<T>(ok: bool, value: T, err: DecodeError) -> Result<T, DecodeError> {
    if ok {
        Ok(value)
    } else {
        Err(err)
    }
}

/// The error for a member that fails its check: missing when it is absent,
/// of the wrong type otherwise.
pub open spec fn member_error(m: Option<JsonValue>, key: &'static str) -> DecodeError {
    if m is None {
        DecodeError::Missing(key)
    } else {
        DecodeError::WrongType(key)
    }
}

/// An error found inside a member, where a member that is itself of the wrong
/// type is named.
pub open spec fn nested_error(e: DecodeError, key: &'static str) -> DecodeError {
    if e == DecodeError::Document {
        DecodeError::WrongType(key)
    } else {
        e
    }
}

pub fn nest_error(e: DecodeError, key: &'static str) -> (r: DecodeError)
    ensures
        r == nested_error(e, key),
{
    match e {
        DecodeError::Document => DecodeError::WrongType(key),
        other => other,
    }
}

/// The first member of an object named `key`.
pub fn get_member<'a>(fields: &'a Vec<(String, JsonValue)>, key: &str) -> (r: Option<&'a JsonValue>)
    ensures
        match r {
            Some(v) => member(fields@, key@) == Some(*v),
            None => member(fields@, key@) is None,
        },
{
    let k = key.to_owned();
    let mut i: usize = 0;
    proof {
        assert(fields@.subrange(0, fields.len() as int) =~= fields@);
    }
    while i < fields.len()
        invariant
            i <= fields.len(),
            k@ == key@,
            member(fields@, key@) == member(fields@.subrange(i as int, fields.len() as int), key@),
        decreases fields.len() - i,
    {
        let ghost rest = fields@.subrange(i as int, fields.len() as int);
        proof {
            assert(rest.subrange(1, rest.len() as int) =~= fields@.subrange(i + 1, fields.len() as int));
        }
        if fields[i].0 == k {
            return Some(&fields[i].1);
        }
        i = i + 1;
    }
    None
}

/// A required text member.
pub fn text_member(fields: &Vec<(String, JsonValue)>, key: &'static str) -> (r: Result<String, DecodeError>)
    ensures
        r == checked(
            is_text(member(fields@, key@)), text_of(member(fields@, key@)),
            member_error(member(fields@, key@), key),
        ),
{
    match get_member(fields, key) {
        Some(JsonValue::Str(s)) => Ok(s.clone()),
        None => Err(DecodeError::Missing(key)),
        _ => Err(DecodeError::WrongType(key)),
    }
}

/// An optional text member; null reads as absent.
pub fn opt_text_member(fields: &Vec<(String, JsonValue)>, key: &'static str) -> (r: Result<Option<String>, DecodeError>)
    ensures
        r == checked(
            is_opt_text(member(fields@, key@)), opt_text_of(member(fields@, key@)),
            member_error(member(fields@, key@), key),
        ),
{
    match get_member(fields, key) {
        None => Ok(None),
        Some(JsonValue::Null) => Ok(None),
        Some(JsonValue::Str(s)) => Ok(Some(s.clone())),
        _ => Err(DecodeError::WrongType(key)),
    }
}

/// A required integer member.
pub fn integer_member(fields: &Vec<(String, JsonValue)>, key: &'static str) -> (r: Result<i64, DecodeError>)
    ensures
        r == checked(
            is_integer(member(fields@, key@)), integer_of(member(fields@, key@)),
            member_error(member(fields@, key@), key),
        ),
{
    match get_member(fields, key) {
        Some(JsonValue::Number(n)) => match n.int {
            Some(x) => Ok(x),
            None => Err(DecodeError::WrongType(key)),
        },
        None => Err(DecodeError::Missing(key)),
        _ => Err(DecodeError::WrongType(key)),
    }
}

/// An optional integer member; null reads as absent.
pub fn opt_integer_member(fields: &Vec<(String, JsonValue)>, key: &'static str) -> (r: Result<Option<i64>, DecodeError>)
    ensures
        r == checked(
            is_opt_integer(member(fields@, key@)), opt_integer_of(member(fields@, key@)),
            member_error(member(fields@, key@), key),
        ),
{
    match get_member(fields, key) {
        None => Ok(None),
        Some(JsonValue::Null) => Ok(None),
        Some(JsonValue::Number(n)) => match n.int {
            Some(x) => Ok(Some(x)),
            None => Err(DecodeError::WrongType(key)),
        },
        _ => Err(DecodeError::WrongType(key)),
    }
}

/// A required number member, kept as its text.
pub fn number_text_member(fields: &Vec<(String, JsonValue)>, key: &'static str) -> (r: Result<String, DecodeError>)
    ensures
        r == checked(
            is_number(member(fields@, key@)), number_text_of(member(fields@, key@)),
            member_error(member(fields@, key@), key),
        ),
{
    match get_member(fields, key) {
        Some(JsonValue::Number(n)) => Ok(n.text.clone()),
        None => Err(DecodeError::Missing(key)),
        _ => Err(DecodeError::WrongType(key)),
    }
}

/// A type that a JSON value decodes to.
pub trait FromJson: Sized {
    /// The value has the shape this type expects.
    spec fn shaped(v: JsonValue) -> bool;

    /// `out` is what the value decodes to.
    spec fn decodes_to(v: JsonValue, out: Self) -> bool;

    /// The error for a value that is not shaped: the first member, in the
    /// order of the type's fields, that fails its check.
    spec fn error_of(v: JsonValue) -> DecodeError;

    /// Decodes a value, or names what is missing or of the wrong type.
    fn from_json(v: &JsonValue) -> (r: Result<Self, DecodeError>)
        ensures
            match r {
                Ok(x) => Self::shaped(*v) && Self::decodes_to(*v, x),
                Err(e) => !Self::shaped(*v) && e == Self::error_of(*v),
            },
    ;
}

pub open spec fn all_shaped<T: FromJson>(s: Seq<JsonValue>) -> bool {
    forall|i: int| 0 <= i < s.len() ==> T::shaped(#[trigger] s[i])
}

pub open spec fn all_decode<T: FromJson>(s: Seq<JsonValue>, out: Seq<T>) -> bool {
    &&& out.len() == s.len()
    &&& forall|i: int| 0 <= i < s.len() ==> T::decodes_to(#[trigger] s[i], out[i])
}

/// The error of the first element of an array that is not shaped.
pub open spec fn array_error<T: FromJson>(s: Seq<JsonValue>) -> DecodeError
    decreases s.len(),
{
    if s.len() == 0 {
        DecodeError::Document
    } else if !T::shaped(s[0]) {
        T::error_of(s[0])
    } else {
        array_error::<T>(s.subrange(1, s.len() as int))
    }
}

/// A required member that is an object of type `T`.
pub open spec fn object_shaped<T: FromJson>(m: Option<JsonValue>) -> bool {
    m matches Some(v) && T::shaped(v)
}

pub open spec fn object_decodes<T: FromJson>(m: Option<JsonValue>, out: T) -> bool {
    m matches Some(v) && T::decodes_to(v, out)
}

pub open spec fn object_error<T: FromJson>(m: Option<JsonValue>, key: &'static str) -> DecodeError {
    match m {
        Some(v) => nested_error(T::error_of(v), key),
        None => DecodeError::Missing(key),
    }
}

/// An optional member that is an object of type `T`; null reads as absent.
pub open spec fn opt_object_shaped<T: FromJson>(m: Option<JsonValue>) -> bool {
    match m {
        None => true,
        Some(JsonValue::Null) => true,
        Some(v) => T::shaped(v),
    }
}

pub open spec fn opt_object_decodes<T: FromJson>(m: Option<JsonValue>, out: Option<T>) -> bool {
    match m {
        None => out is None,
        Some(JsonValue::Null) => out is None,
        Some(v) => out matches Some(x) && T::decodes_to(v, x),
    }
}

pub open spec fn opt_object_error<T: FromJson>(m: Option<JsonValue>, key: &'static str) -> DecodeError {
    match m {
        Some(v) => nested_error(T::error_of(v), key),
        None => DecodeError::Missing(key),
    }
}

/// A required member that is an array of values of type `T`.
pub open spec fn array_shaped<T: FromJson>(m: Option<JsonValue>) -> bool {
    m matches Some(JsonValue::Array(a)) && all_shaped::<T>(a@)
}

pub open spec fn array_decodes<T: FromJson>(m: Option<JsonValue>, out: Seq<T>) -> bool {
    m matches Some(JsonValue::Array(a)) && all_decode::<T>(a@, out)
}

pub open spec fn array_member_error<T: FromJson>(m: Option<JsonValue>, key: &'static str) -> DecodeError {
    match m {
        Some(JsonValue::Array(a)) => nested_error(array_error::<T>(a@), key),
        Some(_) => DecodeError::WrongType(key),
        None => DecodeError::Missing(key),
    }
}

/// Decodes every element of an array, in order, stopping at the first that
/// fails.
pub fn decode_array<T: FromJson>(items: &Vec<JsonValue>) -> (r: Result<Vec<T>, DecodeError>)
    ensures
        match r {
            Ok(xs) => all_shaped::<T>(items@) && all_decode::<T>(items@, xs@),
            Err(e) => !all_shaped::<T>(items@) && e == array_error::<T>(items@),
        },
{
    let mut out: Vec<T> = Vec::new();
    let mut i: usize = 0;
    proof {
        assert(items@.subrange(0, items.len() as int) =~= items@);
    }
    while i < items.len()
        invariant
            i <= items.len(),
            out.len() == i,
            forall|j: int| 0 <= j < i ==> T::shaped(#[trigger] items@[j]),
            forall|j: int| 0 <= j < i ==> T::decodes_to(#[trigger] items@[j], out@[j]),
            array_error::<T>(items@) == array_error::<T>(items@.subrange(i as int, items.len() as int)),
        decreases items.len() - i,
    {
        let ghost rest = items@.subrange(i as int, items.len() as int);
        proof {
            assert(rest.subrange(1, rest.len() as int) =~= items@.subrange(i + 1, items.len() as int));
            assert(rest[0] == items@[i as int]);
        }
        match T::from_json(&items[i]) {
            Ok(x) => out.push(x),
            Err(e) => return Err(e),
        }
        i = i + 1;
    }
    Ok(out)
}

/// A JSON array decodes to the list of its elements, each decoded in turn.
impl<T: FromJson> FromJson for Vec<T> {
    open spec fn shaped(v: JsonValue) -> bool {
        v matches JsonValue::Array(a) && all_shaped::<T>(a@)
    }

    open spec fn decodes_to(v: JsonValue, out: Self) -> bool {
        v matches JsonValue::Array(a) && all_decode::<T>(a@, out@)
    }

    open spec fn error_of(v: JsonValue) -> DecodeError {
        match v {
            JsonValue::Array(a) => array_error::<T>(a@),
            _ => DecodeError::Document,
        }
    }

    fn from_json(v: &JsonValue) -> (r: Result<Self, DecodeError>) {
        match v {
            JsonValue::Array(a) => decode_array(a),
            _ => Err(DecodeError::Document),
        }
    }
}

/// A required member that is an object of type `T`.
pub fn object_member<T: FromJson>(fields: &Vec<(String, JsonValue)>, key: &'static str) -> (r: Result<T, DecodeError>)
    ensures
        match r {
            Ok(x) => object_shaped::<T>(member(fields@, key@)) && object_decodes::<T>(member(fields@, key@), x),
            Err(e) => !object_shaped::<T>(member(fields@, key@)) && e == object_error::<T>(member(fields@, key@), key),
        },
{
    match get_member(fields, key) {
        Some(v) => match T::from_json(v) {
            Ok(x) => Ok(x),
            Err(e) => Err(nest_error(e, key)),
        },
        None => Err(DecodeError::Missing(key)),
    }
}

/// An optional member that is an object of type `T`; null reads as absent.
pub fn opt_object_member<T: FromJson>(fields: &Vec<(String, JsonValue)>, key: &'static str) -> (r: Result<Option<T>, DecodeError>)
    ensures
        match r {
            Ok(x) => opt_object_shaped::<T>(member(fields@, key@)) && opt_object_decodes::<T>(member(fields@, key@), x),
            Err(e) => !opt_object_shaped::<T>(member(fields@, key@)) && e == opt_object_error::<T>(member(fields@, key@), key),
        },
{
    match get_member(fields, key) {
        None => Ok(None),
        Some(JsonValue::Null) => Ok(None),
        Some(v) => match T::from_json(v) {
            Ok(x) => Ok(Some(x)),
            Err(e) => Err(nest_error(e, key)),
        },
    }
}

/// A required member that is an array of values of type `T`.
pub fn array_member<T: FromJson>(fields: &Vec<(String, JsonValue)>, key: &'static str) -> (r: Result<Vec<T>, DecodeError>)
    ensures
        match r {
            Ok(xs) => array_shaped::<T>(member(fields@, key@)) && array_decodes::<T>(member(fields@, key@), xs@),
            Err(e) => !array_shaped::<T>(member(fields@, key@)) && e == array_member_error::<T>(member(fields@, key@), key),
        },
{
    match get_member(fields, key) {
        Some(JsonValue::Array(a)) => match decode_array(a) {
            Ok(xs) => Ok(xs),
            Err(e) => Err(nest_error(e, key)),
        },
        None => Err(DecodeError::Missing(key)),
        _ => Err(DecodeError::WrongType(key)),
    }
}

/// Decodes a response body: the parser's error when it is not JSON, else the
/// first member that is missing or of the wrong type.
pub fn decode_body<T: FromJson>(body: &str) -> (r: Result<T, DecodeError>)
    ensures
        match parsed_json(body@) {
            Err(msg) => r == Err::<T, DecodeError>(DecodeError::InvalidJson(msg)),
            Ok(v) => match r {
                Ok(x) => T::shaped(v) && T::decodes_to(v, x),
                Err(e) => !T::shaped(v) && e == T::error_of(v),
            },
        },
{
    match parse_json(body) {
        Ok(v) => T::from_json(&v),
        Err(msg) => Err(DecodeError::InvalidJson(msg)),
    }
}

} // verus!
