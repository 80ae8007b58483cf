//! The header map of a request or a response, and the three things that
//! the proxy does to one: it reads the first value of a field, asks whether
//! a field is there, and sets a field to one value.

use http::header::{HeaderMap, HeaderValue};
use vstd::prelude::*;

verus! {

/// `http::HeaderMap`, the header map of a request or a response. Nothing
/// inside it is seen here; what it holds goes by the name `header_entries`.
#[verifier::external_type_specification]
#[verifier::external_body]
#[verifier::reject_recursive_types(T)]
pub struct ExHeaderMap<T>(HeaderMap<T>);

/// `http::HeaderValue`, one value of a field as the map holds it. Values
/// are handed in and out as bytes.
#[verifier::external_type_specification]
#[verifier::external_body]
pub struct ExHeaderValue(HeaderValue);

/// What a header map holds: for each field name, in lower case, the values
/// of that field in the order in which they came.
pub uninterp spec fn header_entries(map: HeaderMap) -> Map<Seq<char>, Seq<Seq<u8>>>;

/// A field name that every header map takes as it stands: lower-case
/// letters, digits and hyphens, at least one and at most 64 of them.
pub open spec fn is_field_name(name: Seq<char>) -> bool {
    &&& 1 <= name.len() <= 64
    &&& forall|i: int|
        0 <= i < name.len() ==> {
            let c = #[trigger] name[i];
            ('a' <= c <= 'z') || ('0' <= c <= '9') || c == '-'
        }
}

/// A byte that may stand in the value of a field: anything but the control
/// characters, of which the tab alone is let in.
pub open spec fn is_value_byte(byte: u8) -> bool {
    (byte >= 32 && byte != 127) || byte == 9
}

/// Whether all bytes of a value may stand in a field.
pub open spec fn is_field_value(bytes: Seq<u8>) -> bool {
    forall|i: int| 0 <= i < bytes.len() ==> is_value_byte(#[trigger] bytes[i])
}

/// The first value of a field, where the field is there.
pub open spec fn first_value(entries: Map<Seq<char>, Seq<Seq<u8>>>, name: Seq<char>) -> Option<
    Seq<u8>,
> {
    if entries.contains_key(name) && entries[name].len() > 0 {
        Some(entries[name][0])
    } else {
        None
    }
}

/// Why a field was not set.
#[derive(Clone, Copy, Debug, PartialEq, Eq, Structural)]
pub enum HeaderError {
    /// The value holds a byte that may not stand in a field.
    Value,
    /// The map takes no more fields.
    Full,
}

/// How an attempt to set a field ended.
pub type SetField = Result<(), HeaderError>;

/// `HeaderMap::get` with a name in lower case, and `HeaderValue::as_bytes`
/// on the value found: the bytes of the first value of the field, or
/// nothing where the map holds no value for it.
#[verifier::external_body]
pub(crate) fn first_bytes(map: &HeaderMap, name: &str) -> (value: Option<Vec<u8>>)
    requires
        is_field_name(name@),
    ensures
        match value {
            None => !header_entries(*map).contains_key(name@),
            Some(bytes) => {
                &&& header_entries(*map).contains_key(name@)
                &&& header_entries(*map)[name@].len() > 0
                &&& bytes@ == header_entries(*map)[name@][0]
            },
        },
{
    map.get(name).map(|value| value.as_bytes().to_vec())
}

/// `HeaderMap::contains_key` with a name in lower case: whether the map
/// holds a value for the field.
#[verifier::external_body]
pub(crate) fn has_field(map: &HeaderMap, name: &str) -> (present: bool)
    requires
        is_field_name(name@),
    ensures
        present == header_entries(*map).contains_key(name@),
{
    map.contains_key(name)
}

/// `HeaderValue::from_bytes`, then `HeaderMap::try_insert` with a name in
/// lower case. A value with a byte that may not stand in a field is
/// refused, and only such a value. Otherwise the map either takes the value
/// as the one value of the field, in place of all that the field had, or
/// reports that it is full; which of the two depends on how the map has
/// grown. A map that does not take the value is left as it was.
#[verifier::external_body]
pub(crate) fn set_field(map: &mut HeaderMap, name: &'static str, value: &[u8]) -> (done: SetField)
    requires
        is_field_name(name@),
    ensures
        (done matches Err(HeaderError::Value)) <==> !is_field_value(value@),
        done is Ok ==> header_entries(*final(map)) == header_entries(*old(map)).insert(
            name@,
            seq![value@],
        ),
        done is Err ==> header_entries(*final(map)) == header_entries(*old(map)),
{
    match HeaderValue::from_bytes(value) {
        Ok(value) => match map.try_insert(name, value) {
            Ok(_) => Ok(()),
            Err(_) => Err(HeaderError::Full),
        },
        Err(_) => Err(HeaderError::Value),
    }
}

} // verus!
