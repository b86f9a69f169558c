//! CBOR values.
//!
//! The values are those of `ciborium`, which decodes and encodes them. This module
//! states what the firmware relies on: what a value holds, as a mathematical
//! model, and that decoding and encoding are functions of their input.

use ciborium::value::Value;
use vstd::prelude::*;

verus! {

/// What a CBOR value holds.
pub enum CborModel {
    /// An integer.
    Integer(int),
    /// A byte string.
    Bytes(Seq<u8>),
    /// A text string.
    Text(Seq<char>),
    /// An array of values.
    Array(Seq<CborModel>),
    /// A map, as its pairs of key and value in the order of the encoding. A key
    /// may occur more than once.
    Pairs(Seq<(CborModel, CborModel)>),
    /// The null value.
    Null,
    /// A value of any other kind: a boolean, a float or a tagged value.
    Other,
}

impl CborModel {
    /// Whether the model says all there is to say of the value: no part of it is
    /// of a kind that the model does not look into.
    pub open spec fn is_exact(self) -> bool
        decreases self,
    {
        match self {
            CborModel::Array(items) => forall|i: int|
                0 <= i < items.len() ==> (#[trigger] items[i]).is_exact(),
            CborModel::Pairs(pairs) => forall|i: int|
                0 <= i < pairs.len() ==> (#[trigger] pairs[i]).0.is_exact()
                    && pairs[i].1.is_exact(),
            CborModel::Other => false,
            _ => true,
        }
    }
}

/// A CBOR value of `ciborium`, opaque to the verifier.
#[verifier::external_type_specification]
#[verifier::external_body]
pub struct ExValue(Value);

/// What a value of `ciborium` holds.
pub uninterp spec fn value_model(v: Value) -> CborModel;

/// What `ciborium::de::from_reader` decodes from the head of `bytes`: the value
/// and the number of bytes that follow it, or nothing where it fails.
pub uninterp spec fn cbor_decoded(bytes: Seq<u8>) -> Option<(CborModel, nat)>;

/// The bytes that `ciborium::ser::into_writer` writes for a value, or nothing
/// where it fails.
pub uninterp spec fn cbor_encoded(v: CborModel) -> Option<Seq<u8>>;

/// The models of a list of values.
pub open spec fn models(items: Seq<Value>) -> Seq<CborModel> {
    items.map_values(|v: Value| value_model(v))
}

/// The models of a list of pairs of values.
pub open spec fn pair_models(pairs: Seq<(Value, Value)>) -> Seq<(CborModel, CborModel)> {
    pairs.map_values(|p: (Value, Value)| (value_model(p.0), value_model(p.1)))
}

/// Calls `ciborium::de::from_reader` on a byte slice. It reads one value from the
/// head of the slice and leaves the slice at the first byte after it; the result
/// depends on the bytes alone.
#[verifier::external_body]
pub(crate) fn read_value(data: &[u8]) -> (r: Option<(Value, usize)>)
    ensures
        match r {
            Some((v, rest)) => cbor_decoded(data@) == Some((value_model(v), rest as nat)) && rest
                <= data@.len(),
            None => cbor_decoded(data@) is None,
        },
{
    let mut rest = data;
    match ciborium::de::from_reader::<Value, _>(&mut rest) {
        Ok(v) => Some((v, rest.len())),
        Err(_) => None,
    }
}

/// Calls `ciborium::ser::into_writer` with an empty vector as the writer. The
/// bytes depend on the value alone, which the model captures where it is exact.
#[verifier::external_body]
pub(crate) fn write_value(v: &Value) -> (r: Option<Vec<u8>>)
    ensures
        value_model(*v).is_exact() ==> match r {
            Some(bytes) => cbor_encoded(value_model(*v)) == Some(bytes@),
            None => cbor_encoded(value_model(*v)) is None,
        },
{
    let mut data = Vec::new();
    match ciborium::ser::into_writer(v, &mut data) {
        Ok(()) => Some(data),
        Err(_) => None,
    }
}

/// Calls `Value::as_array`: the items of an array, nothing for any other value.
#[verifier::external_body]
pub(crate) fn value_as_array(v: &Value) -> (r: Option<&Vec<Value>>)
    ensures
        match r {
            Some(items) => value_model(*v) == CborModel::Array(models(items@)),
            None => !(value_model(*v) is Array),
        },
{
    v.as_array()
}

/// Calls `Value::as_map`: the pairs of a map, nothing for any other value.
#[verifier::external_body]
pub(crate) fn value_as_map(v: &Value) -> (r: Option<&Vec<(Value, Value)>>)
    ensures
        match r {
            Some(pairs) => value_model(*v) == CborModel::Pairs(pair_models(pairs@)),
            None => !(value_model(*v) is Pairs),
        },
{
    v.as_map()
}

/// Calls `Value::as_bytes`: the bytes of a byte string, nothing for any other
/// value.
#[verifier::external_body]
pub(crate) fn value_as_bytes(v: &Value) -> (r: Option<&Vec<u8>>)
    ensures
        match r {
            Some(bytes) => value_model(*v) == CborModel::Bytes(bytes@),
            None => !(value_model(*v) is Bytes),
        },
{
    v.as_bytes()
}

/// Calls `Value::as_integer`: the number of an integer, nothing for any other
/// value.
#[verifier::external_body]
pub(crate) fn value_as_integer(v: &Value) -> (r: Option<i128>)
    ensures
        match r {
            Some(i) => value_model(*v) == CborModel::Integer(i as int),
            None => !(value_model(*v) is Integer),
        },
{
    v.as_integer().map(i128::from)
}

/// Calls `Value::from` on an `i64`: the integer of that number.
#[verifier::external_body]
pub(crate) fn value_from_i64(i: i64) -> (v: Value)
    ensures
        value_model(v) == CborModel::Integer(i as int),
{
    Value::from(i)
}

/// Calls `Value::from` on a `u64`: the integer of that number.
#[verifier::external_body]
pub(crate) fn value_from_u64(i: u64) -> (v: Value)
    ensures
        value_model(v) == CborModel::Integer(i as int),
{
    Value::from(i)
}

/// Calls `Value::from` on a string slice: the text string of those characters.
#[verifier::external_body]
pub(crate) fn value_from_text(s: &str) -> (v: Value)
    ensures
        value_model(v) == CborModel::Text(s@),
{
    Value::from(s)
}

/// Calls `Value::from` on a byte slice: the byte string of those bytes.
#[verifier::external_body]
pub(crate) fn value_from_bytes(bytes: &[u8]) -> (v: Value)
    ensures
        value_model(v) == CborModel::Bytes(bytes@),
{
    Value::from(bytes)
}

/// The null value, `Value::Null`.
#[verifier::external_body]
pub(crate) fn value_null() -> (v: Value)
    ensures
        value_model(v) == CborModel::Null,
{
    Value::Null
}

/// Calls `Value::from` on a vector of pairs: the map of those pairs, in their
/// order.
#[verifier::external_body]
pub(crate) fn value_from_pairs(pairs: Vec<(Value, Value)>) -> (v: Value)
    ensures
        value_model(v) == CborModel::Pairs(pair_models(pairs@)),
{
    Value::from(pairs)
}

/// The value that `bytes` encode, where they encode one value and nothing more.
pub open spec fn spec_deserialize(bytes: Seq<u8>) -> Option<CborModel> {
    match cbor_decoded(bytes) {
        Some((v, rest)) => if rest == 0 {
            Some(v)
        } else {
            None
        },
        None => None,
    }
}

/// Decodes the one value that `data` encodes. Bytes after the value are an error.
pub fn deserialize(data: &[u8]) -> (r: Option<Value>)
    ensures
        match r {
            Some(v) => spec_deserialize(data@) == Some(value_model(v)),
            None => spec_deserialize(data@) is None,
        },
{
    match read_value(data) {
        Some((v, rest)) => if rest == 0 {
            Some(v)
        } else {
            None
        },
        None => None,
    }
}

} // verus!
