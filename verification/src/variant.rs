use vstd::prelude::*;
use crate::errors::WinThingError;
use crate::json::{json_bool, json_list, json_model, json_models, json_null, json_signed, json_text, json_unsigned, Json};

verus! {

/// One value of a primitive property type.
#[derive(Debug)]
#[allow(inconsistent_fields)]
pub enum Scalar {
    Null,
    Text(String),
    /// An unsigned integer that the native side stored in `bits` bits.
    Unsigned { bits: u8, value: u64 },
    /// A signed integer that the native side stored in `bits` bits.
    Signed { bits: u8, value: i64 },
    Boolean(bool),
    /// A GUID in its canonical text form.
    Guid(String),
}

/// What a single property read returned.
#[derive(Debug)]
pub enum Variant {
    Single(Scalar),
    Array(Vec<Scalar>),
    /// A value whose type tag this library does not know.
    Unknown { tag: u32 },
}

impl Scalar {
    /// The JSON content of a scalar: integers lose their width, a GUID is its text.
    pub open spec fn json(&self) -> Json {
        match *self {
            Scalar::Null => Json::Null,
            Scalar::Text(s) => Json::Text(s@),
            Scalar::Unsigned { value, .. } => Json::Number(value as int),
            Scalar::Signed { value, .. } => Json::Number(value as int),
            Scalar::Boolean(b) => Json::Bool(b),
            Scalar::Guid(s) => Json::Text(s@),
        }
    }

    /// Converts to JSON; every scalar has a JSON form.
    pub fn get_json_value(&self) -> (value: serde_json::Value)
        ensures
            json_model(value) == self.json(),
    {
        match self {
            Scalar::Null => json_null(),
            Scalar::Text(s) => json_text(s.clone()),
            Scalar::Unsigned { value, .. } => json_unsigned(*value),
            Scalar::Signed { value, .. } => json_signed(*value),
            Scalar::Boolean(b) => json_bool(*b),
            Scalar::Guid(s) => json_text(s.clone()),
        }
    }
}

impl Variant {
    /// The JSON content of a variant, or the error for a tag without one.
    pub open spec fn json(&self) -> Result<Json, WinThingError> {
        match *self {
            Variant::Single(s) => Ok(s.json()),
            Variant::Array(items) => Ok(
                Json::List(Seq::new(items@.len(), |i: int| items@[i].json())),
            ),
            Variant::Unknown { tag } => Err(WinThingError::UnsupportedVariant { tag }),
        }
    }

    /// Converts to JSON. Every known variant converts; an unknown tag is
    /// reported, never guessed at.
    pub fn get_json_value(&self) -> (out: Result<serde_json::Value, WinThingError>)
        ensures
            match out {
                Ok(value) => self.json() == Ok::<Json, WinThingError>(json_model(value)),
                Err(e) => self.json() == Err::<Json, WinThingError>(e),
            },
    {
        match self {
            Variant::Single(s) => Ok(s.get_json_value()),
            Variant::Array(items) => {
                let mut values: Vec<serde_json::Value> = Vec::new();
                let mut i: usize = 0;
                while i < items.len()
                    invariant
                        i <= items.len(),
                        values@.len() == i,
                        forall|j: int| 0 <= j < i ==> json_model(values@[j]) == items@[j].json(),
                    decreases items.len() - i,
                {
                    values.push(items[i].get_json_value());
                    i += 1;
                }
                let list = json_list(values);
                assert(json_models(values@) =~= Seq::new(
                    items@.len(),
                    |i: int| items@[i].json(),
                ));
                Ok(list)
            },
            Variant::Unknown { tag } => Err(WinThingError::UnsupportedVariant { tag: *tag }),
        }
    }
}

} // verus!
