//! Turning typed records back into JSON trees.
//!
//! Each encodable type states, as a spec function, which tree stands for a
//! value: a record is an object with one member per field, in the order of
//! the fields, and an absent optional field is `null`.

use vstd::prelude::*;
use crate::json::{JsonValue, decimal, same};

verus! {

/// A type that can be written as a JSON tree.
pub trait ToJson: Sized {
    /// Whether `j` is the tree that stands for `v`.
    spec fn encoded(v: Self, j: JsonValue) -> bool;

    /// The tree that stands for the value.
    fn to_json(&self) -> (r: JsonValue)
        ensures
            Self::encoded(*self, r),
    ;
}

impl ToJson for String {
    open spec fn encoded(v: String, j: JsonValue) -> bool {
        j matches JsonValue::Str(s) && s@ == v@
    }

    fn to_json(&self) -> (r: JsonValue) {
        JsonValue::Str(self.clone())
    }
}

impl ToJson for bool {
    open spec fn encoded(v: bool, j: JsonValue) -> bool {
        j matches JsonValue::Bool(b) && b == v
    }

    fn to_json(&self) -> (r: JsonValue) {
        JsonValue::Bool(*self)
    }
}

impl ToJson for u32 {
    open spec fn encoded(v: u32, j: JsonValue) -> bool {
        j matches JsonValue::Number(t) && t@ == decimal(v as nat)
    }

    fn to_json(&self) -> (r: JsonValue) {
        JsonValue::unsigned(*self as u64)
    }
}

impl ToJson for u64 {
    open spec fn encoded(v: u64, j: JsonValue) -> bool {
        j matches JsonValue::Number(t) && t@ == decimal(v as nat)
    }

    fn to_json(&self) -> (r: JsonValue) {
        JsonValue::unsigned(*self)
    }
}

impl ToJson for JsonValue {
    open spec fn encoded(v: JsonValue, j: JsonValue) -> bool {
        same(v, j)
    }

    fn to_json(&self) -> (r: JsonValue) {
        self.duplicate()
    }
}

impl<T: ToJson> ToJson for Option<T> {
    open spec fn encoded(v: Option<T>, j: JsonValue) -> bool {
        match v {
            None => j is Null,
            Some(x) => T::encoded(x, j),
        }
    }

    fn to_json(&self) -> (r: JsonValue) {
        match self {
            None => JsonValue::Null,
            Some(x) => x.to_json(),
        }
    }
}

/// Each item of `a` stands for the item of `v` at its position.
pub open spec fn items_encoded<T: ToJson>(v: Seq<T>, a: Seq<JsonValue>) -> bool {
    a.len() == v.len() && forall|i: int| 0 <= i < v.len() ==> #[trigger] T::encoded(v[i], a[i])
}

/// The trees of the items of `v`.
pub fn encode_items<T: ToJson>(v: &Vec<T>) -> (r: Vec<JsonValue>)
    ensures
        items_encoded(v@, r@),
{
    let mut out: Vec<JsonValue> = Vec::new();
    let mut i: usize = 0;
    while i < v.len()
        invariant
            0 <= i <= v@.len(),
            out@.len() == i,
            forall|k: int| 0 <= k < i ==> T::encoded(v@[k], #[trigger] out@[k]),
        decreases v@.len() - i,
    {
        out.push(v[i].to_json());
        i = i + 1;
    }
    out
}

impl<T: ToJson> ToJson for Vec<T> {
    open spec fn encoded(v: Vec<T>, j: JsonValue) -> bool {
        j matches JsonValue::Array(a) && items_encoded(v@, a@)
    }

    fn to_json(&self) -> (r: JsonValue) {
        JsonValue::Array(encode_items(self))
    }
}

/// The member at position `i` of the object `j` is named `key`.
pub open spec fn named_at(j: JsonValue, i: int, key: Seq<char>) -> bool {
    j matches JsonValue::Object(m) && 0 <= i < m@.len() && m@[i].0@ == key
}

/// The value of the member at position `i` of the object `j`.
pub open spec fn value_at(j: JsonValue, i: int) -> JsonValue {
    j->Object_0@[i].1
}

/// The number of members of the object `j`.
pub open spec fn member_count(j: JsonValue) -> int {
    match j {
        JsonValue::Object(m) => m@.len() as int,
        _ => -1,
    }
}

} // verus!
