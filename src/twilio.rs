//! Text messages for Twilio.

use vstd::prelude::*;
use crate::json::JsonValue;
use crate::fields::{
    FieldMap, emit, printed_object, written, is_text, numbers_ok_fields, lemma_numbers_ok_insert,
};

verus! {

/// The fields of a text message: `To`, and `Body` once it is set.
#[derive(Debug)]
pub struct OutboundData {
    fields: FieldMap,
}

impl View for OutboundData {
    type V = Map<Seq<char>, JsonValue>;

    closed spec fn view(&self) -> Map<Seq<char>, JsonValue> {
        self.fields@
    }
}

impl OutboundData {
    /// Every field is text, so every number in the fields has integer text.
    #[verifier::type_invariant]
    closed spec fn wf(&self) -> bool {
        numbers_ok_fields(self.fields@)
    }

    /// Sets the body.
    pub fn body(self, body: &str) -> (r: OutboundData)
        ensures
            written(self@, r@, "Body"@, is_text(body@)),
    {
        proof {
            use_type_invariant(&self);
        }
        let value = JsonValue::text(body);
        proof {
            lemma_numbers_ok_insert(self.fields@, "Body"@, value);
        }
        OutboundData { fields: self.fields.set("Body".to_owned(), value) }
    }

    /// Prints the message as a JSON object; it takes a body.
    pub fn build(self) -> (r: Result<String, String>)
        ensures
            !self@.contains_key("Body"@) ==> (r matches Err(e) && e@ == "OutboundData build failed: Body is empty"@),
            self@.contains_key("Body"@) ==> (r matches Ok(t) && printed_object(self@, t@)),
    {
        proof {
            use_type_invariant(&self);
        }
        if !self.fields.contains("Body") {
            return Err("OutboundData build failed: Body is empty".to_owned());
        }
        emit(self.fields)
    }
}

/// Sends a text message to `phone_number` through Twilio.
///
/// ```rust
/// outbound("+11234567890")
///     .body("This is a test message")
///     .build()
/// ```
pub fn outbound(phone_number: &str) -> (r: OutboundData)
    ensures
        written(Map::empty(), r@, "To"@, is_text(phone_number@)),
{
    let value = JsonValue::text(phone_number);
    proof {
        lemma_numbers_ok_insert(Map::empty(), "To"@, value);
    }
    OutboundData { fields: FieldMap::with("To", value) }
}

} // verus!
