//! Pages for Notion databases.

use vstd::prelude::*;
use crate::json::JsonValue;
use crate::fields::{
    FieldMap, emit, printed_object, written, is_text, numbers_ok_fields, lemma_numbers_ok_insert,
};

verus! {

/// The properties of a new page, by name.
#[derive(Debug)]
pub struct OutboundData {
    fields: FieldMap,
}

impl View for OutboundData {
    type V = Map<Seq<char>, JsonValue>;

    closed spec fn view(&self) -> Map<Seq<char>, JsonValue> {
        self.fields@
    }
}

impl OutboundData {
    /// Every property is text, so every number in the fields has integer text.
    #[verifier::type_invariant]
    closed spec fn wf(&self) -> bool {
        numbers_ok_fields(self.fields@)
    }

    /// Sets the content of a property, creating the property if it is new.
    pub fn property(self, property: &str, content: &str) -> (r: OutboundData)
        ensures
            written(self@, r@, property@, is_text(content@)),
    {
        proof {
            use_type_invariant(&self);
        }
        let value = JsonValue::text(content);
        proof {
            lemma_numbers_ok_insert(self.fields@, property@, value);
        }
        OutboundData { fields: self.fields.set(property.to_owned(), value) }
    }

    /// The former name of [`OutboundData::property`], which says better what it does.
    pub fn page(self, property: &str, content: &str) -> (r: OutboundData)
        ensures
            written(self@, r@, property@, is_text(content@)),
    {
        self.property(property, content)
    }

    /// Prints the page as a JSON object; it takes a property.
    pub fn build(self) -> (r: Result<String, String>)
        ensures
            self@.len() == 0 ==> (r matches Err(e) && e@ == "OutboundData build failed: No properties to create a page"@),
            self@.len() > 0 ==> (r matches Ok(t) && printed_object(self@, t@)),
    {
        proof {
            use_type_invariant(&self);
        }
        if self.fields.len() == 0 {
            return Err("OutboundData build failed: No properties to create a page".to_owned());
        }
        emit(self.fields)
    }
}

/// Creates a page of a Notion database.
///
/// ```rust
/// outbound()
///     .property("Name", "ho-229")
///     .property("Email", "ho-229@example.com")
///     .build()
/// ```
pub fn outbound() -> (r: OutboundData)
    ensures
        r@ == Map::<Seq<char>, JsonValue>::empty(),
{
    OutboundData { fields: FieldMap::new() }
}

} // verus!
