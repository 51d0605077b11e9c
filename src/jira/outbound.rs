//! Request bodies for creating and changing Jira issues.

use vstd::prelude::*;
use crate::json::JsonValue;
use crate::fields::{
    FieldMap, emit, printed_object, written, is_text, numbers_ok_fields, lemma_numbers_ok_insert,
};

verus! {

/// The fields of a request body, gathered one setter at a time.
#[derive(Debug)]
pub struct OutboundData {
    fields: FieldMap,
}

impl View for OutboundData {
    type V = Map<Seq<char>, JsonValue>;

    closed spec fn view(&self) -> Map<Seq<char>, JsonValue> {
        self.fields@
    }
}

impl OutboundData {
    /// Every field is text, so every number in the fields has integer text.
    #[verifier::type_invariant]
    closed spec fn wf(&self) -> bool {
        numbers_ok_fields(self.fields@)
    }

    /// Writes the text `text` under `key`.
    fn with_text(self, key: &str, text: &str) -> (r: OutboundData)
        ensures
            written(self@, r@, key@, is_text(text@)),
    {
        proof {
            use_type_invariant(&self);
        }
        let value = JsonValue::text(text);
        proof {
            lemma_numbers_ok_insert(self.fields@, key@, value);
        }
        OutboundData { fields: self.fields.set(key.to_owned(), value) }
    }

    /// Sets the summary.
    pub fn summary(self, summary: &str) -> (r: OutboundData)
        ensures
            written(self@, r@, "summary"@, is_text(summary@)),
    {
        self.with_text("summary", summary)
    }

    /// Sets the description.
    pub fn description(self, description: &str) -> (r: OutboundData)
        ensures
            written(self@, r@, "description"@, is_text(description@)),
    {
        self.with_text("description", description)
    }

    /// Sets the transition; only a change of an issue uses it.
    pub fn transition(self, transition: &str) -> (r: OutboundData)
        ensures
            written(self@, r@, "transition"@, is_text(transition@)),
    {
        self.with_text("transition", transition)
    }

    /// Prints the body as a JSON object; it takes a field.
    pub fn build(self) -> (r: Result<String, String>)
        ensures
            self@.len() == 0 ==> (r matches Err(e) && e@ == "OutboundData build failed: empty field"@),
            self@.len() > 0 ==> (r matches Ok(t) && printed_object(self@, t@)),
    {
        proof {
            use_type_invariant(&self);
        }
        if self.fields.len() == 0 {
            return Err("OutboundData build failed: empty field".to_owned());
        }
        emit(self.fields)
    }
}

/// The body with the one text field `key`.
fn seeded(key: &str, text: &str) -> (r: OutboundData)
    ensures
        written(Map::empty(), r@, key@, is_text(text@)),
{
    let value = JsonValue::text(text);
    proof {
        lemma_numbers_ok_insert(Map::empty(), key@, value);
    }
    OutboundData { fields: FieldMap::with(key, value) }
}

/// Creates an issue with the summary.
pub fn create_issue(summary: &str) -> (r: OutboundData)
    ensures
        written(Map::empty(), r@, "summary"@, is_text(summary@)),
{
    seeded("summary", summary)
}

/// Changes the summary, the description or the transition of an issue.
pub fn modify_issue(issue_key: &str) -> (r: OutboundData)
    ensures
        written(Map::empty(), r@, "issue_key"@, is_text(issue_key@)),
{
    seeded("issue_key", issue_key)
}

} // verus!
