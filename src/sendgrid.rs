//! Emails to several recipients for SendGrid.

use vstd::prelude::*;
use crate::json::{JsonValue, print_json, printed_json, numbers_ok, numbers_ok_items, numbers_ok_members};
use crate::fields::{
    FieldMap, object_with, build_error, written, is_text, numbers_ok_fields, lemma_numbers_ok_insert,
};

verus! {

/// `j` is an object with the one member `key`, whose value `is_value` holds of.
pub open spec fn single(j: JsonValue, key: Seq<char>, is_value: spec_fn(JsonValue) -> bool) -> bool {
    j matches JsonValue::Object(m) && m@.len() == 1 && m@[0].0@ == key && is_value(m@[0].1)
}

/// The recipient list `[{"to": [{"email": e}, ...]}]` of the addresses `emails`.
pub open spec fn is_recipients(emails: Seq<Seq<char>>) -> spec_fn(JsonValue) -> bool {
    |j: JsonValue|
        j matches JsonValue::Array(a) && a@.len() == 1 && single(
            a@[0],
            "to"@,
            |l: JsonValue|
                l matches JsonValue::Array(list) && list@.len() == emails.len() && forall|i: int|
                    0 <= i < emails.len() ==> single(#[trigger] list@[i], "email"@, is_text(emails[i])),
        )
}

/// The content list `[{"type": "text/html", "value": content}]`.
pub open spec fn is_html_content(content: Seq<char>) -> spec_fn(JsonValue) -> bool {
    |j: JsonValue|
        j matches JsonValue::Array(a) && a@.len() == 1 && (a@[0] matches JsonValue::Object(m)
            && m@.len() == 2 && m@[0].0@ == "type"@ && is_text("text/html"@)(m@[0].1) && m@[1].0@
            == "value"@ && is_text(content)(m@[1].1))
}

/// A content list whose text is not empty.
pub open spec fn filled_content(j: JsonValue) -> bool {
    j matches JsonValue::Array(a) && a@.len() == 1 && (a@[0] matches JsonValue::Object(m)
        && m@.len() == 2 && (m@[1].1 matches JsonValue::Str(s) && s@.len() > 0))
}

/// Whether the content list `j` holds text that is not empty.
fn has_text(j: &JsonValue) -> (r: bool)
    ensures
        r == filled_content(*j),
{
    match j {
        JsonValue::Array(a) => {
            if a.len() != 1 {
                return false;
            }
            match &a[0] {
                JsonValue::Object(m) => {
                    if m.len() != 2 {
                        return false;
                    }
                    match &m[1].1 {
                        JsonValue::Str(s) => !s.as_str().is_empty(),
                        _ => false,
                    }
                },
                _ => false,
            }
        },
        _ => false,
    }
}

/// `t` is the text that serde_json prints for a list that holds one object
/// made of exactly `fields`.
pub open spec fn printed_in_list(fields: Map<Seq<char>, JsonValue>, t: Seq<char>) -> bool {
    exists|j: JsonValue|
        j matches JsonValue::Array(a) && a@.len() == 1 && object_with(a@[0], fields) && t
            == #[trigger] printed_json(j)
}

/// The fields of an email: the recipients, the subject once set and the content.
#[derive(Debug)]
pub struct OutboundData {
    fields: FieldMap,
}

impl View for OutboundData {
    type V = Map<Seq<char>, JsonValue>;

    closed spec fn view(&self) -> Map<Seq<char>, JsonValue> {
        self.fields@
    }
}

/// `{"email": email}` for each address.
fn recipient_items(emails: &Vec<&str>) -> (r: Vec<JsonValue>)
    ensures
        r@.len() == emails@.len(),
        forall|i: int| 0 <= i < emails@.len() ==> single(#[trigger] r@[i], "email"@, is_text(emails@[i]@)),
        numbers_ok_items(r@),
{
    let mut out: Vec<JsonValue> = Vec::new();
    let mut i: usize = 0;
    while i < emails.len()
        invariant
            0 <= i <= emails@.len(),
            out@.len() == i,
            forall|k: int| 0 <= k < i ==> single(#[trigger] out@[k], "email"@, is_text(emails@[k]@)),
            forall|k: int| 0 <= k < i ==> numbers_ok(#[trigger] out@[k]),
        decreases emails@.len() - i,
    {
        let mut m: Vec<(String, JsonValue)> = Vec::new();
        m.push(("email".to_owned(), JsonValue::text(emails[i])));
        assert(numbers_ok_members(m@)) by {
            assert forall|k: int| 0 <= k < m@.len() implies #[trigger] numbers_ok(m@[k].1) by {
                assert(k == 0);
            }
        }
        out.push(JsonValue::Object(m));
        i = i + 1;
    }
    assert(numbers_ok_items(out@));
    out
}

impl OutboundData {
    /// Every field is made of text, so every number in the fields has integer text.
    #[verifier::type_invariant]
    closed spec fn wf(&self) -> bool {
        numbers_ok_fields(self.fields@)
    }

    /// Sets the content of the email, as HTML; an email takes content.
    pub fn content(self, content: &str) -> (r: OutboundData)
        ensures
            written(self@, r@, "content"@, is_html_content(content@)),
    {
        proof {
            use_type_invariant(&self);
        }
        let mut m: Vec<(String, JsonValue)> = Vec::new();
        m.push(("type".to_owned(), JsonValue::text("text/html")));
        m.push(("value".to_owned(), JsonValue::text(content)));
        assert(numbers_ok_members(m@)) by {
            assert forall|k: int| 0 <= k < m@.len() implies #[trigger] numbers_ok(m@[k].1) by {
                if k == 0 {
                } else {
                    assert(k == 1);
                }
            }
        }
        let mut a: Vec<JsonValue> = Vec::new();
        a.push(JsonValue::Object(m));
        assert(numbers_ok_items(a@)) by {
            assert forall|k: int| 0 <= k < a@.len() implies #[trigger] numbers_ok(a@[k]) by {
                assert(k == 0);
            }
        }
        let value = JsonValue::Array(a);
        proof {
            lemma_numbers_ok_insert(self.fields@, "content"@, value);
        }
        OutboundData { fields: self.fields.set("content".to_owned(), value) }
    }

    /// Sets the subject of the email, replacing an earlier one.
    pub fn subject(self, subject: &str) -> (r: OutboundData)
        ensures
            written(self@, r@, "subject"@, is_text(subject@)),
    {
        proof {
            use_type_invariant(&self);
        }
        let value = JsonValue::text(subject);
        proof {
            lemma_numbers_ok_insert(self.fields@, "subject"@, value);
        }
        OutboundData { fields: self.fields.set("subject".to_owned(), value) }
    }

    /// Prints the email as a JSON list of one object; it takes content that
    /// is not empty.
    pub fn build(self) -> (r: Result<String, String>)
        ensures
            !(self@.contains_key("content"@) && filled_content(self@["content"@])) ==> (r matches Err(
                e,
            ) && e@ == "OutboundData build failed: Content is empty"@),
            self@.contains_key("content"@) && filled_content(self@["content"@]) ==> (r matches Ok(t)
                && printed_in_list(self@, t@)),
    {
        proof {
            use_type_invariant(&self);
        }
        let filled = match self.fields.get("content") {
            Some(c) => has_text(c),
            None => false,
        };
        if !filled {
            return Err("OutboundData build failed: Content is empty".to_owned());
        }
        let ghost fields = self@;
        let object = self.fields.into_json();
        let mut a: Vec<JsonValue> = Vec::new();
        a.push(object);
        assert(numbers_ok_items(a@)) by {
            assert forall|k: int| 0 <= k < a@.len() implies #[trigger] numbers_ok(a@[k]) by {
                assert(k == 0);
            }
        }
        let j = JsonValue::Array(a);
        match print_json(&j) {
            Ok(t) => {
                assert(j matches JsonValue::Array(a) && a@.len() == 1 && object_with(a@[0], fields)
                    && t@ == printed_json(j));
                Ok(t)
            },
            Err(e) => Err(build_error(e.as_str())),
        }
    }
}

/// Sends an email to several addresses through SendGrid.
///
/// ```rust
/// outbound(vec!["ho-229@example.com"])
///     .subject("Hi")
///     .content("Hello world!")
///     .build()
/// ```
pub fn outbound(emails: Vec<&str>) -> (r: OutboundData)
    ensures
        written(Map::empty(), r@, "personalizations"@, is_recipients(emails@.map_values(|e: &str| e@))),
{
    let items = recipient_items(&emails);
    let mut to: Vec<(String, JsonValue)> = Vec::new();
    to.push(("to".to_owned(), JsonValue::Array(items)));
    assert(numbers_ok_members(to@)) by {
        assert forall|k: int| 0 <= k < to@.len() implies #[trigger] numbers_ok(to@[k].1) by {
            assert(k == 0);
        }
    }
    let mut a: Vec<JsonValue> = Vec::new();
    a.push(JsonValue::Object(to));
    assert(numbers_ok_items(a@)) by {
        assert forall|k: int| 0 <= k < a@.len() implies #[trigger] numbers_ok(a@[k]) by {
            assert(k == 0);
        }
    }
    let value = JsonValue::Array(a);
    proof {
        lemma_numbers_ok_insert(Map::empty(), "personalizations"@, value);
    }
    OutboundData { fields: FieldMap::with("personalizations", value) }
}

} // verus!
