//! Request bodies for GitHub's issue and pull request APIs.

use vstd::prelude::*;
use crate::json::{JsonValue, string_array, texts, numbers_ok};
use crate::fields::{
    FieldMap, emit, printed_object, written, is_text, is_number, lemma_written_names,
    numbers_ok_fields, lemma_numbers_ok_insert,
};

verus! {

/// The fields of a request body, gathered one setter at a time.
#[derive(Debug)]
pub struct OutboundData {
    fields: FieldMap,
}

impl View for OutboundData {
    type V = Map<Seq<char>, JsonValue>;

    closed spec fn view(&self) -> Map<Seq<char>, JsonValue> {
        self.fields@
    }
}

impl OutboundData {
    /// Writes `value` under `key`.
    fn with_field(self, key: &str, value: JsonValue) -> (r: OutboundData)
        ensures
            r@ == self@.insert(key@, value),
            numbers_ok_fields(self@) && numbers_ok(value) ==> numbers_ok_fields(r@),
    {
        proof {
            if numbers_ok_fields(self@) && numbers_ok(value) {
                lemma_numbers_ok_insert(self@, key@, value);
            }
        }
        OutboundData { fields: self.fields.set(key.to_owned(), value) }
    }

    /// Sets the issue or issue comment body.
    pub fn body(self, body: &str) -> (r: OutboundData)
        ensures
            written(self@, r@, "body"@, is_text(body@)),
            numbers_ok_fields(self@) ==> numbers_ok_fields(r@),
    {
        self.with_field("body", JsonValue::text(body))
    }

    /// Sets the milestone.
    pub fn milestone(self, milestone: JsonValue) -> (r: OutboundData)
        ensures
            r@ == self@.insert("milestone"@, milestone),
            numbers_ok_fields(self@) && numbers_ok(milestone) ==> numbers_ok_fields(r@),
    {
        self.with_field("milestone", milestone)
    }

    /// Sets the labels.
    pub fn labels(self, labels: Vec<&str>) -> (r: OutboundData)
        ensures
            written(self@, r@, "labels"@, |j: JsonValue| string_array(j, texts(labels@))),
            numbers_ok_fields(self@) ==> numbers_ok_fields(r@),
    {
        self.with_field("labels", JsonValue::strings(&labels))
    }

    /// Sets the assignees.
    pub fn assignees(self, assignees: Vec<&str>) -> (r: OutboundData)
        ensures
            written(self@, r@, "assignees"@, |j: JsonValue| string_array(j, texts(assignees@))),
            numbers_ok_fields(self@) ==> numbers_ok_fields(r@),
    {
        self.with_field("assignees", JsonValue::strings(&assignees))
    }

    /// Prints the body as a JSON object; it takes at least two fields, and
    /// succeeds with them where every number in them has integer text.
    pub fn build(self) -> (r: Result<String, String>)
        ensures
            self@.len() < 2 ==> (r matches Err(e) && e@ == "OutboundData build failed: Too few fields"@),
            self@.len() >= 2 && numbers_ok_fields(self@) ==> (r matches Ok(t) && printed_object(self@, t@)),
            r matches Ok(t) ==> self@.len() >= 2 && printed_object(self@, t@),
    {
        if self.fields.len() < 2 {
            return Err("OutboundData build failed: Too few fields".to_owned());
        }
        emit(self.fields)
    }
}

/// Creates an issue with the title.
pub fn create_issue(title: &str) -> (r: OutboundData)
    ensures
        written(Map::empty(), r@, "title"@, is_text(title@)),
        numbers_ok_fields(r@),
{
    let value = JsonValue::text(title);
    proof {
        lemma_numbers_ok_insert(Map::empty(), "title"@, value);
    }
    OutboundData { fields: FieldMap::with("title", value) }
}

/// Modifies an issue: changes its assignees or labels, comments on it, and so on.
pub fn modify_issue(issue_number: u32) -> (r: OutboundData)
    ensures
        written(Map::empty(), r@, "issue_number"@, is_number(issue_number as nat)),
        numbers_ok_fields(r@),
{
    let value = JsonValue::unsigned(issue_number as u64);
    proof {
        lemma_numbers_ok_insert(Map::empty(), "issue_number"@, value);
    }
    OutboundData { fields: FieldMap::with("issue_number", value) }
}

/// Merges a pull request.
pub fn merge_pull(pull_number: u32) -> (r: OutboundData)
    ensures
        written(Map::empty(), r@, "pull_number"@, is_number(pull_number as nat)),
        numbers_ok_fields(r@),
{
    let value = JsonValue::unsigned(pull_number as u64);
    proof {
        lemma_numbers_ok_insert(Map::empty(), "pull_number"@, value);
    }
    OutboundData { fields: FieldMap::with("pull_number", value) }
}

/// An issue created with a title and then given labels, a milestone,
/// assignees and a body holds exactly those five fields, whatever their
/// values; `build` prints an object of exactly these fields.
pub proof fn lemma_issue_fields(
    m0: Map<Seq<char>, JsonValue>,
    m1: Map<Seq<char>, JsonValue>,
    m2: Map<Seq<char>, JsonValue>,
    m3: Map<Seq<char>, JsonValue>,
    m4: Map<Seq<char>, JsonValue>,
    title: Seq<char>,
    labels: Seq<Seq<char>>,
    milestone: JsonValue,
    assignees: Seq<Seq<char>>,
    body: Seq<char>,
)
    requires
        written(Map::empty(), m0, "title"@, is_text(title)),
        written(m0, m1, "labels"@, |j: JsonValue| string_array(j, labels)),
        m2 == m1.insert("milestone"@, milestone),
        written(m2, m3, "assignees"@, |j: JsonValue| string_array(j, assignees)),
        written(m3, m4, "body"@, is_text(body)),
    ensures
        m4.dom() == set!["title"@, "labels"@, "milestone"@, "assignees"@, "body"@],
{
    lemma_written_names(Map::empty(), m0, "title"@, is_text(title));
    lemma_written_names(m0, m1, "labels"@, |j: JsonValue| string_array(j, labels));
    lemma_written_names(m2, m3, "assignees"@, |j: JsonValue| string_array(j, assignees));
    lemma_written_names(m3, m4, "body"@, is_text(body));
    assert(m4.dom() =~= set!["title"@, "labels"@, "milestone"@, "assignees"@, "body"@]);
}

} // verus!
