//! Request bodies that send or reply to a Discord message.

use vstd::prelude::*;
use crate::json::{JsonValue, print_json, printed_json, numbers_ok, numbers_ok_members};
use crate::encode::{ToJson, named_at, value_at, member_count};
use crate::fields::{build_error, is_text};
use crate::discord::InboundData;

verus! {

/// A message to send: its content, and the tree of the message it replies to
/// (`null` where it replies to none).
#[derive(Debug)]
pub struct OutboundData {
    content: String,
    reply_to: JsonValue,
}

/// What a message to send holds before it is printed.
pub struct SayView {
    pub content: Seq<char>,
    pub reply_to: JsonValue,
}

impl View for OutboundData {
    type V = SayView;

    closed spec fn view(&self) -> SayView {
        SayView { content: self.content@, reply_to: self.reply_to }
    }
}

/// `j` is `{"content": content, "reply_to": reply_to}`.
pub open spec fn is_say(v: SayView, j: JsonValue) -> bool {
    &&& member_count(j) == 2
    &&& named_at(j, 0, "content"@) && is_text(v.content)(value_at(j, 0))
    &&& named_at(j, 1, "reply_to"@) && value_at(j, 1) == v.reply_to
}

impl OutboundData {
    /// Prints the message as a JSON object; it succeeds where every number in
    /// the message replied to has integer text.
    pub fn build(self) -> (r: Result<String, String>)
        ensures
            r matches Ok(t) ==> exists|j: JsonValue| is_say(self@, j) && t@ == #[trigger] printed_json(j),
            numbers_ok(self@.reply_to) ==> r is Ok,
    {
        let ghost v = self@;
        let mut m: Vec<(String, JsonValue)> = Vec::new();
        m.push(("content".to_owned(), JsonValue::Str(self.content)));
        m.push(("reply_to".to_owned(), self.reply_to));
        proof {
            if numbers_ok(v.reply_to) {
                assert forall|k: int| 0 <= k < m@.len() implies #[trigger] numbers_ok(m@[k].1) by {
                    if k == 0 {
                    } else {
                        assert(k == 1);
                    }
                }
                assert(numbers_ok_members(m@));
            }
        }
        let j = JsonValue::Object(m);
        match print_json(&j) {
            Ok(t) => {
                assert(is_say(v, j) && t@ == printed_json(j));
                Ok(t)
            },
            Err(e) => Err(build_error(e.as_str())),
        }
    }
}

/// Sends a message, or replies to one.
///
/// ```rust
/// outbound::say("hello world", None)
///     .build()
/// ```
pub fn say(content: &str, reply_to: Option<InboundData>) -> (r: OutboundData)
    ensures
        r@.content == content@,
        Option::<InboundData>::encoded(reply_to, r@.reply_to),
{
    OutboundData { content: content.to_owned(), reply_to: reply_to.to_json() }
}

} // verus!
