//! Request bodies for the Telegram Bot API.

use vstd::prelude::*;
use crate::json::{JsonValue, signed_decimal, signed_text, numbers_ok};
use crate::fields::{
    FieldMap, emit, printed_object, written, is_text, numbers_ok_fields, lemma_numbers_ok_insert,
};

verus! {

/// The fields of a request body: the target chat and what to do there.
#[derive(Debug)]
pub struct OutboundData {
    fields: FieldMap,
}

impl View for OutboundData {
    type V = Map<Seq<char>, JsonValue>;

    closed spec fn view(&self) -> Map<Seq<char>, JsonValue> {
        self.fields@
    }
}

/// The target chat of a request.
#[derive(Debug)]
pub enum ChatId {
    /// Unique identifier for the target chat.
    Id(i64),
    /// Username of the target chat (in the format `@channelusername`).
    Name(String),
}

impl From<i64> for ChatId {
    fn from(n: i64) -> ChatId {
        ChatId::Id(n)
    }
}

impl vstd::std_specs::convert::FromSpecImpl<i64> for ChatId {
    open spec fn obeys_from_spec() -> bool {
        true
    }

    open spec fn from_spec(v: i64) -> ChatId {
        ChatId::Id(v)
    }
}

impl From<String> for ChatId {
    fn from(n: String) -> ChatId {
        ChatId::Name(n)
    }
}

impl vstd::std_specs::convert::FromSpecImpl<String> for ChatId {
    open spec fn obeys_from_spec() -> bool {
        true
    }

    open spec fn from_spec(v: String) -> ChatId {
        ChatId::Name(v)
    }
}

impl ChatId {
    /// The text of the chat id: the number in decimal, or the name.
    pub open spec fn text(&self) -> Seq<char> {
        match self {
            ChatId::Id(n) => signed_decimal(*n as int),
            ChatId::Name(s) => s@,
        }
    }

    /// The text of the chat id: the number in decimal, or the name.
    pub fn to_string(&self) -> (r: String)
        ensures
            r@ == self.text(),
    {
        match self {
            ChatId::Id(n) => signed_text(*n),
            ChatId::Name(s) => s.clone(),
        }
    }
}

/// How Telegram reads entities in the text of a message.
#[derive(Debug, Clone, Copy, PartialEq, Eq)]
pub enum ParseMode {
    Markdown,
    MarkdownV2,
    HTML,
}

impl ParseMode {
    /// The name of the mode as the API spells it.
    pub open spec fn name(self) -> Seq<char> {
        match self {
            ParseMode::Markdown => "Markdown"@,
            ParseMode::MarkdownV2 => "MarkdownV2"@,
            ParseMode::HTML => "HTML"@,
        }
    }

    /// The name of the mode as the API spells it.
    pub fn as_str(self) -> (r: &'static str)
        ensures
            r@ == self.name(),
    {
        match self {
            ParseMode::Markdown => "Markdown",
            ParseMode::MarkdownV2 => "MarkdownV2",
            ParseMode::HTML => "HTML",
        }
    }
}

/// Sends a text message.
///
/// ```rust
/// outbound::message(ChatId::Id(message.chat.id), "__PONG\\!__")
///     .reply("42")
///     .parse_mode(ParseMode::MarkdownV2)
///     .build()
/// ```
pub fn message(chat_id: ChatId, text: &str) -> (r: OutboundData)
    ensures
        r@.dom() == set!["chat_id"@, "text"@],
        is_text(chat_id.text())(r@["chat_id"@]),
        is_text(text@)(r@["text"@]),
        numbers_ok_fields(r@),
{
    let id = JsonValue::Str(chat_id.to_string());
    let fields = FieldMap::with("chat_id", id).set("text".to_owned(), JsonValue::text(text));
    proof {
        assert(numbers_ok_fields(fields@));
        reveal_strlit("chat_id");
        reveal_strlit("text");
        assert("chat_id"@.len() != "text"@.len());
        assert(fields@.dom() =~= set!["chat_id"@, "text"@]);
    }
    OutboundData { fields }
}

/// Edits the text of a message.
///
/// ```rust
/// outbound::edit_message(ChatId::Id(message.chat.id), "42", "__PONG\\!__")
///     .parse_mode(ParseMode::MarkdownV2)
///     .build()
/// ```
pub fn edit_message(chat_id: ChatId, message_id: &str, text: &str) -> (r: OutboundData)
    ensures
        r@.dom() == set!["chat_id"@, "message_id"@, "text"@],
        is_text(chat_id.text())(r@["chat_id"@]),
        is_text(message_id@)(r@["message_id"@]),
        is_text(text@)(r@["text"@]),
        numbers_ok_fields(r@),
{
    let id = JsonValue::Str(chat_id.to_string());
    let fields = FieldMap::with("chat_id", id).set(
        "message_id".to_owned(),
        JsonValue::text(message_id),
    ).set("text".to_owned(), JsonValue::text(text));
    proof {
        assert(numbers_ok_fields(fields@));
        reveal_strlit("chat_id");
        reveal_strlit("message_id");
        reveal_strlit("text");
        assert("chat_id"@.len() != "text"@.len());
        assert("message_id"@.len() != "text"@.len());
        assert("message_id"@.len() != "chat_id"@.len());
        assert(fields@.dom() =~= set!["chat_id"@, "message_id"@, "text"@]);
    }
    OutboundData { fields }
}

/// Bans a user from a chat.
///
/// ```rust
/// outbound::ban(ChatId::Id(message.chat.id), "42").build()
/// ```
pub fn ban(chat_id: ChatId, user_id: &str) -> (r: OutboundData)
    ensures
        r@.dom() == set!["chat_id"@, "user_id"@],
        is_text(chat_id.text())(r@["chat_id"@]),
        is_text(user_id@)(r@["user_id"@]),
        numbers_ok_fields(r@),
{
    let id = JsonValue::Str(chat_id.to_string());
    let fields = FieldMap::with("chat_id", id).set("user_id".to_owned(), JsonValue::text(user_id));
    proof {
        assert(numbers_ok_fields(fields@));
        reveal_strlit("chat_id");
        reveal_strlit("user_id");
        assert("chat_id"@[0] != "user_id"@[0]);
        assert(fields@.dom() =~= set!["chat_id"@, "user_id"@]);
    }
    OutboundData { fields }
}

impl OutboundData {
    /// Writes `value` under `key`.
    fn with_field(self, key: &str, value: JsonValue) -> (r: OutboundData)
        ensures
            r@ == self@.insert(key@, value),
            numbers_ok_fields(self@) && numbers_ok(value) ==> numbers_ok_fields(r@),
    {
        proof {
            if numbers_ok_fields(self@) && numbers_ok(value) {
                lemma_numbers_ok_insert(self@, key@, value);
            }
        }
        OutboundData { fields: self.fields.set(key.to_owned(), value) }
    }

    /// Prints the body as a JSON object; it takes a field besides `chat_id`,
    /// and succeeds with one where every number in the fields has integer text.
    pub fn build(self) -> (r: Result<String, String>)
        ensures
            self@.len() < 2 ==> (r matches Err(e) && e@ == "OutboundData build failed: Too few fields"@),
            self@.len() >= 2 && numbers_ok_fields(self@) ==> (r matches Ok(t) && printed_object(self@, t@)),
            r matches Ok(t) ==> self@.len() >= 2 && printed_object(self@, t@),
    {
        if self.fields.len() < 2 {
            return Err("OutboundData build failed: Too few fields".to_owned());
        }
        emit(self.fields)
    }

    /// Replies to the message with the id `message_id`.
    pub fn reply(self, message_id: &str) -> (r: OutboundData)
        ensures
            written(self@, r@, "reply_to_message_id"@, is_text(message_id@)),
            numbers_ok_fields(self@) ==> numbers_ok_fields(r@),
    {
        self.with_field("reply_to_message_id", JsonValue::text(message_id))
    }

    /// Sets the mode for parsing entities in the message text.
    pub fn parse_mode(self, mode: ParseMode) -> (r: OutboundData)
        ensures
            written(self@, r@, "parse_mode"@, is_text(mode.name())),
            numbers_ok_fields(self@) ==> numbers_ok_fields(r@),
    {
        self.with_field("parse_mode", JsonValue::text(mode.as_str()))
    }

    /// Sets a field that no other setter covers.
    pub fn field(self, name: &str, value: JsonValue) -> (r: OutboundData)
        ensures
            r@ == self@.insert(name@, value),
            numbers_ok_fields(self@) && numbers_ok(value) ==> numbers_ok_fields(r@),
    {
        self.with_field(name, value)
    }
}

} // verus!
