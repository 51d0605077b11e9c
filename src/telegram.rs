//! Telegram bot updates, and request bodies for the Bot API.
//!
//! An update names its kind by its one member: `message`, `edited_message`,
//! `channel_post`, `edited_channel_post`, `my_chat_member`, `chat_member` or
//! `chat_join_request`.

use vstd::prelude::*;
use crate::json::{JsonValue, parse_json, parsed_json, member, get_member, lemma_member_decreases};
use crate::decode::{
    FromJson, required, required_is, optional, optional_is, defaulted, defaulted_is, extra_is,
    required_member, optional_member, defaulted_member, expect_object, extra_members,
    with_reason, starts_with, names, at_member,
};

pub mod outbound;

verus! {

/// A Telegram user or bot.
#[derive(Debug)]
pub struct User {
    /// Unique identifier for this user or bot.
    pub id: u64,
    /// True, if this user is a bot.
    pub is_bot: bool,
    /// User's or bot's first name.
    pub first_name: String,
    /// User's or bot's username.
    pub username: Option<String>,
    /// [IETF language tag](https://en.wikipedia.org/wiki/IETF_language_tag).
    pub language_code: Option<String>,
    /// True, if this user is a Telegram Premium user.
    pub is_premium: bool,
    /// True, if this user added the bot to the attachment menu.
    pub added_to_attachment_menu: bool,
}

impl FromJson for User {
    open spec fn accepts(j: JsonValue) -> bool {
        &&& j is Object
        &&& required::<u64>(j, "id"@)
        &&& required::<bool>(j, "is_bot"@)
        &&& required::<String>(j, "first_name"@)
        &&& optional::<String>(j, "username"@)
        &&& optional::<String>(j, "language_code"@)
        &&& defaulted::<bool>(j, "is_premium"@)
        &&& defaulted::<bool>(j, "added_to_attachment_menu"@)
    }

    open spec fn decodes_to(j: JsonValue, v: User) -> bool {
        &&& required_is(j, "id"@, v.id)
        &&& required_is(j, "is_bot"@, v.is_bot)
        &&& required_is(j, "first_name"@, v.first_name)
        &&& optional_is(j, "username"@, v.username)
        &&& optional_is(j, "language_code"@, v.language_code)
        &&& defaulted_is(j, "is_premium"@, v.is_premium, |x: bool| !x)
        &&& defaulted_is(j, "added_to_attachment_menu"@, v.added_to_attachment_menu, |x: bool| !x)
    }

    fn from_json(j: &JsonValue) -> (r: Result<User, String>) {
        expect_object(j)?;
        let id = required_member::<u64>(j, "id")?;
        let is_bot = required_member::<bool>(j, "is_bot")?;
        let first_name = required_member::<String>(j, "first_name")?;
        let username = optional_member::<String>(j, "username")?;
        let language_code = optional_member::<String>(j, "language_code")?;
        let is_premium = defaulted_member::<bool>(j, "is_premium", false)?;
        let added_to_attachment_menu = defaulted_member::<bool>(j, "added_to_attachment_menu", false)?;
        Ok(User {
            id,
            is_bot,
            first_name,
            username,
            language_code,
            is_premium,
            added_to_attachment_menu,
        })
    }
}

/// A chat.
#[derive(Debug)]
pub struct Chat {
    /// Unique identifier for this chat.
    pub id: i64,
    /// Type of chat: "private", "group", "supergroup" or "channel".
    pub kind: String,
    /// Title, for supergroups, channels and group chats.
    pub title: Option<String>,
    /// Username, for private chats, supergroups and channels if available.
    pub username: Option<String>,
    /// First name of the other party in a private chat.
    pub first_name: Option<String>,
    /// Last name of the other party in a private chat.
    pub last_name: Option<String>,
}

impl FromJson for Chat {
    open spec fn accepts(j: JsonValue) -> bool {
        &&& j is Object
        &&& required::<i64>(j, "id"@)
        &&& required::<String>(j, "type"@)
        &&& optional::<String>(j, "title"@)
        &&& optional::<String>(j, "username"@)
        &&& optional::<String>(j, "first_name"@)
        &&& optional::<String>(j, "last_name"@)
    }

    open spec fn decodes_to(j: JsonValue, v: Chat) -> bool {
        &&& required_is(j, "id"@, v.id)
        &&& required_is(j, "type"@, v.kind)
        &&& optional_is(j, "title"@, v.title)
        &&& optional_is(j, "username"@, v.username)
        &&& optional_is(j, "first_name"@, v.first_name)
        &&& optional_is(j, "last_name"@, v.last_name)
    }

    fn from_json(j: &JsonValue) -> (r: Result<Chat, String>) {
        expect_object(j)?;
        let id = required_member::<i64>(j, "id")?;
        let kind = required_member::<String>(j, "type")?;
        let title = optional_member::<String>(j, "title")?;
        let username = optional_member::<String>(j, "username")?;
        let first_name = optional_member::<String>(j, "first_name")?;
        let last_name = optional_member::<String>(j, "last_name")?;
        Ok(Chat {
            id,
            kind,
            title,
            username,
            first_name,
            last_name,
        })
    }
}

/// A special entity in the text of a message: a hashtag, a link, and so on.
#[derive(Debug)]
pub struct MessageEntity {
    /// Type of the entity, such as "mention", "hashtag", "bot_command", "url" or "bold".
    pub kind: String,
    /// Offset in UTF-16 code units to the start of the entity.
    pub offset: i64,
    /// Length of the entity in UTF-16 code units.
    pub length: i64,
    /// For "text_link" only, the URL that opens when the user taps the text.
    pub url: Option<String>,
    /// For "text_mention" only, the mentioned user.
    pub user: Option<User>,
    /// For "pre" only, the programming language of the entity text.
    pub language: Option<String>,
}

impl FromJson for MessageEntity {
    open spec fn accepts(j: JsonValue) -> bool {
        &&& j is Object
        &&& required::<String>(j, "type"@)
        &&& required::<i64>(j, "offset"@)
        &&& required::<i64>(j, "length"@)
        &&& optional::<String>(j, "url"@)
        &&& optional::<User>(j, "user"@)
        &&& optional::<String>(j, "language"@)
    }

    open spec fn decodes_to(j: JsonValue, v: MessageEntity) -> bool {
        &&& required_is(j, "type"@, v.kind)
        &&& required_is(j, "offset"@, v.offset)
        &&& required_is(j, "length"@, v.length)
        &&& optional_is(j, "url"@, v.url)
        &&& optional_is(j, "user"@, v.user)
        &&& optional_is(j, "language"@, v.language)
    }

    fn from_json(j: &JsonValue) -> (r: Result<MessageEntity, String>) {
        expect_object(j)?;
        let kind = required_member::<String>(j, "type")?;
        let offset = required_member::<i64>(j, "offset")?;
        let length = required_member::<i64>(j, "length")?;
        let url = optional_member::<String>(j, "url")?;
        let user = optional_member::<User>(j, "user")?;
        let language = optional_member::<String>(j, "language")?;
        Ok(MessageEntity {
            kind,
            offset,
            length,
            url,
            user,
            language,
        })
    }
}

/// A message.
#[derive(Debug)]
pub struct Message {
    /// Unique message identifier inside this chat.
    pub message_id: i64,
    /// Conversation the message belongs to.
    pub chat: Chat,
    /// Date the message was sent in Unix time.
    pub date: u64,
    /// Sender of the message; empty for messages sent to channels.
    pub from: Option<User>,
    /// Sender of the message, when sent on behalf of a chat.
    pub sender_chat: Option<Chat>,
    /// For text messages, the text.
    pub text: String,
    /// For forwarded messages, the sender of the original message.
    pub forward_from: Option<User>,
    /// For messages forwarded from channels or from anonymous administrators, the original sender chat.
    pub forward_from_chat: Option<Chat>,
    /// For messages forwarded from channels, the identifier of the original message in the channel.
    pub forward_from_message_id: Option<i64>,
    /// For forwarded messages, date the original message was sent in Unix time.
    pub forward_date: Option<u64>,
    /// For replies, the original message.
    /// Telegram does not fill this field in the original message again, though the schema allows it.
    pub reply_to_message: Option<Box<Message>>,
    /// Bot through which the message was sent.
    pub via_bot: Option<User>,
    /// Date the message was last edited in Unix time.
    pub edit_date: Option<u64>,
    /// New members that were added to the group or supergroup.
    pub new_chat_members: Vec<User>,
    /// A member was removed from the group.
    pub left_chat_member: Option<User>,
    /// Special entities in the text.
    pub entities: Vec<MessageEntity>,
}

/// Whether `j` decodes as a [`Message`], together with the messages it refers to.
pub open spec fn message_accepts(j: JsonValue) -> bool
    decreases j via message_accepts_decreases
{
    &&& j is Object
    &&& required::<i64>(j, "message_id"@)
    &&& required::<Chat>(j, "chat"@)
    &&& required::<u64>(j, "date"@)
    &&& optional::<User>(j, "from"@)
    &&& optional::<Chat>(j, "sender_chat"@)
    &&& defaulted::<String>(j, "text"@)
    &&& optional::<User>(j, "forward_from"@)
    &&& optional::<Chat>(j, "forward_from_chat"@)
    &&& optional::<i64>(j, "forward_from_message_id"@)
    &&& optional::<u64>(j, "forward_date"@)
    &&& match member(j, "reply_to_message"@) {
        None => true,
        Some(x) => x is Null || message_accepts(x),
    }
    &&& optional::<User>(j, "via_bot"@)
    &&& optional::<u64>(j, "edit_date"@)
    &&& defaulted::<Vec<User>>(j, "new_chat_members"@)
    &&& optional::<User>(j, "left_chat_member"@)
    &&& defaulted::<Vec<MessageEntity>>(j, "entities"@)
}

/// Whether `v` is the [`Message`] that `j` decodes to.
pub open spec fn message_decodes_to(j: JsonValue, v: Message) -> bool
    decreases j via message_decodes_to_decreases
{
    &&& required_is(j, "message_id"@, v.message_id)
    &&& required_is(j, "chat"@, v.chat)
    &&& required_is(j, "date"@, v.date)
    &&& optional_is(j, "from"@, v.from)
    &&& optional_is(j, "sender_chat"@, v.sender_chat)
    &&& defaulted_is(j, "text"@, v.text, |x: String| x@.len() == 0)
    &&& optional_is(j, "forward_from"@, v.forward_from)
    &&& optional_is(j, "forward_from_chat"@, v.forward_from_chat)
    &&& optional_is(j, "forward_from_message_id"@, v.forward_from_message_id)
    &&& optional_is(j, "forward_date"@, v.forward_date)
    &&& match member(j, "reply_to_message"@) {
        None => v.reply_to_message is None,
        Some(x) => match v.reply_to_message {
            None => x is Null,
            Some(b) => !(x is Null) && message_decodes_to(x, *b),
        },
    }
    &&& optional_is(j, "via_bot"@, v.via_bot)
    &&& optional_is(j, "edit_date"@, v.edit_date)
    &&& defaulted_is(j, "new_chat_members"@, v.new_chat_members, |x: Vec<User>| x@.len() == 0)
    &&& optional_is(j, "left_chat_member"@, v.left_chat_member)
    &&& defaulted_is(j, "entities"@, v.entities, |x: Vec<MessageEntity>| x@.len() == 0)
}

#[via_fn]
proof fn message_accepts_decreases(j: JsonValue) {
    lemma_member_decreases(j, "reply_to_message"@);
}

#[via_fn]
proof fn message_decodes_to_decreases(j: JsonValue, v: Message) {
    lemma_member_decreases(j, "reply_to_message"@);
}

/// Decodes a [`Message`], together with the messages it refers to.
fn decode_message(j: &JsonValue) -> (r: Result<Message, String>)
    ensures
        r is Ok <==> message_accepts(*j),
        r matches Ok(v) ==> message_decodes_to(*j, v),
    decreases j,
{
    expect_object(j)?;
    let message_id = required_member::<i64>(j, "message_id")?;
    let chat = required_member::<Chat>(j, "chat")?;
    let date = required_member::<u64>(j, "date")?;
    let from = optional_member::<User>(j, "from")?;
    let sender_chat = optional_member::<Chat>(j, "sender_chat")?;
    let text = defaulted_member::<String>(j, "text", String::new())?;
    let forward_from = optional_member::<User>(j, "forward_from")?;
    let forward_from_chat = optional_member::<Chat>(j, "forward_from_chat")?;
    let forward_from_message_id = optional_member::<i64>(j, "forward_from_message_id")?;
    let forward_date = optional_member::<u64>(j, "forward_date")?;
    let reply_to_message = match get_member(j, "reply_to_message") {
        None => None,
        Some(JsonValue::Null) => None,
        Some(x) => {
            proof {
                lemma_member_decreases(*j, "reply_to_message"@);
            }
            match decode_message(x) {
                Ok(m) => Some(Box::new(m)),
                Err(e) => return Err(at_member("reply_to_message", e)),
            }
        },
    };
    let via_bot = optional_member::<User>(j, "via_bot")?;
    let edit_date = optional_member::<u64>(j, "edit_date")?;
    let new_chat_members = defaulted_member::<Vec<User>>(j, "new_chat_members", Vec::new())?;
    let left_chat_member = optional_member::<User>(j, "left_chat_member")?;
    let entities = defaulted_member::<Vec<MessageEntity>>(j, "entities", Vec::new())?;
    Ok(Message {
        message_id,
        chat,
        date,
        from,
        sender_chat,
        text,
        forward_from,
        forward_from_chat,
        forward_from_message_id,
        forward_date,
        reply_to_message,
        via_bot,
        edit_date,
        new_chat_members,
        left_chat_member,
        entities,
    })
}

impl FromJson for Message {
    open spec fn accepts(j: JsonValue) -> bool {
        message_accepts(j)
    }

    open spec fn decodes_to(j: JsonValue, v: Message) -> bool {
        message_decodes_to(j, v)
    }

    fn from_json(j: &JsonValue) -> (r: Result<Message, String>) {
        decode_message(j)
    }
}

/// An invite link for a chat.
#[derive(Debug)]
pub struct ChatInviteLink {
    /// The invite link.
    pub invite_link: String,
    /// Creator of the link.
    pub creator: User,
    /// True, if users joining via the link need to be approved by chat administrators.
    pub creates_join_request: bool,
    /// True, if the link is primary.
    pub is_primary: bool,
    /// True, if the link is revoked.
    pub is_revoked: bool,
    /// Invite link name.
    pub name: Option<String>,
    /// Point in time (Unix timestamp) when the link expires or expired.
    pub expire_date: Option<u64>,
    /// The most users that can be members of the chat at once after joining via this link; 1-99999.
    pub member_limit: Option<u64>,
    /// Number of pending join requests created using this link.
    pub pending_join_request_count: Option<u64>,
}

impl FromJson for ChatInviteLink {
    open spec fn accepts(j: JsonValue) -> bool {
        &&& j is Object
        &&& required::<String>(j, "invite_link"@)
        &&& required::<User>(j, "creator"@)
        &&& required::<bool>(j, "creates_join_request"@)
        &&& required::<bool>(j, "is_primary"@)
        &&& required::<bool>(j, "is_revoked"@)
        &&& optional::<String>(j, "name"@)
        &&& optional::<u64>(j, "expire_date"@)
        &&& optional::<u64>(j, "member_limit"@)
        &&& optional::<u64>(j, "pending_join_request_count"@)
    }

    open spec fn decodes_to(j: JsonValue, v: ChatInviteLink) -> bool {
        &&& required_is(j, "invite_link"@, v.invite_link)
        &&& required_is(j, "creator"@, v.creator)
        &&& required_is(j, "creates_join_request"@, v.creates_join_request)
        &&& required_is(j, "is_primary"@, v.is_primary)
        &&& required_is(j, "is_revoked"@, v.is_revoked)
        &&& optional_is(j, "name"@, v.name)
        &&& optional_is(j, "expire_date"@, v.expire_date)
        &&& optional_is(j, "member_limit"@, v.member_limit)
        &&& optional_is(j, "pending_join_request_count"@, v.pending_join_request_count)
    }

    fn from_json(j: &JsonValue) -> (r: Result<ChatInviteLink, String>) {
        expect_object(j)?;
        let invite_link = required_member::<String>(j, "invite_link")?;
        let creator = required_member::<User>(j, "creator")?;
        let creates_join_request = required_member::<bool>(j, "creates_join_request")?;
        let is_primary = required_member::<bool>(j, "is_primary")?;
        let is_revoked = required_member::<bool>(j, "is_revoked")?;
        let name = optional_member::<String>(j, "name")?;
        let expire_date = optional_member::<u64>(j, "expire_date")?;
        let member_limit = optional_member::<u64>(j, "member_limit")?;
        let pending_join_request_count = optional_member::<u64>(j, "pending_join_request_count")?;
        Ok(ChatInviteLink {
            invite_link,
            creator,
            creates_join_request,
            is_primary,
            is_revoked,
            name,
            expire_date,
            member_limit,
            pending_join_request_count,
        })
    }
}

/// Information about one member of a chat.
#[derive(Debug)]
pub struct ChatMember {
    /// Status of the member: "creator", "administrator", "member", "restricted", "left" or "kicked".
    pub status: String,
    /// Information about the user.
    pub user: User,
    /// The members that no other field takes, in the order of the payload.
    pub extra: Vec<(String, JsonValue)>,
}

/// The names of the members that a field of [`ChatMember`] takes.
pub open spec fn chat_member_fields() -> Seq<Seq<char>> {
    seq![
        "status"@,
        "user"@,
    ]
}

impl FromJson for ChatMember {
    open spec fn accepts(j: JsonValue) -> bool {
        &&& j is Object
        &&& required::<String>(j, "status"@)
        &&& required::<User>(j, "user"@)
    }

    open spec fn decodes_to(j: JsonValue, v: ChatMember) -> bool {
        &&& required_is(j, "status"@, v.status)
        &&& required_is(j, "user"@, v.user)
        &&& extra_is(j, chat_member_fields(), v.extra@)
    }

    fn from_json(j: &JsonValue) -> (r: Result<ChatMember, String>) {
        expect_object(j)?;
        let status = required_member::<String>(j, "status")?;
        let user = required_member::<User>(j, "user")?;
        let known: [&str; 2] = [
            "status",
            "user",
        ];
        assert(names(known@) =~= chat_member_fields());
        let extra = extra_members(j, &known);
        Ok(ChatMember {
            status,
            user,
            extra,
        })
    }
}

/// A change in the status of a chat member.
#[derive(Debug)]
pub struct ChatMemberUpdated {
    /// Chat the user belongs to.
    pub chat: Chat,
    /// Performer of the action, which resulted in the change.
    pub from: User,
    /// Date the change was done in Unix time.
    pub date: u64,
    /// Previous information about the chat member.
    pub old_chat_member: ChatMember,
    /// New information about the chat member.
    pub new_chat_member: ChatMember,
    /// Chat invite link that the user joined by, for joins by invite link only.
    pub invite_link: Option<ChatInviteLink>,
}

impl FromJson for ChatMemberUpdated {
    open spec fn accepts(j: JsonValue) -> bool {
        &&& j is Object
        &&& required::<Chat>(j, "chat"@)
        &&& required::<User>(j, "from"@)
        &&& required::<u64>(j, "date"@)
        &&& required::<ChatMember>(j, "old_chat_member"@)
        &&& required::<ChatMember>(j, "new_chat_member"@)
        &&& optional::<ChatInviteLink>(j, "invite_link"@)
    }

    open spec fn decodes_to(j: JsonValue, v: ChatMemberUpdated) -> bool {
        &&& required_is(j, "chat"@, v.chat)
        &&& required_is(j, "from"@, v.from)
        &&& required_is(j, "date"@, v.date)
        &&& required_is(j, "old_chat_member"@, v.old_chat_member)
        &&& required_is(j, "new_chat_member"@, v.new_chat_member)
        &&& optional_is(j, "invite_link"@, v.invite_link)
    }

    fn from_json(j: &JsonValue) -> (r: Result<ChatMemberUpdated, String>) {
        expect_object(j)?;
        let chat = required_member::<Chat>(j, "chat")?;
        let from = required_member::<User>(j, "from")?;
        let date = required_member::<u64>(j, "date")?;
        let old_chat_member = required_member::<ChatMember>(j, "old_chat_member")?;
        let new_chat_member = required_member::<ChatMember>(j, "new_chat_member")?;
        let invite_link = optional_member::<ChatInviteLink>(j, "invite_link")?;
        Ok(ChatMemberUpdated {
            chat,
            from,
            date,
            old_chat_member,
            new_chat_member,
            invite_link,
        })
    }
}

/// A request to join a chat.
#[derive(Debug)]
pub struct ChatJoinRequest {
    /// Chat to which the request was sent.
    pub chat: Chat,
    /// User that sent the join request.
    pub from: User,
    /// Date the request was sent in Unix time.
    pub date: u64,
    /// Bio of the user.
    pub bio: String,
    /// Chat invite link that was used by the user to send the join request.
    pub invite_link: Option<ChatInviteLink>,
}

impl FromJson for ChatJoinRequest {
    open spec fn accepts(j: JsonValue) -> bool {
        &&& j is Object
        &&& required::<Chat>(j, "chat"@)
        &&& required::<User>(j, "from"@)
        &&& required::<u64>(j, "date"@)
        &&& defaulted::<String>(j, "bio"@)
        &&& optional::<ChatInviteLink>(j, "invite_link"@)
    }

    open spec fn decodes_to(j: JsonValue, v: ChatJoinRequest) -> bool {
        &&& required_is(j, "chat"@, v.chat)
        &&& required_is(j, "from"@, v.from)
        &&& required_is(j, "date"@, v.date)
        &&& defaulted_is(j, "bio"@, v.bio, |x: String| x@.len() == 0)
        &&& optional_is(j, "invite_link"@, v.invite_link)
    }

    fn from_json(j: &JsonValue) -> (r: Result<ChatJoinRequest, String>) {
        expect_object(j)?;
        let chat = required_member::<Chat>(j, "chat")?;
        let from = required_member::<User>(j, "from")?;
        let date = required_member::<u64>(j, "date")?;
        let bio = defaulted_member::<String>(j, "bio", String::new())?;
        let invite_link = optional_member::<ChatInviteLink>(j, "invite_link")?;
        Ok(ChatJoinRequest {
            chat,
            from,
            date,
            bio,
            invite_link,
        })
    }
}

/// A Telegram update: exactly one kind of event.
#[derive(Debug)]
pub enum InboundData {
    Message(Message),
    EditedMessage(Message),
    ChannelPost(Message),
    EditedChannelPost(Message),
    MyChatMember(ChatMemberUpdated),
    ChatMember(ChatMemberUpdated),
    ChatJoinRequest(ChatJoinRequest),
}

/// The one member of `j`, where `j` is an object with exactly one member.
pub open spec fn tagged(j: JsonValue) -> Option<(Seq<char>, JsonValue)> {
    match j {
        JsonValue::Object(m) => if m@.len() == 1 {
            Some((m@[0].0@, m@[0].1))
        } else {
            None
        },
        _ => None,
    }
}

/// Decodes the body `v` of an update whose tag is `tag`.
fn decode_tagged(tag: &String, v: &JsonValue) -> (r: Result<InboundData, String>)
    ensures
        r is Ok <==> InboundData::accepts_tagged(tag@, *v),
        r matches Ok(d) ==> InboundData::decodes_tagged(tag@, *v, d),
{
    if *tag == "message".to_owned() {
        Ok(InboundData::Message(Message::from_json(v)?))
    } else if *tag == "edited_message".to_owned() {
        Ok(InboundData::EditedMessage(Message::from_json(v)?))
    } else if *tag == "channel_post".to_owned() {
        Ok(InboundData::ChannelPost(Message::from_json(v)?))
    } else if *tag == "edited_channel_post".to_owned() {
        Ok(InboundData::EditedChannelPost(Message::from_json(v)?))
    } else if *tag == "my_chat_member".to_owned() {
        Ok(InboundData::MyChatMember(ChatMemberUpdated::from_json(v)?))
    } else if *tag == "chat_member".to_owned() {
        Ok(InboundData::ChatMember(ChatMemberUpdated::from_json(v)?))
    } else if *tag == "chat_join_request".to_owned() {
        Ok(InboundData::ChatJoinRequest(ChatJoinRequest::from_json(v)?))
    } else {
        Err("unknown variant: expected one of the seven kinds of update".to_owned())
    }
}

impl InboundData {
    /// Whether `v` decodes as the body of an update tagged `tag`.
    pub open spec fn accepts_tagged(tag: Seq<char>, v: JsonValue) -> bool {
        if tag == "message"@ || tag == "edited_message"@ || tag == "channel_post"@ || tag
            == "edited_channel_post"@ {
            Message::accepts(v)
        } else if tag == "my_chat_member"@ || tag == "chat_member"@ {
            ChatMemberUpdated::accepts(v)
        } else if tag == "chat_join_request"@ {
            ChatJoinRequest::accepts(v)
        } else {
            false
        }
    }

    /// Whether `d` is the update that the body `v` tagged `tag` decodes to.
    pub open spec fn decodes_tagged(tag: Seq<char>, v: JsonValue, d: InboundData) -> bool {
        match d {
            InboundData::Message(m) => tag == "message"@ && Message::decodes_to(v, m),
            InboundData::EditedMessage(m) => tag == "edited_message"@ && Message::decodes_to(v, m),
            InboundData::ChannelPost(m) => tag == "channel_post"@ && Message::decodes_to(v, m),
            InboundData::EditedChannelPost(m) => tag == "edited_channel_post"@ && Message::decodes_to(
                v,
                m,
            ),
            InboundData::MyChatMember(c) => tag == "my_chat_member"@ && ChatMemberUpdated::decodes_to(
                v,
                c,
            ),
            InboundData::ChatMember(c) => tag == "chat_member"@ && ChatMemberUpdated::decodes_to(v, c),
            InboundData::ChatJoinRequest(c) => tag == "chat_join_request"@
                && ChatJoinRequest::decodes_to(v, c),
        }
    }
}

impl FromJson for InboundData {
    open spec fn accepts(j: JsonValue) -> bool {
        tagged(j) matches Some((tag, v)) && InboundData::accepts_tagged(tag, v)
    }

    open spec fn decodes_to(j: JsonValue, d: InboundData) -> bool {
        tagged(j) matches Some((tag, v)) && InboundData::decodes_tagged(tag, v, d)
    }

    fn from_json(j: &JsonValue) -> (r: Result<InboundData, String>) {
        match j {
            JsonValue::Object(m) => {
                if m.len() != 1 {
                    return Err("expected an object with exactly one member".to_owned());
                }
                decode_tagged(&m[0].0, &m[0].1)
            },
            _ => Err("invalid type: expected an object".to_owned()),
        }
    }
}

/// An update tagged `message` decodes to the `Message` variant and to no other,
/// though an edited message or a channel post has the same shape; so
/// `as_edited_message` fails on it.
pub proof fn lemma_message_tag(j: JsonValue, d: InboundData)
    requires
        InboundData::decodes_to(j, d),
        tagged(j) matches Some((tag, _)) && tag == "message"@,
    ensures
        d is Message,
{
    reveal_strlit("message");
    reveal_strlit("edited_message");
    reveal_strlit("channel_post");
    reveal_strlit("edited_channel_post");
    reveal_strlit("my_chat_member");
    reveal_strlit("chat_member");
    reveal_strlit("chat_join_request");
    assert("message"@.len() != "edited_message"@.len());
    assert("message"@.len() != "channel_post"@.len());
    assert("message"@.len() != "edited_channel_post"@.len());
    assert("message"@.len() != "my_chat_member"@.len());
    assert("message"@.len() != "chat_member"@.len());
    assert("message"@.len() != "chat_join_request"@.len());
}

/// Decodes the Telegram update in the text `s`.
///
/// The error names what did not fit, never the payload's content.
pub fn inbound(s: String) -> (r: Result<InboundData, String>)
    ensures
        r is Ok <==> (parsed_json(s@) matches Some(j) && InboundData::accepts(j)),
        r matches Ok(d) ==> InboundData::decodes_to(parsed_json(s@)->0, d),
        r matches Err(e) ==> starts_with(e@, "Parsing Telegram Webhook payload failed: "@),
{
    match parse_json(s.as_str()) {
        Ok(j) => match InboundData::from_json(&j) {
            Ok(d) => Ok(d),
            Err(e) => Err(with_reason("Parsing Telegram Webhook payload failed: ", e.as_str())),
        },
        Err(e) => Err(with_reason("Parsing Telegram Webhook payload failed: ", e.as_str())),
    }
}

impl InboundData {
    pub fn as_message(&self) -> (r: Result<&Message, String>)
        ensures
            match self {
                InboundData::Message(m) => r matches Ok(x) && *x == m,
                _ => r matches Err(e) && e@ == "as_message failed"@,
            },
    {
        match self {
            InboundData::Message(m) => Ok(m),
            _ => Err("as_message failed".to_owned()),
        }
    }

    pub fn as_edited_message(&self) -> (r: Result<&Message, String>)
        ensures
            match self {
                InboundData::EditedMessage(m) => r matches Ok(x) && *x == m,
                _ => r matches Err(e) && e@ == "as_edited_message failed"@,
            },
    {
        match self {
            InboundData::EditedMessage(m) => Ok(m),
            _ => Err("as_edited_message failed".to_owned()),
        }
    }

    pub fn as_channel_post(&self) -> (r: Result<&Message, String>)
        ensures
            match self {
                InboundData::ChannelPost(m) => r matches Ok(x) && *x == m,
                _ => r matches Err(e) && e@ == "as_channel_post failed"@,
            },
    {
        match self {
            InboundData::ChannelPost(m) => Ok(m),
            _ => Err("as_channel_post failed".to_owned()),
        }
    }

    pub fn as_edited_channel_post(&self) -> (r: Result<&Message, String>)
        ensures
            match self {
                InboundData::EditedChannelPost(m) => r matches Ok(x) && *x == m,
                _ => r matches Err(e) && e@ == "as_edited_channel_post failed"@,
            },
    {
        match self {
            InboundData::EditedChannelPost(m) => Ok(m),
            _ => Err("as_edited_channel_post failed".to_owned()),
        }
    }

    pub fn as_my_chat_member(&self) -> (r: Result<&ChatMemberUpdated, String>)
        ensures
            match self {
                InboundData::MyChatMember(c) => r matches Ok(x) && *x == c,
                _ => r matches Err(e) && e@ == "as_my_chat_member failed"@,
            },
    {
        match self {
            InboundData::MyChatMember(c) => Ok(c),
            _ => Err("as_my_chat_member failed".to_owned()),
        }
    }

    pub fn as_chat_member(&self) -> (r: Result<&ChatMemberUpdated, String>)
        ensures
            match self {
                InboundData::ChatMember(c) => r matches Ok(x) && *x == c,
                _ => r matches Err(e) && e@ == "as_chat_member failed"@,
            },
    {
        match self {
            InboundData::ChatMember(c) => Ok(c),
            _ => Err("as_chat_member failed".to_owned()),
        }
    }

    pub fn as_chat_join_request(&self) -> (r: Result<&ChatJoinRequest, String>)
        ensures
            match self {
                InboundData::ChatJoinRequest(c) => r matches Ok(x) && *x == c,
                _ => r matches Err(e) && e@ == "as_chat_join_request failed"@,
            },
    {
        match self {
            InboundData::ChatJoinRequest(c) => Ok(c),
            _ => Err("as_chat_join_request failed".to_owned()),
        }
    }
}

} // verus!
