//! Discord messages, and request bodies that send or reply to them.

use vstd::prelude::*;
use crate::json::{JsonValue, parse_json, parsed_json, member, get_member, lemma_member_decreases, decimal};
use crate::encode::{ToJson, named_at, value_at, member_count};
use crate::decode::{
    FromJson, required, required_is, optional, optional_is, defaulted, defaulted_is,
    required_member, optional_member, defaulted_member, expect_object, with_reason, starts_with, at_member,
    integer_in,
};

pub mod outbound;

verus! {

/// The kind of a message: a regular one, or one of the system messages.
///
/// In a payload a kind is its code, a number.
#[derive(Debug, Clone, Copy, PartialEq, Eq)]
pub enum MessageType {
    /// A regular message.
    Regular,
    /// A recipient was added by the author.
    GroupRecipientAddition,
    /// A recipient was removed by the author.
    GroupRecipientRemoval,
    /// A call was started by the author.
    GroupCallCreation,
    /// The group name was changed by the author.
    GroupNameUpdate,
    /// The group icon was changed by the author.
    GroupIconUpdate,
    /// A message was pinned by the author.
    PinsAdd,
    /// A member joined the guild.
    MemberJoin,
    /// Someone boosted the guild.
    NitroBoost,
    /// The guild reached nitro tier 1.
    NitroTier1,
    /// The guild reached nitro tier 2.
    NitroTier2,
    /// The guild reached nitro tier 3.
    NitroTier3,
    /// The channel now follows a news channel.
    ChannelFollowAdd,
    /// The guild is disqualified for Discovery.
    GuildDiscoveryDisqualified,
    /// The guild is requalified for Discovery.
    GuildDiscoveryRequalified,
    /// The first warning before the guild is removed from Discovery.
    GuildDiscoveryGracePeriodInitialWarning,
    /// The last warning before the guild is removed from Discovery.
    GuildDiscoveryGracePeriodFinalWarning,
    /// A thread was created.
    ThreadCreated,
    /// A reply.
    InlineReply,
    /// A slash command.
    ChatInputCommand,
    /// The first message of a thread.
    ThreadStarterMessage,
    /// Server setup tips.
    GuildInviteReminder,
    /// A context menu command.
    ContextMenuCommand,
    /// A message from an auto moderation action.
    AutoModerationAction,
    /// A message of unknown type.
    Unknown,
}

impl MessageType {
    /// The code of the kind.
    pub open spec fn code(self) -> u8 {
        match self {
            MessageType::Regular => 0,
            MessageType::GroupRecipientAddition => 1,
            MessageType::GroupRecipientRemoval => 2,
            MessageType::GroupCallCreation => 3,
            MessageType::GroupNameUpdate => 4,
            MessageType::GroupIconUpdate => 5,
            MessageType::PinsAdd => 6,
            MessageType::MemberJoin => 7,
            MessageType::NitroBoost => 8,
            MessageType::NitroTier1 => 9,
            MessageType::NitroTier2 => 10,
            MessageType::NitroTier3 => 11,
            MessageType::ChannelFollowAdd => 12,
            MessageType::GuildDiscoveryDisqualified => 14,
            MessageType::GuildDiscoveryRequalified => 15,
            MessageType::GuildDiscoveryGracePeriodInitialWarning => 16,
            MessageType::GuildDiscoveryGracePeriodFinalWarning => 17,
            MessageType::ThreadCreated => 18,
            MessageType::InlineReply => 19,
            MessageType::ChatInputCommand => 20,
            MessageType::ThreadStarterMessage => 21,
            MessageType::GuildInviteReminder => 22,
            MessageType::ContextMenuCommand => 23,
            MessageType::AutoModerationAction => 24,
            MessageType::Unknown => 255,
        }
    }

    /// The kind with the code `n`, if there is one.
    pub fn from_code(n: u8) -> (r: Option<MessageType>)
        ensures
            r matches Some(t) ==> t.code() == n,
            r is None ==> forall|t: MessageType| t.code() != n,
    {
        match n {
            0 => Some(MessageType::Regular),
            1 => Some(MessageType::GroupRecipientAddition),
            2 => Some(MessageType::GroupRecipientRemoval),
            3 => Some(MessageType::GroupCallCreation),
            4 => Some(MessageType::GroupNameUpdate),
            5 => Some(MessageType::GroupIconUpdate),
            6 => Some(MessageType::PinsAdd),
            7 => Some(MessageType::MemberJoin),
            8 => Some(MessageType::NitroBoost),
            9 => Some(MessageType::NitroTier1),
            10 => Some(MessageType::NitroTier2),
            11 => Some(MessageType::NitroTier3),
            12 => Some(MessageType::ChannelFollowAdd),
            14 => Some(MessageType::GuildDiscoveryDisqualified),
            15 => Some(MessageType::GuildDiscoveryRequalified),
            16 => Some(MessageType::GuildDiscoveryGracePeriodInitialWarning),
            17 => Some(MessageType::GuildDiscoveryGracePeriodFinalWarning),
            18 => Some(MessageType::ThreadCreated),
            19 => Some(MessageType::InlineReply),
            20 => Some(MessageType::ChatInputCommand),
            21 => Some(MessageType::ThreadStarterMessage),
            22 => Some(MessageType::GuildInviteReminder),
            23 => Some(MessageType::ContextMenuCommand),
            24 => Some(MessageType::AutoModerationAction),
            255 => Some(MessageType::Unknown),
            _ => None,
        }
    }

    /// The code of the kind.
    pub fn to_code(self) -> (r: u8)
        ensures
            r == self.code(),
    {
        match self {
            MessageType::Regular => 0,
            MessageType::GroupRecipientAddition => 1,
            MessageType::GroupRecipientRemoval => 2,
            MessageType::GroupCallCreation => 3,
            MessageType::GroupNameUpdate => 4,
            MessageType::GroupIconUpdate => 5,
            MessageType::PinsAdd => 6,
            MessageType::MemberJoin => 7,
            MessageType::NitroBoost => 8,
            MessageType::NitroTier1 => 9,
            MessageType::NitroTier2 => 10,
            MessageType::NitroTier3 => 11,
            MessageType::ChannelFollowAdd => 12,
            MessageType::GuildDiscoveryDisqualified => 14,
            MessageType::GuildDiscoveryRequalified => 15,
            MessageType::GuildDiscoveryGracePeriodInitialWarning => 16,
            MessageType::GuildDiscoveryGracePeriodFinalWarning => 17,
            MessageType::ThreadCreated => 18,
            MessageType::InlineReply => 19,
            MessageType::ChatInputCommand => 20,
            MessageType::ThreadStarterMessage => 21,
            MessageType::GuildInviteReminder => 22,
            MessageType::ContextMenuCommand => 23,
            MessageType::AutoModerationAction => 24,
            MessageType::Unknown => 255,
        }
    }
}

impl FromJson for MessageType {
    open spec fn accepts(j: JsonValue) -> bool {
        exists|t: MessageType| integer_in(j) == Some(t.code() as int)
    }

    open spec fn decodes_to(j: JsonValue, v: MessageType) -> bool {
        integer_in(j) == Some(v.code() as int)
    }

    fn from_json(j: &JsonValue) -> (r: Result<MessageType, String>) {
        let n = u8::from_json(j)?;
        match MessageType::from_code(n) {
            Some(t) => Ok(t),
            None => Err("invalid value: expected the code of a message type".to_owned()),
        }
    }
}

impl ToJson for MessageType {
    open spec fn encoded(v: MessageType, j: JsonValue) -> bool {
        j matches JsonValue::Number(t) && t@ == decimal(v.code() as nat)
    }

    fn to_json(&self) -> (r: JsonValue) {
        JsonValue::unsigned(self.to_code() as u64)
    }
}
/// Information about a user.
#[derive(Debug)]
pub struct User {
    /// The unique Id of the user. Can be used to calculate the account's creation date.
    pub id: String,
    /// Optional avatar hash.
    pub avatar: Option<String>,
    /// Indicator of whether the user is a bot.
    pub bot: bool,
    /// The discriminator that tells apart users with the same name; the name and discriminator pair is unique.
    pub discriminator: String,
    /// The account's username.
    pub username: String,
    /// Optional banner hash; present only where the user was fetched through the REST API.
    pub banner: Option<String>,
    /// The user's banner color as the integer of a hexadecimal color code; present only where the user was fetched through the REST API.
    pub accent_color: Option<u32>,
}

impl FromJson for User {
    open spec fn accepts(j: JsonValue) -> bool {
        &&& j is Object
        &&& required::<String>(j, "id"@)
        &&& optional::<String>(j, "avatar"@)
        &&& defaulted::<bool>(j, "bot"@)
        &&& required::<String>(j, "discriminator"@)
        &&& required::<String>(j, "username"@)
        &&& optional::<String>(j, "banner"@)
        &&& optional::<u32>(j, "accent_color"@)
    }

    open spec fn decodes_to(j: JsonValue, v: User) -> bool {
        &&& required_is(j, "id"@, v.id)
        &&& optional_is(j, "avatar"@, v.avatar)
        &&& defaulted_is(j, "bot"@, v.bot, |x: bool| !x)
        &&& required_is(j, "discriminator"@, v.discriminator)
        &&& required_is(j, "username"@, v.username)
        &&& optional_is(j, "banner"@, v.banner)
        &&& optional_is(j, "accent_color"@, v.accent_color)
    }

    fn from_json(j: &JsonValue) -> (r: Result<User, String>) {
        expect_object(j)?;
        let id = required_member::<String>(j, "id")?;
        let avatar = optional_member::<String>(j, "avatar")?;
        let bot = defaulted_member::<bool>(j, "bot", false)?;
        let discriminator = required_member::<String>(j, "discriminator")?;
        let username = required_member::<String>(j, "username")?;
        let banner = optional_member::<String>(j, "banner")?;
        let accent_color = optional_member::<u32>(j, "accent_color")?;
        Ok(User {
            id,
            avatar,
            bot,
            discriminator,
            username,
            banner,
            accent_color,
        })
    }
}

impl ToJson for User {
    open spec fn encoded(v: User, j: JsonValue) -> bool {
        &&& member_count(j) == 7
        &&& named_at(j, 0, "id"@) && String::encoded(v.id, value_at(j, 0))
        &&& named_at(j, 1, "avatar"@) && <Option<String>>::encoded(v.avatar, value_at(j, 1))
        &&& named_at(j, 2, "bot"@) && bool::encoded(v.bot, value_at(j, 2))
        &&& named_at(j, 3, "discriminator"@) && String::encoded(v.discriminator, value_at(j, 3))
        &&& named_at(j, 4, "username"@) && String::encoded(v.username, value_at(j, 4))
        &&& named_at(j, 5, "banner"@) && <Option<String>>::encoded(v.banner, value_at(j, 5))
        &&& named_at(j, 6, "accent_color"@) && <Option<u32>>::encoded(v.accent_color, value_at(j, 6))
    }

    fn to_json(&self) -> (r: JsonValue) {
        let mut m: Vec<(String, JsonValue)> = Vec::new();
        m.push(("id".to_owned(), self.id.to_json()));
        m.push(("avatar".to_owned(), self.avatar.to_json()));
        m.push(("bot".to_owned(), self.bot.to_json()));
        m.push(("discriminator".to_owned(), self.discriminator.to_json()));
        m.push(("username".to_owned(), self.username.to_json()));
        m.push(("banner".to_owned(), self.banner.to_json()));
        m.push(("accent_color".to_owned(), self.accent_color.to_json()));
        JsonValue::Object(m)
    }
}

/// A file attached to a message.
#[derive(Debug)]
pub struct Attachment {
    /// The unique ID given to this attachment.
    pub id: String,
    /// The name of the file as it was uploaded.
    pub filename: String,
    /// The height of an image.
    pub height: Option<u64>,
    /// The proxy URL.
    pub proxy_url: String,
    /// The size of the file in bytes.
    pub size: u64,
    /// The URL of the uploaded attachment.
    pub url: String,
    /// The width of an image.
    pub width: Option<u64>,
    /// The media type of the attachment.
    pub content_type: Option<String>,
    /// Whether this attachment is ephemeral: removed after a set period of time.
    pub ephemeral: bool,
}

impl FromJson for Attachment {
    open spec fn accepts(j: JsonValue) -> bool {
        &&& j is Object
        &&& required::<String>(j, "id"@)
        &&& required::<String>(j, "filename"@)
        &&& optional::<u64>(j, "height"@)
        &&& required::<String>(j, "proxy_url"@)
        &&& required::<u64>(j, "size"@)
        &&& required::<String>(j, "url"@)
        &&& optional::<u64>(j, "width"@)
        &&& optional::<String>(j, "content_type"@)
        &&& defaulted::<bool>(j, "ephemeral"@)
    }

    open spec fn decodes_to(j: JsonValue, v: Attachment) -> bool {
        &&& required_is(j, "id"@, v.id)
        &&& required_is(j, "filename"@, v.filename)
        &&& optional_is(j, "height"@, v.height)
        &&& required_is(j, "proxy_url"@, v.proxy_url)
        &&& required_is(j, "size"@, v.size)
        &&& required_is(j, "url"@, v.url)
        &&& optional_is(j, "width"@, v.width)
        &&& optional_is(j, "content_type"@, v.content_type)
        &&& defaulted_is(j, "ephemeral"@, v.ephemeral, |x: bool| !x)
    }

    fn from_json(j: &JsonValue) -> (r: Result<Attachment, String>) {
        expect_object(j)?;
        let id = required_member::<String>(j, "id")?;
        let filename = required_member::<String>(j, "filename")?;
        let height = optional_member::<u64>(j, "height")?;
        let proxy_url = required_member::<String>(j, "proxy_url")?;
        let size = required_member::<u64>(j, "size")?;
        let url = required_member::<String>(j, "url")?;
        let width = optional_member::<u64>(j, "width")?;
        let content_type = optional_member::<String>(j, "content_type")?;
        let ephemeral = defaulted_member::<bool>(j, "ephemeral", false)?;
        Ok(Attachment {
            id,
            filename,
            height,
            proxy_url,
            size,
            url,
            width,
            content_type,
            ephemeral,
        })
    }
}

impl ToJson for Attachment {
    open spec fn encoded(v: Attachment, j: JsonValue) -> bool {
        &&& member_count(j) == 9
        &&& named_at(j, 0, "id"@) && String::encoded(v.id, value_at(j, 0))
        &&& named_at(j, 1, "filename"@) && String::encoded(v.filename, value_at(j, 1))
        &&& named_at(j, 2, "height"@) && <Option<u64>>::encoded(v.height, value_at(j, 2))
        &&& named_at(j, 3, "proxy_url"@) && String::encoded(v.proxy_url, value_at(j, 3))
        &&& named_at(j, 4, "size"@) && u64::encoded(v.size, value_at(j, 4))
        &&& named_at(j, 5, "url"@) && String::encoded(v.url, value_at(j, 5))
        &&& named_at(j, 6, "width"@) && <Option<u64>>::encoded(v.width, value_at(j, 6))
        &&& named_at(j, 7, "content_type"@) && <Option<String>>::encoded(v.content_type, value_at(j, 7))
        &&& named_at(j, 8, "ephemeral"@) && bool::encoded(v.ephemeral, value_at(j, 8))
    }

    fn to_json(&self) -> (r: JsonValue) {
        let mut m: Vec<(String, JsonValue)> = Vec::new();
        m.push(("id".to_owned(), self.id.to_json()));
        m.push(("filename".to_owned(), self.filename.to_json()));
        m.push(("height".to_owned(), self.height.to_json()));
        m.push(("proxy_url".to_owned(), self.proxy_url.to_json()));
        m.push(("size".to_owned(), self.size.to_json()));
        m.push(("url".to_owned(), self.url.to_json()));
        m.push(("width".to_owned(), self.width.to_json()));
        m.push(("content_type".to_owned(), self.content_type.to_json()));
        m.push(("ephemeral".to_owned(), self.ephemeral.to_json()));
        JsonValue::Object(m)
    }
}

/// Some of the data of a member of a guild, sent with messages in guilds.
#[derive(Debug)]
pub struct PartialMember {
    /// Whether the member can hear in voice channels.
    pub deaf: bool,
    /// When the member joined.
    pub joined_at: Option<String>,
    /// Whether the member can speak in voice channels.
    pub mute: bool,
    /// The member's nickname, at most 32 characters.
    pub nick: Option<String>,
    /// The Ids of the roles given to the member.
    pub roles: Vec<String>,
    /// Whether the member has not yet accepted the rules of the guild.
    pub pending: bool,
    /// Since when the member is boosting the guild.
    pub premium_since: Option<String>,
    /// The unique Id of the guild that the member is a part of.
    pub guild_id: Option<String>,
    /// The user.
    pub user: Option<User>,
}

impl FromJson for PartialMember {
    open spec fn accepts(j: JsonValue) -> bool {
        &&& j is Object
        &&& defaulted::<bool>(j, "deaf"@)
        &&& optional::<String>(j, "joined_at"@)
        &&& defaulted::<bool>(j, "mute"@)
        &&& optional::<String>(j, "nick"@)
        &&& required::<Vec<String>>(j, "roles"@)
        &&& defaulted::<bool>(j, "pending"@)
        &&& optional::<String>(j, "premium_since"@)
        &&& optional::<String>(j, "guild_id"@)
        &&& optional::<User>(j, "user"@)
    }

    open spec fn decodes_to(j: JsonValue, v: PartialMember) -> bool {
        &&& defaulted_is(j, "deaf"@, v.deaf, |x: bool| !x)
        &&& optional_is(j, "joined_at"@, v.joined_at)
        &&& defaulted_is(j, "mute"@, v.mute, |x: bool| !x)
        &&& optional_is(j, "nick"@, v.nick)
        &&& required_is(j, "roles"@, v.roles)
        &&& defaulted_is(j, "pending"@, v.pending, |x: bool| !x)
        &&& optional_is(j, "premium_since"@, v.premium_since)
        &&& optional_is(j, "guild_id"@, v.guild_id)
        &&& optional_is(j, "user"@, v.user)
    }

    fn from_json(j: &JsonValue) -> (r: Result<PartialMember, String>) {
        expect_object(j)?;
        let deaf = defaulted_member::<bool>(j, "deaf", false)?;
        let joined_at = optional_member::<String>(j, "joined_at")?;
        let mute = defaulted_member::<bool>(j, "mute", false)?;
        let nick = optional_member::<String>(j, "nick")?;
        let roles = required_member::<Vec<String>>(j, "roles")?;
        let pending = defaulted_member::<bool>(j, "pending", false)?;
        let premium_since = optional_member::<String>(j, "premium_since")?;
        let guild_id = optional_member::<String>(j, "guild_id")?;
        let user = optional_member::<User>(j, "user")?;
        Ok(PartialMember {
            deaf,
            joined_at,
            mute,
            nick,
            roles,
            pending,
            premium_since,
            guild_id,
            user,
        })
    }
}

impl ToJson for PartialMember {
    open spec fn encoded(v: PartialMember, j: JsonValue) -> bool {
        &&& member_count(j) == 9
        &&& named_at(j, 0, "deaf"@) && bool::encoded(v.deaf, value_at(j, 0))
        &&& named_at(j, 1, "joined_at"@) && <Option<String>>::encoded(v.joined_at, value_at(j, 1))
        &&& named_at(j, 2, "mute"@) && bool::encoded(v.mute, value_at(j, 2))
        &&& named_at(j, 3, "nick"@) && <Option<String>>::encoded(v.nick, value_at(j, 3))
        &&& named_at(j, 4, "roles"@) && <Vec<String>>::encoded(v.roles, value_at(j, 4))
        &&& named_at(j, 5, "pending"@) && bool::encoded(v.pending, value_at(j, 5))
        &&& named_at(j, 6, "premium_since"@) && <Option<String>>::encoded(v.premium_since, value_at(j, 6))
        &&& named_at(j, 7, "guild_id"@) && <Option<String>>::encoded(v.guild_id, value_at(j, 7))
        &&& named_at(j, 8, "user"@) && <Option<User>>::encoded(v.user, value_at(j, 8))
    }

    fn to_json(&self) -> (r: JsonValue) {
        let mut m: Vec<(String, JsonValue)> = Vec::new();
        m.push(("deaf".to_owned(), self.deaf.to_json()));
        m.push(("joined_at".to_owned(), self.joined_at.to_json()));
        m.push(("mute".to_owned(), self.mute.to_json()));
        m.push(("nick".to_owned(), self.nick.to_json()));
        m.push(("roles".to_owned(), self.roles.to_json()));
        m.push(("pending".to_owned(), self.pending.to_json()));
        m.push(("premium_since".to_owned(), self.premium_since.to_json()));
        m.push(("guild_id".to_owned(), self.guild_id.to_json()));
        m.push(("user".to_owned(), self.user.to_json()));
        JsonValue::Object(m)
    }
}

/// Reference data sent with crossposted messages.
#[derive(Debug)]
pub struct MessageReference {
    /// ID of the originating message.
    pub message_id: Option<String>,
    /// ID of the originating message's channel.
    pub channel_id: String,
    /// ID of the originating message's guild.
    pub guild_id: Option<String>,
}

impl FromJson for MessageReference {
    open spec fn accepts(j: JsonValue) -> bool {
        &&& j is Object
        &&& optional::<String>(j, "message_id"@)
        &&& required::<String>(j, "channel_id"@)
        &&& optional::<String>(j, "guild_id"@)
    }

    open spec fn decodes_to(j: JsonValue, v: MessageReference) -> bool {
        &&& optional_is(j, "message_id"@, v.message_id)
        &&& required_is(j, "channel_id"@, v.channel_id)
        &&& optional_is(j, "guild_id"@, v.guild_id)
    }

    fn from_json(j: &JsonValue) -> (r: Result<MessageReference, String>) {
        expect_object(j)?;
        let message_id = optional_member::<String>(j, "message_id")?;
        let channel_id = required_member::<String>(j, "channel_id")?;
        let guild_id = optional_member::<String>(j, "guild_id")?;
        Ok(MessageReference {
            message_id,
            channel_id,
            guild_id,
        })
    }
}

impl ToJson for MessageReference {
    open spec fn encoded(v: MessageReference, j: JsonValue) -> bool {
        &&& member_count(j) == 3
        &&& named_at(j, 0, "message_id"@) && <Option<String>>::encoded(v.message_id, value_at(j, 0))
        &&& named_at(j, 1, "channel_id"@) && String::encoded(v.channel_id, value_at(j, 1))
        &&& named_at(j, 2, "guild_id"@) && <Option<String>>::encoded(v.guild_id, value_at(j, 2))
    }

    fn to_json(&self) -> (r: JsonValue) {
        let mut m: Vec<(String, JsonValue)> = Vec::new();
        m.push(("message_id".to_owned(), self.message_id.to_json()));
        m.push(("channel_id".to_owned(), self.channel_id.to_json()));
        m.push(("guild_id".to_owned(), self.guild_id.to_json()));
        JsonValue::Object(m)
    }
}

/// A message in a guild text channel, a group or a private channel.
#[derive(Debug)]
pub struct Message {
    /// The unique Id of the message.
    pub id: String,
    /// The files attached to the message.
    pub attachments: Vec<Attachment>,
    /// The user that sent the message.
    pub author: User,
    /// The Id of the channel that the message was sent to.
    pub channel_id: String,
    /// The content of the message.
    pub content: String,
    /// When the message was last edited, if it was.
    pub edited_timestamp: Option<String>,
    /// The Id of the guild that the message was sent in; present only for messages received over the gateway.
    pub guild_id: Option<String>,
    /// Whether this is a regular message or which kind of system message.
    pub kind: MessageType,
    /// The member data of the author, for messages sent in a guild.
    pub member: Option<PartialMember>,
    /// Whether the message mentions everyone.
    pub mention_everyone: bool,
    /// The Ids of the roles mentioned in the message.
    pub mention_roles: Vec<String>,
    /// The users mentioned in the message.
    pub mentions: Vec<User>,
    /// A value used to check the order of messages.
    pub nonce: JsonValue,
    /// Whether the message is pinned.
    pub pinned: bool,
    /// When the message was created.
    pub timestamp: String,
    /// Whether the message is read out by text-to-speech.
    pub tts: bool,
    /// Reference data sent with crossposted messages.
    pub message_reference: Option<MessageReference>,
    /// The message that this message replies to.
    pub referenced_message: Option<Box<Message>>,
}

/// Whether `j` decodes as a [`Message`], together with the messages it refers to.
pub open spec fn message_accepts(j: JsonValue) -> bool
    decreases j via message_accepts_decreases
{
    &&& j is Object
    &&& required::<String>(j, "id"@)
    &&& required::<Vec<Attachment>>(j, "attachments"@)
    &&& required::<User>(j, "author"@)
    &&& required::<String>(j, "channel_id"@)
    &&& required::<String>(j, "content"@)
    &&& optional::<String>(j, "edited_timestamp"@)
    &&& optional::<String>(j, "guild_id"@)
    &&& required::<MessageType>(j, "type"@)
    &&& optional::<PartialMember>(j, "member"@)
    &&& required::<bool>(j, "mention_everyone"@)
    &&& required::<Vec<String>>(j, "mention_roles"@)
    &&& required::<Vec<User>>(j, "mentions"@)
    &&& defaulted::<JsonValue>(j, "nonce"@)
    &&& required::<bool>(j, "pinned"@)
    &&& required::<String>(j, "timestamp"@)
    &&& required::<bool>(j, "tts"@)
    &&& optional::<MessageReference>(j, "message_reference"@)
    &&& match member(j, "referenced_message"@) {
        None => true,
        Some(x) => x is Null || message_accepts(x),
    }
}

/// Whether `v` is the [`Message`] that `j` decodes to.
pub open spec fn message_decodes_to(j: JsonValue, v: Message) -> bool
    decreases j via message_decodes_to_decreases
{
    &&& required_is(j, "id"@, v.id)
    &&& required_is(j, "attachments"@, v.attachments)
    &&& required_is(j, "author"@, v.author)
    &&& required_is(j, "channel_id"@, v.channel_id)
    &&& required_is(j, "content"@, v.content)
    &&& optional_is(j, "edited_timestamp"@, v.edited_timestamp)
    &&& optional_is(j, "guild_id"@, v.guild_id)
    &&& required_is(j, "type"@, v.kind)
    &&& optional_is(j, "member"@, v.member)
    &&& required_is(j, "mention_everyone"@, v.mention_everyone)
    &&& required_is(j, "mention_roles"@, v.mention_roles)
    &&& required_is(j, "mentions"@, v.mentions)
    &&& defaulted_is(j, "nonce"@, v.nonce, |x: JsonValue| x is Null)
    &&& required_is(j, "pinned"@, v.pinned)
    &&& required_is(j, "timestamp"@, v.timestamp)
    &&& required_is(j, "tts"@, v.tts)
    &&& optional_is(j, "message_reference"@, v.message_reference)
    &&& match member(j, "referenced_message"@) {
        None => v.referenced_message is None,
        Some(x) => match v.referenced_message {
            None => x is Null,
            Some(b) => !(x is Null) && message_decodes_to(x, *b),
        },
    }
}

#[via_fn]
proof fn message_accepts_decreases(j: JsonValue) {
    lemma_member_decreases(j, "referenced_message"@);
}

#[via_fn]
proof fn message_decodes_to_decreases(j: JsonValue, v: Message) {
    lemma_member_decreases(j, "referenced_message"@);
}

/// Decodes a [`Message`], together with the messages it refers to.
fn decode_message(j: &JsonValue) -> (r: Result<Message, String>)
    ensures
        r is Ok <==> message_accepts(*j),
        r matches Ok(v) ==> message_decodes_to(*j, v),
    decreases j,
{
    expect_object(j)?;
    let id = required_member::<String>(j, "id")?;
    let attachments = required_member::<Vec<Attachment>>(j, "attachments")?;
    let author = required_member::<User>(j, "author")?;
    let channel_id = required_member::<String>(j, "channel_id")?;
    let content = required_member::<String>(j, "content")?;
    let edited_timestamp = optional_member::<String>(j, "edited_timestamp")?;
    let guild_id = optional_member::<String>(j, "guild_id")?;
    let kind = required_member::<MessageType>(j, "type")?;
    let member = optional_member::<PartialMember>(j, "member")?;
    let mention_everyone = required_member::<bool>(j, "mention_everyone")?;
    let mention_roles = required_member::<Vec<String>>(j, "mention_roles")?;
    let mentions = required_member::<Vec<User>>(j, "mentions")?;
    let nonce = defaulted_member::<JsonValue>(j, "nonce", JsonValue::Null)?;
    let pinned = required_member::<bool>(j, "pinned")?;
    let timestamp = required_member::<String>(j, "timestamp")?;
    let tts = required_member::<bool>(j, "tts")?;
    let message_reference = optional_member::<MessageReference>(j, "message_reference")?;
    let referenced_message = match get_member(j, "referenced_message") {
        None => None,
        Some(JsonValue::Null) => None,
        Some(x) => {
            proof {
                lemma_member_decreases(*j, "referenced_message"@);
            }
            match decode_message(x) {
                Ok(m) => Some(Box::new(m)),
                Err(e) => return Err(at_member("referenced_message", e)),
            }
        },
    };
    Ok(Message {
        id,
        attachments,
        author,
        channel_id,
        content,
        edited_timestamp,
        guild_id,
        kind,
        member,
        mention_everyone,
        mention_roles,
        mentions,
        nonce,
        pinned,
        timestamp,
        tts,
        message_reference,
        referenced_message,
    })
}

impl FromJson for Message {
    open spec fn accepts(j: JsonValue) -> bool {
        message_accepts(j)
    }

    open spec fn decodes_to(j: JsonValue, v: Message) -> bool {
        message_decodes_to(j, v)
    }

    fn from_json(j: &JsonValue) -> (r: Result<Message, String>) {
        decode_message(j)
    }
}

/// Whether `j` is the tree that stands for the [`Message`] `v`, together with the
/// messages it refers to.
pub open spec fn message_encoded(v: Message, j: JsonValue) -> bool
    decreases v,
{
    &&& member_count(j) == 18
    &&& named_at(j, 0, "id"@) && String::encoded(v.id, value_at(j, 0))
    &&& named_at(j, 1, "attachments"@) && <Vec<Attachment>>::encoded(v.attachments, value_at(j, 1))
    &&& named_at(j, 2, "author"@) && User::encoded(v.author, value_at(j, 2))
    &&& named_at(j, 3, "channel_id"@) && String::encoded(v.channel_id, value_at(j, 3))
    &&& named_at(j, 4, "content"@) && String::encoded(v.content, value_at(j, 4))
    &&& named_at(j, 5, "edited_timestamp"@) && <Option<String>>::encoded(v.edited_timestamp, value_at(j, 5))
    &&& named_at(j, 6, "guild_id"@) && <Option<String>>::encoded(v.guild_id, value_at(j, 6))
    &&& named_at(j, 7, "type"@) && MessageType::encoded(v.kind, value_at(j, 7))
    &&& named_at(j, 8, "member"@) && <Option<PartialMember>>::encoded(v.member, value_at(j, 8))
    &&& named_at(j, 9, "mention_everyone"@) && bool::encoded(v.mention_everyone, value_at(j, 9))
    &&& named_at(j, 10, "mention_roles"@) && <Vec<String>>::encoded(v.mention_roles, value_at(j, 10))
    &&& named_at(j, 11, "mentions"@) && <Vec<User>>::encoded(v.mentions, value_at(j, 11))
    &&& named_at(j, 12, "nonce"@) && JsonValue::encoded(v.nonce, value_at(j, 12))
    &&& named_at(j, 13, "pinned"@) && bool::encoded(v.pinned, value_at(j, 13))
    &&& named_at(j, 14, "timestamp"@) && String::encoded(v.timestamp, value_at(j, 14))
    &&& named_at(j, 15, "tts"@) && bool::encoded(v.tts, value_at(j, 15))
    &&& named_at(j, 16, "message_reference"@) && <Option<MessageReference>>::encoded(v.message_reference, value_at(j, 16))
    &&& named_at(j, 17, "referenced_message"@)
    &&& match v.referenced_message {
        None => value_at(j, 17) is Null,
        Some(b) => message_encoded(*b, value_at(j, 17)),
    }
}

/// The tree that stands for a [`Message`], together with the messages it refers to.
fn encode_message(v: &Message) -> (r: JsonValue)
    ensures
        message_encoded(*v, r),
    decreases v,
{
    let mut m: Vec<(String, JsonValue)> = Vec::new();
    m.push(("id".to_owned(), v.id.to_json()));
    m.push(("attachments".to_owned(), v.attachments.to_json()));
    m.push(("author".to_owned(), v.author.to_json()));
    m.push(("channel_id".to_owned(), v.channel_id.to_json()));
    m.push(("content".to_owned(), v.content.to_json()));
    m.push(("edited_timestamp".to_owned(), v.edited_timestamp.to_json()));
    m.push(("guild_id".to_owned(), v.guild_id.to_json()));
    m.push(("type".to_owned(), v.kind.to_json()));
    m.push(("member".to_owned(), v.member.to_json()));
    m.push(("mention_everyone".to_owned(), v.mention_everyone.to_json()));
    m.push(("mention_roles".to_owned(), v.mention_roles.to_json()));
    m.push(("mentions".to_owned(), v.mentions.to_json()));
    m.push(("nonce".to_owned(), v.nonce.to_json()));
    m.push(("pinned".to_owned(), v.pinned.to_json()));
    m.push(("timestamp".to_owned(), v.timestamp.to_json()));
    m.push(("tts".to_owned(), v.tts.to_json()));
    m.push(("message_reference".to_owned(), v.message_reference.to_json()));
    let referenced_message = match &v.referenced_message {
        None => JsonValue::Null,
        Some(b) => encode_message(b),
    };
    m.push(("referenced_message".to_owned(), referenced_message));
    JsonValue::Object(m)
}

impl ToJson for Message {
    open spec fn encoded(v: Message, j: JsonValue) -> bool {
        message_encoded(v, j)
    }

    fn to_json(&self) -> (r: JsonValue) {
        encode_message(self)
    }
}

/// A Discord webhook payload: a message.
pub type InboundData = Message;

/// Decodes the Discord webhook payload in the text `s`.
///
/// The error names what did not fit, never the payload's content.
pub fn inbound(s: String) -> (r: Result<InboundData, String>)
    ensures
        r is Ok <==> (parsed_json(s@) matches Some(j) && Message::accepts(j)),
        r matches Ok(d) ==> Message::decodes_to(parsed_json(s@)->0, d),
        r matches Err(e) ==> starts_with(e@, "Parsing Discord Webhook payload failed: "@),
{
    match parse_json(s.as_str()) {
        Ok(j) => match Message::from_json(&j) {
            Ok(d) => Ok(d),
            Err(e) => Err(with_reason("Parsing Discord Webhook payload failed: ", e.as_str())),
        },
        Err(e) => Err(with_reason("Parsing Discord Webhook payload failed: ", e.as_str())),
    }
}

} // verus!
