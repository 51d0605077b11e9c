use flows_connector_dsi::json::JsonValue;
use flows_connector_dsi::telegram::outbound::{self, ChatId, ParseMode};
use flows_connector_dsi::telegram::{inbound, InboundData};
use serde_json::Value;

const CHAT: &str = r#"{"id":-1001234,"title":"Flows","type":"supergroup"}"#;
const FROM: &str = r#"{"id":42,"is_bot":false,"first_name":"Ho","username":"ho229","language_code":"en"}"#;

fn message_body(text: &str) -> String {
    format!(
        r#"{{"message_id":7,"from":{FROM},"chat":{CHAT},"date":1660000000,"text":"{text}",
        "entities":[{{"offset":0,"length":5,"type":"bot_command"}}],
        "reply_to_message":{{"message_id":6,"from":{FROM},"chat":{CHAT},"date":1659999999,"text":"hello"}}}}"#
    )
}

#[test]
fn message() {
    let s = format!(r#"{{"message":{}}}"#, message_body("/ping"));

    println!("{:#?}", inbound(s).unwrap());
}

#[test]
fn my_chat_member() {
    let s = format!(
        r#"{{"my_chat_member":{{"chat":{CHAT},"from":{FROM},"date":1660000000,
        "old_chat_member":{{"user":{FROM},"status":"left"}},
        "new_chat_member":{{"user":{FROM},"status":"administrator","can_be_edited":false,"can_manage_chat":true}}}}}}"#
    );

    println!("{:#?}", inbound(s).unwrap());
}

#[test]
fn message_tag_selects_variant() {
    let s = format!(r#"{{"message":{}}}"#, message_body("/ping"));
    let d = inbound(s).unwrap();
    assert!(matches!(d, InboundData::Message(_)));
    assert_eq!(d.as_edited_message().unwrap_err(), "as_edited_message failed");
    assert_eq!(d.as_channel_post().unwrap_err(), "as_channel_post failed");
    let m = d.as_message().unwrap();
    assert_eq!(m.text, "/ping");
    assert_eq!(m.entities[0].kind, "bot_command");
    assert_eq!(m.chat.id, -1001234);
    let reply = m.reply_to_message.as_ref().unwrap();
    assert_eq!(reply.message_id, 6);
    assert!(reply.reply_to_message.is_none());
    assert!(reply.entities.is_empty());

    let s = format!(r#"{{"edited_message":{}}}"#, message_body("/ping"));
    let d = inbound(s).unwrap();
    assert!(d.as_edited_message().is_ok());
    assert_eq!(d.as_message().unwrap_err(), "as_message failed");
}

#[test]
fn chat_member_keeps_unknown_members() {
    let s = format!(
        r#"{{"chat_member":{{"chat":{CHAT},"from":{FROM},"date":1,
        "old_chat_member":{{"user":{FROM},"status":"member"}},
        "new_chat_member":{{"user":{FROM},"status":"kicked","until_date":0}}}}}}"#
    );
    let d = inbound(s).unwrap();
    let c = d.as_chat_member().unwrap();
    assert_eq!(c.new_chat_member.status, "kicked");
    assert_eq!(c.new_chat_member.extra.len(), 1);
    assert_eq!(c.new_chat_member.extra[0].0, "until_date");
    assert!(c.old_chat_member.extra.is_empty());
    assert!(d.as_my_chat_member().is_err());
    assert!(d.as_chat_join_request().is_err());
}

#[test]
fn join_request_defaults_bio() {
    let s = format!(r#"{{"chat_join_request":{{"chat":{CHAT},"from":{FROM},"date":5}}}}"#);
    let d = inbound(s).unwrap();
    let r = d.as_chat_join_request().unwrap();
    assert_eq!(r.bio, "");
    assert!(!r.from.is_premium);
}

#[test]
fn updates_need_one_known_tag() {
    let e = inbound(format!(r#"{{"poll":{}}}"#, message_body("x"))).unwrap_err();
    assert!(e.starts_with("Parsing Telegram Webhook payload failed: "));
    assert!(!e.contains("poll"));
    assert!(inbound(format!(r#"{{"update_id":1,"message":{}}}"#, message_body("x"))).is_err());
    assert!(inbound("{}".to_string()).is_err());
    let e = inbound("[1]".to_string()).unwrap_err();
    assert!(e.starts_with("Parsing Telegram Webhook payload failed: "));
}

#[test]
fn chat_id_text() {
    assert_eq!(ChatId::Id(-1001234).to_string(), "-1001234");
    assert_eq!(ChatId::Id(i64::MIN).to_string(), "-9223372036854775808");
    assert_eq!(ChatId::Id(0).to_string(), "0");
    assert_eq!(ChatId::from(17).to_string(), "17");
    assert_eq!(ChatId::from("@flows".to_string()).to_string(), "@flows");
}

#[test]
fn send_message_body() {
    let d = outbound::message(ChatId::Id(42), "__PONG\\!__")
        .reply("7")
        .parse_mode(ParseMode::MarkdownV2)
        .build()
        .unwrap();
    assert_eq!(
        serde_json::from_str::<Value>(&d).unwrap(),
        serde_json::from_str::<Value>(
            r#"{"chat_id":"42","text":"__PONG\\!__","reply_to_message_id":"7","parse_mode":"MarkdownV2"}"#
        )
        .unwrap()
    );
}

#[test]
fn edit_and_ban_bodies() {
    let d = outbound::edit_message(ChatId::Name("@flows".to_string()), "9", "new")
        .parse_mode(ParseMode::HTML)
        .parse_mode(ParseMode::Markdown)
        .build()
        .unwrap();
    assert_eq!(
        serde_json::from_str::<Value>(&d).unwrap(),
        serde_json::from_str::<Value>(
            r#"{"chat_id":"@flows","message_id":"9","text":"new","parse_mode":"Markdown"}"#
        )
        .unwrap()
    );
    let d = outbound::ban(ChatId::Id(-5), "42")
        .field("revoke_messages", JsonValue::Bool(true))
        .build()
        .unwrap();
    assert_eq!(
        serde_json::from_str::<Value>(&d).unwrap(),
        serde_json::from_str::<Value>(r#"{"chat_id":"-5","user_id":"42","revoke_messages":true}"#).unwrap()
    );
    let e = outbound::ban(ChatId::Id(1), "2").field("chat_id", JsonValue::Null).field("user_id", JsonValue::Null);
    assert!(e.build().is_ok());
}
