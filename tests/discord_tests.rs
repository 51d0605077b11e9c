use flows_connector_dsi::discord::outbound::say;
use flows_connector_dsi::discord::{inbound, MessageType};
use serde_json::Value;

const AUTHOR: &str = r#"{"id":"80351110224678912","avatar":null,"discriminator":"1337","username":"Nelly"}"#;

fn message(id: &str, kind: u32, extra: &str) -> String {
    format!(
        r#"{{"id":"{id}","attachments":[],"author":{AUTHOR},"channel_id":"4","content":"hi","edited_timestamp":null,
        "type":{kind},"mention_everyone":false,"mention_roles":[],"mentions":[],"pinned":false,
        "timestamp":"2022-08-09T00:00:00.000000+00:00","tts":false{extra}}}"#
    )
}

#[test]
fn discord_reply_decodes() {
    let original = message("1", 0, "");
    let s = message("2", 19, &format!(r#","referenced_message":{original},"nonce":"77""#));
    let m = inbound(s).unwrap();
    assert_eq!(m.kind, MessageType::InlineReply);
    assert!(!m.author.bot);
    let r = m.referenced_message.as_ref().unwrap();
    assert_eq!(r.id, "1");
    assert_eq!(r.kind, MessageType::Regular);
    assert!(r.referenced_message.is_none());
}

#[test]
fn discord_message_codes() {
    assert_eq!(inbound(message("3", 255, "")).unwrap().kind, MessageType::Unknown);
    assert_eq!(inbound(message("3", 24, "")).unwrap().kind, MessageType::AutoModerationAction);
    assert!(inbound(message("3", 13, "")).is_err());
    assert!(inbound(message("3", 256, "")).is_err());
    let e = inbound(message("3", 0, "").replace(r#""content":"hi","#, "")).unwrap_err();
    assert!(e.starts_with("Parsing Discord Webhook payload failed: "));
}

#[test]
fn discord_say_bodies() {
    let d = say("hello world", None).build().unwrap();
    assert_eq!(
        serde_json::from_str::<Value>(&d).unwrap(),
        serde_json::from_str::<Value>(r#"{"content":"hello world","reply_to":null}"#).unwrap()
    );
    let m = inbound(message("5", 0, r#","nonce":1"#)).unwrap();
    let d = say("pong", Some(m)).build().unwrap();
    let v = serde_json::from_str::<Value>(&d).unwrap();
    assert_eq!(v["content"], Value::String("pong".to_string()));
    assert_eq!(v["reply_to"]["id"], Value::String("5".to_string()));
    assert_eq!(v["reply_to"]["type"], serde_json::from_str::<Value>("0").unwrap());
    assert_eq!(v["reply_to"]["author"]["bot"], Value::Bool(false));
    assert_eq!(v["reply_to"]["nonce"], serde_json::from_str::<Value>("1").unwrap());
    assert_eq!(v["reply_to"]["referenced_message"], Value::Null);
}
