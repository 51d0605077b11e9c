use flows_connector_dsi::monday::{self, NaiveDate};
use flows_connector_dsi::json::JsonValue;
use flows_connector_dsi::{notion, sendgrid, twilio};
use serde_json::Value;

fn parsed(s: &str) -> Value {
    serde_json::from_str::<Value>(s).unwrap()
}

#[test]
fn twilio_body() {
    let d = twilio::outbound("+11234567890").body("This is a test message").build().unwrap();
    assert_eq!(parsed(&d), parsed(r#"{"To":"+11234567890","Body":"This is a test message"}"#));
    assert_eq!(
        twilio::outbound("+1").build().unwrap_err(),
        "OutboundData build failed: Body is empty"
    );
}

#[test]
fn notion_page() {
    let d = notion::outbound()
        .property("Name", "ho-229")
        .property("Email", "ho-229@example.com")
        .page("Name", "ho")
        .build()
        .unwrap();
    assert_eq!(parsed(&d), parsed(r#"{"Name":"ho","Email":"ho-229@example.com"}"#));
    assert_eq!(
        notion::outbound().build().unwrap_err(),
        "OutboundData build failed: No properties to create a page"
    );
}

#[test]
fn sendgrid_mail() {
    let d = sendgrid::outbound(vec!["a@example.com", "b@example.com"])
        .subject("A")
        .subject("B")
        .content("Hello world!")
        .build()
        .unwrap();
    assert_eq!(
        parsed(&d),
        parsed(
            r#"[{"personalizations":[{"to":[{"email":"a@example.com"},{"email":"b@example.com"}]}],
            "subject":"B","content":[{"type":"text/html","value":"Hello world!"}]}]"#
        )
    );
    assert_eq!(
        sendgrid::outbound(vec!["a@example.com"]).subject("Hi").build().unwrap_err(),
        "OutboundData build failed: Content is empty"
    );
    let d = sendgrid::outbound(vec![]).content("x").build().unwrap();
    assert_eq!(
        parsed(&d),
        parsed(r#"[{"personalizations":[{"to":[]}],"content":[{"type":"text/html","value":"x"}]}]"#)
    );
}

#[test]
fn monday_columns() {
    let d = monday::outbound("item #1")
        .status_label("status", "Opened")
        .status_index("status", 1)
        .date("date4", NaiveDate::from_ymd_opt(1970, 1, 1).unwrap())
        .text("text", "text")
        .person("person", "1234")
        .timeline(
            "timeline",
            NaiveDate::from_ymd_opt(2024, 2, 29).unwrap(),
            NaiveDate::from_ymd_opt(2024, 3, 9).unwrap(),
        )
        .value("tags", JsonValue::Array(vec![JsonValue::unsigned(3)]))
        .build()
        .unwrap();
    assert_eq!(
        parsed(&d),
        parsed(
            r#"{"item":"item #1","values":{"status":1,"date4":"1970-01-01","text":"text","person":"1234",
            "timeline":{"from":"2024-02-29","to":"2024-03-09"},"tags":[3]}}"#
        )
    );
    assert_eq!(
        monday::outbound("item").build().unwrap_err(),
        "OutboundData build failed: values is empty"
    );
}

#[test]
fn calendar_days() {
    assert!(NaiveDate::from_ymd_opt(2023, 2, 29).is_none());
    assert!(NaiveDate::from_ymd_opt(2024, 2, 29).is_some());
    assert!(NaiveDate::from_ymd_opt(1900, 2, 29).is_none());
    assert!(NaiveDate::from_ymd_opt(2000, 2, 29).is_some());
    assert!(NaiveDate::from_ymd_opt(-4, 2, 29).is_some());
    assert!(NaiveDate::from_ymd_opt(2023, 4, 31).is_none());
    assert!(NaiveDate::from_ymd_opt(2023, 13, 1).is_none());
    assert!(NaiveDate::from_ymd_opt(2023, 0, 1).is_none());
    assert!(NaiveDate::from_ymd_opt(2023, 1, 0).is_none());
    assert!(NaiveDate::from_ymd_opt(262142, 12, 31).is_some());
    assert!(NaiveDate::from_ymd_opt(262143, 1, 1).is_none());
    assert!(NaiveDate::from_ymd_opt(-262143, 1, 1).is_some());
    assert!(NaiveDate::from_ymd_opt(-262144, 1, 1).is_none());
    assert_eq!(NaiveDate::from_ymd_opt(987, 6, 5).unwrap().format_ymd(), "0987-06-05");
}

#[test]
fn json_number_text() {
    assert!(matches!(JsonValue::signed(-42), JsonValue::Number(t) if t == "-42"));
    assert!(matches!(JsonValue::signed(i64::MAX), JsonValue::Number(t) if t == "9223372036854775807"));
    assert!(matches!(JsonValue::unsigned(u64::MAX), JsonValue::Number(t) if t == "18446744073709551615"));
    assert!(matches!(JsonValue::unsigned(0), JsonValue::Number(t) if t == "0"));
    let copy = JsonValue::Array(vec![JsonValue::text("a"), JsonValue::Null]).duplicate();
    assert!(matches!(copy, JsonValue::Array(a) if a.len() == 2 && matches!(&a[0], JsonValue::Str(s) if s == "a")));
}

#[test]
fn sendgrid_refuses_empty_content() {
    let e = sendgrid::outbound(vec!["a@example.com"]).content("").build().unwrap_err();
    assert_eq!(e, "OutboundData build failed: Content is empty");
    let e = sendgrid::outbound(vec!["a@example.com"]).content("x").content("").build().unwrap_err();
    assert_eq!(e, "OutboundData build failed: Content is empty");
    assert!(sendgrid::outbound(vec!["a@example.com"]).content("").content("x").build().is_ok());
}
