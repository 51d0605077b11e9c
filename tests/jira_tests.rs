use flows_connector_dsi::jira::{inbound, outbound};
use serde_json::Value;

const USER: &str = r#"{"accountType":"atlassian","active":true,"avatarUrls":{"16x16":"a","24x24":"b","32x32":"c","48x48":"d"},
"displayName":"Ho","self":"https://jira/user/1","timeZone":"Asia/Shanghai"}"#;

fn issue_json() -> String {
    format!(
        r#"{{"id":"10001","key":"FLOW-1","self":"https://jira/issue/10001","fields":{{
        "aggregateprogress":{{"progress":0,"total":0}},"assignee":null,"created":"2022-08-09T00:00:00.000+0800",
        "creator":{USER},"labels":["bug"],"lastViewed":null,"progress":{{"progress":0,"total":0}},
        "project":{{"avatarUrls":{{"16x16":"a","24x24":"b","32x32":"c","48x48":"d"}},"id":"10000","key":"FLOW",
        "name":"Flows","projectTypeKey":"software","self":"https://jira/project/10000","simplified":true}},
        "reporter":{USER},"summary":"Crash","updated":"2022-08-09T00:00:00.000+0800",
        "votes":{{"hasVoted":false,"self":"https://jira/votes","votes":0}}}}}}"#
    )
}

fn comment_json() -> String {
    format!(
        r#"{{"author":{USER},"body":"Looking","created":"2022-08-09","self":"https://jira/comment/1",
        "updateAuthor":{USER},"updated":"2022-08-10"}}"#
    )
}

#[test]
fn issue_created_test() {
    let s = format!(
        r#"{{"timestamp":1660000000000,"webhookEvent":"jira:issue_created","issue":{}}}"#,
        issue_json()
    );
    println!("{:#?}", inbound(s).unwrap().get_issue().unwrap());
}

#[test]
fn issue_updated_test() {
    let s = format!(
        r#"{{"timestamp":1660000000000,"webhookEvent":"jira:issue_updated","issue":{},
        "changelog":{{"id":"1","items":[{{"field":"status","fieldId":"status","fieldtype":"jira",
        "from":"1","fromString":"To Do","to":"3","toString":"In Progress"}}]}}}}"#,
        issue_json()
    );
    println!("{:#?}", inbound(s).unwrap().get_issue().unwrap());
}

#[test]
fn comment_created_test() {
    let s = format!(
        r#"{{"timestamp":1660000000000,"webhookEvent":"comment_created","issue":{},"comment":{}}}"#,
        issue_json(),
        comment_json()
    );
    println!("{:#?}", inbound(s).unwrap().get_comment().unwrap());
}

#[test]
fn comment_updated_test() {
    let s = format!(
        r#"{{"timestamp":1660000000000,"webhookEvent":"comment_updated","comment":{}}}"#,
        comment_json()
    );
    println!("{:#?}", inbound(s).unwrap().get_comment().unwrap());
}

#[test]
fn jira_renamed_members_decode() {
    let s = format!(
        r#"{{"timestamp":1,"webhookEvent":"jira:issue_updated","issue":{},
        "changelog":{{"items":[{{"field":"status","fieldId":"status","fieldtype":"jira",
        "from":null,"fromString":"To Do","to":"3","toString":"Done"}}]}}}}"#,
        issue_json()
    );
    let d = inbound(s).unwrap();
    assert_eq!(d.webhook_event, "jira:issue_updated");
    let item = &d.get_changelog().unwrap().items[0];
    assert_eq!(item.to_string.as_deref(), Some("Done"));
    assert_eq!(item.from, None);
    let issue = d.get_issue().unwrap();
    assert_eq!(issue._self, "https://jira/issue/10001");
    assert_eq!(issue.fields.project.avatar_urls._16x16, "a");
    assert_eq!(d.get_comment().unwrap_err(), "Missing comment");
    assert!(inbound(r#"{"webhookEvent":"x"}"#.to_string()).is_err());
}

#[test]
fn jira_bodies() {
    let d = outbound::create_issue("Crash").description("On start").build().unwrap();
    assert_eq!(
        serde_json::from_str::<Value>(&d).unwrap(),
        serde_json::from_str::<Value>(r#"{"summary":"Crash","description":"On start"}"#).unwrap()
    );
    let d = outbound::modify_issue("FLOW-1").transition("Done").summary("Fixed").build().unwrap();
    assert_eq!(
        serde_json::from_str::<Value>(&d).unwrap(),
        serde_json::from_str::<Value>(r#"{"issue_key":"FLOW-1","transition":"Done","summary":"Fixed"}"#).unwrap()
    );
    let d = outbound::create_issue("A").summary("B").build().unwrap();
    assert_eq!(d, r#"{"summary":"B"}"#);
}
