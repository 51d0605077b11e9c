use flows_connector_dsi::github::outbound;
use flows_connector_dsi::github::{inbound, InboundData, License};
use flows_connector_dsi::json::JsonValue;
use serde_json::Value;

fn user(login: &str) -> String {
    format!(
        r#"{{"login":"{login}","id":1,"email":null,"avatar_url":"https://avatars.example/u/1","html_url":"https://github.com/{login}","type":"User","site_admin":false}}"#
    )
}

fn repository() -> String {
    format!(
        r#"{{"id":1,"name":"flows","full_name":"ho-229/flows","private":false,"owner":{owner},
        "html_url":"https://github.com/ho-229/flows","description":"Connectors","fork":false,
        "created_at":1660000000,"updated_at":"2022-08-09T00:00:00Z","pushed_at":"2022-08-10T00:00:00Z",
        "git_url":"git://github.com/ho-229/flows.git","ssh_url":"git@github.com:ho-229/flows.git",
        "clone_url":"https://github.com/ho-229/flows.git","svn_url":"https://github.com/ho-229/flows",
        "homepage":null,"stargazers_count":3,"watchers_count":3,"language":"Rust","has_issues":true,
        "has_projects":true,"has_downloads":true,"has_wiki":true,"has_pages":false,"forks_count":1,
        "mirror_url":null,"archived":false,"disabled":false,"open_issues_count":2,
        "license":{{"key":"mit","name":"MIT License","spdx_id":"MIT","url":"https://api.github.com/licenses/mit"}},
        "visibility":"public","forks":1,"open_issues":2,"watchers":3,"default_branch":"main"}}"#,
        owner = user("ho-229")
    )
}

fn issue() -> String {
    format!(
        r#"{{"active_lock_reason":null,"html_url":"https://github.com/ho-229/flows/issues/7","number":7,
        "title":"Crash on start","user":{u},"labels":[{{"name":"bug","color":"d73a4a","default":true}}],
        "state":"open","state_reason":null,"locked":false,"assignees":[{u}],"comments":1,
        "created_at":"2022-08-09T00:00:00Z","updated_at":"2022-08-09T01:00:00Z","closed_at":null,
        "author_association":"OWNER","body":"It crashes."}}"#,
        u = user("ho-229")
    )
}

fn comment() -> String {
    format!(
        r#"{{"html_url":"https://github.com/ho-229/flows/issues/7#c1","user":{u},"created_at":"2022-08-09T00:00:00Z",
        "updated_at":"2022-08-09T00:00:00Z","author_association":"OWNER","body":"Looking into it."}}"#,
        u = user("ho-229")
    )
}

fn pull_request() -> String {
    let point = |label: &str| {
        format!(
            r#"{{"label":"{label}","ref":"main","sha":"abc123","user":{u},"repo":{r}}}"#,
            u = user("ho-229"),
            r = repository()
        )
    };
    format!(
        r#"{{"html_url":"https://github.com/ho-229/flows/pull/8","diff_url":"https://d","patch_url":"https://p",
        "number":8,"state":"open","locked":false,"title":"Fix crash","user":{u},"body":null,
        "created_at":"2022-08-09T00:00:00Z","updated_at":"2022-08-09T00:00:00Z","closed_at":null,"merged_at":null,
        "merge_commit_sha":null,"assignees":[],"requested_reviewers":[],"labels":[],"head":{h},"base":{b},
        "author_association":"OWNER","draft":false}}"#,
        u = user("ho-229"),
        h = point("ho-229:fix"),
        b = point("ho-229:main")
    )
}

fn commit(id: &str) -> String {
    format!(
        r#"{{"id":"{id}","distinct":true,"message":"Fix","timestamp":"2022-08-09T00:00:00Z","url":"https://c/{id}",
        "author":{{"name":"ho","email":"ho@example.com","username":"ho-229"}},
        "committer":{{"name":"ho","email":"ho@example.com"}},"added":["a.rs"],"removed":[],"modified":["b.rs"]}}"#
    )
}

fn payload(members: &str) -> String {
    format!(r#"{{{members},"sender":{s}}}"#, s = user("ho-229"))
}

#[test]
fn create_test() {
    let s = payload(&format!(
        r#""ref":"v1.0","ref_type":"tag","master_branch":"main","description":null,"pusher_type":"user","repository":{}"#,
        repository()
    ));
    let d = inbound(s).unwrap();
    println!("{:#?}", d);
}

#[test]
fn discussion_comment_test() {
    let discussion = format!(
        r#"{{"category":{{"id":1,"name":"General","description":"Chat","emoji":":speech_balloon:",
        "created_at":"2022-01-01T00:00:00Z","updated_at":"2022-01-01T00:00:00Z","slug":"general","is_answerable":false}},
        "answer_html_url":null,"answer_chosen_at":null,"answer_chosen_by":null,
        "html_url":"https://github.com/ho-229/flows/discussions/3","user":{u},"number":3,"title":"Ideas",
        "state":"open","locked":false,"comments":1,"created_at":"2022-08-09T00:00:00Z",
        "updated_at":"2022-08-09T00:00:00Z","author_association":"OWNER","active_lock_reason":null,"body":"Share ideas"}}"#,
        u = user("ho-229")
    );
    let s = payload(&format!(
        r#""action":"created","comment":{},"discussion":{},"repository":{}"#,
        comment(),
        discussion,
        repository()
    ));
    let d = inbound(s).unwrap();

    println!("{:#?}\n{:#?}", d.get_comment().unwrap(), d.get_discussion().unwrap());
}

#[test]
fn fork_test() {
    let s = payload(&format!(r#""forkee":{},"repository":{}"#, repository(), repository()));

    println!("{:#?}", inbound(s).unwrap().get_fork().unwrap());
}

#[test]
fn issue_comment_test() {
    let s = payload(&format!(
        r#""action":"created","issue":{},"comment":{},"repository":{}"#,
        issue(),
        comment(),
        repository()
    ));
    let d = inbound(s).unwrap();

    println!("{:#?}\n{:#?}", d.get_comment().unwrap(), d.get_issue().unwrap());
}

#[test]
fn label_test() {
    let s = payload(&format!(
        r#""action":"created","label":{{"id":9,"name":"bug","color":"d73a4a","default":true}},"repository":{}"#,
        repository()
    ));

    println!("{:#?}", inbound(s).unwrap().get_label().unwrap());
}

#[test]
fn marketplace_purchase_test() {
    let s = payload(
        r#""action":"purchased","marketplace_purchase":{"account":{"login":"ho-229"},"billing_cycle":"monthly",
        "unit_count":1,"on_free_trial":false,"free_trial_ends_on":null,"next_billing_date":"2022-09-09T00:00:00Z",
        "plan":{"id":7,"name":"Pro","description":"For teams","monthly_price_in_cents":1000,
        "yearly_price_in_cents":10000,"price_model":"flat-rate","has_free_trial":true,"unit_name":null,
        "bullets":["Fast","Friendly"]}}"#,
    );
    // A plan without a unit name does not fit the schema, as in the vendor's
    // documented samples that leave it out.
    assert!(inbound(s).is_err());
    let s = payload(
        r#""action":"purchased","marketplace_purchase":{"account":{"login":"ho-229"},"billing_cycle":"monthly",
        "unit_count":1,"on_free_trial":false,"free_trial_ends_on":null,"next_billing_date":"2022-09-09T00:00:00Z",
        "plan":{"id":7,"name":"Pro","description":"For teams","monthly_price_in_cents":1000,
        "yearly_price_in_cents":10000,"price_model":"flat-rate","has_free_trial":true,"unit_name":"seat",
        "bullets":["Fast","Friendly"]}}"#,
    );

    println!("{:#?}", inbound(s).unwrap().get_marketplace_purchase().unwrap());
}

#[test]
fn pull_request_test() {
    let s = payload(&format!(
        r#""action":"submitted","review":{{"id":5,"user":{u},"body":"Nice fix","commit_id":"abc123",
        "submitted_at":"2022-08-09T00:00:00Z","state":"approved","html_url":"https://r",
        "author_association":"OWNER"}},"pull_request":{p},"repository":{r}"#,
        u = user("octocat"),
        p = pull_request(),
        r = repository()
    ));
    let d = inbound(s).unwrap();

    println!("{:#?}\n{:#?}", d.get_review().unwrap(), d.get_pull_request().unwrap());
}

#[test]
fn release_test() {
    let s = payload(&format!(
        r#""action":"published","release":{{"html_url":"https://github.com/ho-229/flows/releases/v1.0",
        "tag_name":"v1.0","target_commitish":"main","name":"First","draft":false,"author":{u},
        "assets":[{{"browser_download_url":"https://dl","name":"flows.tar.gz","label":null,"state":"uploaded",
        "content_type":"application/gzip","size":1024,"download_count":0,"created_at":"2022-08-09T00:00:00Z",
        "updated_at":"2022-08-09T00:00:00Z","uploader":{u}}}],"prerelease":false,
        "created_at":"2022-08-09T00:00:00Z","published_at":"2022-08-09T00:00:00Z","body":null}},"repository":{r}"#,
        u = user("ho-229"),
        r = repository()
    ));

    println!("{:#?}", inbound(s).unwrap().get_release().unwrap());
}

#[test]
fn workflow_job_test() {
    let s = payload(&format!(
        r#""action":"completed","workflow_job":{{"id":1,"html_url":"https://j","status":"completed",
        "conclusion":"success","started_at":"2022-08-09T00:00:00Z","completed_at":"2022-08-09T00:05:00Z",
        "name":"build","steps":[{{"name":"Checkout","status":"completed","conclusion":"success","number":1,
        "started_at":"2022-08-09T00:00:00Z","completed_at":"2022-08-09T00:00:10Z"}}],"labels":["ubuntu-latest"],
        "runner_id":2,"runner_name":"GitHub Actions 2","runner_group_id":2,"runner_group_name":"GitHub Actions"}},
        "repository":{r}"#,
        r = repository()
    ));

    println!("{:#?}", inbound(s).unwrap().get_workflow_job().unwrap());
}

#[test]
fn push_test() {
    let s = payload(&format!(
        r#""ref":"refs/heads/main","before":"000","after":"abc","head_commit":{c},"commits":[{c}],"repository":{r}"#,
        c = commit("abc"),
        r = repository()
    ));
    let d = inbound(s).unwrap();

    println!("{:#?}\n{:#?}", d.get_head_commit().unwrap(), d.get_commits().unwrap());
}

#[test]
fn outbound_test() {
    let d = outbound::create_issue("issue title")
        .labels(vec!["test"])
        .milestone(JsonValue::unsigned(1))
        .assignees(vec!["ho-229"])
        .body("message")
        .build()
        .unwrap();

    assert_eq!(
        serde_json::from_str::<Value>(&d).unwrap(),
        serde_json::from_str::<Value>(
            r#"{
                "title": "issue title",
                "labels": ["test"],
                "milestone": 1,
                "assignees": ["ho-229"],
                "body": "message"
            }"#
        )
        .unwrap()
    );
}

#[test]
fn push_keeps_unknown_members() {
    let s = payload(&format!(
        r#""ref":"refs/heads/main","before":"000","after":"abc","forced":false,"repository":{r}"#,
        r = repository()
    ));
    let d = inbound(s).unwrap();
    let r: String = d.get("ref").unwrap();
    assert_eq!(r, "refs/heads/main");
    let forced: bool = d.get("forced").unwrap();
    assert!(!forced);
    assert_eq!(d.get::<String>("pusher").unwrap_err(), "Missing pusher");
    assert!(d.get::<u32>("ref").unwrap_err().starts_with("Invalid ref: "));
    assert!(d.extra.iter().all(|(k, _)| k != "sender" && k != "repository"));
    assert_eq!(d.extra.len(), 4);
}

#[test]
fn missing_sections_fail() {
    let d = inbound(payload(r#""action":"deleted","issue":null"#)).unwrap();
    assert_eq!(d.get_action().unwrap(), "deleted");
    assert_eq!(d.get_issue().unwrap_err(), "Missing issue");
    assert_eq!(d.get_comment().unwrap_err(), "Missing comment");
    assert_eq!(d.get_repository().unwrap_err(), "Missing repository");
    assert_eq!(d.get_fork().unwrap_err(), "Missing forkee");
    assert_eq!(d.get_pull_request().unwrap_err(), "Missing pull_request");
    assert_eq!(d.get_commits().unwrap_err(), "Missing commits");
    assert_eq!(d.get_starred_at().unwrap_err(), "Missing starred_at");
}

#[test]
fn decode_reports_bad_payloads() {
    let e = inbound("not json".to_string()).unwrap_err();
    assert!(e.starts_with("Parsing GitHub Webhook payload failed: "));
    assert!(!e.contains("not json"));
    let e = inbound(r#"{"action":"opened"}"#.to_string()).unwrap_err();
    assert!(e.contains("sender"));
    let e = inbound(payload(r#""issue":{"number":"seven"}"#)).unwrap_err();
    assert!(e.starts_with("Parsing GitHub Webhook payload failed: "));
    assert!(inbound(payload(r#""starred_at":5"#)).is_err());
}

#[test]
fn numbers_and_licenses_decode() {
    let d = inbound(payload(&format!(r#""repository":{}"#, repository()))).unwrap();
    let r = d.get_repository().unwrap();
    assert_eq!(r.stargazers_count, 3);
    assert!(matches!(&r.created_at, JsonValue::Number(t) if t == "1660000000"));
    assert!(matches!(&r.license, Some(License::Object { spdx_id, .. }) if spdx_id == "MIT"));
    let with_name = repository().replace(
        r#"{"key":"mit","name":"MIT License","spdx_id":"MIT","url":"https://api.github.com/licenses/mit"}"#,
        r#""MIT""#,
    );
    let d = inbound(payload(&format!(r#""repository":{}"#, with_name))).unwrap();
    assert!(matches!(&d.get_repository().unwrap().license, Some(License::Name(n)) if n == "MIT"));
    let too_big = repository().replace(r#""forks":1"#, r#""forks":4294967296"#);
    assert!(inbound(payload(&format!(r#""repository":{}"#, too_big))).is_err());
    let fraction = repository().replace(r#""forks":1"#, r#""forks":1.5"#);
    assert!(inbound(payload(&format!(r#""repository":{}"#, fraction))).is_err());
}

#[test]
fn commit_message_defaults_to_empty() {
    let c = commit("abc").replace(r#""message":"Fix","#, "");
    let d: InboundData = inbound(payload(&format!(r#""head_commit":{}"#, c))).unwrap();
    assert_eq!(d.get_head_commit().unwrap().message, "");
    assert_eq!(d.get_head_commit().unwrap().committer.username, None);
}

#[test]
fn issue_builders_need_two_fields() {
    assert_eq!(
        outbound::create_issue("t").build().unwrap_err(),
        "OutboundData build failed: Too few fields"
    );
    let d = outbound::modify_issue(42).labels(vec!["a", "b"]).build().unwrap();
    assert_eq!(
        serde_json::from_str::<Value>(&d).unwrap(),
        serde_json::from_str::<Value>(r#"{"issue_number":42,"labels":["a","b"]}"#).unwrap()
    );
    let d = outbound::merge_pull(7).body("merging").body("squash").build().unwrap();
    assert_eq!(
        serde_json::from_str::<Value>(&d).unwrap(),
        serde_json::from_str::<Value>(r#"{"pull_number":7,"body":"squash"}"#).unwrap()
    );
}

#[test]
fn invalid_number_text_fails_to_print() {
    let e = outbound::create_issue("t")
        .milestone(JsonValue::Number("twelve".to_string()))
        .build()
        .unwrap_err();
    assert!(e.starts_with("OutboundData build failed: "));
}
