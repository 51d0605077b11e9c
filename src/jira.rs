//! Jira webhook payloads, and request bodies for creating and changing issues.

use vstd::prelude::*;
use crate::json::{JsonValue, parse_json, parsed_json};
use crate::decode::{
    FromJson, required, required_is, optional, optional_is, defaulted, defaulted_is,
    required_member, optional_member, defaulted_member, expect_object, section_result,
    with_reason, starts_with, absent,
};

pub mod outbound;

verus! {

/// One change to a field of an issue.
#[derive(Debug)]
pub struct ChangeLogItem {
    pub field: String,
    pub field_id: String,
    pub fieldtype: String,
    pub from: Option<String>,
    pub from_string: Option<String>,
    pub to: Option<String>,
    pub to_string: Option<String>,
}

impl FromJson for ChangeLogItem {
    open spec fn accepts(j: JsonValue) -> bool {
        &&& j is Object
        &&& required::<String>(j, "field"@)
        &&& required::<String>(j, "fieldId"@)
        &&& required::<String>(j, "fieldtype"@)
        &&& optional::<String>(j, "from"@)
        &&& optional::<String>(j, "fromString"@)
        &&& optional::<String>(j, "to"@)
        &&& optional::<String>(j, "toString"@)
    }

    open spec fn decodes_to(j: JsonValue, v: ChangeLogItem) -> bool {
        &&& required_is(j, "field"@, v.field)
        &&& required_is(j, "fieldId"@, v.field_id)
        &&& required_is(j, "fieldtype"@, v.fieldtype)
        &&& optional_is(j, "from"@, v.from)
        &&& optional_is(j, "fromString"@, v.from_string)
        &&& optional_is(j, "to"@, v.to)
        &&& optional_is(j, "toString"@, v.to_string)
    }

    fn from_json(j: &JsonValue) -> (r: Result<ChangeLogItem, String>) {
        expect_object(j)?;
        let field = required_member::<String>(j, "field")?;
        let field_id = required_member::<String>(j, "fieldId")?;
        let fieldtype = required_member::<String>(j, "fieldtype")?;
        let from = optional_member::<String>(j, "from")?;
        let from_string = optional_member::<String>(j, "fromString")?;
        let to = optional_member::<String>(j, "to")?;
        let to_string = optional_member::<String>(j, "toString")?;
        Ok(ChangeLogItem {
            field,
            field_id,
            fieldtype,
            from,
            from_string,
            to,
            to_string,
        })
    }
}

/// The changes that an update made.
#[derive(Debug)]
pub struct ChangeLog {
    pub items: Vec<ChangeLogItem>,
}

impl FromJson for ChangeLog {
    open spec fn accepts(j: JsonValue) -> bool {
        &&& j is Object
        &&& required::<Vec<ChangeLogItem>>(j, "items"@)
    }

    open spec fn decodes_to(j: JsonValue, v: ChangeLog) -> bool {
        &&& required_is(j, "items"@, v.items)
    }

    fn from_json(j: &JsonValue) -> (r: Result<ChangeLog, String>) {
        expect_object(j)?;
        let items = required_member::<Vec<ChangeLogItem>>(j, "items")?;
        Ok(ChangeLog {
            items,
        })
    }
}

/// The URLs of an avatar in four sizes.
#[derive(Debug)]
pub struct AvatarUrls {
    pub _16x16: String,
    pub _24x24: String,
    pub _32x32: String,
    pub _48x48: String,
}

impl FromJson for AvatarUrls {
    open spec fn accepts(j: JsonValue) -> bool {
        &&& j is Object
        &&& required::<String>(j, "16x16"@)
        &&& required::<String>(j, "24x24"@)
        &&& required::<String>(j, "32x32"@)
        &&& required::<String>(j, "48x48"@)
    }

    open spec fn decodes_to(j: JsonValue, v: AvatarUrls) -> bool {
        &&& required_is(j, "16x16"@, v._16x16)
        &&& required_is(j, "24x24"@, v._24x24)
        &&& required_is(j, "32x32"@, v._32x32)
        &&& required_is(j, "48x48"@, v._48x48)
    }

    fn from_json(j: &JsonValue) -> (r: Result<AvatarUrls, String>) {
        expect_object(j)?;
        let _16x16 = required_member::<String>(j, "16x16")?;
        let _24x24 = required_member::<String>(j, "24x24")?;
        let _32x32 = required_member::<String>(j, "32x32")?;
        let _48x48 = required_member::<String>(j, "48x48")?;
        Ok(AvatarUrls {
            _16x16,
            _24x24,
            _32x32,
            _48x48,
        })
    }
}

/// A Jira account.
#[derive(Debug)]
pub struct User {
    pub account_type: String,
    pub active: bool,
    pub avatar_urls: AvatarUrls,
    pub display_name: String,
    pub _self: String,
    pub time_zone: String,
}

impl FromJson for User {
    open spec fn accepts(j: JsonValue) -> bool {
        &&& j is Object
        &&& required::<String>(j, "accountType"@)
        &&& required::<bool>(j, "active"@)
        &&& required::<AvatarUrls>(j, "avatarUrls"@)
        &&& required::<String>(j, "displayName"@)
        &&& required::<String>(j, "self"@)
        &&& required::<String>(j, "timeZone"@)
    }

    open spec fn decodes_to(j: JsonValue, v: User) -> bool {
        &&& required_is(j, "accountType"@, v.account_type)
        &&& required_is(j, "active"@, v.active)
        &&& required_is(j, "avatarUrls"@, v.avatar_urls)
        &&& required_is(j, "displayName"@, v.display_name)
        &&& required_is(j, "self"@, v._self)
        &&& required_is(j, "timeZone"@, v.time_zone)
    }

    fn from_json(j: &JsonValue) -> (r: Result<User, String>) {
        expect_object(j)?;
        let account_type = required_member::<String>(j, "accountType")?;
        let active = required_member::<bool>(j, "active")?;
        let avatar_urls = required_member::<AvatarUrls>(j, "avatarUrls")?;
        let display_name = required_member::<String>(j, "displayName")?;
        let _self = required_member::<String>(j, "self")?;
        let time_zone = required_member::<String>(j, "timeZone")?;
        Ok(User {
            account_type,
            active,
            avatar_urls,
            display_name,
            _self,
            time_zone,
        })
    }
}

/// A project.
#[derive(Debug)]
pub struct Project {
    pub avatar_urls: AvatarUrls,
    pub id: String,
    pub key: String,
    pub name: String,
    pub project_type_key: String,
    pub _self: String,
    pub simplified: bool,
}

impl FromJson for Project {
    open spec fn accepts(j: JsonValue) -> bool {
        &&& j is Object
        &&& required::<AvatarUrls>(j, "avatarUrls"@)
        &&& required::<String>(j, "id"@)
        &&& required::<String>(j, "key"@)
        &&& required::<String>(j, "name"@)
        &&& required::<String>(j, "projectTypeKey"@)
        &&& required::<String>(j, "self"@)
        &&& required::<bool>(j, "simplified"@)
    }

    open spec fn decodes_to(j: JsonValue, v: Project) -> bool {
        &&& required_is(j, "avatarUrls"@, v.avatar_urls)
        &&& required_is(j, "id"@, v.id)
        &&& required_is(j, "key"@, v.key)
        &&& required_is(j, "name"@, v.name)
        &&& required_is(j, "projectTypeKey"@, v.project_type_key)
        &&& required_is(j, "self"@, v._self)
        &&& required_is(j, "simplified"@, v.simplified)
    }

    fn from_json(j: &JsonValue) -> (r: Result<Project, String>) {
        expect_object(j)?;
        let avatar_urls = required_member::<AvatarUrls>(j, "avatarUrls")?;
        let id = required_member::<String>(j, "id")?;
        let key = required_member::<String>(j, "key")?;
        let name = required_member::<String>(j, "name")?;
        let project_type_key = required_member::<String>(j, "projectTypeKey")?;
        let _self = required_member::<String>(j, "self")?;
        let simplified = required_member::<bool>(j, "simplified")?;
        Ok(Project {
            avatar_urls,
            id,
            key,
            name,
            project_type_key,
            _self,
            simplified,
        })
    }
}

/// Progress towards a total.
#[derive(Debug)]
pub struct Progress {
    pub progress: u64,
    pub total: u64,
}

impl FromJson for Progress {
    open spec fn accepts(j: JsonValue) -> bool {
        &&& j is Object
        &&& required::<u64>(j, "progress"@)
        &&& required::<u64>(j, "total"@)
    }

    open spec fn decodes_to(j: JsonValue, v: Progress) -> bool {
        &&& required_is(j, "progress"@, v.progress)
        &&& required_is(j, "total"@, v.total)
    }

    fn from_json(j: &JsonValue) -> (r: Result<Progress, String>) {
        expect_object(j)?;
        let progress = required_member::<u64>(j, "progress")?;
        let total = required_member::<u64>(j, "total")?;
        Ok(Progress {
            progress,
            total,
        })
    }
}

/// The type of an issue.
#[derive(Debug)]
pub struct IssueType {
    pub description: String,
    pub name: String,
    pub _self: String,
    pub subtask: bool,
}

impl FromJson for IssueType {
    open spec fn accepts(j: JsonValue) -> bool {
        &&& j is Object
        &&& required::<String>(j, "description"@)
        &&& required::<String>(j, "name"@)
        &&& required::<String>(j, "self"@)
        &&& required::<bool>(j, "subtask"@)
    }

    open spec fn decodes_to(j: JsonValue, v: IssueType) -> bool {
        &&& required_is(j, "description"@, v.description)
        &&& required_is(j, "name"@, v.name)
        &&& required_is(j, "self"@, v._self)
        &&& required_is(j, "subtask"@, v.subtask)
    }

    fn from_json(j: &JsonValue) -> (r: Result<IssueType, String>) {
        expect_object(j)?;
        let description = required_member::<String>(j, "description")?;
        let name = required_member::<String>(j, "name")?;
        let _self = required_member::<String>(j, "self")?;
        let subtask = required_member::<bool>(j, "subtask")?;
        Ok(IssueType {
            description,
            name,
            _self,
            subtask,
        })
    }
}

/// The votes on an issue.
#[derive(Debug)]
pub struct Votes {
    pub has_voted: bool,
    pub _self: String,
    pub votes: u64,
}

impl FromJson for Votes {
    open spec fn accepts(j: JsonValue) -> bool {
        &&& j is Object
        &&& required::<bool>(j, "hasVoted"@)
        &&& required::<String>(j, "self"@)
        &&& required::<u64>(j, "votes"@)
    }

    open spec fn decodes_to(j: JsonValue, v: Votes) -> bool {
        &&& required_is(j, "hasVoted"@, v.has_voted)
        &&& required_is(j, "self"@, v._self)
        &&& required_is(j, "votes"@, v.votes)
    }

    fn from_json(j: &JsonValue) -> (r: Result<Votes, String>) {
        expect_object(j)?;
        let has_voted = required_member::<bool>(j, "hasVoted")?;
        let _self = required_member::<String>(j, "self")?;
        let votes = required_member::<u64>(j, "votes")?;
        Ok(Votes {
            has_voted,
            _self,
            votes,
        })
    }
}

/// The fields of an issue.
#[derive(Debug)]
pub struct IssueField {
    pub aggregateprogress: Option<Progress>,
    pub assignee: Option<User>,
    pub created: Option<String>,
    pub creator: Option<User>,
    pub labels: Vec<String>,
    pub last_viewed: Option<String>,
    pub progress: Option<Progress>,
    pub project: Project,
    pub reporter: Option<User>,
    pub summary: String,
    pub updated: Option<String>,
    pub votes: Option<Votes>,
}

impl FromJson for IssueField {
    open spec fn accepts(j: JsonValue) -> bool {
        &&& j is Object
        &&& optional::<Progress>(j, "aggregateprogress"@)
        &&& optional::<User>(j, "assignee"@)
        &&& optional::<String>(j, "created"@)
        &&& optional::<User>(j, "creator"@)
        &&& defaulted::<Vec<String>>(j, "labels"@)
        &&& optional::<String>(j, "lastViewed"@)
        &&& optional::<Progress>(j, "progress"@)
        &&& required::<Project>(j, "project"@)
        &&& optional::<User>(j, "reporter"@)
        &&& required::<String>(j, "summary"@)
        &&& optional::<String>(j, "updated"@)
        &&& optional::<Votes>(j, "votes"@)
    }

    open spec fn decodes_to(j: JsonValue, v: IssueField) -> bool {
        &&& optional_is(j, "aggregateprogress"@, v.aggregateprogress)
        &&& optional_is(j, "assignee"@, v.assignee)
        &&& optional_is(j, "created"@, v.created)
        &&& optional_is(j, "creator"@, v.creator)
        &&& defaulted_is(j, "labels"@, v.labels, |x: Vec<String>| x@.len() == 0)
        &&& optional_is(j, "lastViewed"@, v.last_viewed)
        &&& optional_is(j, "progress"@, v.progress)
        &&& required_is(j, "project"@, v.project)
        &&& optional_is(j, "reporter"@, v.reporter)
        &&& required_is(j, "summary"@, v.summary)
        &&& optional_is(j, "updated"@, v.updated)
        &&& optional_is(j, "votes"@, v.votes)
    }

    fn from_json(j: &JsonValue) -> (r: Result<IssueField, String>) {
        expect_object(j)?;
        let aggregateprogress = optional_member::<Progress>(j, "aggregateprogress")?;
        let assignee = optional_member::<User>(j, "assignee")?;
        let created = optional_member::<String>(j, "created")?;
        let creator = optional_member::<User>(j, "creator")?;
        let labels = defaulted_member::<Vec<String>>(j, "labels", Vec::new())?;
        let last_viewed = optional_member::<String>(j, "lastViewed")?;
        let progress = optional_member::<Progress>(j, "progress")?;
        let project = required_member::<Project>(j, "project")?;
        let reporter = optional_member::<User>(j, "reporter")?;
        let summary = required_member::<String>(j, "summary")?;
        let updated = optional_member::<String>(j, "updated")?;
        let votes = optional_member::<Votes>(j, "votes")?;
        Ok(IssueField {
            aggregateprogress,
            assignee,
            created,
            creator,
            labels,
            last_viewed,
            progress,
            project,
            reporter,
            summary,
            updated,
            votes,
        })
    }
}

/// An issue.
#[derive(Debug)]
pub struct Issue {
    pub fields: IssueField,
    pub id: String,
    pub key: String,
    pub _self: String,
}

impl FromJson for Issue {
    open spec fn accepts(j: JsonValue) -> bool {
        &&& j is Object
        &&& required::<IssueField>(j, "fields"@)
        &&& required::<String>(j, "id"@)
        &&& required::<String>(j, "key"@)
        &&& required::<String>(j, "self"@)
    }

    open spec fn decodes_to(j: JsonValue, v: Issue) -> bool {
        &&& required_is(j, "fields"@, v.fields)
        &&& required_is(j, "id"@, v.id)
        &&& required_is(j, "key"@, v.key)
        &&& required_is(j, "self"@, v._self)
    }

    fn from_json(j: &JsonValue) -> (r: Result<Issue, String>) {
        expect_object(j)?;
        let fields = required_member::<IssueField>(j, "fields")?;
        let id = required_member::<String>(j, "id")?;
        let key = required_member::<String>(j, "key")?;
        let _self = required_member::<String>(j, "self")?;
        Ok(Issue {
            fields,
            id,
            key,
            _self,
        })
    }
}

/// A comment on an issue.
#[derive(Debug)]
pub struct Comment {
    pub author: User,
    pub body: String,
    pub created: String,
    pub _self: String,
    pub update_author: User,
    pub updated: String,
}

impl FromJson for Comment {
    open spec fn accepts(j: JsonValue) -> bool {
        &&& j is Object
        &&& required::<User>(j, "author"@)
        &&& required::<String>(j, "body"@)
        &&& required::<String>(j, "created"@)
        &&& required::<String>(j, "self"@)
        &&& required::<User>(j, "updateAuthor"@)
        &&& required::<String>(j, "updated"@)
    }

    open spec fn decodes_to(j: JsonValue, v: Comment) -> bool {
        &&& required_is(j, "author"@, v.author)
        &&& required_is(j, "body"@, v.body)
        &&& required_is(j, "created"@, v.created)
        &&& required_is(j, "self"@, v._self)
        &&& required_is(j, "updateAuthor"@, v.update_author)
        &&& required_is(j, "updated"@, v.updated)
    }

    fn from_json(j: &JsonValue) -> (r: Result<Comment, String>) {
        expect_object(j)?;
        let author = required_member::<User>(j, "author")?;
        let body = required_member::<String>(j, "body")?;
        let created = required_member::<String>(j, "created")?;
        let _self = required_member::<String>(j, "self")?;
        let update_author = required_member::<User>(j, "updateAuthor")?;
        let updated = required_member::<String>(j, "updated")?;
        Ok(Comment {
            author,
            body,
            created,
            _self,
            update_author,
            updated,
        })
    }
}

/// A Jira webhook payload: the sections present depend on the event.
#[derive(Debug)]
pub struct InboundData {
    pub changelog: Option<ChangeLog>,
    pub issue: Option<Issue>,
    pub comment: Option<Comment>,
    pub timestamp: u64,
    pub webhook_event: String,
}

impl FromJson for InboundData {
    open spec fn accepts(j: JsonValue) -> bool {
        &&& j is Object
        &&& optional::<ChangeLog>(j, "changelog"@)
        &&& optional::<Issue>(j, "issue"@)
        &&& optional::<Comment>(j, "comment"@)
        &&& required::<u64>(j, "timestamp"@)
        &&& required::<String>(j, "webhookEvent"@)
    }

    open spec fn decodes_to(j: JsonValue, v: InboundData) -> bool {
        &&& optional_is(j, "changelog"@, v.changelog)
        &&& optional_is(j, "issue"@, v.issue)
        &&& optional_is(j, "comment"@, v.comment)
        &&& required_is(j, "timestamp"@, v.timestamp)
        &&& required_is(j, "webhookEvent"@, v.webhook_event)
    }

    fn from_json(j: &JsonValue) -> (r: Result<InboundData, String>) {
        expect_object(j)?;
        let changelog = optional_member::<ChangeLog>(j, "changelog")?;
        let issue = optional_member::<Issue>(j, "issue")?;
        let comment = optional_member::<Comment>(j, "comment")?;
        let timestamp = required_member::<u64>(j, "timestamp")?;
        let webhook_event = required_member::<String>(j, "webhookEvent")?;
        Ok(InboundData {
            changelog,
            issue,
            comment,
            timestamp,
            webhook_event,
        })
    }
}

impl InboundData {
    pub fn get_changelog(&self) -> (r: Result<&ChangeLog, String>)
        ensures
            section_result(self.changelog, r, "Missing changelog"@),
    {
        match &self.changelog {
            Some(x) => Ok(x),
            None => Err("Missing changelog".to_owned()),
        }
    }

    pub fn get_issue(&self) -> (r: Result<&Issue, String>)
        ensures
            section_result(self.issue, r, "Missing issue"@),
    {
        match &self.issue {
            Some(x) => Ok(x),
            None => Err("Missing issue".to_owned()),
        }
    }

    pub fn get_comment(&self) -> (r: Result<&Comment, String>)
        ensures
            section_result(self.comment, r, "Missing comment"@),
    {
        match &self.comment {
            Some(x) => Ok(x),
            None => Err("Missing comment".to_owned()),
        }
    }
}

/// A payload without a section, or with `null` in its place, decodes to data
/// without that section, whose accessor then fails with `Missing <name>`.
pub proof fn lemma_absent_sections(j: JsonValue, d: InboundData)
    requires
        InboundData::decodes_to(j, d),
    ensures
        absent(j, "changelog"@) ==> d.changelog is None,
        absent(j, "issue"@) ==> d.issue is None,
        absent(j, "comment"@) ==> d.comment is None,
{
}

/// Decodes the Jira webhook payload in the text `s`.
///
/// The error names what did not fit, never the payload's content.
pub fn inbound(s: String) -> (r: Result<InboundData, String>)
    ensures
        r is Ok <==> (parsed_json(s@) matches Some(j) && InboundData::accepts(j)),
        r matches Ok(d) ==> InboundData::decodes_to(parsed_json(s@)->0, d),
        r matches Err(e) ==> starts_with(e@, "Parsing Jira Webhook payload failed: "@),
{
    match parse_json(s.as_str()) {
        Ok(j) => match InboundData::from_json(&j) {
            Ok(d) => Ok(d),
            Err(e) => Err(with_reason("Parsing Jira Webhook payload failed: ", e.as_str())),
        },
        Err(e) => Err(with_reason("Parsing Jira Webhook payload failed: ", e.as_str())),
    }
}

} // verus!
