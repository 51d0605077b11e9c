//! GitHub webhook payloads, and request bodies for issues and pull requests.

use vstd::prelude::*;
use crate::json::{JsonValue, entry, find_entry, parse_json, parsed_json, member, same};
use crate::decode::{
    FromJson, required, required_is, optional, optional_is, defaulted, defaulted_is, extra_is,
    required_member, optional_member, defaulted_member, expect_object, extra_members,
    section_result, with_reason, starts_with, names, absent, unknown_members, lemma_entry_unknown,
    lemma_entry_copied,
};

pub mod outbound;

verus! {

/// The license of a repository: an object, or only its name.
#[derive(Debug)]
pub enum License {
    Object { key: String, name: String, spdx_id: String, url: String },
    Name(String),
}

/// Whether `j` decodes as the object form of a license.
pub open spec fn license_object(j: JsonValue) -> bool {
    &&& j is Object
    &&& required::<String>(j, "key"@)
    &&& required::<String>(j, "name"@)
    &&& required::<String>(j, "spdx_id"@)
    &&& required::<String>(j, "url"@)
}

/// Decodes the object form of a license.
fn license_fields(j: &JsonValue) -> (r: Result<License, String>)
    ensures
        r is Ok <==> license_object(*j),
        r matches Ok(v) ==> License::decodes_to(*j, v),
{
    expect_object(j)?;
    let key = required_member::<String>(j, "key")?;
    let name = required_member::<String>(j, "name")?;
    let spdx_id = required_member::<String>(j, "spdx_id")?;
    let url = required_member::<String>(j, "url")?;
    Ok(License::Object { key, name, spdx_id, url })
}

impl FromJson for License {
    /// The object form is tried first, then the name alone.
    open spec fn accepts(j: JsonValue) -> bool {
        license_object(j) || j is Str
    }

    open spec fn decodes_to(j: JsonValue, v: License) -> bool {
        match v {
            License::Object { key, name, spdx_id, url } => {
                &&& license_object(j)
                &&& required_is(j, "key"@, key)
                &&& required_is(j, "name"@, name)
                &&& required_is(j, "spdx_id"@, spdx_id)
                &&& required_is(j, "url"@, url)
            },
            License::Name(n) => !license_object(j) && String::decodes_to(j, n),
        }
    }

    fn from_json(j: &JsonValue) -> (r: Result<License, String>) {
        match license_fields(j) {
            Ok(l) => Ok(l),
            Err(_) => {
                let n = String::from_json(j)?;
                Ok(License::Name(n))
            },
        }
    }
}

/// A repository that an event is about.
#[derive(Debug)]
pub struct Repository {
    pub name: String,
    pub full_name: String,
    pub private: bool,
    pub owner: User,
    pub html_url: String,
    pub description: Option<String>,
    pub fork: bool,
    /// A time: a Unix timestamp or an ISO 8601 string, depending on the event.
    pub created_at: JsonValue,
    pub updated_at: String,
    /// A time: a Unix timestamp or an ISO 8601 string, depending on the event.
    pub pushed_at: JsonValue,
    pub git_url: String,
    pub ssh_url: String,
    pub clone_url: String,
    pub svn_url: String,
    pub homepage: Option<String>,
    pub stargazers_count: u32,
    pub watchers_count: u32,
    pub language: Option<String>,
    pub has_issues: bool,
    pub has_projects: bool,
    pub has_downloads: bool,
    pub has_wiki: bool,
    pub has_pages: bool,
    pub forks_count: u32,
    pub mirror_url: Option<String>,
    pub archived: bool,
    pub disabled: bool,
    pub open_issues_count: u32,
    pub license: Option<License>,
    pub visibility: String,
    pub forks: u32,
    pub open_issues: u32,
    pub watchers: u32,
    pub default_branch: String,
}

impl FromJson for Repository {
    open spec fn accepts(j: JsonValue) -> bool {
        &&& j is Object
        &&& required::<String>(j, "name"@)
        &&& required::<String>(j, "full_name"@)
        &&& required::<bool>(j, "private"@)
        &&& required::<User>(j, "owner"@)
        &&& required::<String>(j, "html_url"@)
        &&& optional::<String>(j, "description"@)
        &&& required::<bool>(j, "fork"@)
        &&& required::<JsonValue>(j, "created_at"@)
        &&& required::<String>(j, "updated_at"@)
        &&& required::<JsonValue>(j, "pushed_at"@)
        &&& required::<String>(j, "git_url"@)
        &&& required::<String>(j, "ssh_url"@)
        &&& required::<String>(j, "clone_url"@)
        &&& required::<String>(j, "svn_url"@)
        &&& optional::<String>(j, "homepage"@)
        &&& required::<u32>(j, "stargazers_count"@)
        &&& required::<u32>(j, "watchers_count"@)
        &&& optional::<String>(j, "language"@)
        &&& required::<bool>(j, "has_issues"@)
        &&& required::<bool>(j, "has_projects"@)
        &&& required::<bool>(j, "has_downloads"@)
        &&& required::<bool>(j, "has_wiki"@)
        &&& required::<bool>(j, "has_pages"@)
        &&& required::<u32>(j, "forks_count"@)
        &&& optional::<String>(j, "mirror_url"@)
        &&& required::<bool>(j, "archived"@)
        &&& required::<bool>(j, "disabled"@)
        &&& required::<u32>(j, "open_issues_count"@)
        &&& optional::<License>(j, "license"@)
        &&& required::<String>(j, "visibility"@)
        &&& required::<u32>(j, "forks"@)
        &&& required::<u32>(j, "open_issues"@)
        &&& required::<u32>(j, "watchers"@)
        &&& required::<String>(j, "default_branch"@)
    }

    open spec fn decodes_to(j: JsonValue, v: Repository) -> bool {
        &&& required_is(j, "name"@, v.name)
        &&& required_is(j, "full_name"@, v.full_name)
        &&& required_is(j, "private"@, v.private)
        &&& required_is(j, "owner"@, v.owner)
        &&& required_is(j, "html_url"@, v.html_url)
        &&& optional_is(j, "description"@, v.description)
        &&& required_is(j, "fork"@, v.fork)
        &&& required_is(j, "created_at"@, v.created_at)
        &&& required_is(j, "updated_at"@, v.updated_at)
        &&& required_is(j, "pushed_at"@, v.pushed_at)
        &&& required_is(j, "git_url"@, v.git_url)
        &&& required_is(j, "ssh_url"@, v.ssh_url)
        &&& required_is(j, "clone_url"@, v.clone_url)
        &&& required_is(j, "svn_url"@, v.svn_url)
        &&& optional_is(j, "homepage"@, v.homepage)
        &&& required_is(j, "stargazers_count"@, v.stargazers_count)
        &&& required_is(j, "watchers_count"@, v.watchers_count)
        &&& optional_is(j, "language"@, v.language)
        &&& required_is(j, "has_issues"@, v.has_issues)
        &&& required_is(j, "has_projects"@, v.has_projects)
        &&& required_is(j, "has_downloads"@, v.has_downloads)
        &&& required_is(j, "has_wiki"@, v.has_wiki)
        &&& required_is(j, "has_pages"@, v.has_pages)
        &&& required_is(j, "forks_count"@, v.forks_count)
        &&& optional_is(j, "mirror_url"@, v.mirror_url)
        &&& required_is(j, "archived"@, v.archived)
        &&& required_is(j, "disabled"@, v.disabled)
        &&& required_is(j, "open_issues_count"@, v.open_issues_count)
        &&& optional_is(j, "license"@, v.license)
        &&& required_is(j, "visibility"@, v.visibility)
        &&& required_is(j, "forks"@, v.forks)
        &&& required_is(j, "open_issues"@, v.open_issues)
        &&& required_is(j, "watchers"@, v.watchers)
        &&& required_is(j, "default_branch"@, v.default_branch)
    }

    fn from_json(j: &JsonValue) -> (r: Result<Repository, String>) {
        expect_object(j)?;
        let name = required_member::<String>(j, "name")?;
        let full_name = required_member::<String>(j, "full_name")?;
        let private = required_member::<bool>(j, "private")?;
        let owner = required_member::<User>(j, "owner")?;
        let html_url = required_member::<String>(j, "html_url")?;
        let description = optional_member::<String>(j, "description")?;
        let fork = required_member::<bool>(j, "fork")?;
        let created_at = required_member::<JsonValue>(j, "created_at")?;
        let updated_at = required_member::<String>(j, "updated_at")?;
        let pushed_at = required_member::<JsonValue>(j, "pushed_at")?;
        let git_url = required_member::<String>(j, "git_url")?;
        let ssh_url = required_member::<String>(j, "ssh_url")?;
        let clone_url = required_member::<String>(j, "clone_url")?;
        let svn_url = required_member::<String>(j, "svn_url")?;
        let homepage = optional_member::<String>(j, "homepage")?;
        let stargazers_count = required_member::<u32>(j, "stargazers_count")?;
        let watchers_count = required_member::<u32>(j, "watchers_count")?;
        let language = optional_member::<String>(j, "language")?;
        let has_issues = required_member::<bool>(j, "has_issues")?;
        let has_projects = required_member::<bool>(j, "has_projects")?;
        let has_downloads = required_member::<bool>(j, "has_downloads")?;
        let has_wiki = required_member::<bool>(j, "has_wiki")?;
        let has_pages = required_member::<bool>(j, "has_pages")?;
        let forks_count = required_member::<u32>(j, "forks_count")?;
        let mirror_url = optional_member::<String>(j, "mirror_url")?;
        let archived = required_member::<bool>(j, "archived")?;
        let disabled = required_member::<bool>(j, "disabled")?;
        let open_issues_count = required_member::<u32>(j, "open_issues_count")?;
        let license = optional_member::<License>(j, "license")?;
        let visibility = required_member::<String>(j, "visibility")?;
        let forks = required_member::<u32>(j, "forks")?;
        let open_issues = required_member::<u32>(j, "open_issues")?;
        let watchers = required_member::<u32>(j, "watchers")?;
        let default_branch = required_member::<String>(j, "default_branch")?;
        Ok(Repository {
            name,
            full_name,
            private,
            owner,
            html_url,
            description,
            fork,
            created_at,
            updated_at,
            pushed_at,
            git_url,
            ssh_url,
            clone_url,
            svn_url,
            homepage,
            stargazers_count,
            watchers_count,
            language,
            has_issues,
            has_projects,
            has_downloads,
            has_wiki,
            has_pages,
            forks_count,
            mirror_url,
            archived,
            disabled,
            open_issues_count,
            license,
            visibility,
            forks,
            open_issues,
            watchers,
            default_branch,
        })
    }
}

/// The organization that owns a repository.
#[derive(Debug)]
pub struct Organization {
    pub login: String,
    pub avatar_url: String,
    pub description: Option<String>,
}

impl FromJson for Organization {
    open spec fn accepts(j: JsonValue) -> bool {
        &&& j is Object
        &&& required::<String>(j, "login"@)
        &&& required::<String>(j, "avatar_url"@)
        &&& optional::<String>(j, "description"@)
    }

    open spec fn decodes_to(j: JsonValue, v: Organization) -> bool {
        &&& required_is(j, "login"@, v.login)
        &&& required_is(j, "avatar_url"@, v.avatar_url)
        &&& optional_is(j, "description"@, v.description)
    }

    fn from_json(j: &JsonValue) -> (r: Result<Organization, String>) {
        expect_object(j)?;
        let login = required_member::<String>(j, "login")?;
        let avatar_url = required_member::<String>(j, "avatar_url")?;
        let description = optional_member::<String>(j, "description")?;
        Ok(Organization {
            login,
            avatar_url,
            description,
        })
    }
}

/// A GitHub account.
#[derive(Debug)]
pub struct User {
    pub login: String,
    pub email: Option<String>,
    pub avatar_url: String,
    pub html_url: String,
    /// The account type, such as `User` or `Bot`.
    pub kind: String,
    pub site_admin: bool,
}

impl FromJson for User {
    open spec fn accepts(j: JsonValue) -> bool {
        &&& j is Object
        &&& required::<String>(j, "login"@)
        &&& optional::<String>(j, "email"@)
        &&& required::<String>(j, "avatar_url"@)
        &&& required::<String>(j, "html_url"@)
        &&& required::<String>(j, "type"@)
        &&& required::<bool>(j, "site_admin"@)
    }

    open spec fn decodes_to(j: JsonValue, v: User) -> bool {
        &&& required_is(j, "login"@, v.login)
        &&& optional_is(j, "email"@, v.email)
        &&& required_is(j, "avatar_url"@, v.avatar_url)
        &&& required_is(j, "html_url"@, v.html_url)
        &&& required_is(j, "type"@, v.kind)
        &&& required_is(j, "site_admin"@, v.site_admin)
    }

    fn from_json(j: &JsonValue) -> (r: Result<User, String>) {
        expect_object(j)?;
        let login = required_member::<String>(j, "login")?;
        let email = optional_member::<String>(j, "email")?;
        let avatar_url = required_member::<String>(j, "avatar_url")?;
        let html_url = required_member::<String>(j, "html_url")?;
        let kind = required_member::<String>(j, "type")?;
        let site_admin = required_member::<bool>(j, "site_admin")?;
        Ok(User {
            login,
            email,
            avatar_url,
            html_url,
            kind,
            site_admin,
        })
    }
}

/// The category of a discussion.
#[derive(Debug)]
pub struct DiscussionCategory {
    pub name: String,
    pub description: String,
    pub emoji: Option<String>,
    pub created_at: String,
    pub updated_at: String,
    pub slug: Option<String>,
    pub is_answerable: bool,
}

impl FromJson for DiscussionCategory {
    open spec fn accepts(j: JsonValue) -> bool {
        &&& j is Object
        &&& required::<String>(j, "name"@)
        &&& required::<String>(j, "description"@)
        &&& optional::<String>(j, "emoji"@)
        &&& required::<String>(j, "created_at"@)
        &&& required::<String>(j, "updated_at"@)
        &&& optional::<String>(j, "slug"@)
        &&& required::<bool>(j, "is_answerable"@)
    }

    open spec fn decodes_to(j: JsonValue, v: DiscussionCategory) -> bool {
        &&& required_is(j, "name"@, v.name)
        &&& required_is(j, "description"@, v.description)
        &&& optional_is(j, "emoji"@, v.emoji)
        &&& required_is(j, "created_at"@, v.created_at)
        &&& required_is(j, "updated_at"@, v.updated_at)
        &&& optional_is(j, "slug"@, v.slug)
        &&& required_is(j, "is_answerable"@, v.is_answerable)
    }

    fn from_json(j: &JsonValue) -> (r: Result<DiscussionCategory, String>) {
        expect_object(j)?;
        let name = required_member::<String>(j, "name")?;
        let description = required_member::<String>(j, "description")?;
        let emoji = optional_member::<String>(j, "emoji")?;
        let created_at = required_member::<String>(j, "created_at")?;
        let updated_at = required_member::<String>(j, "updated_at")?;
        let slug = optional_member::<String>(j, "slug")?;
        let is_answerable = required_member::<bool>(j, "is_answerable")?;
        Ok(DiscussionCategory {
            name,
            description,
            emoji,
            created_at,
            updated_at,
            slug,
            is_answerable,
        })
    }
}

/// A comment on an issue, a pull request or a discussion.
#[derive(Debug)]
pub struct Comment {
    pub html_url: String,
    pub user: User,
    pub position: Option<u32>,
    pub path: Option<String>,
    pub created_at: String,
    pub updated_at: String,
    pub author_association: String,
    pub body: String,
}

impl FromJson for Comment {
    open spec fn accepts(j: JsonValue) -> bool {
        &&& j is Object
        &&& required::<String>(j, "html_url"@)
        &&& required::<User>(j, "user"@)
        &&& optional::<u32>(j, "position"@)
        &&& optional::<String>(j, "path"@)
        &&& required::<String>(j, "created_at"@)
        &&& required::<String>(j, "updated_at"@)
        &&& required::<String>(j, "author_association"@)
        &&& required::<String>(j, "body"@)
    }

    open spec fn decodes_to(j: JsonValue, v: Comment) -> bool {
        &&& required_is(j, "html_url"@, v.html_url)
        &&& required_is(j, "user"@, v.user)
        &&& optional_is(j, "position"@, v.position)
        &&& optional_is(j, "path"@, v.path)
        &&& required_is(j, "created_at"@, v.created_at)
        &&& required_is(j, "updated_at"@, v.updated_at)
        &&& required_is(j, "author_association"@, v.author_association)
        &&& required_is(j, "body"@, v.body)
    }

    fn from_json(j: &JsonValue) -> (r: Result<Comment, String>) {
        expect_object(j)?;
        let html_url = required_member::<String>(j, "html_url")?;
        let user = required_member::<User>(j, "user")?;
        let position = optional_member::<u32>(j, "position")?;
        let path = optional_member::<String>(j, "path")?;
        let created_at = required_member::<String>(j, "created_at")?;
        let updated_at = required_member::<String>(j, "updated_at")?;
        let author_association = required_member::<String>(j, "author_association")?;
        let body = required_member::<String>(j, "body")?;
        Ok(Comment {
            html_url,
            user,
            position,
            path,
            created_at,
            updated_at,
            author_association,
            body,
        })
    }
}

/// A discussion thread.
#[derive(Debug)]
pub struct Discussion {
    pub category: DiscussionCategory,
    pub answer_html_url: Option<String>,
    pub answer_chosen_at: Option<String>,
    pub answer_chosen_by: Option<String>,
    pub html_url: String,
    pub user: User,
    pub number: u32,
    pub title: String,
    pub state: String,
    pub locked: bool,
    pub comments: u32,
    pub created_at: String,
    pub updated_at: String,
    pub author_association: String,
    pub active_lock_reason: Option<String>,
    pub body: String,
}

impl FromJson for Discussion {
    open spec fn accepts(j: JsonValue) -> bool {
        &&& j is Object
        &&& required::<DiscussionCategory>(j, "category"@)
        &&& optional::<String>(j, "answer_html_url"@)
        &&& optional::<String>(j, "answer_chosen_at"@)
        &&& optional::<String>(j, "answer_chosen_by"@)
        &&& required::<String>(j, "html_url"@)
        &&& required::<User>(j, "user"@)
        &&& required::<u32>(j, "number"@)
        &&& required::<String>(j, "title"@)
        &&& required::<String>(j, "state"@)
        &&& required::<bool>(j, "locked"@)
        &&& required::<u32>(j, "comments"@)
        &&& required::<String>(j, "created_at"@)
        &&& required::<String>(j, "updated_at"@)
        &&& required::<String>(j, "author_association"@)
        &&& optional::<String>(j, "active_lock_reason"@)
        &&& required::<String>(j, "body"@)
    }

    open spec fn decodes_to(j: JsonValue, v: Discussion) -> bool {
        &&& required_is(j, "category"@, v.category)
        &&& optional_is(j, "answer_html_url"@, v.answer_html_url)
        &&& optional_is(j, "answer_chosen_at"@, v.answer_chosen_at)
        &&& optional_is(j, "answer_chosen_by"@, v.answer_chosen_by)
        &&& required_is(j, "html_url"@, v.html_url)
        &&& required_is(j, "user"@, v.user)
        &&& required_is(j, "number"@, v.number)
        &&& required_is(j, "title"@, v.title)
        &&& required_is(j, "state"@, v.state)
        &&& required_is(j, "locked"@, v.locked)
        &&& required_is(j, "comments"@, v.comments)
        &&& required_is(j, "created_at"@, v.created_at)
        &&& required_is(j, "updated_at"@, v.updated_at)
        &&& required_is(j, "author_association"@, v.author_association)
        &&& optional_is(j, "active_lock_reason"@, v.active_lock_reason)
        &&& required_is(j, "body"@, v.body)
    }

    fn from_json(j: &JsonValue) -> (r: Result<Discussion, String>) {
        expect_object(j)?;
        let category = required_member::<DiscussionCategory>(j, "category")?;
        let answer_html_url = optional_member::<String>(j, "answer_html_url")?;
        let answer_chosen_at = optional_member::<String>(j, "answer_chosen_at")?;
        let answer_chosen_by = optional_member::<String>(j, "answer_chosen_by")?;
        let html_url = required_member::<String>(j, "html_url")?;
        let user = required_member::<User>(j, "user")?;
        let number = required_member::<u32>(j, "number")?;
        let title = required_member::<String>(j, "title")?;
        let state = required_member::<String>(j, "state")?;
        let locked = required_member::<bool>(j, "locked")?;
        let comments = required_member::<u32>(j, "comments")?;
        let created_at = required_member::<String>(j, "created_at")?;
        let updated_at = required_member::<String>(j, "updated_at")?;
        let author_association = required_member::<String>(j, "author_association")?;
        let active_lock_reason = optional_member::<String>(j, "active_lock_reason")?;
        let body = required_member::<String>(j, "body")?;
        Ok(Discussion {
            category,
            answer_html_url,
            answer_chosen_at,
            answer_chosen_by,
            html_url,
            user,
            number,
            title,
            state,
            locked,
            comments,
            created_at,
            updated_at,
            author_association,
            active_lock_reason,
            body,
        })
    }
}

/// A label on an issue or a pull request.
#[derive(Debug)]
pub struct Label {
    pub name: String,
    pub color: String,
    pub default: bool,
}

impl FromJson for Label {
    open spec fn accepts(j: JsonValue) -> bool {
        &&& j is Object
        &&& required::<String>(j, "name"@)
        &&& required::<String>(j, "color"@)
        &&& required::<bool>(j, "default"@)
    }

    open spec fn decodes_to(j: JsonValue, v: Label) -> bool {
        &&& required_is(j, "name"@, v.name)
        &&& required_is(j, "color"@, v.color)
        &&& required_is(j, "default"@, v.default)
    }

    fn from_json(j: &JsonValue) -> (r: Result<Label, String>) {
        expect_object(j)?;
        let name = required_member::<String>(j, "name")?;
        let color = required_member::<String>(j, "color")?;
        let default = required_member::<bool>(j, "default")?;
        Ok(Label {
            name,
            color,
            default,
        })
    }
}

/// An issue.
#[derive(Debug)]
pub struct Issue {
    pub active_lock_reason: Option<String>,
    pub html_url: String,
    pub number: u32,
    pub title: String,
    pub user: User,
    pub labels: Vec<Label>,
    pub state: String,
    pub state_reason: Option<String>,
    pub locked: bool,
    pub assignees: Vec<User>,
    pub comments: u32,
    pub created_at: String,
    pub updated_at: String,
    pub closed_at: Option<String>,
    pub author_association: String,
    pub body: Option<String>,
}

impl FromJson for Issue {
    open spec fn accepts(j: JsonValue) -> bool {
        &&& j is Object
        &&& optional::<String>(j, "active_lock_reason"@)
        &&& required::<String>(j, "html_url"@)
        &&& required::<u32>(j, "number"@)
        &&& required::<String>(j, "title"@)
        &&& required::<User>(j, "user"@)
        &&& required::<Vec<Label>>(j, "labels"@)
        &&& required::<String>(j, "state"@)
        &&& optional::<String>(j, "state_reason"@)
        &&& required::<bool>(j, "locked"@)
        &&& required::<Vec<User>>(j, "assignees"@)
        &&& required::<u32>(j, "comments"@)
        &&& required::<String>(j, "created_at"@)
        &&& required::<String>(j, "updated_at"@)
        &&& optional::<String>(j, "closed_at"@)
        &&& required::<String>(j, "author_association"@)
        &&& optional::<String>(j, "body"@)
    }

    open spec fn decodes_to(j: JsonValue, v: Issue) -> bool {
        &&& optional_is(j, "active_lock_reason"@, v.active_lock_reason)
        &&& required_is(j, "html_url"@, v.html_url)
        &&& required_is(j, "number"@, v.number)
        &&& required_is(j, "title"@, v.title)
        &&& required_is(j, "user"@, v.user)
        &&& required_is(j, "labels"@, v.labels)
        &&& required_is(j, "state"@, v.state)
        &&& optional_is(j, "state_reason"@, v.state_reason)
        &&& required_is(j, "locked"@, v.locked)
        &&& required_is(j, "assignees"@, v.assignees)
        &&& required_is(j, "comments"@, v.comments)
        &&& required_is(j, "created_at"@, v.created_at)
        &&& required_is(j, "updated_at"@, v.updated_at)
        &&& optional_is(j, "closed_at"@, v.closed_at)
        &&& required_is(j, "author_association"@, v.author_association)
        &&& optional_is(j, "body"@, v.body)
    }

    fn from_json(j: &JsonValue) -> (r: Result<Issue, String>) {
        expect_object(j)?;
        let active_lock_reason = optional_member::<String>(j, "active_lock_reason")?;
        let html_url = required_member::<String>(j, "html_url")?;
        let number = required_member::<u32>(j, "number")?;
        let title = required_member::<String>(j, "title")?;
        let user = required_member::<User>(j, "user")?;
        let labels = required_member::<Vec<Label>>(j, "labels")?;
        let state = required_member::<String>(j, "state")?;
        let state_reason = optional_member::<String>(j, "state_reason")?;
        let locked = required_member::<bool>(j, "locked")?;
        let assignees = required_member::<Vec<User>>(j, "assignees")?;
        let comments = required_member::<u32>(j, "comments")?;
        let created_at = required_member::<String>(j, "created_at")?;
        let updated_at = required_member::<String>(j, "updated_at")?;
        let closed_at = optional_member::<String>(j, "closed_at")?;
        let author_association = required_member::<String>(j, "author_association")?;
        let body = optional_member::<String>(j, "body")?;
        Ok(Issue {
            active_lock_reason,
            html_url,
            number,
            title,
            user,
            labels,
            state,
            state_reason,
            locked,
            assignees,
            comments,
            created_at,
            updated_at,
            closed_at,
            author_association,
            body,
        })
    }
}

/// A Marketplace plan.
#[derive(Debug)]
pub struct Plan {
    pub name: String,
    pub description: String,
    pub monthly_price_in_cents: u32,
    pub yearly_price_in_cents: u32,
    pub price_model: String,
    pub has_free_trial: bool,
    pub unit_name: String,
    pub bullets: Vec<String>,
}

impl FromJson for Plan {
    open spec fn accepts(j: JsonValue) -> bool {
        &&& j is Object
        &&& required::<String>(j, "name"@)
        &&& required::<String>(j, "description"@)
        &&& required::<u32>(j, "monthly_price_in_cents"@)
        &&& required::<u32>(j, "yearly_price_in_cents"@)
        &&& required::<String>(j, "price_model"@)
        &&& required::<bool>(j, "has_free_trial"@)
        &&& required::<String>(j, "unit_name"@)
        &&& required::<Vec<String>>(j, "bullets"@)
    }

    open spec fn decodes_to(j: JsonValue, v: Plan) -> bool {
        &&& required_is(j, "name"@, v.name)
        &&& required_is(j, "description"@, v.description)
        &&& required_is(j, "monthly_price_in_cents"@, v.monthly_price_in_cents)
        &&& required_is(j, "yearly_price_in_cents"@, v.yearly_price_in_cents)
        &&& required_is(j, "price_model"@, v.price_model)
        &&& required_is(j, "has_free_trial"@, v.has_free_trial)
        &&& required_is(j, "unit_name"@, v.unit_name)
        &&& required_is(j, "bullets"@, v.bullets)
    }

    fn from_json(j: &JsonValue) -> (r: Result<Plan, String>) {
        expect_object(j)?;
        let name = required_member::<String>(j, "name")?;
        let description = required_member::<String>(j, "description")?;
        let monthly_price_in_cents = required_member::<u32>(j, "monthly_price_in_cents")?;
        let yearly_price_in_cents = required_member::<u32>(j, "yearly_price_in_cents")?;
        let price_model = required_member::<String>(j, "price_model")?;
        let has_free_trial = required_member::<bool>(j, "has_free_trial")?;
        let unit_name = required_member::<String>(j, "unit_name")?;
        let bullets = required_member::<Vec<String>>(j, "bullets")?;
        Ok(Plan {
            name,
            description,
            monthly_price_in_cents,
            yearly_price_in_cents,
            price_model,
            has_free_trial,
            unit_name,
            bullets,
        })
    }
}

/// A Marketplace purchase.
#[derive(Debug)]
pub struct MarketplacePurchase {
    pub billing_cycle: String,
    pub unit_count: u32,
    pub on_free_trial: bool,
    pub free_trial_ends_on: Option<String>,
    pub next_billing_date: String,
    pub plan: Plan,
}

impl FromJson for MarketplacePurchase {
    open spec fn accepts(j: JsonValue) -> bool {
        &&& j is Object
        &&& required::<String>(j, "billing_cycle"@)
        &&& required::<u32>(j, "unit_count"@)
        &&& required::<bool>(j, "on_free_trial"@)
        &&& optional::<String>(j, "free_trial_ends_on"@)
        &&& required::<String>(j, "next_billing_date"@)
        &&& required::<Plan>(j, "plan"@)
    }

    open spec fn decodes_to(j: JsonValue, v: MarketplacePurchase) -> bool {
        &&& required_is(j, "billing_cycle"@, v.billing_cycle)
        &&& required_is(j, "unit_count"@, v.unit_count)
        &&& required_is(j, "on_free_trial"@, v.on_free_trial)
        &&& optional_is(j, "free_trial_ends_on"@, v.free_trial_ends_on)
        &&& required_is(j, "next_billing_date"@, v.next_billing_date)
        &&& required_is(j, "plan"@, v.plan)
    }

    fn from_json(j: &JsonValue) -> (r: Result<MarketplacePurchase, String>) {
        expect_object(j)?;
        let billing_cycle = required_member::<String>(j, "billing_cycle")?;
        let unit_count = required_member::<u32>(j, "unit_count")?;
        let on_free_trial = required_member::<bool>(j, "on_free_trial")?;
        let free_trial_ends_on = optional_member::<String>(j, "free_trial_ends_on")?;
        let next_billing_date = required_member::<String>(j, "next_billing_date")?;
        let plan = required_member::<Plan>(j, "plan")?;
        Ok(MarketplacePurchase {
            billing_cycle,
            unit_count,
            on_free_trial,
            free_trial_ends_on,
            next_billing_date,
            plan,
        })
    }
}

/// One end of a pull request: the head or the base branch.
#[derive(Debug)]
pub struct PrPoint {
    pub label: String,
    /// The name of the branch.
    pub git_ref: String,
    pub sha: String,
    pub user: User,
    pub repo: Repository,
}

impl FromJson for PrPoint {
    open spec fn accepts(j: JsonValue) -> bool {
        &&& j is Object
        &&& required::<String>(j, "label"@)
        &&& required::<String>(j, "ref"@)
        &&& required::<String>(j, "sha"@)
        &&& required::<User>(j, "user"@)
        &&& required::<Repository>(j, "repo"@)
    }

    open spec fn decodes_to(j: JsonValue, v: PrPoint) -> bool {
        &&& required_is(j, "label"@, v.label)
        &&& required_is(j, "ref"@, v.git_ref)
        &&& required_is(j, "sha"@, v.sha)
        &&& required_is(j, "user"@, v.user)
        &&& required_is(j, "repo"@, v.repo)
    }

    fn from_json(j: &JsonValue) -> (r: Result<PrPoint, String>) {
        expect_object(j)?;
        let label = required_member::<String>(j, "label")?;
        let git_ref = required_member::<String>(j, "ref")?;
        let sha = required_member::<String>(j, "sha")?;
        let user = required_member::<User>(j, "user")?;
        let repo = required_member::<Repository>(j, "repo")?;
        Ok(PrPoint {
            label,
            git_ref,
            sha,
            user,
            repo,
        })
    }
}

/// A pull request.
#[derive(Debug)]
pub struct PullRequest {
    pub html_url: String,
    pub diff_url: String,
    pub patch_url: String,
    pub number: u32,
    pub state: String,
    pub locked: bool,
    pub title: String,
    pub user: User,
    pub body: Option<String>,
    pub created_at: String,
    pub updated_at: String,
    pub closed_at: Option<String>,
    pub merged_at: Option<String>,
    pub merge_commit_sha: Option<String>,
    pub assignees: Vec<User>,
    pub requested_reviewers: Vec<User>,
    pub labels: Vec<Label>,
    pub head: PrPoint,
    pub base: PrPoint,
    pub author_association: String,
    pub draft: Option<bool>,
    pub merged: Option<bool>,
    pub mergeable: Option<bool>,
    pub mergeable_state: Option<String>,
    pub merged_by: Option<User>,
    pub comments: Option<u32>,
    pub review_comments: Option<u32>,
    pub maintainer_can_modify: Option<bool>,
    pub commits: Option<u32>,
    pub additions: Option<u32>,
    pub deletions: Option<u32>,
    pub changed_files: Option<u32>,
}

impl FromJson for PullRequest {
    open spec fn accepts(j: JsonValue) -> bool {
        &&& j is Object
        &&& required::<String>(j, "html_url"@)
        &&& required::<String>(j, "diff_url"@)
        &&& required::<String>(j, "patch_url"@)
        &&& required::<u32>(j, "number"@)
        &&& required::<String>(j, "state"@)
        &&& required::<bool>(j, "locked"@)
        &&& required::<String>(j, "title"@)
        &&& required::<User>(j, "user"@)
        &&& optional::<String>(j, "body"@)
        &&& required::<String>(j, "created_at"@)
        &&& required::<String>(j, "updated_at"@)
        &&& optional::<String>(j, "closed_at"@)
        &&& optional::<String>(j, "merged_at"@)
        &&& optional::<String>(j, "merge_commit_sha"@)
        &&& required::<Vec<User>>(j, "assignees"@)
        &&& required::<Vec<User>>(j, "requested_reviewers"@)
        &&& required::<Vec<Label>>(j, "labels"@)
        &&& required::<PrPoint>(j, "head"@)
        &&& required::<PrPoint>(j, "base"@)
        &&& required::<String>(j, "author_association"@)
        &&& optional::<bool>(j, "draft"@)
        &&& optional::<bool>(j, "merged"@)
        &&& optional::<bool>(j, "mergeable"@)
        &&& optional::<String>(j, "mergeable_state"@)
        &&& optional::<User>(j, "merged_by"@)
        &&& optional::<u32>(j, "comments"@)
        &&& optional::<u32>(j, "review_comments"@)
        &&& optional::<bool>(j, "maintainer_can_modify"@)
        &&& optional::<u32>(j, "commits"@)
        &&& optional::<u32>(j, "additions"@)
        &&& optional::<u32>(j, "deletions"@)
        &&& optional::<u32>(j, "changed_files"@)
    }

    open spec fn decodes_to(j: JsonValue, v: PullRequest) -> bool {
        &&& required_is(j, "html_url"@, v.html_url)
        &&& required_is(j, "diff_url"@, v.diff_url)
        &&& required_is(j, "patch_url"@, v.patch_url)
        &&& required_is(j, "number"@, v.number)
        &&& required_is(j, "state"@, v.state)
        &&& required_is(j, "locked"@, v.locked)
        &&& required_is(j, "title"@, v.title)
        &&& required_is(j, "user"@, v.user)
        &&& optional_is(j, "body"@, v.body)
        &&& required_is(j, "created_at"@, v.created_at)
        &&& required_is(j, "updated_at"@, v.updated_at)
        &&& optional_is(j, "closed_at"@, v.closed_at)
        &&& optional_is(j, "merged_at"@, v.merged_at)
        &&& optional_is(j, "merge_commit_sha"@, v.merge_commit_sha)
        &&& required_is(j, "assignees"@, v.assignees)
        &&& required_is(j, "requested_reviewers"@, v.requested_reviewers)
        &&& required_is(j, "labels"@, v.labels)
        &&& required_is(j, "head"@, v.head)
        &&& required_is(j, "base"@, v.base)
        &&& required_is(j, "author_association"@, v.author_association)
        &&& optional_is(j, "draft"@, v.draft)
        &&& optional_is(j, "merged"@, v.merged)
        &&& optional_is(j, "mergeable"@, v.mergeable)
        &&& optional_is(j, "mergeable_state"@, v.mergeable_state)
        &&& optional_is(j, "merged_by"@, v.merged_by)
        &&& optional_is(j, "comments"@, v.comments)
        &&& optional_is(j, "review_comments"@, v.review_comments)
        &&& optional_is(j, "maintainer_can_modify"@, v.maintainer_can_modify)
        &&& optional_is(j, "commits"@, v.commits)
        &&& optional_is(j, "additions"@, v.additions)
        &&& optional_is(j, "deletions"@, v.deletions)
        &&& optional_is(j, "changed_files"@, v.changed_files)
    }

    fn from_json(j: &JsonValue) -> (r: Result<PullRequest, String>) {
        expect_object(j)?;
        let html_url = required_member::<String>(j, "html_url")?;
        let diff_url = required_member::<String>(j, "diff_url")?;
        let patch_url = required_member::<String>(j, "patch_url")?;
        let number = required_member::<u32>(j, "number")?;
        let state = required_member::<String>(j, "state")?;
        let locked = required_member::<bool>(j, "locked")?;
        let title = required_member::<String>(j, "title")?;
        let user = required_member::<User>(j, "user")?;
        let body = optional_member::<String>(j, "body")?;
        let created_at = required_member::<String>(j, "created_at")?;
        let updated_at = required_member::<String>(j, "updated_at")?;
        let closed_at = optional_member::<String>(j, "closed_at")?;
        let merged_at = optional_member::<String>(j, "merged_at")?;
        let merge_commit_sha = optional_member::<String>(j, "merge_commit_sha")?;
        let assignees = required_member::<Vec<User>>(j, "assignees")?;
        let requested_reviewers = required_member::<Vec<User>>(j, "requested_reviewers")?;
        let labels = required_member::<Vec<Label>>(j, "labels")?;
        let head = required_member::<PrPoint>(j, "head")?;
        let base = required_member::<PrPoint>(j, "base")?;
        let author_association = required_member::<String>(j, "author_association")?;
        let draft = optional_member::<bool>(j, "draft")?;
        let merged = optional_member::<bool>(j, "merged")?;
        let mergeable = optional_member::<bool>(j, "mergeable")?;
        let mergeable_state = optional_member::<String>(j, "mergeable_state")?;
        let merged_by = optional_member::<User>(j, "merged_by")?;
        let comments = optional_member::<u32>(j, "comments")?;
        let review_comments = optional_member::<u32>(j, "review_comments")?;
        let maintainer_can_modify = optional_member::<bool>(j, "maintainer_can_modify")?;
        let commits = optional_member::<u32>(j, "commits")?;
        let additions = optional_member::<u32>(j, "additions")?;
        let deletions = optional_member::<u32>(j, "deletions")?;
        let changed_files = optional_member::<u32>(j, "changed_files")?;
        Ok(PullRequest {
            html_url,
            diff_url,
            patch_url,
            number,
            state,
            locked,
            title,
            user,
            body,
            created_at,
            updated_at,
            closed_at,
            merged_at,
            merge_commit_sha,
            assignees,
            requested_reviewers,
            labels,
            head,
            base,
            author_association,
            draft,
            merged,
            mergeable,
            mergeable_state,
            merged_by,
            comments,
            review_comments,
            maintainer_can_modify,
            commits,
            additions,
            deletions,
            changed_files,
        })
    }
}

/// A review of a pull request.
#[derive(Debug)]
pub struct Review {
    pub user: User,
    pub body: Option<String>,
    pub commit_id: String,
    pub submitted_at: String,
    pub state: String,
    pub html_url: String,
    pub author_association: String,
}

impl FromJson for Review {
    open spec fn accepts(j: JsonValue) -> bool {
        &&& j is Object
        &&& required::<User>(j, "user"@)
        &&& optional::<String>(j, "body"@)
        &&& required::<String>(j, "commit_id"@)
        &&& required::<String>(j, "submitted_at"@)
        &&& required::<String>(j, "state"@)
        &&& required::<String>(j, "html_url"@)
        &&& required::<String>(j, "author_association"@)
    }

    open spec fn decodes_to(j: JsonValue, v: Review) -> bool {
        &&& required_is(j, "user"@, v.user)
        &&& optional_is(j, "body"@, v.body)
        &&& required_is(j, "commit_id"@, v.commit_id)
        &&& required_is(j, "submitted_at"@, v.submitted_at)
        &&& required_is(j, "state"@, v.state)
        &&& required_is(j, "html_url"@, v.html_url)
        &&& required_is(j, "author_association"@, v.author_association)
    }

    fn from_json(j: &JsonValue) -> (r: Result<Review, String>) {
        expect_object(j)?;
        let user = required_member::<User>(j, "user")?;
        let body = optional_member::<String>(j, "body")?;
        let commit_id = required_member::<String>(j, "commit_id")?;
        let submitted_at = required_member::<String>(j, "submitted_at")?;
        let state = required_member::<String>(j, "state")?;
        let html_url = required_member::<String>(j, "html_url")?;
        let author_association = required_member::<String>(j, "author_association")?;
        Ok(Review {
            user,
            body,
            commit_id,
            submitted_at,
            state,
            html_url,
            author_association,
        })
    }
}

/// A file attached to a release.
#[derive(Debug)]
pub struct ReleaseAsset {
    pub browser_download_url: String,
    pub name: String,
    pub label: Option<String>,
    pub state: String,
    pub content_type: String,
    pub size: i64,
    pub download_count: i64,
    pub created_at: String,
    pub updated_at: String,
    pub uploader: User,
}

impl FromJson for ReleaseAsset {
    open spec fn accepts(j: JsonValue) -> bool {
        &&& j is Object
        &&& required::<String>(j, "browser_download_url"@)
        &&& required::<String>(j, "name"@)
        &&& optional::<String>(j, "label"@)
        &&& required::<String>(j, "state"@)
        &&& required::<String>(j, "content_type"@)
        &&& required::<i64>(j, "size"@)
        &&& required::<i64>(j, "download_count"@)
        &&& required::<String>(j, "created_at"@)
        &&& required::<String>(j, "updated_at"@)
        &&& required::<User>(j, "uploader"@)
    }

    open spec fn decodes_to(j: JsonValue, v: ReleaseAsset) -> bool {
        &&& required_is(j, "browser_download_url"@, v.browser_download_url)
        &&& required_is(j, "name"@, v.name)
        &&& optional_is(j, "label"@, v.label)
        &&& required_is(j, "state"@, v.state)
        &&& required_is(j, "content_type"@, v.content_type)
        &&& required_is(j, "size"@, v.size)
        &&& required_is(j, "download_count"@, v.download_count)
        &&& required_is(j, "created_at"@, v.created_at)
        &&& required_is(j, "updated_at"@, v.updated_at)
        &&& required_is(j, "uploader"@, v.uploader)
    }

    fn from_json(j: &JsonValue) -> (r: Result<ReleaseAsset, String>) {
        expect_object(j)?;
        let browser_download_url = required_member::<String>(j, "browser_download_url")?;
        let name = required_member::<String>(j, "name")?;
        let label = optional_member::<String>(j, "label")?;
        let state = required_member::<String>(j, "state")?;
        let content_type = required_member::<String>(j, "content_type")?;
        let size = required_member::<i64>(j, "size")?;
        let download_count = required_member::<i64>(j, "download_count")?;
        let created_at = required_member::<String>(j, "created_at")?;
        let updated_at = required_member::<String>(j, "updated_at")?;
        let uploader = required_member::<User>(j, "uploader")?;
        Ok(ReleaseAsset {
            browser_download_url,
            name,
            label,
            state,
            content_type,
            size,
            download_count,
            created_at,
            updated_at,
            uploader,
        })
    }
}

/// A release.
#[derive(Debug)]
pub struct Release {
    pub html_url: String,
    pub tag_name: String,
    pub target_commitish: String,
    pub name: Option<String>,
    pub draft: bool,
    pub author: User,
    pub assets: Vec<ReleaseAsset>,
    pub prerelease: bool,
    pub created_at: String,
    pub published_at: String,
    pub body: Option<String>,
}

impl FromJson for Release {
    open spec fn accepts(j: JsonValue) -> bool {
        &&& j is Object
        &&& required::<String>(j, "html_url"@)
        &&& required::<String>(j, "tag_name"@)
        &&& required::<String>(j, "target_commitish"@)
        &&& optional::<String>(j, "name"@)
        &&& required::<bool>(j, "draft"@)
        &&& required::<User>(j, "author"@)
        &&& required::<Vec<ReleaseAsset>>(j, "assets"@)
        &&& required::<bool>(j, "prerelease"@)
        &&& required::<String>(j, "created_at"@)
        &&& required::<String>(j, "published_at"@)
        &&& optional::<String>(j, "body"@)
    }

    open spec fn decodes_to(j: JsonValue, v: Release) -> bool {
        &&& required_is(j, "html_url"@, v.html_url)
        &&& required_is(j, "tag_name"@, v.tag_name)
        &&& required_is(j, "target_commitish"@, v.target_commitish)
        &&& optional_is(j, "name"@, v.name)
        &&& required_is(j, "draft"@, v.draft)
        &&& required_is(j, "author"@, v.author)
        &&& required_is(j, "assets"@, v.assets)
        &&& required_is(j, "prerelease"@, v.prerelease)
        &&& required_is(j, "created_at"@, v.created_at)
        &&& required_is(j, "published_at"@, v.published_at)
        &&& optional_is(j, "body"@, v.body)
    }

    fn from_json(j: &JsonValue) -> (r: Result<Release, String>) {
        expect_object(j)?;
        let html_url = required_member::<String>(j, "html_url")?;
        let tag_name = required_member::<String>(j, "tag_name")?;
        let target_commitish = required_member::<String>(j, "target_commitish")?;
        let name = optional_member::<String>(j, "name")?;
        let draft = required_member::<bool>(j, "draft")?;
        let author = required_member::<User>(j, "author")?;
        let assets = required_member::<Vec<ReleaseAsset>>(j, "assets")?;
        let prerelease = required_member::<bool>(j, "prerelease")?;
        let created_at = required_member::<String>(j, "created_at")?;
        let published_at = required_member::<String>(j, "published_at")?;
        let body = optional_member::<String>(j, "body")?;
        Ok(Release {
            html_url,
            tag_name,
            target_commitish,
            name,
            draft,
            author,
            assets,
            prerelease,
            created_at,
            published_at,
            body,
        })
    }
}

/// A step of a workflow job.
#[derive(Debug)]
pub struct WorkflowStep {
    pub name: String,
    pub status: String,
    pub conclusion: Option<String>,
    pub number: u32,
    pub started_at: Option<String>,
    pub completed_at: Option<String>,
}

impl FromJson for WorkflowStep {
    open spec fn accepts(j: JsonValue) -> bool {
        &&& j is Object
        &&& required::<String>(j, "name"@)
        &&& required::<String>(j, "status"@)
        &&& optional::<String>(j, "conclusion"@)
        &&& required::<u32>(j, "number"@)
        &&& optional::<String>(j, "started_at"@)
        &&& optional::<String>(j, "completed_at"@)
    }

    open spec fn decodes_to(j: JsonValue, v: WorkflowStep) -> bool {
        &&& required_is(j, "name"@, v.name)
        &&& required_is(j, "status"@, v.status)
        &&& optional_is(j, "conclusion"@, v.conclusion)
        &&& required_is(j, "number"@, v.number)
        &&& optional_is(j, "started_at"@, v.started_at)
        &&& optional_is(j, "completed_at"@, v.completed_at)
    }

    fn from_json(j: &JsonValue) -> (r: Result<WorkflowStep, String>) {
        expect_object(j)?;
        let name = required_member::<String>(j, "name")?;
        let status = required_member::<String>(j, "status")?;
        let conclusion = optional_member::<String>(j, "conclusion")?;
        let number = required_member::<u32>(j, "number")?;
        let started_at = optional_member::<String>(j, "started_at")?;
        let completed_at = optional_member::<String>(j, "completed_at")?;
        Ok(WorkflowStep {
            name,
            status,
            conclusion,
            number,
            started_at,
            completed_at,
        })
    }
}

/// A job of a workflow run.
#[derive(Debug)]
pub struct WorkflowJob {
    pub html_url: String,
    pub status: String,
    pub conclusion: Option<String>,
    pub started_at: String,
    pub completed_at: Option<String>,
    pub name: String,
    pub steps: Vec<WorkflowStep>,
    pub labels: Vec<String>,
    pub runner_id: Option<u32>,
    pub runner_name: Option<String>,
    pub runner_group_id: Option<u32>,
    pub runner_group_name: Option<String>,
}

impl FromJson for WorkflowJob {
    open spec fn accepts(j: JsonValue) -> bool {
        &&& j is Object
        &&& required::<String>(j, "html_url"@)
        &&& required::<String>(j, "status"@)
        &&& optional::<String>(j, "conclusion"@)
        &&& required::<String>(j, "started_at"@)
        &&& optional::<String>(j, "completed_at"@)
        &&& required::<String>(j, "name"@)
        &&& required::<Vec<WorkflowStep>>(j, "steps"@)
        &&& required::<Vec<String>>(j, "labels"@)
        &&& optional::<u32>(j, "runner_id"@)
        &&& optional::<String>(j, "runner_name"@)
        &&& optional::<u32>(j, "runner_group_id"@)
        &&& optional::<String>(j, "runner_group_name"@)
    }

    open spec fn decodes_to(j: JsonValue, v: WorkflowJob) -> bool {
        &&& required_is(j, "html_url"@, v.html_url)
        &&& required_is(j, "status"@, v.status)
        &&& optional_is(j, "conclusion"@, v.conclusion)
        &&& required_is(j, "started_at"@, v.started_at)
        &&& optional_is(j, "completed_at"@, v.completed_at)
        &&& required_is(j, "name"@, v.name)
        &&& required_is(j, "steps"@, v.steps)
        &&& required_is(j, "labels"@, v.labels)
        &&& optional_is(j, "runner_id"@, v.runner_id)
        &&& optional_is(j, "runner_name"@, v.runner_name)
        &&& optional_is(j, "runner_group_id"@, v.runner_group_id)
        &&& optional_is(j, "runner_group_name"@, v.runner_group_name)
    }

    fn from_json(j: &JsonValue) -> (r: Result<WorkflowJob, String>) {
        expect_object(j)?;
        let html_url = required_member::<String>(j, "html_url")?;
        let status = required_member::<String>(j, "status")?;
        let conclusion = optional_member::<String>(j, "conclusion")?;
        let started_at = required_member::<String>(j, "started_at")?;
        let completed_at = optional_member::<String>(j, "completed_at")?;
        let name = required_member::<String>(j, "name")?;
        let steps = required_member::<Vec<WorkflowStep>>(j, "steps")?;
        let labels = required_member::<Vec<String>>(j, "labels")?;
        let runner_id = optional_member::<u32>(j, "runner_id")?;
        let runner_name = optional_member::<String>(j, "runner_name")?;
        let runner_group_id = optional_member::<u32>(j, "runner_group_id")?;
        let runner_group_name = optional_member::<String>(j, "runner_group_name")?;
        Ok(WorkflowJob {
            html_url,
            status,
            conclusion,
            started_at,
            completed_at,
            name,
            steps,
            labels,
            runner_id,
            runner_name,
            runner_group_id,
            runner_group_name,
        })
    }
}

/// The author or committer of a commit.
#[derive(Debug)]
pub struct GitUser {
    pub name: String,
    pub email: String,
    pub username: Option<String>,
}

impl FromJson for GitUser {
    open spec fn accepts(j: JsonValue) -> bool {
        &&& j is Object
        &&& required::<String>(j, "name"@)
        &&& required::<String>(j, "email"@)
        &&& optional::<String>(j, "username"@)
    }

    open spec fn decodes_to(j: JsonValue, v: GitUser) -> bool {
        &&& required_is(j, "name"@, v.name)
        &&& required_is(j, "email"@, v.email)
        &&& optional_is(j, "username"@, v.username)
    }

    fn from_json(j: &JsonValue) -> (r: Result<GitUser, String>) {
        expect_object(j)?;
        let name = required_member::<String>(j, "name")?;
        let email = required_member::<String>(j, "email")?;
        let username = optional_member::<String>(j, "username")?;
        Ok(GitUser {
            name,
            email,
            username,
        })
    }
}

/// A commit of a push.
#[derive(Debug)]
pub struct Commit {
    pub distinct: bool,
    pub message: String,
    pub timestamp: String,
    pub url: String,
    pub author: GitUser,
    pub committer: GitUser,
    pub added: Vec<String>,
    pub removed: Vec<String>,
    pub modified: Vec<String>,
}

impl FromJson for Commit {
    open spec fn accepts(j: JsonValue) -> bool {
        &&& j is Object
        &&& required::<bool>(j, "distinct"@)
        &&& defaulted::<String>(j, "message"@)
        &&& required::<String>(j, "timestamp"@)
        &&& required::<String>(j, "url"@)
        &&& required::<GitUser>(j, "author"@)
        &&& required::<GitUser>(j, "committer"@)
        &&& required::<Vec<String>>(j, "added"@)
        &&& required::<Vec<String>>(j, "removed"@)
        &&& required::<Vec<String>>(j, "modified"@)
    }

    open spec fn decodes_to(j: JsonValue, v: Commit) -> bool {
        &&& required_is(j, "distinct"@, v.distinct)
        &&& defaulted_is(j, "message"@, v.message, |x: String| x@.len() == 0)
        &&& required_is(j, "timestamp"@, v.timestamp)
        &&& required_is(j, "url"@, v.url)
        &&& required_is(j, "author"@, v.author)
        &&& required_is(j, "committer"@, v.committer)
        &&& required_is(j, "added"@, v.added)
        &&& required_is(j, "removed"@, v.removed)
        &&& required_is(j, "modified"@, v.modified)
    }

    fn from_json(j: &JsonValue) -> (r: Result<Commit, String>) {
        expect_object(j)?;
        let distinct = required_member::<bool>(j, "distinct")?;
        let message = defaulted_member::<String>(j, "message", String::new())?;
        let timestamp = required_member::<String>(j, "timestamp")?;
        let url = required_member::<String>(j, "url")?;
        let author = required_member::<GitUser>(j, "author")?;
        let committer = required_member::<GitUser>(j, "committer")?;
        let added = required_member::<Vec<String>>(j, "added")?;
        let removed = required_member::<Vec<String>>(j, "removed")?;
        let modified = required_member::<Vec<String>>(j, "modified")?;
        Ok(Commit {
            distinct,
            message,
            timestamp,
            url,
            author,
            committer,
            added,
            removed,
            modified,
        })
    }
}

/// A GitHub webhook payload.
/// 
/// One schema serves every event: which sections are present depends on the
/// event, and members that no field takes stay in `extra`.
#[derive(Debug)]
pub struct InboundData {
    pub sender: User,
    pub action: Option<String>,
    pub repository: Option<Repository>,
    pub organization: Option<Organization>,
    pub comment: Option<Comment>,
    pub discussion: Option<Discussion>,
    /// The new repository of a `fork` event.
    pub forkee: Option<Repository>,
    pub issue: Option<Issue>,
    pub label: Option<Label>,
    pub marketplace_purchase: Option<MarketplacePurchase>,
    pub pull_request: Option<PullRequest>,
    pub review: Option<Review>,
    pub release: Option<Release>,
    pub starred_at: Option<String>,
    pub workflow_job: Option<WorkflowJob>,
    pub head_commit: Option<Commit>,
    pub commits: Option<Vec<Commit>>,
    /// The members that no other field takes, in the order of the payload.
    pub extra: Vec<(String, JsonValue)>,
}

/// The names of the members that a field of [`InboundData`] takes.
pub open spec fn inbound_fields() -> Seq<Seq<char>> {
    seq![
        "sender"@,
        "action"@,
        "repository"@,
        "organization"@,
        "comment"@,
        "discussion"@,
        "forkee"@,
        "issue"@,
        "label"@,
        "marketplace_purchase"@,
        "pull_request"@,
        "review"@,
        "release"@,
        "starred_at"@,
        "workflow_job"@,
        "head_commit"@,
        "commits"@,
    ]
}

impl FromJson for InboundData {
    open spec fn accepts(j: JsonValue) -> bool {
        &&& j is Object
        &&& required::<User>(j, "sender"@)
        &&& optional::<String>(j, "action"@)
        &&& optional::<Repository>(j, "repository"@)
        &&& optional::<Organization>(j, "organization"@)
        &&& optional::<Comment>(j, "comment"@)
        &&& optional::<Discussion>(j, "discussion"@)
        &&& optional::<Repository>(j, "forkee"@)
        &&& optional::<Issue>(j, "issue"@)
        &&& optional::<Label>(j, "label"@)
        &&& optional::<MarketplacePurchase>(j, "marketplace_purchase"@)
        &&& optional::<PullRequest>(j, "pull_request"@)
        &&& optional::<Review>(j, "review"@)
        &&& optional::<Release>(j, "release"@)
        &&& optional::<String>(j, "starred_at"@)
        &&& optional::<WorkflowJob>(j, "workflow_job"@)
        &&& optional::<Commit>(j, "head_commit"@)
        &&& optional::<Vec<Commit>>(j, "commits"@)
    }

    open spec fn decodes_to(j: JsonValue, v: InboundData) -> bool {
        &&& required_is(j, "sender"@, v.sender)
        &&& optional_is(j, "action"@, v.action)
        &&& optional_is(j, "repository"@, v.repository)
        &&& optional_is(j, "organization"@, v.organization)
        &&& optional_is(j, "comment"@, v.comment)
        &&& optional_is(j, "discussion"@, v.discussion)
        &&& optional_is(j, "forkee"@, v.forkee)
        &&& optional_is(j, "issue"@, v.issue)
        &&& optional_is(j, "label"@, v.label)
        &&& optional_is(j, "marketplace_purchase"@, v.marketplace_purchase)
        &&& optional_is(j, "pull_request"@, v.pull_request)
        &&& optional_is(j, "review"@, v.review)
        &&& optional_is(j, "release"@, v.release)
        &&& optional_is(j, "starred_at"@, v.starred_at)
        &&& optional_is(j, "workflow_job"@, v.workflow_job)
        &&& optional_is(j, "head_commit"@, v.head_commit)
        &&& optional_is(j, "commits"@, v.commits)
        &&& extra_is(j, inbound_fields(), v.extra@)
    }

    fn from_json(j: &JsonValue) -> (r: Result<InboundData, String>) {
        expect_object(j)?;
        let sender = required_member::<User>(j, "sender")?;
        let action = optional_member::<String>(j, "action")?;
        let repository = optional_member::<Repository>(j, "repository")?;
        let organization = optional_member::<Organization>(j, "organization")?;
        let comment = optional_member::<Comment>(j, "comment")?;
        let discussion = optional_member::<Discussion>(j, "discussion")?;
        let forkee = optional_member::<Repository>(j, "forkee")?;
        let issue = optional_member::<Issue>(j, "issue")?;
        let label = optional_member::<Label>(j, "label")?;
        let marketplace_purchase = optional_member::<MarketplacePurchase>(j, "marketplace_purchase")?;
        let pull_request = optional_member::<PullRequest>(j, "pull_request")?;
        let review = optional_member::<Review>(j, "review")?;
        let release = optional_member::<Release>(j, "release")?;
        let starred_at = optional_member::<String>(j, "starred_at")?;
        let workflow_job = optional_member::<WorkflowJob>(j, "workflow_job")?;
        let head_commit = optional_member::<Commit>(j, "head_commit")?;
        let commits = optional_member::<Vec<Commit>>(j, "commits")?;
        let known: [&str; 17] = [
            "sender",
            "action",
            "repository",
            "organization",
            "comment",
            "discussion",
            "forkee",
            "issue",
            "label",
            "marketplace_purchase",
            "pull_request",
            "review",
            "release",
            "starred_at",
            "workflow_job",
            "head_commit",
            "commits",
        ];
        assert(names(known@) =~= inbound_fields());
        let extra = extra_members(j, &known);
        Ok(InboundData {
            sender,
            action,
            repository,
            organization,
            comment,
            discussion,
            forkee,
            issue,
            label,
            marketplace_purchase,
            pull_request,
            review,
            release,
            starred_at,
            workflow_job,
            head_commit,
            commits,
            extra,
        })
    }
}

impl InboundData {
    /// Decodes the member `index` that no field took: `Missing <index>` where
    /// there is none, `Invalid <index>: <reason>` where it does not decode.
    ///
    /// ```rust
    /// let git_ref: String = payload.get("ref").unwrap();
    /// ```
    pub fn get<T: FromJson>(&self, index: &str) -> (r: Result<T, String>)
        ensures
            entry(self.extra@, index@) is None ==> (r matches Err(e) && e@ == "Missing "@ + index@),
            entry(self.extra@, index@) matches Some(v) ==> (r is Ok <==> T::accepts(v)) && (r matches Ok(
                x,
            ) ==> T::decodes_to(v, x)) && (r matches Err(e) ==> starts_with(
                e@,
                "Invalid "@ + index@ + ": "@,
            )),
    {
        match find_entry(&self.extra, index) {
            Some(v) => match T::from_json(v) {
                Ok(x) => Ok(x),
                Err(why) => {
                    let mut prefix = "Invalid ".to_owned();
                    prefix.append(index);
                    prefix.append(": ");
                    Err(with_reason(prefix.as_str(), why.as_str()))
                },
            },
            None => {
                let mut e = "Missing ".to_owned();
                e.append(index);
                Err(e)
            },
        }
    }

    pub fn get_action(&self) -> (r: Result<&String, String>)
        ensures
            section_result(self.action, r, "Missing action"@),
    {
        match &self.action {
            Some(x) => Ok(x),
            None => Err("Missing action".to_owned()),
        }
    }

    pub fn get_repository(&self) -> (r: Result<&Repository, String>)
        ensures
            section_result(self.repository, r, "Missing repository"@),
    {
        match &self.repository {
            Some(x) => Ok(x),
            None => Err("Missing repository".to_owned()),
        }
    }

    pub fn get_comment(&self) -> (r: Result<&Comment, String>)
        ensures
            section_result(self.comment, r, "Missing comment"@),
    {
        match &self.comment {
            Some(x) => Ok(x),
            None => Err("Missing comment".to_owned()),
        }
    }

    pub fn get_discussion(&self) -> (r: Result<&Discussion, String>)
        ensures
            section_result(self.discussion, r, "Missing discussion"@),
    {
        match &self.discussion {
            Some(x) => Ok(x),
            None => Err("Missing discussion".to_owned()),
        }
    }

    /// The new repository of a `fork` event.
    pub fn get_fork(&self) -> (r: Result<&Repository, String>)
        ensures
            section_result(self.forkee, r, "Missing forkee"@),
    {
        match &self.forkee {
            Some(x) => Ok(x),
            None => Err("Missing forkee".to_owned()),
        }
    }

    pub fn get_issue(&self) -> (r: Result<&Issue, String>)
        ensures
            section_result(self.issue, r, "Missing issue"@),
    {
        match &self.issue {
            Some(x) => Ok(x),
            None => Err("Missing issue".to_owned()),
        }
    }

    pub fn get_label(&self) -> (r: Result<&Label, String>)
        ensures
            section_result(self.label, r, "Missing label"@),
    {
        match &self.label {
            Some(x) => Ok(x),
            None => Err("Missing label".to_owned()),
        }
    }

    pub fn get_marketplace_purchase(&self) -> (r: Result<&MarketplacePurchase, String>)
        ensures
            section_result(self.marketplace_purchase, r, "Missing marketplace_purchase"@),
    {
        match &self.marketplace_purchase {
            Some(x) => Ok(x),
            None => Err("Missing marketplace_purchase".to_owned()),
        }
    }

    pub fn get_pull_request(&self) -> (r: Result<&PullRequest, String>)
        ensures
            section_result(self.pull_request, r, "Missing pull_request"@),
    {
        match &self.pull_request {
            Some(x) => Ok(x),
            None => Err("Missing pull_request".to_owned()),
        }
    }

    pub fn get_review(&self) -> (r: Result<&Review, String>)
        ensures
            section_result(self.review, r, "Missing review"@),
    {
        match &self.review {
            Some(x) => Ok(x),
            None => Err("Missing review".to_owned()),
        }
    }

    pub fn get_release(&self) -> (r: Result<&Release, String>)
        ensures
            section_result(self.release, r, "Missing release"@),
    {
        match &self.release {
            Some(x) => Ok(x),
            None => Err("Missing release".to_owned()),
        }
    }

    pub fn get_starred_at(&self) -> (r: Result<&String, String>)
        ensures
            section_result(self.starred_at, r, "Missing starred_at"@),
    {
        match &self.starred_at {
            Some(x) => Ok(x),
            None => Err("Missing starred_at".to_owned()),
        }
    }

    pub fn get_workflow_job(&self) -> (r: Result<&WorkflowJob, String>)
        ensures
            section_result(self.workflow_job, r, "Missing workflow_job"@),
    {
        match &self.workflow_job {
            Some(x) => Ok(x),
            None => Err("Missing workflow_job".to_owned()),
        }
    }

    pub fn get_head_commit(&self) -> (r: Result<&Commit, String>)
        ensures
            section_result(self.head_commit, r, "Missing head_commit"@),
    {
        match &self.head_commit {
            Some(x) => Ok(x),
            None => Err("Missing head_commit".to_owned()),
        }
    }

    pub fn get_commits(&self) -> (r: Result<&Vec<Commit>, String>)
        ensures
            section_result(self.commits, r, "Missing commits"@),
    {
        match &self.commits {
            Some(x) => Ok(x),
            None => Err("Missing commits".to_owned()),
        }
    }
}

/// Members of a payload that no field takes stay in `extra`, and a lookup by
/// name finds them there after decoding: `extra` has a member named `k`
/// exactly where the payload has one, and its value is a copy of the
/// payload's.
pub proof fn lemma_extra_retrievable(j: JsonValue, d: InboundData, k: Seq<char>)
    requires
        InboundData::decodes_to(j, d),
        !inbound_fields().contains(k),
    ensures
        member(j, k) is None <==> entry(d.extra@, k) is None,
        member(j, k) matches Some(v) ==> same(v, entry(d.extra@, k)->0),
{
    if let JsonValue::Object(m) = j {
        lemma_entry_unknown(m@, inbound_fields(), k);
        lemma_entry_copied(unknown_members(m@, inbound_fields()), d.extra@, k);
    }
}

/// A payload without a section, or with `null` in its place, decodes to data
/// without that section, whose accessor then fails with `Missing <name>`.
pub proof fn lemma_absent_sections(j: JsonValue, d: InboundData)
    requires
        InboundData::decodes_to(j, d),
    ensures
        absent(j, "action"@) ==> d.action is None,
        absent(j, "repository"@) ==> d.repository is None,
        absent(j, "organization"@) ==> d.organization is None,
        absent(j, "comment"@) ==> d.comment is None,
        absent(j, "discussion"@) ==> d.discussion is None,
        absent(j, "forkee"@) ==> d.forkee is None,
        absent(j, "issue"@) ==> d.issue is None,
        absent(j, "label"@) ==> d.label is None,
        absent(j, "marketplace_purchase"@) ==> d.marketplace_purchase is None,
        absent(j, "pull_request"@) ==> d.pull_request is None,
        absent(j, "review"@) ==> d.review is None,
        absent(j, "release"@) ==> d.release is None,
        absent(j, "starred_at"@) ==> d.starred_at is None,
        absent(j, "workflow_job"@) ==> d.workflow_job is None,
        absent(j, "head_commit"@) ==> d.head_commit is None,
        absent(j, "commits"@) ==> d.commits is None,
{
}

/// Decodes the GitHub webhook payload in the text `s`.
///
/// The error names what did not fit, never the payload's content.
pub fn inbound(s: String) -> (r: Result<InboundData, String>)
    ensures
        r is Ok <==> (parsed_json(s@) matches Some(j) && InboundData::accepts(j)),
        r matches Ok(d) ==> InboundData::decodes_to(parsed_json(s@)->0, d),
        r matches Err(e) ==> starts_with(e@, "Parsing GitHub Webhook payload failed: "@),
{
    match parse_json(s.as_str()) {
        Ok(j) => match InboundData::from_json(&j) {
            Ok(d) => Ok(d),
            Err(e) => Err(with_reason("Parsing GitHub Webhook payload failed: ", e.as_str())),
        },
        Err(e) => Err(with_reason("Parsing GitHub Webhook payload failed: ", e.as_str())),
    }
}

} // verus!
