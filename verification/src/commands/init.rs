//! `blogr init`: what the answers to the setup questions become, and the
//! texts that depend on them. Asking, creating files and calling GitHub
//! happen outside the library.
use vstd::prelude::*;
use crate::text::{chars_of, push_str, string_of, trim, trim_vec};
use crate::utils::{Utils, slug, utf8_len, valid_repo_name, valid_username};

verus! {

/// Why a project cannot be set up.
#[derive(Clone, PartialEq, Eq, Debug)]
pub enum InitError {
    /// The project title was left blank.
    EmptyTitle,
    /// A GitHub user name given on the command line is not valid.
    InvalidUsername(String),
    /// A repository name given on the command line is not valid.
    InvalidRepository(String),
}

/// The message of an error.
pub open spec fn init_error_text(e: InitError) -> Seq<char> {
    match e {
        InitError::EmptyTitle => "Project title cannot be empty"@,
        InitError::InvalidUsername(u) => "Invalid GitHub username: "@ + u@,
        InitError::InvalidRepository(r) => "Invalid GitHub repository name: "@ + r@,
    }
}

impl InitError {
    /// The message of the error.
    pub fn message(&self) -> (res: String)
        ensures
            res@ == init_error_text(*self),
    {
        let mut out = String::new();
        match self {
            InitError::EmptyTitle => push_str(&mut out, "Project title cannot be empty"),
            InitError::InvalidUsername(u) => {
                push_str(&mut out, "Invalid GitHub username: ");
                push_str(&mut out, u.as_str());
            },
            InitError::InvalidRepository(r) => {
                push_str(&mut out, "Invalid GitHub repository name: ");
                push_str(&mut out, r.as_str());
            },
        }
        out
    }
}

/// What a GitHub question was answered with.
#[derive(Clone, PartialEq, Eq, Debug)]
pub enum GitHubAnswer {
    /// The name to use.
    Use(String),
    /// No name: GitHub is left out.
    Skip,
    /// A name that is not valid: GitHub is left out with a warning.
    Refused(String),
}

/// The project title typed at the prompt.
pub fn project_title(input: &str) -> (res: Result<String, InitError>)
    ensures
        match res {
            Ok(t) => trim(input@).len() > 0 && t@ == trim(input@),
            Err(e) => trim(input@).len() == 0 && e == InitError::EmptyTitle,
        },
{
    let v = chars_of(input);
    let t = trim_vec(&v);
    if t.len() == 0 {
        Err(InitError::EmptyTitle)
    } else {
        Ok(string_of(&t))
    }
}

/// The author offered by default: git's user name, else `Anonymous`.
pub fn default_author(git_name: Option<String>) -> (res: String)
    ensures
        res@ == match git_name {
            Some(n) => n@,
            None => "Anonymous"@,
        },
{
    match git_name {
        Some(n) => n,
        None => String::from_str("Anonymous"),
    }
}

/// The blog description typed at the prompt; blank gives `A blog by`
/// the author.
pub fn description_answer(input: &str, author: &str) -> (res: String)
    ensures
        res@ == if trim(input@).len() == 0 { "A blog by "@ + author@ } else { trim(input@) },
{
    let v = chars_of(input);
    let t = trim_vec(&v);
    if t.len() == 0 {
        let mut out = String::new();
        push_str(&mut out, "A blog by ");
        push_str(&mut out, author);
        out
    } else {
        string_of(&t)
    }
}

/// A GitHub user name given on the command line.
pub fn username_from_flag(name: String) -> (res: Result<String, InitError>)
    ensures
        valid_username(name@, utf8_len(name@)) ==> res == Ok::<String, InitError>(name),
        !valid_username(name@, utf8_len(name@)) ==> res == Err::<String, InitError>(InitError::InvalidUsername(name)),
{
    if Utils::is_valid_github_username(name.as_str()) {
        Ok(name)
    } else {
        Err(InitError::InvalidUsername(name))
    }
}

/// A repository name given on the command line.
pub fn repository_from_flag(name: String) -> (res: Result<String, InitError>)
    ensures
        valid_repo_name(name@, utf8_len(name@)) ==> res == Ok::<String, InitError>(name),
        !valid_repo_name(name@, utf8_len(name@)) ==> res == Err::<String, InitError>(InitError::InvalidRepository(name)),
{
    if Utils::is_valid_github_repo_name(name.as_str()) {
        Ok(name)
    } else {
        Err(InitError::InvalidRepository(name))
    }
}

/// The GitHub user name typed at the prompt: blank keeps the default
/// (which may be none), a valid name is used, any other is refused.
pub fn username_answer(input: &str, default: Option<String>) -> (res: GitHubAnswer)
    ensures
        trim(input@).len() == 0 ==> res == match default {
            Some(d) => GitHubAnswer::Use(d),
            None => GitHubAnswer::Skip,
        },
        trim(input@).len() > 0 && valid_username(trim(input@), utf8_len(trim(input@)))
            ==> (res matches GitHubAnswer::Use(u) && u@ == trim(input@)),
        trim(input@).len() > 0 && !valid_username(trim(input@), utf8_len(trim(input@)))
            ==> (res matches GitHubAnswer::Refused(u) && u@ == trim(input@)),
{
    let v = chars_of(input);
    let t = trim_vec(&v);
    if t.len() == 0 {
        match default {
            Some(d) => GitHubAnswer::Use(d),
            None => GitHubAnswer::Skip,
        }
    } else {
        let s = string_of(&t);
        if Utils::is_valid_github_username(s.as_str()) {
            GitHubAnswer::Use(s)
        } else {
            GitHubAnswer::Refused(s)
        }
    }
}

/// The repository name typed at the prompt: blank takes the slug of the
/// project title; a name that is not valid is refused.
pub fn repository_answer(input: &str, title: &str) -> (res: GitHubAnswer)
    ensures
        ({
            let name = if trim(input@).len() == 0 { slug(title@) } else { trim(input@) };
            if valid_repo_name(name, utf8_len(name)) {
                res matches GitHubAnswer::Use(r) && r@ == name
            } else {
                res matches GitHubAnswer::Refused(r) && r@ == name
            }
        }),
{
    let v = chars_of(input);
    let t = trim_vec(&v);
    let name = if t.len() == 0 {
        Utils::slugify(title)
    } else {
        string_of(&t)
    };
    if Utils::is_valid_github_repo_name(name.as_str()) {
        GitHubAnswer::Use(name)
    } else {
        GitHubAnswer::Refused(name)
    }
}

/// The warning shown when an answer is refused.
pub fn refusal_warning(is_username: bool, name: &str) -> (res: String)
    ensures
        res@ == if is_username {
            "Invalid GitHub username '"@ + name@ + "', skipping GitHub integration"@
        } else {
            "Invalid repository name '"@ + name@ + "', skipping GitHub integration"@
        },
{
    let mut out = String::new();
    if is_username {
        push_str(&mut out, "Invalid GitHub username '");
    } else {
        push_str(&mut out, "Invalid repository name '");
    }
    push_str(&mut out, name);
    push_str(&mut out, "', skipping GitHub integration");
    out
}

/// The `origin` remote of a new repository.
pub fn repository_remote_url(username: &str, repo: &str) -> (res: String)
    ensures
        res@ == "https://github.com/"@ + username@ + "/"@ + repo@ + ".git"@,
{
    let mut out = String::new();
    push_str(&mut out, "https://github.com/");
    push_str(&mut out, username);
    push_str(&mut out, "/");
    push_str(&mut out, repo);
    push_str(&mut out, ".git");
    out
}

/// Where the blog of a new repository is published.
pub fn pages_site_url(username: &str, repo: &str) -> (res: String)
    ensures
        res@ == "https://"@ + username@ + ".github.io/"@ + repo@,
{
    let mut out = String::new();
    push_str(&mut out, "https://");
    push_str(&mut out, username);
    push_str(&mut out, ".github.io/");
    push_str(&mut out, repo);
    out
}

/// Why GitHub refused to create a repository, from the answer's status
/// code, its status line and its body.
pub open spec fn repo_creation_failure_text(code: u16, status_line: Seq<char>, body: Seq<char>, repo: Seq<char>) -> Seq<char> {
    if code == 422 {
        "Repository '"@ + repo + "' already exists or name is invalid"@
    } else if code == 401 {
        "Authentication failed. Check your GitHub token."@
    } else {
        "GitHub API error ("@ + status_line + "): "@ + body
    }
}

/// Why GitHub refused to create a repository.
pub fn repo_creation_failure(code: u16, status_line: &str, body: &str, repo: &str) -> (res: String)
    ensures
        res@ == repo_creation_failure_text(code, status_line@, body@, repo@),
{
    let mut out = String::new();
    if code == 422 {
        push_str(&mut out, "Repository '");
        push_str(&mut out, repo);
        push_str(&mut out, "' already exists or name is invalid");
    } else if code == 401 {
        push_str(&mut out, "Authentication failed. Check your GitHub token.");
    } else {
        push_str(&mut out, "GitHub API error (");
        push_str(&mut out, status_line);
        push_str(&mut out, "): ");
        push_str(&mut out, body);
    }
    out
}

} // verus!
