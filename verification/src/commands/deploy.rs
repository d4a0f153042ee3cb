//! `blogr deploy`: the decisions of a deployment to GitHub Pages. Git,
//! the file system and the GitHub API are driven outside the library,
//! which says what to check, what to name, what to write and what to
//! report.
use vstd::prelude::*;
use crate::config::{Config, DeploymentType, deployment_of, deployment_type_for, effective_url,
    parse_url_parts, url_parts};
use crate::newsletter::migration::opt_view;
use crate::newsletter::sender::{is_lower_hex, random_uuid_text};
use crate::text::{chars_of, has_prefix, push_chars_range, push_str, starts_with, str_eq};
use crate::time::{format_time, now, stamp_pattern, time_text, Timestamp};

verus! {

/// Why a deployment stops.
#[derive(Clone, PartialEq, Eq, Debug)]
pub enum DeployError {
    /// No GitHub token is set.
    TokenMissing,
    /// The GitHub token is set but empty.
    TokenEmpty,
    /// The configuration has no `[github]` section.
    NoGitHubConfig,
    /// The `origin` remote is neither SSH nor HTTPS.
    UnsupportedRemote(String),
}

/// The message of a deployment error.
pub open spec fn deploy_error_text(e: DeployError) -> Seq<char> {
    match e {
        DeployError::TokenMissing => "GitHub token not found. Set GITHUB_TOKEN environment variable."@,
        DeployError::TokenEmpty => "GitHub token is empty. Please set a valid GITHUB_TOKEN environment variable."@,
        DeployError::NoGitHubConfig =>
            "GitHub configuration not found. Initialize with GitHub integration or configure manually."@,
        DeployError::UnsupportedRemote(u) => "Unsupported remote URL format: "@ + u@,
    }
}

impl DeployError {
    /// The message of the error.
    pub fn message(&self) -> (res: String)
        ensures
            res@ == deploy_error_text(*self),
    {
        let mut out = String::new();
        match self {
            DeployError::TokenMissing => push_str(&mut out,
                "GitHub token not found. Set GITHUB_TOKEN environment variable."),
            DeployError::TokenEmpty => push_str(&mut out,
                "GitHub token is empty. Please set a valid GITHUB_TOKEN environment variable."),
            DeployError::NoGitHubConfig => push_str(&mut out,
                "GitHub configuration not found. Initialize with GitHub integration or configure manually."),
            DeployError::UnsupportedRemote(u) => {
                push_str(&mut out, "Unsupported remote URL format: ");
                push_str(&mut out, u.as_str());
            },
        }
        out
    }
}

/// The GitHub token read from the environment, which must be set and not
/// empty.
pub fn check_token(token: Option<String>) -> (res: Result<String, DeployError>)
    ensures
        match token {
            None => res == Err::<String, DeployError>(DeployError::TokenMissing),
            Some(t) => if t@.len() == 0 {
                res == Err::<String, DeployError>(DeployError::TokenEmpty)
            } else {
                res == Ok::<String, DeployError>(t)
            },
        },
{
    match token {
        None => Err(DeployError::TokenMissing),
        Some(t) => {
            if t.as_str().is_empty() {
                Err(DeployError::TokenEmpty)
            } else {
                Ok(t)
            }
        },
    }
}

/// How git reports one file of a working tree.
#[derive(Clone, Copy, PartialEq, Eq, Structural, Debug)]
pub struct FileStatus {
    pub wt_modified: bool,
    pub wt_deleted: bool,
    pub wt_typechange: bool,
    pub wt_renamed: bool,
    pub wt_new: bool,
    pub index_modified: bool,
    pub index_new: bool,
    pub index_deleted: bool,
    pub index_renamed: bool,
    pub index_typechange: bool,
}

/// The file is changed in the working tree or in the index.
pub open spec fn is_change(s: FileStatus) -> bool {
    s.wt_modified || s.wt_deleted || s.wt_typechange || s.wt_renamed || s.wt_new
        || s.index_modified || s.index_new || s.index_deleted || s.index_renamed
        || s.index_typechange
}

/// A file counts as an uncommitted change when anything is staged for it
/// (modified, new, deleted, renamed or a type change in the index) or
/// anything differs in the working tree (the same five kinds), and only
/// then; so the working tree has changes to put aside exactly when one of
/// its files has one of these ten flags set.
pub proof fn law_staged_or_unstaged_changes(statuses: Seq<FileStatus>, i: int)
    ensures
        0 <= i < statuses.len() && (statuses[i].index_modified || statuses[i].index_new
            || statuses[i].index_deleted || statuses[i].index_renamed || statuses[i].index_typechange)
            ==> exists|j: int| 0 <= j < statuses.len() && is_change(#[trigger] statuses[j]),
        0 <= i < statuses.len() && (statuses[i].wt_modified || statuses[i].wt_new
            || statuses[i].wt_deleted || statuses[i].wt_renamed || statuses[i].wt_typechange)
            ==> exists|j: int| 0 <= j < statuses.len() && is_change(#[trigger] statuses[j]),
        (forall|j: int| 0 <= j < statuses.len() ==> {
            let s = #[trigger] statuses[j];
            !s.index_modified && !s.index_new && !s.index_deleted && !s.index_renamed && !s.index_typechange
                && !s.wt_modified && !s.wt_new && !s.wt_deleted && !s.wt_renamed && !s.wt_typechange
        }) ==> !exists|j: int| 0 <= j < statuses.len() && is_change(#[trigger] statuses[j]),
{
    if 0 <= i < statuses.len() {
        assert(is_change(statuses[i]) <== (statuses[i].index_modified || statuses[i].index_new
            || statuses[i].index_deleted || statuses[i].index_renamed || statuses[i].index_typechange
            || statuses[i].wt_modified || statuses[i].wt_new || statuses[i].wt_deleted
            || statuses[i].wt_renamed || statuses[i].wt_typechange));
    }
}

/// Whether the working tree has changes to put aside before deploying.
pub fn has_uncommitted_changes(statuses: &Vec<FileStatus>) -> (res: bool)
    ensures
        res == exists|i: int| 0 <= i < statuses@.len() && is_change(#[trigger] statuses@[i]),
{
    let mut i: usize = 0;
    while i < statuses.len()
        invariant
            i <= statuses@.len(),
            forall|j: int| 0 <= j < i ==> !is_change(#[trigger] statuses@[j]),
        decreases statuses.len() - i,
    {
        let s = statuses[i];
        if s.wt_modified || s.wt_deleted || s.wt_typechange || s.wt_renamed || s.wt_new
            || s.index_modified || s.index_new || s.index_deleted || s.index_renamed
            || s.index_typechange {
            assert(is_change(statuses@[i as int]));
            return true;
        }
        i += 1;
    }
    false
}

/// Whether an existing worktree belongs to the deployment branch: it is
/// named after the branch, alone or followed by a hyphen.
pub fn is_branch_worktree(name: &str, branch: &str) -> (res: bool)
    ensures
        res == (has_prefix(name@, branch@ + "-"@) || name@ == branch@),
{
    let mut prefix = String::new();
    push_str(&mut prefix, branch);
    push_str(&mut prefix, "-");
    let nv = chars_of(name);
    starts_with(&nv, prefix.as_str()) || str_eq(name, branch)
}

/// The name of a deployment worktree: the branch, a hyphen and the text
/// before the first hyphen of `tag`.
pub open spec fn is_worktree_name(res: Seq<char>, branch: Seq<char>, tag: Seq<char>) -> bool {
    exists|k: int| #![trigger tag.take(k)]
        0 <= k <= tag.len()
        && (forall|j: int| 0 <= j < k ==> tag[j] != '-')
        && (k == tag.len() || tag[k] == '-')
        && res == branch + "-"@ + tag.take(k)
}

/// The name of a deployment worktree made from the branch and a tag.
pub fn worktree_name(branch: &str, tag: &str) -> (res: String)
    ensures
        is_worktree_name(res@, branch@, tag@),
{
    let tv = chars_of(tag);
    let mut k: usize = 0;
    while k < tv.len() && tv[k] != '-'
        invariant
            k <= tv@.len(),
            forall|j: int| 0 <= j < k ==> tv@[j] != '-',
        decreases tv.len() - k,
    {
        k += 1;
    }
    let mut out = String::new();
    push_str(&mut out, branch);
    push_str(&mut out, "-");
    push_chars_range(&mut out, &tv, 0, k);
    assert(tv@.subrange(0, k as int) =~= tag@.take(k as int));
    out
}

/// A fresh worktree name for the deployment branch: the branch, a hyphen
/// and the first group of a random UUID, eight lower-case hexadecimal
/// digits.
pub fn new_worktree_name(branch: &str) -> (res: String)
    ensures
        res@.len() == branch@.len() + 9,
        res@.take(branch@.len() + 1int) == branch@ + "-"@,
        forall|i: int| branch@.len() + 1 <= i < res@.len() ==> is_lower_hex(#[trigger] res@[i]),
{
    let tag = random_uuid_text();
    let res = worktree_name(branch, tag.as_str());
    proof {
        let k = choose|k: int| #![trigger tag@.take(k)]
            0 <= k <= tag@.len()
            && (forall|j: int| 0 <= j < k ==> tag@[j] != '-')
            && (k == tag@.len() || tag@[k] == '-')
            && res@ == branch@ + "-"@ + tag@.take(k);
        if k < 8 {
            assert(tag@[k] == '-');
        }
        if k > 8 {
            assert(tag@[8] != '-');
        }
        assert(k == 8);
        reveal_strlit("-");
        assert(res@.take(branch@.len() + 1int) =~= branch@ + "-"@);
        assert forall|i: int| branch@.len() + 1 <= i < res@.len() implies is_lower_hex(#[trigger] res@[i]) by {
            assert(res@[i] == tag@[i - branch@.len() - 1]);
        }
    }
    res
}

/// The host written to the `CNAME` file, if any: the host of the site's
/// URL for a custom domain, else the configured GitHub Pages domain.
pub open spec fn cname_host_of(c: Config) -> Option<Seq<char>> {
    let from_url = if deployment_of(url_parts(effective_url(c))) == DeploymentType::CustomDomain {
        match url_parts(effective_url(c)) {
            Some((Some(h), _)) => Some(h),
            _ => None,
        }
    } else {
        None
    };
    match from_url {
        Some(h) => Some(h),
        None => match c.blog.domains {
            Some(d) => opt_view(d.github_pages_domain),
            None => None,
        },
    }
}

/// The host to write to the `CNAME` file of the deployed site.
pub fn cname_host(config: &Config) -> (res: Option<String>)
    ensures
        opt_view(res) == cname_host_of(*config),
{
    let url = config.get_effective_base_url();
    let parts = parse_url_parts(url.as_str());
    let kind = deployment_type_for(&parts);
    if kind == DeploymentType::CustomDomain {
        match parts {
            Some((Some(h), _)) => return Some(h),
            _ => {},
        }
    }
    match &config.blog.domains {
        Some(d) => match &d.github_pages_domain {
            Some(g) => Some(g.clone()),
            None => None,
        },
        None => None,
    }
}

/// The contents of a `CNAME` file: the host and a line break.
pub fn cname_file_text(host: &str) -> (res: String)
    ensures
        res@ == host@ + "\n"@,
{
    let mut out = String::new();
    push_str(&mut out, host);
    push_str(&mut out, "\n");
    out
}

/// The commit message of a deployment: the one given, else `Deploy site -`
/// and the time stamp.
pub fn commit_message(message: Option<String>, stamp: &str) -> (res: String)
    ensures
        res@ == match message {
            Some(m) => m@,
            None => "Deploy site - "@ + stamp@,
        },
{
    match message {
        Some(m) => m,
        None => {
            let mut out = String::new();
            push_str(&mut out, "Deploy site - ");
            push_str(&mut out, stamp);
            out
        },
    }
}

/// The commit message of a deployment made now: the one given, else
/// `Deploy site -` and the current time.
pub fn deploy_commit_message(message: Option<String>) -> (res: String)
    ensures
        message is Some ==> res@ == message->0@,
        message is None ==> exists|t: Timestamp| #[trigger] time_text(t, stamp_pattern()) is Some
            && res@ == "Deploy site - "@ + time_text(t, stamp_pattern())->0,
{
    let t = now();
    proof { reveal_strlit("%Y-%m-%d %H:%M:%S UTC"); }
    let stamp = match format_time(t, "%Y-%m-%d %H:%M:%S UTC") {
        Some(s) => s,
        None => String::new(),
    };
    assert(time_text(t, stamp_pattern()) == Some(stamp@));
    commit_message(message, stamp.as_str())
}

/// The reference of a local branch.
pub fn branch_ref(branch: &str) -> (res: String)
    ensures
        res@ == "refs/heads/"@ + branch@,
{
    let mut out = String::new();
    push_str(&mut out, "refs/heads/");
    push_str(&mut out, branch);
    out
}

/// The refspec that force-pushes the deployment branch.
pub fn push_refspec(branch: &str) -> (res: String)
    ensures
        res@ == "+refs/heads/"@ + branch@ + ":refs/heads/"@ + branch@,
{
    let mut out = String::new();
    push_str(&mut out, "+refs/heads/");
    push_str(&mut out, branch);
    push_str(&mut out, ":refs/heads/");
    push_str(&mut out, branch);
    out
}

/// How to authenticate a push.
#[derive(Clone, Copy, PartialEq, Eq, Structural, Debug)]
pub enum PushAuth {
    /// SSH agent or keys.
    Ssh,
    /// The GitHub token over HTTPS.
    Https,
}

/// How to authenticate a push to a remote, by its URL.
pub fn push_auth(remote_url: &str) -> (res: Result<PushAuth, DeployError>)
    ensures
        (has_prefix(remote_url@, "git@"@) || has_prefix(remote_url@, "ssh://"@))
            ==> res == Ok::<PushAuth, DeployError>(PushAuth::Ssh),
        !(has_prefix(remote_url@, "git@"@) || has_prefix(remote_url@, "ssh://"@))
            && has_prefix(remote_url@, "https://"@)
            ==> res == Ok::<PushAuth, DeployError>(PushAuth::Https),
        !(has_prefix(remote_url@, "git@"@) || has_prefix(remote_url@, "ssh://"@)
            || has_prefix(remote_url@, "https://"@))
            ==> (res matches Err(DeployError::UnsupportedRemote(u)) && u@ == remote_url@),
{
    let v = chars_of(remote_url);
    if starts_with(&v, "git@") || starts_with(&v, "ssh://") {
        Ok(PushAuth::Ssh)
    } else if starts_with(&v, "https://") {
        Ok(PushAuth::Https)
    } else {
        Err(DeployError::UnsupportedRemote(String::from_str(remote_url)))
    }
}

/// The author of deployment commits: git's configured name and e-mail,
/// else `Blogr` and `blogr@example.com`.
pub fn signature_parts(name: Option<String>, email: Option<String>) -> (res: (String, String))
    ensures
        res.0@ == match name { Some(n) => n@, None => "Blogr"@ },
        res.1@ == match email { Some(e) => e@, None => "blogr@example.com"@ },
{
    let n = match name {
        Some(n) => n,
        None => String::from_str("Blogr"),
    };
    let e = match email {
        Some(e) => e,
        None => String::from_str("blogr@example.com"),
    };
    (n, e)
}

/// Whether an entry of the deployment worktree is kept when it is
/// cleared: only the `.git` entry is.
pub fn kept_when_clearing(file_name: &str) -> (res: bool)
    ensures
        res == (file_name@ == ".git"@),
{
    str_eq(file_name, ".git")
}

/// How a report line is shown.
#[derive(Clone, Copy, PartialEq, Eq, Structural, Debug)]
pub enum ReportLevel {
    Success,
    Info,
    Warn,
}

/// What is reported of the GitHub Pages status.
pub open spec fn pages_status_report_of(status: Seq<char>) -> (ReportLevel, Seq<char>) {
    if status == "built"@ {
        (ReportLevel::Success, "GitHub Pages is enabled and working"@)
    } else if status == "building"@ {
        (ReportLevel::Info, "GitHub Pages is currently building"@)
    } else if status == "errored"@ {
        (ReportLevel::Warn, "GitHub Pages deployment has errors"@)
    } else {
        (ReportLevel::Info, "GitHub Pages status: "@ + status)
    }
}

/// What is reported of the GitHub Pages status.
pub fn pages_status_report(status: &str) -> (res: (ReportLevel, String))
    ensures
        (res.0, res.1@) == pages_status_report_of(status@),
{
    if str_eq(status, "built") {
        (ReportLevel::Success, String::from_str("GitHub Pages is enabled and working"))
    } else if str_eq(status, "building") {
        (ReportLevel::Info, String::from_str("GitHub Pages is currently building"))
    } else if str_eq(status, "errored") {
        (ReportLevel::Warn, String::from_str("GitHub Pages deployment has errors"))
    } else {
        let mut out = String::new();
        push_str(&mut out, "GitHub Pages status: ");
        push_str(&mut out, status);
        (ReportLevel::Info, out)
    }
}

/// What a JSON text holds under a key of its top-level object: `None`
/// when the text is not JSON, `Some(None)` when the key is missing or its
/// value is not a string.
pub uninterp spec fn json_str_field(text: Seq<char>, key: Seq<char>) -> Option<Option<Seq<char>>>;

/// Reads a string field of a JSON object with `serde_json` (`from_str`
/// into a `Value`, then `get` and `as_str`). The result is named
/// `json_str_field`; JSON's grammar is not restated.
#[verifier::external_body]
fn json_string_field(text: &str, key: &str) -> (res: Option<Option<String>>)
    ensures
        match res {
            None => json_str_field(text@, key@) is None,
            Some(f) => json_str_field(text@, key@) == Some(opt_view(f)),
        },
{
    match serde_json::from_str::<serde_json::Value>(text) {
        Ok(v) => Some(v.get(key).and_then(|s| s.as_str()).map(|s| s.to_string())),
        Err(_) => None,
    }
}

/// Why the GitHub Pages status could not be read.
#[derive(Clone, PartialEq, Eq, Debug)]
pub enum PagesStatusError {
    /// The API answered with an error status: its status line and body.
    Api(String, String),
    /// The answer is not JSON.
    Unreadable,
}

/// The GitHub Pages status from the API's answer: `not_configured` for
/// 404, the `status` field (or `unknown`) of a successful answer.
pub open spec fn pages_status_of(code: u16, body: Seq<char>) -> Option<Seq<char>> {
    if code == 404 {
        Some("not_configured"@)
    } else if 200 <= code <= 299 {
        match json_str_field(body, "status"@) {
            Some(Some(s)) => Some(s),
            Some(None) => Some("unknown"@),
            None => None,
        }
    } else {
        None
    }
}

/// The GitHub Pages status from the API's answer: its status code, its
/// status line and its body.
pub fn pages_status(code: u16, status_line: &str, body: &str) -> (res: Result<String, PagesStatusError>)
    ensures
        match res {
            Ok(s) => pages_status_of(code, body@) == Some(s@),
            Err(PagesStatusError::Api(l, b)) => code != 404 && !(200 <= code <= 299)
                && l@ == status_line@ && b@ == body@,
            Err(PagesStatusError::Unreadable) => 200 <= code <= 299
                && json_str_field(body@, "status"@) is None,
        },
{
    if code == 404 {
        return Ok(String::from_str("not_configured"));
    }
    if code < 200 || code > 299 {
        return Err(PagesStatusError::Api(String::from_str(status_line), String::from_str(body)));
    }
    match json_string_field(body, "status") {
        Some(Some(s)) => Ok(s),
        Some(None) => Ok(String::from_str("unknown")),
        None => Err(PagesStatusError::Unreadable),
    }
}

} // verus!
