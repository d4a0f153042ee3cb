use blogr::commands::deploy::{
    branch_ref, check_token, cname_file_text, cname_host, commit_message, deploy_commit_message,
    has_uncommitted_changes, is_branch_worktree, kept_when_clearing, new_worktree_name, pages_status,
    pages_status_report, push_auth, push_refspec, signature_parts, worktree_name, DeployError,
    FileStatus, PagesStatusError, PushAuth, ReportLevel,
};
use blogr::commands::init::{
    default_author, description_answer, pages_site_url, project_title, refusal_warning,
    repo_creation_failure, repository_answer, repository_from_flag, repository_remote_url,
    username_answer, username_from_flag, GitHubAnswer, InitError,
};
use blogr::commands::list::{
    description_text, empty_list_message, list_header, select_posts, sort_order_of, SortOrder,
};
use blogr::config::{Config, DomainConfig};
use blogr::content::{Post, PostMetadata, PostStatus};
use blogr::time::Timestamp;
use blogr::utils::Console;

fn post(title: &str, slug: &str, secs: i64, status: PostStatus, tags: &[&str]) -> Post {
    Post {
        metadata: PostMetadata {
            title: title.to_string(),
            date: Timestamp { secs, nanos: 0 },
            author: "A".to_string(),
            description: String::new(),
            tags: tags.iter().map(|t| t.to_string()).collect(),
            status,
            slug: slug.to_string(),
            featured: false,
        },
        content: String::new(),
        file_path: format!("{}.md", slug),
    }
}

fn sample_posts() -> Vec<Post> {
    vec![
        post("Banana", "b", 300, PostStatus::Published, &["fruit"]),
        post("Apple", "c", 100, PostStatus::Draft, &["fruit", "red"]),
        post("Cherry", "a", 200, PostStatus::Published, &["red"]),
        post("Apple", "d", 200, PostStatus::Published, &[]),
    ]
}

#[test]
fn list_sorts_by_the_named_order() {
    let posts = sample_posts();
    assert_eq!(sort_order_of("title"), SortOrder::Title);
    assert_eq!(sort_order_of("weird"), SortOrder::Unknown);
    assert_eq!(select_posts(&posts, false, false, &None, SortOrder::Title), vec![1, 3, 0, 2]);
    assert_eq!(select_posts(&posts, false, false, &None, SortOrder::Slug), vec![2, 0, 1, 3]);
    // newest first, ties keep their order
    assert_eq!(select_posts(&posts, false, false, &None, SortOrder::Date), vec![0, 2, 3, 1]);
    assert_eq!(select_posts(&posts, false, false, &None, SortOrder::Unknown), vec![0, 2, 3, 1]);
}

#[test]
fn list_filters_by_status_and_tag() {
    let posts = sample_posts();
    assert_eq!(select_posts(&posts, true, false, &None, SortOrder::Date), vec![1]);
    // drafts only wins over published only
    assert_eq!(select_posts(&posts, true, true, &None, SortOrder::Date), vec![1]);
    assert_eq!(select_posts(&posts, false, true, &None, SortOrder::Date), vec![0, 2, 3]);
    assert_eq!(select_posts(&posts, false, false, &Some("red".to_string()), SortOrder::Title), vec![1, 2]);
    assert!(select_posts(&posts, false, false, &Some("none".to_string()), SortOrder::Title).is_empty());
}

#[test]
fn list_texts() {
    assert_eq!(empty_list_message(false, false, &None), "No posts found");
    assert_eq!(empty_list_message(true, false, &Some("x".to_string())), "No posts found with tag 'x'");
    assert_eq!(empty_list_message(false, true, &None), "No posts found (published only)");
    assert_eq!(list_header(3, true, false, &None), "Found 3 post(s) (drafts)");
    assert_eq!(list_header(12, false, false, &Some("rust".to_string())), "Found 12 post(s) (tagged 'rust')");
    assert_eq!(description_text("short"), "short");
    let long = "x".repeat(81);
    assert_eq!(description_text(&long), format!("{}...", "x".repeat(77)));
}

#[test]
fn init_answers() {
    assert_eq!(project_title("  My Blog \n").unwrap(), "My Blog");
    assert_eq!(project_title("   ").unwrap_err(), InitError::EmptyTitle);
    assert_eq!(InitError::EmptyTitle.message(), "Project title cannot be empty");
    assert_eq!(default_author(None), "Anonymous");
    assert_eq!(default_author(Some("Ada".to_string())), "Ada");
    assert_eq!(description_answer("\n", "Ada"), "A blog by Ada");
    assert_eq!(description_answer(" Notes \n", "Ada"), "Notes");
}

#[test]
fn init_github_answers() {
    assert_eq!(username_from_flag("ada".to_string()).unwrap(), "ada");
    let e = username_from_flag("-bad".to_string()).unwrap_err();
    assert_eq!(e.message(), "Invalid GitHub username: -bad");
    assert_eq!(repository_from_flag("repo.name".to_string()).unwrap(), "repo.name");
    assert_eq!(
        repository_from_flag("-x".to_string()).unwrap_err(),
        InitError::InvalidRepository("-x".to_string())
    );
    assert_eq!(username_answer("\n", Some("ada".to_string())), GitHubAnswer::Use("ada".to_string()));
    assert_eq!(username_answer("\n", None), GitHubAnswer::Skip);
    assert_eq!(username_answer(" bob \n", None), GitHubAnswer::Use("bob".to_string()));
    assert_eq!(username_answer("bad--name", None), GitHubAnswer::Refused("bad--name".to_string()));
    assert_eq!(repository_answer("\n", "My Blog"), GitHubAnswer::Use("my-blog".to_string()));
    assert_eq!(repository_answer("-nope", "My Blog"), GitHubAnswer::Refused("-nope".to_string()));
    assert_eq!(
        refusal_warning(true, "x-"),
        "Invalid GitHub username 'x-', skipping GitHub integration"
    );
}

#[test]
fn init_urls_and_failures() {
    assert_eq!(repository_remote_url("ada", "blog"), "https://github.com/ada/blog.git");
    assert_eq!(pages_site_url("ada", "blog"), "https://ada.github.io/blog");
    assert_eq!(
        repo_creation_failure(422, "422 Unprocessable Entity", "", "blog"),
        "Repository 'blog' already exists or name is invalid"
    );
    assert_eq!(
        repo_creation_failure(401, "401 Unauthorized", "", "blog"),
        "Authentication failed. Check your GitHub token."
    );
    assert_eq!(
        repo_creation_failure(500, "500 Internal Server Error", "oops", "blog"),
        "GitHub API error (500 Internal Server Error): oops"
    );
    assert_eq!(Console::step_text(1, 5, "Creating project structure..."), "[1/5] Creating project structure...");
}

#[test]
fn deploy_token_checks() {
    assert_eq!(check_token(None).unwrap_err(), DeployError::TokenMissing);
    assert_eq!(check_token(Some(String::new())).unwrap_err(), DeployError::TokenEmpty);
    assert_eq!(check_token(Some("t".to_string())).unwrap(), "t");
    assert_eq!(
        DeployError::TokenEmpty.message(),
        "GitHub token is empty. Please set a valid GITHUB_TOKEN environment variable."
    );
}

#[test]
fn deploy_change_detection() {
    let clean = FileStatus {
        wt_modified: false,
        wt_deleted: false,
        wt_typechange: false,
        wt_renamed: false,
        wt_new: false,
        index_modified: false,
        index_new: false,
        index_deleted: false,
        index_renamed: false,
        index_typechange: false,
    };
    assert!(!has_uncommitted_changes(&vec![clean, clean]));
    let mut changed = clean;
    changed.wt_new = true;
    assert!(has_uncommitted_changes(&vec![clean, changed]));
    assert!(!has_uncommitted_changes(&Vec::new()));
}

#[test]
fn deploy_worktrees() {
    assert!(is_branch_worktree("gh-pages-1a2b3c4d", "gh-pages"));
    assert!(is_branch_worktree("gh-pages", "gh-pages"));
    assert!(!is_branch_worktree("gh-pagesx", "gh-pages"));
    assert_eq!(worktree_name("gh-pages", "1a2b3c4d-aaaa-bbbb"), "gh-pages-1a2b3c4d");
    assert_eq!(worktree_name("main", "nodash"), "main-nodash");
    let name = new_worktree_name("gh-pages");
    assert_eq!(name.len(), "gh-pages".len() + 9);
    assert!(name.starts_with("gh-pages-"));
    assert!(name["gh-pages-".len()..].chars().all(|c| c.is_ascii_hexdigit() && !c.is_ascii_uppercase()));
}

#[test]
fn deploy_cname() {
    let mut config = Config::default();
    assert_eq!(cname_host(&config), None);
    config.blog.domains = Some(DomainConfig {
        primary: Some("blog.example.com".to_string()),
        aliases: Vec::new(),
        subdomain: None,
        enforce_https: true,
        github_pages_domain: Some("pages.example.com".to_string()),
    });
    assert_eq!(cname_host(&config), Some("blog.example.com".to_string()));
    config.blog.domains.as_mut().unwrap().primary = Some("me.github.io".to_string());
    assert_eq!(cname_host(&config), Some("pages.example.com".to_string()));
    assert_eq!(cname_file_text("blog.example.com"), "blog.example.com\n");
}

#[test]
fn deploy_commit_and_push() {
    assert_eq!(commit_message(Some("msg".to_string()), "x"), "msg");
    assert_eq!(commit_message(None, "2024-01-01 00:00:00 UTC"), "Deploy site - 2024-01-01 00:00:00 UTC");
    let m = deploy_commit_message(None);
    let stamp = m.strip_prefix("Deploy site - ").unwrap();
    assert_eq!(stamp.len(), "2024-01-01 00:00:00 UTC".len());
    assert!(stamp.ends_with(" UTC"));
    for (i, c) in stamp.chars().enumerate().take(19) {
        match i {
            4 | 7 => assert_eq!(c, '-'),
            10 => assert_eq!(c, ' '),
            13 | 16 => assert_eq!(c, ':'),
            _ => assert!(c.is_ascii_digit()),
        }
    }
    assert_eq!(deploy_commit_message(Some("m".to_string())), "m");
    assert_eq!(branch_ref("gh-pages"), "refs/heads/gh-pages");
    assert_eq!(push_refspec("gh-pages"), "+refs/heads/gh-pages:refs/heads/gh-pages");
    assert_eq!(push_auth("git@github.com:a/b.git").unwrap(), PushAuth::Ssh);
    assert_eq!(push_auth("https://github.com/a/b.git").unwrap(), PushAuth::Https);
    let e = push_auth("ftp://x").unwrap_err();
    assert_eq!(e.message(), "Unsupported remote URL format: ftp://x");
    let (n, m) = signature_parts(None, None);
    assert_eq!((n.as_str(), m.as_str()), ("Blogr", "blogr@example.com"));
    assert!(kept_when_clearing(".git"));
    assert!(!kept_when_clearing("index.html"));
}

#[test]
fn deploy_pages_status() {
    assert_eq!(pages_status(404, "404 Not Found", "").unwrap(), "not_configured");
    assert_eq!(pages_status(200, "200 OK", "{\"status\":\"built\"}").unwrap(), "built");
    assert_eq!(pages_status(200, "200 OK", "{\"other\":1}").unwrap(), "unknown");
    assert_eq!(pages_status(200, "200 OK", "not json").unwrap_err(), PagesStatusError::Unreadable);
    assert_eq!(
        pages_status(500, "500 Internal Server Error", "x").unwrap_err(),
        PagesStatusError::Api("500 Internal Server Error".to_string(), "x".to_string())
    );
    let (level, text) = pages_status_report("built");
    assert_eq!(level, ReportLevel::Success);
    assert_eq!(text, "GitHub Pages is enabled and working");
    let (level, text) = pages_status_report("queued");
    assert_eq!(level, ReportLevel::Info);
    assert_eq!(text, "GitHub Pages status: queued");
}
