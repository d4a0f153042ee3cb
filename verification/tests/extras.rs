use blogr::commands::config::domain_summary_lines;
use blogr::config::{Config, DomainConfig};
use blogr::generator::assets::{optimize_css, optimize_js};
use blogr::generator::markdown::{
    code_block_end, code_block_replacements_of, code_block_start, html_escape, markdown_to_text, render_markdown,
    MdEvent, MdTag,
};
use blogr::newsletter::api::{paginate, stats_of};
use blogr::newsletter::approval::{ApprovalApp, ApprovalCommand, ApprovalKey, ApprovalMode, ConfirmAction};
use blogr::newsletter::database::{row_to_subscriber, RowError, Subscriber, SubscriberRow, SubscriberStatus};
use blogr::project::{fill_about_page, fill_readme, fill_sample_post, fill_workflow, validation_issues, ProjectChecks};
use blogr::newsletter::composer::{generate_unsubscribe_url, get_newsletter_title, html_preview, post_subject};
use blogr::themes::musashi::MusashiTheme;

#[test]
fn approval_screen_selects_and_confirms() {
    let a = Subscriber::new("a@example.com".to_string(), None);
    let mut b = Subscriber::new("b@example.com".to_string(), None);
    b.approve();
    let c = Subscriber::new("c@example.com".to_string(), None);
    let mut app = ApprovalApp::new(vec![a, b, c]);
    // pending subscribers are listed first
    assert_eq!(app.filtered_subscribers, vec![0, 2]);
    assert_eq!(app.selected_row, Some(0));
    app.handle_key_event(ApprovalKey::Down);
    assert_eq!(app.selected_row, Some(1));
    app.handle_key_event(ApprovalKey::Char(' '));
    assert_eq!(app.selected, vec![2]);
    app.handle_key_event(ApprovalKey::Char('A'));
    assert_eq!(app.mode, ApprovalMode::Confirm);
    match app.handle_key_event(ApprovalKey::Enter) {
        ApprovalCommand::Apply(action, positions) => {
            assert_eq!(action, ConfirmAction::Approve);
            assert_eq!(positions, vec![2]);
        }
        _ => panic!("expected the action to apply"),
    }
    assert_eq!(app.statistics(), (3, 2, 1));
}

#[test]
fn api_pagination_and_stats() {
    assert_eq!(paginate(vec![1, 2, 3, 4, 5], Some(1), Some(2)), vec![2, 3]);
    assert_eq!(paginate(vec![1, 2, 3], Some(5), None), Vec::<i32>::new());
    assert_eq!(paginate(vec![1, 2, 3], None, Some(10)), vec![1, 2, 3]);
    let mut a = Subscriber::new("a@example.com".to_string(), None);
    a.approve();
    let b = Subscriber::new("b@example.com".to_string(), None);
    let mut c = Subscriber::new("c@example.com".to_string(), None);
    c.decline();
    let stats = stats_of(&vec![a, b, c]);
    assert_eq!(stats.total_subscribers, 3);
    assert_eq!(stats.approved_subscribers, 1);
    assert_eq!(stats.pending_subscribers, 1);
    assert_eq!(stats.declined_subscribers, 1);
}

#[test]
fn stored_rows_read_back() {
    let row = SubscriberRow {
        id: 7,
        email: "a@example.com".to_string(),
        status: "approved".to_string(),
        subscribed_at: "2024-01-02 03:04:05".to_string(),
        approved_at: Some("2024-01-03 00:00:00.250".to_string()),
        source_email_id: Some("msg-1".to_string()),
        notes: None,
    };
    let s = row_to_subscriber(row).unwrap();
    assert_eq!(s.id, Some(7));
    assert_eq!(s.status, SubscriberStatus::Approved);
    assert_eq!(s.subscribed_at.secs, 1_704_164_645);
    assert_eq!(s.approved_at.unwrap().nanos, 250_000_000);
    let bad = SubscriberRow {
        id: 1,
        email: "b@example.com".to_string(),
        status: "weird".to_string(),
        subscribed_at: "yesterday".to_string(),
        approved_at: None,
        source_email_id: None,
        notes: None,
    };
    assert_eq!(row_to_subscriber(bad).err(), Some(RowError::SubscribedAt));
    let bad_status = SubscriberRow {
        id: 1,
        email: "b@example.com".to_string(),
        status: "weird".to_string(),
        subscribed_at: "2024-01-02 03:04:05".to_string(),
        approved_at: None,
        source_email_id: None,
        notes: None,
    };
    assert_eq!(row_to_subscriber(bad_status).err(), Some(RowError::Status));
}

#[test]
fn project_validation_reports_problems() {
    let config = Config::default();
    let all_good = ProjectChecks {
        posts_exists: true,
        posts_is_dir: true,
        static_exists: true,
        static_is_dir: true,
        config_exists: true,
    };
    assert!(validation_issues(&config, &all_good).is_empty());
    let missing = ProjectChecks { posts_exists: false, config_exists: false, ..all_good };
    assert_eq!(
        validation_issues(&config, &missing),
        vec!["Missing required directory: posts", "Missing blogr.toml configuration file"]
    );
}

#[test]
fn assets_are_minified() {
    assert_eq!(optimize_css("body {\n  color: red;\n}\n/* c */\n"), "body{color: red;}");
    assert_eq!(optimize_js("// note\nlet a = 1;\n\nlet b = 2;"), "let a = 1; let b = 2;");
}

#[test]
fn markdown_text_helpers() {
    assert_eq!(html_escape("<a href=\"x\">&'</a>"), "&lt;a href=&quot;x&quot;&gt;&amp;&#x27;&lt;/a&gt;");
    assert_eq!(markdown_to_text("# Title\n\nSome *text*."), "TitleSome text.");
    assert_eq!(markdown_to_text("one\ntwo `x`"), "one two x");
}

#[test]
fn domain_summary() {
    let mut config = Config::default();
    assert!(domain_summary_lines(&config).is_empty());
    config.blog.domains = Some(DomainConfig {
        primary: Some("example.com".to_string()),
        aliases: vec!["www.example.com".to_string()],
        subdomain: None,
        enforce_https: false,
        github_pages_domain: None,
    });
    assert_eq!(
        domain_summary_lines(&config),
        vec![
            "🌐 Configured domains:",
            "  • example.com",
            "  • www.example.com",
            "🔒 HTTPS: Optional",
            "📍 Effective URL: http://example.com",
        ]
    );
}

#[test]
fn personal_theme_example_content() {
    let text = MusashiTheme::example_content("Jane Doe");
    assert!(text.starts_with("---\ntitle: \"Jane Doe\""));
    assert!(text.contains("theme: \"musashi\""));
    assert!(text.contains("janedoe"));
}

#[test]
fn newsletter_composition_texts() {
    let mut config = Config::default();
    assert_eq!(get_newsletter_title(&config), "My Blog");
    config.newsletter.sender_name = Some("Weekly".to_string());
    assert_eq!(post_subject(&config, "Hello"), "Weekly: Hello");
    assert_eq!(
        generate_unsubscribe_url(&config, "tok"),
        "mailto:unsubscribe@example.com?subject=Unsubscribe&body=Please unsubscribe me from the newsletter. Token: tok"
    );
    assert_eq!(html_preview("<p>x</p>"), "<p>x</p>");
    let long = "a".repeat(600);
    assert_eq!(
        html_preview(&long),
        format!("{}...\n\n[HTML content truncated - 600 total characters]", "a".repeat(500))
    );
}

#[test]
fn project_templates_are_filled() {
    let config = Config::default();
    assert_eq!(fill_readme("# {title}\n{description} by {author}", &config), "# My Blog\nA blog powered by Blogr by Anonymous");
    assert_eq!(
        fill_sample_post("{title} | {author} | {date} | {blog_title}", &config, "2024-01-01"),
        "Welcome to My Blog | Anonymous | 2024-01-01 | My Blog"
    );
    assert_eq!(fill_about_page("{author}@{blog_title} {date}", &config, "d"), "Anonymous@My Blog d");
    assert_eq!(fill_workflow("your-username/your-repo", "ada", "blog"), "ada/blog");
}

#[test]
fn markdown_renders_html_with_code_blocks() {
    assert_eq!(code_block_start(Some("rust")), "<pre class=\"highlight\"><code class=\"language-rust\">");
    assert_eq!(code_block_start(Some("")), "<pre class=\"highlight\"><code class=\"language-\">");
    assert_eq!(code_block_start(None), "<pre class=\"highlight\"><code>");
    assert_eq!(code_block_end(), "</code></pre>");
    assert_eq!(render_markdown("# Hi").unwrap(), "<h1>Hi</h1>\n");
    assert_eq!(render_markdown("~~gone~~").unwrap(), "<p><del>gone</del></p>\n");
    let rust = render_markdown("```rust\nlet x = 1 < 2;\n```\n").unwrap();
    assert!(rust.starts_with(
        "<pre class=\"highlight\"><code class=\"language-rust\"><pre style=\"background-color:#2b303b;\">\n"
    ));
    assert!(rust.contains("let"));
    assert!(rust.contains("&lt;"));
    assert!(!rust.contains("1 < 2"));
    assert!(rust.ends_with("</pre>\n</code></pre>"));
    assert_eq!(
        render_markdown("    indented\n").unwrap(),
        "<pre class=\"highlight\"><code><pre style=\"background-color:#2b303b;\">\n<span style=\"color:#c0c5ce;\">indented\n</span></pre>\n</code></pre>"
    );
}

#[test]
fn code_blocks_are_replaced_and_nothing_else() {
    let events = vec![
        MdEvent::Start(MdTag::Paragraph),
        MdEvent::Text("x".to_string()),
        MdEvent::End(MdTag::Paragraph),
        MdEvent::CodeBlockStart(Some("sh".to_string())),
        MdEvent::Text("ls\n".to_string()),
        MdEvent::End(MdTag::CodeBlock),
        MdEvent::Text("after".to_string()),
        MdEvent::CodeBlockStart(None),
        MdEvent::End(MdTag::CodeBlock),
    ];
    let r = code_block_replacements_of(&events).unwrap();
    assert_eq!(r.len(), 9);
    assert_eq!(&r[0..3], &[None, None, None]);
    assert_eq!(r[3].as_deref(), Some("<pre class=\"highlight\"><code class=\"language-sh\">"));
    let code = r[4].as_deref().unwrap();
    assert!(code.starts_with("<pre style=\"background-color:#2b303b;\">\n"));
    assert!(code.contains("ls"));
    assert!(code.ends_with("</pre>\n"));
    assert_eq!(r[5].as_deref(), Some("</code></pre>"));
    assert_eq!(r[6], None);
    assert_eq!(r[7].as_deref(), Some("<pre class=\"highlight\"><code>"));
    assert_eq!(r[8].as_deref(), Some("</code></pre>"));
    assert_eq!(
        render_markdown("Text\n\n```\nplain\n```\n").unwrap(),
        "<p>Text</p>\n<pre class=\"highlight\"><code class=\"language-\"><pre style=\"background-color:#2b303b;\">\n<span style=\"color:#c0c5ce;\">plain\n</span></pre>\n</code></pre>"
    );
}
