use blogr::config::{Config, SearchConfig};
use blogr::content::{Post, PostMetadata, PostStatus};
use blogr::generator::search_index::SearchIndexer;
use blogr::generator::site::{
    archive_groups, blog_post_order, feed_html, generate_atom_feed, generate_rss_feed, page_range, page_reading_time,
    parse_frontmatter, personal_page, personal_page_with, post_archive_year, post_url, should_include_post,
    tag_groups, template_url, total_pages, FrontmatterError,
};
use blogr::time::Timestamp;

fn create_test_post() -> Post {
    Post {
        metadata: PostMetadata {
            title: "Test Post".to_string(),
            date: Timestamp { secs: 1_700_000_000, nanos: 0 },
            author: "Test Author".to_string(),
            description: "A test post".to_string(),
            tags: vec!["test".to_string(), "example".to_string()],
            status: PostStatus::Published,
            slug: "test-post".to_string(),
            featured: false,
        },
        content: "# Test Post\n\nThis is a test post with some content.".to_string(),
        file_path: "test-post.md".to_string(),
    }
}

#[test]
fn test_search_document_creation() {
    let config = SearchConfig {
        enabled: true,
        fields: vec!["title".to_string(), "tags".to_string(), "content".to_string()],
        exclude: vec!["drafts/".to_string()],
        max_content_chars: 2000,
        excerpt_words: 30,
        minify: true,
        lazy_load: true,
        remove_stopwords: false,
    };
    let indexer = SearchIndexer::new(config);
    let post = create_test_post();
    let document = indexer.post_to_search_document(&post).unwrap();

    assert_eq!(document.id, "test-post");
    assert_eq!(document.title, "Test Post");
    assert_eq!(document.url, "/posts/test-post.html");
    assert_eq!(document.tags, vec!["test", "example"]);
    assert!(document.content.contains("This is a test post"));
}

#[test]
fn frontmatter_splits_front_and_body() {
    let (front, body) = parse_frontmatter("---\ntitle: x\n---\nHello").unwrap();
    assert_eq!(front, "title: x");
    assert_eq!(body, "Hello");
    let (front, body) = parse_frontmatter("---\r\ntitle: y\r\n---\r\nBody").unwrap();
    assert_eq!(front, "title: y");
    assert_eq!(body, "Body");
}

#[test]
fn frontmatter_errors() {
    let e = parse_frontmatter("title: x").unwrap_err();
    assert_eq!(e, FrontmatterError::NoOpening);
    assert_eq!(e.message(), "Content must start with YAML frontmatter");
    let e = parse_frontmatter("---\ntitle: x\nno end").unwrap_err();
    assert_eq!(e, FrontmatterError::NoClosing);
    assert_eq!(e.message(), "Could not find closing --- for frontmatter");
}

#[test]
fn build_includes_posts_by_status_and_date() {
    let now = Timestamp { secs: 1_800_000_000, nanos: 0 };
    let mut post = create_test_post();
    assert!(should_include_post(&post, false, false, now));
    post.metadata.status = PostStatus::Draft;
    assert!(!should_include_post(&post, false, false, now));
    assert!(should_include_post(&post, true, false, now));
    post.metadata.status = PostStatus::Published;
    post.metadata.date = Timestamp { secs: 1_900_000_000, nanos: 0 };
    assert!(!should_include_post(&post, false, false, now));
    assert!(should_include_post(&post, false, true, now));
}

#[test]
fn page_reading_time_rounds_down_with_a_minimum() {
    assert_eq!(page_reading_time("a few words"), 1);
    let text = vec!["w"; 450].join(" ");
    assert_eq!(page_reading_time(&text), 2);
}

#[test]
fn posts_api_pages() {
    assert_eq!(total_pages(0), 0);
    assert_eq!(total_pages(10), 1);
    assert_eq!(total_pages(25), 3);
    assert_eq!(page_range(25, 1), (0, 10, true));
    assert_eq!(page_range(25, 3), (20, 25, false));
    assert_eq!(page_range(20, 2), (10, 20, false));
}

#[test]
fn template_urls() {
    let base = "https://example.com/blog/";
    assert_eq!(template_url(base, "css/style.css", false), "https://example.com/blog/css/style.css");
    assert_eq!(template_url(base, "//css/style.css", false), "https://example.com/blog/css/style.css");
    assert_eq!(template_url(base, "/css/style.css", true), "/css/style.css");
    assert_eq!(template_url(base, "", true), "/");
    assert_eq!(template_url(base, "https://cdn.example/x.js", false), "https://cdn.example/x.js");
    assert_eq!(post_url(base, "hello"), "https://example.com/blog/posts/hello.html");
}

#[test]
fn rss_feed_carries_posts() {
    let config = Config::default();
    let posts = vec![create_test_post()];
    let html = vec!["<p>Hi</p>".to_string()];
    let now = Timestamp { secs: 0, nanos: 0 };
    let feed = generate_rss_feed(&config, &posts, &html, now).unwrap();
    assert!(feed.starts_with("<?xml version=\"1.0\" encoding=\"UTF-8\"?>\n<rss version=\"2.0\""));
    assert!(feed.contains("<link>https://username.github.io/repository/posts/test-post.html</link>"));
    assert!(feed.contains("<description><![CDATA[<p>Hi</p>]]></description>"));
    assert!(feed.contains("<pubDate>Tue, 14 Nov 2023 22:13:20 +0000</pubDate>"));
    assert!(feed.contains("<lastBuildDate>Thu, 01 Jan 1970 00:00:00 +0000</lastBuildDate>"));
    assert!(feed.contains("<language>en</language>"));
    assert!(feed.ends_with("    </item>\n  </channel>\n</rss>"));
}

#[test]
fn atom_feed_carries_posts() {
    let config = Config::default();
    let posts = vec![create_test_post()];
    let html = vec!["<p>Hi</p>".to_string()];
    let now = Timestamp { secs: 0, nanos: 0 };
    let feed = generate_atom_feed(&config, &posts, &html, now).unwrap();
    assert!(feed.contains("<link href=\"https://username.github.io/repository/atom.xml\" rel=\"self\"/>"));
    assert!(feed.contains("<updated>2023-11-14T22:13:20+0000</updated>"));
    assert!(feed.contains("<summary><![CDATA[A test post]]></summary>"));
    assert!(feed.ends_with("  </entry>\n</feed>"));
}

#[test]
fn feeds_take_at_most_twenty_posts() {
    let config = Config::default();
    let posts: Vec<Post> = (0..25).map(|_| create_test_post()).collect();
    let html: Vec<String> = (0..25).map(|i| format!("<p>{}</p>", i)).collect();
    let feed = generate_rss_feed(&config, &posts, &html, Timestamp { secs: 0, nanos: 0 }).unwrap();
    assert_eq!(feed.matches("<item>").count(), 20);
    assert!(feed.contains("<p>19</p>"));
    assert!(!feed.contains("<p>20</p>"));
}

fn dated_post(slug: &str, secs: i64, status: PostStatus, tags: &[&str]) -> Post {
    let mut p = create_test_post();
    p.metadata.slug = slug.to_string();
    p.metadata.date = Timestamp { secs, nanos: 0 };
    p.metadata.status = status;
    p.metadata.tags = tags.iter().map(|t| t.to_string()).collect();
    p
}

#[test]
fn blog_order_is_newest_first_and_stable() {
    let now = Timestamp { secs: 1_800_000_000, nanos: 0 };
    let posts = vec![
        dated_post("a", 1_600_000_000, PostStatus::Published, &[]),
        dated_post("b", 1_700_000_000, PostStatus::Published, &[]),
        dated_post("c", 1_600_000_000, PostStatus::Published, &[]),
        dated_post("d", 1_750_000_000, PostStatus::Draft, &[]),
        dated_post("e", 1_900_000_000, PostStatus::Published, &[]),
    ];
    assert_eq!(blog_post_order(&posts, false, false, now), vec![1, 0, 2]);
    assert_eq!(blog_post_order(&posts, true, false, now), vec![3, 1, 0, 2]);
    assert_eq!(blog_post_order(&posts, true, true, now), vec![4, 3, 1, 0, 2]);
    assert_eq!(blog_post_order(&Vec::new(), true, true, now), Vec::<usize>::new());
}

#[test]
fn tag_pages_group_posts_by_tag() {
    let posts = vec![
        dated_post("a", 1, PostStatus::Published, &["rust", "web"]),
        dated_post("b", 2, PostStatus::Published, &["web"]),
        dated_post("c", 3, PostStatus::Published, &[]),
        dated_post("d", 4, PostStatus::Published, &["rust", "rust"]),
    ];
    let mut groups = tag_groups(&posts);
    groups.sort();
    assert_eq!(
        groups,
        vec![("rust".to_string(), vec![0, 3, 3]), ("web".to_string(), vec![0, 1])]
    );
    assert!(tag_groups(&vec![dated_post("x", 1, PostStatus::Published, &[])]).is_empty());
}

#[test]
fn archive_groups_posts_by_year() {
    assert_eq!(post_archive_year(&dated_post("a", 1_700_000_000, PostStatus::Published, &[])), 2023);
    assert_eq!(post_archive_year(&dated_post("a", 1_735_689_600, PostStatus::Published, &[])), 2025);
    assert_eq!(post_archive_year(&dated_post("a", 1_735_689_599, PostStatus::Published, &[])), 2024);
    // a year past 9999 does not read back, and falls under 2024
    assert_eq!(post_archive_year(&dated_post("a", 300_000_000_000, PostStatus::Published, &[])), 2024);
    let posts = vec![
        dated_post("a", 1_700_000_000, PostStatus::Published, &[]),
        dated_post("b", 1_600_000_000, PostStatus::Published, &[]),
        dated_post("c", 1_690_000_000, PostStatus::Published, &[]),
    ];
    let mut groups = archive_groups(&posts);
    groups.sort();
    assert_eq!(groups, vec![(2020, vec![1]), (2023, vec![0, 2])]);
}

#[test]
fn personal_page_takes_texts_from_content() {
    let mut config = Config::default();
    config.blog.title = "My Site".to_string();
    config.blog.description = "About me".to_string();
    config.blog.author = "Ann".to_string();
    config.blog.base_url = "https://ann.example".to_string();
    let page = personal_page(&config, &None);
    assert_eq!(page.blog_title, "My Site");
    assert_eq!(page.blog_description, "About me");
    assert_eq!(page.author, "Ann");
    assert_eq!(page.base_url, "https://ann.example");
    assert_eq!(page.language, "en");

    let md = "---\ntitle: Ann's Page\ndescription: Hello there\nsections:\n  about: x\n---\nBody".to_string();
    let page = personal_page(&config, &Some(md));
    assert_eq!(page.blog_title, "Ann's Page");
    assert_eq!(page.blog_description, "Hello there");

    let md = "---\ntitle: 42\n---\nBody".to_string();
    let page = personal_page(&config, &Some(md));
    assert_eq!(page.blog_title, "My Site");

    let page = personal_page(&config, &Some("no front matter".to_string()));
    assert_eq!(page.blog_title, "My Site");

    config.blog.language = Some("fr".to_string());
    let page = personal_page_with(&config, Some("T".to_string()), None);
    assert_eq!(page.blog_title, "T");
    assert_eq!(page.blog_description, "About me");
    assert_eq!(page.language, "fr");
}

fn index_test_config() -> SearchConfig {
    SearchConfig {
        enabled: true,
        fields: vec!["title".to_string(), "tags".to_string(), "content".to_string()],
        exclude: vec!["drafts/".to_string()],
        max_content_chars: 2000,
        excerpt_words: 30,
        minify: true,
        lazy_load: true,
        remove_stopwords: false,
    }
}

#[test]
fn test_index_generation() {
    let indexer = SearchIndexer::new(index_test_config());
    let post = create_test_post();
    let documents = indexer.index_documents(&vec![post]).unwrap();
    assert_eq!(documents.len(), 1);
    assert_eq!(documents[0].id, "test-post");
}

#[test]
fn test_draft_exclusion() {
    let mut post = create_test_post();
    post.metadata.status = PostStatus::Draft;
    let indexer = SearchIndexer::new(index_test_config());
    let documents = indexer.index_documents(&vec![post]).unwrap();
    assert_eq!(documents.len(), 0);
}

#[test]
fn index_skips_excluded_paths_and_keeps_order() {
    let indexer = SearchIndexer::new(index_test_config());
    let mut a = dated_post("a", 1, PostStatus::Published, &[]);
    a.file_path = "posts/a.md".to_string();
    let mut b = dated_post("b", 2, PostStatus::Published, &[]);
    b.file_path = "drafts/b.md".to_string();
    let mut c = dated_post("c", 3, PostStatus::Published, &[]);
    c.file_path = "posts/c.md".to_string();
    let documents = indexer.index_documents(&vec![a, b, c]).unwrap();
    let ids: Vec<&str> = documents.iter().map(|d| d.id.as_str()).collect();
    assert_eq!(ids, vec!["a", "c"]);
    assert_eq!(documents[1].url, "/posts/c.html");
}

#[test]
fn feeds_carry_rendered_posts() {
    let config = Config::default();
    let mut second = create_test_post();
    second.content = "Some *words*".to_string();
    let posts = vec![create_test_post(), second];
    let html = feed_html(&posts).unwrap();
    assert_eq!(
        html,
        vec![
            "<h1>Test Post</h1>\n<p>This is a test post with some content.</p>\n".to_string(),
            "<p>Some <em>words</em></p>\n".to_string(),
        ]
    );
    let feed = generate_rss_feed(&config, &posts, &html, Timestamp { secs: 0, nanos: 0 }).unwrap();
    assert!(feed.contains("<description><![CDATA[<p>Some <em>words</em></p>\n]]></description>"));
}

#[test]
fn front_matter_status() {
    assert_eq!(PostStatus::from_front_matter(Some("draft")), PostStatus::Draft);
    assert_eq!(PostStatus::from_front_matter(Some("published")), PostStatus::Published);
    assert_eq!(PostStatus::from_front_matter(Some("Draft")), PostStatus::Published);
    assert_eq!(PostStatus::from_front_matter(None), PostStatus::Published);
}
