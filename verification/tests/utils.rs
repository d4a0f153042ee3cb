use blogr::utils::Utils;

#[test]
fn test_slugify() {
    assert_eq!(Utils::slugify("Hello World"), "hello-world");
    assert_eq!(Utils::slugify("My Awesome Blog Post!"), "my-awesome-blog-post");
    assert_eq!(Utils::slugify("123 Test"), "123-test");
    assert_eq!(Utils::slugify("---test---"), "test");
}

#[test]
fn test_reading_time() {
    let short_text = "Hello world";
    assert_eq!(Utils::calculate_reading_time(short_text), 1);

    let long_text = (0..300).map(|_| "word").collect::<Vec<_>>().join(" ");
    assert!(Utils::calculate_reading_time(&long_text) > 1);
}

#[test]
fn test_extract_excerpt() {
    let text = "This is a long text with many words that should be truncated properly";
    let excerpt = Utils::extract_excerpt(text, 5);
    assert_eq!(excerpt, "This is a long text...");
}

#[test]
fn test_github_validation() {
    assert!(Utils::is_valid_github_username("valid-username"));
    assert!(Utils::is_valid_github_username("user123"));
    assert!(!Utils::is_valid_github_username("-invalid"));
    assert!(!Utils::is_valid_github_username("invalid-"));
    assert!(!Utils::is_valid_github_username("invalid--double"));

    assert!(Utils::is_valid_github_repo_name("valid-repo"));
    assert!(Utils::is_valid_github_repo_name("repo.name"));
    assert!(Utils::is_valid_github_repo_name("repo_name"));
    assert!(!Utils::is_valid_github_repo_name("-invalid"));
    assert!(!Utils::is_valid_github_repo_name("invalid-"));
}

#[test]
fn test_parse_tags() {
    let tags = Utils::parse_tags("rust, programming, web");
    assert_eq!(tags, vec!["rust", "programming", "web"]);

    let tags_with_spaces = Utils::parse_tags("  tag1  ,  tag2  , tag3  ");
    assert_eq!(tags_with_spaces, vec!["tag1", "tag2", "tag3"]);
}

#[test]
fn test_format_file_size() {
    assert_eq!(Utils::format_file_size(512), "512 B");
    assert_eq!(Utils::format_file_size(1024), "1.0 KB");
    assert_eq!(Utils::format_file_size(1536), "1.5 KB");
    assert_eq!(Utils::format_file_size(1048576), "1.0 MB");
}

#[test]
fn format_file_size_agrees_with_float_formatting() {
    let units = ["B", "KB", "MB", "GB", "TB"];
    let samples: Vec<u64> = vec![
        0, 1, 1023, 1025, 1100, 1126, 1127, 1177, 1178, 10239, 10240, 123456, 999_999, 1_048_575,
        5_000_000, 1_073_741_823, 1_099_511_627_775, 1_099_511_627_776, 5_000_000_000_000_000,
        u64::MAX,
    ];
    for size in samples {
        let mut s = size as f64;
        let mut unit = 0;
        while s >= 1024.0 && unit < units.len() - 1 {
            s /= 1024.0;
            unit += 1;
        }
        let expected = if unit == 0 {
            format!("{} {}", size, units[unit])
        } else {
            format!("{:.1} {}", s, units[unit])
        };
        assert_eq!(Utils::format_file_size(size), expected, "size {}", size);
    }
}

#[test]
fn file_extension_cases() {
    assert_eq!(Utils::get_file_extension("post.md"), Some("md".to_string()));
    assert_eq!(Utils::get_file_extension("dir/archive.tar.gz"), Some("gz".to_string()));
    assert_eq!(Utils::get_file_extension("README"), None);
    assert_eq!(Utils::get_file_extension(".bashrc"), None);
    assert_eq!(Utils::get_file_extension("dir.d/file"), None);
}

#[test]
fn reading_time_rounds_up() {
    let words_200 = (0..200).map(|_| "w").collect::<Vec<_>>().join(" ");
    assert_eq!(Utils::calculate_reading_time(&words_200), 1);
    let words_201 = (0..201).map(|_| "w").collect::<Vec<_>>().join(" ");
    assert_eq!(Utils::calculate_reading_time(&words_201), 2);
    assert_eq!(Utils::calculate_reading_time(""), 1);
}
