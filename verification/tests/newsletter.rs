use blogr::newsletter::base64::encode;
use blogr::newsletter::composer::Newsletter;
use blogr::newsletter::database::SubscriberStatus;
use blogr::newsletter::fetcher::{EmailFetcher, FetchedEmail};
use blogr::newsletter::sender::{
    generate_unsubscribe_token, personalize_newsletter, RateLimiter, SendReport,
};

#[test]
fn test_base64_encoding() {
    let input = "test@example.com";
    let encoded = encode(input.as_bytes());
    assert!(!encoded.is_empty());
    assert!(encoded.len() > input.len());
}

#[test]
fn base64_known_values() {
    assert_eq!(encode(b""), "");
    assert_eq!(encode(b"f"), "Zg==");
    assert_eq!(encode(b"fo"), "Zm8=");
    assert_eq!(encode(b"foo"), "Zm9v");
    assert_eq!(encode(b"foob"), "Zm9vYg==");
    assert_eq!(encode(b"test@example.com"), "dGVzdEBleGFtcGxlLmNvbQ==");
    assert_eq!(encode(&[255, 254, 253]), "//79");
}

#[test]
fn test_send_report() {
    let mut report = SendReport::new(5);
    assert_eq!(report.total_subscribers, 5);
    assert_eq!(report.successful_sends, 0);
    assert_eq!(report.failed_sends, 0);
    assert!(!report.is_complete());

    report.add_success();
    report.add_success();
    report.add_error("test@example.com".to_string(), "Test error".to_string());

    assert_eq!(report.successful_sends, 2);
    assert_eq!(report.failed_sends, 1);
    assert_eq!(report.errors.len(), 1);
    assert!(!report.is_complete());

    report.add_success();
    report.add_success();
    assert!(report.is_complete());
    assert_eq!(report.successful_sends as f64 / report.total_subscribers as f64, 0.8);
}

#[test]
fn test_rate_limiter() {
    let mut limiter = RateLimiter::new(2);

    assert_eq!(limiter.wait_if_needed(1_000), 0);
    assert_eq!(limiter.wait_if_needed(1_500), 0);

    assert_eq!(limiter.last_send_times.len(), 2);
}

#[test]
fn rate_limiter_waits_for_oldest_send() {
    let mut limiter = RateLimiter::new(2);
    assert_eq!(limiter.wait_if_needed(1_000), 0);
    assert_eq!(limiter.wait_if_needed(2_000), 0);
    assert_eq!(limiter.wait_if_needed(11_000), 50_000);
    assert_eq!(limiter.last_send_times, vec![1_000, 2_000, 11_000]);
    // A minute later the old sends are forgotten.
    assert_eq!(limiter.wait_if_needed(70_000), 0);
    assert_eq!(limiter.last_send_times, vec![11_000, 70_000]);
}

#[test]
fn test_newsletter_creation() {
    let newsletter = Newsletter::new(
        "Test Subject".to_string(),
        "<html><body>Test</body></html>".to_string(),
        "Test".to_string(),
    );

    assert_eq!(newsletter.subject, "Test Subject");
    assert!(newsletter.html_content.contains("Test"));
    assert_eq!(newsletter.text_content, "Test");
}

#[test]
fn personalize_replaces_placeholders() {
    let n = Newsletter::new(
        "S".to_string(),
        "<a href=\"{{unsubscribe_url}}\">x</a> {{unsubscribe_token}}".to_string(),
        "token={{unsubscribe_token}}".to_string(),
    );
    let p = personalize_newsletter(&n, "me@blog.org", "abc");
    assert_eq!(
        p.html_content,
        "<a href=\"mailto:me@blog.org?subject=Unsubscribe&body=Please unsubscribe me from the newsletter. Token: abc\">x</a> abc"
    );
    assert_eq!(p.text_content, "token=abc");
    assert_eq!(p.subject, "S");
}

#[test]
fn unsubscribe_token_shape() {
    let t = generate_unsubscribe_token("a@b.c");
    let (left, right) = t.split_once(':').unwrap();
    assert_eq!(left, encode(b"a@b.c"));
    assert_eq!(right.len(), 8);
    assert!(right.chars().all(|c| c.is_ascii_hexdigit() && !c.is_ascii_uppercase()));
}

#[test]
fn status_names() {
    assert_eq!(SubscriberStatus::Approved.as_str(), "approved");
    assert_eq!(SubscriberStatus::from_str("DECLINED").unwrap(), SubscriberStatus::Declined);
    assert!(SubscriberStatus::from_str("maybe").is_err());
}

#[test]
fn test_email_address_extraction() {
    let fetcher = EmailFetcher::new();

    assert_eq!(fetcher.extract_email_address("john@example.com").unwrap(), "john@example.com");
    assert_eq!(
        fetcher.extract_email_address("John Doe <john@example.com>").unwrap(),
        "john@example.com"
    );
    assert_eq!(fetcher.extract_email_address("<john@example.com>").unwrap(), "john@example.com");
    assert_eq!(
        fetcher.extract_email_address("  JOHN@EXAMPLE.COM  ").unwrap(),
        "john@example.com"
    );
}

#[test]
fn address_extraction_failure() {
    let fetcher = EmailFetcher::new();
    assert!(fetcher.extract_email_address("no address here").is_err());
    assert_eq!(fetcher.extract_email_address("x >y< z@w").unwrap(), "x >y< z@w");
}

#[test]
fn test_email_validation() {
    let fetcher = EmailFetcher::new();

    assert!(fetcher.is_valid_email("john@example.com"));
    assert!(fetcher.is_valid_email("test.email+tag@domain.co.uk"));

    assert!(!fetcher.is_valid_email("invalid"));
    assert!(!fetcher.is_valid_email("@example.com"));
    assert!(!fetcher.is_valid_email("john@"));
    assert!(!fetcher.is_valid_email(""));
}

#[test]
fn test_subscription_email_detection() {
    let fetcher = EmailFetcher::new();

    let subscription_email = FetchedEmail {
        id: 1,
        from: "john@example.com".to_string(),
        subject: "Newsletter Subscription".to_string(),
        body: "I would like to subscribe to your newsletter".to_string(),
        date: None,
    };
    assert!(fetcher.is_subscription_email(&subscription_email));

    let unsubscribe_email = FetchedEmail {
        id: 2,
        from: "john@example.com".to_string(),
        subject: "Unsubscribe Request".to_string(),
        body: "Please unsubscribe me from your newsletter".to_string(),
        date: None,
    };
    assert!(!fetcher.is_subscription_email(&unsubscribe_email));

    let regular_email = FetchedEmail {
        id: 3,
        from: "john@example.com".to_string(),
        subject: "Hello".to_string(),
        body: "Just saying hello".to_string(),
        date: None,
    };
    assert!(!fetcher.is_subscription_email(&regular_email));
}

#[test]
fn subscriber_extraction_dedups_and_filters() {
    let fetcher = EmailFetcher::new();
    let mail = |id: u32, from: &str, subject: &str| FetchedEmail {
        id,
        from: from.to_string(),
        subject: subject.to_string(),
        body: String::new(),
        date: None,
    };
    let emails = vec![
        mail(7, "Ann <ann@example.com>", "Please subscribe me"),
        mail(8, "ann@example.com", "subscribe again"),
        mail(9, "bob@example.com", "Hello"),
        mail(10, "a@b", "subscribe"),
        mail(11, "Cy <CY@EXAMPLE.ORG>", "Newsletter signup"),
    ];
    let subs = fetcher.extract_subscriber_emails(&emails).unwrap();
    let got: Vec<(String, Option<String>)> =
        subs.iter().map(|s| (s.email.clone(), s.source_email_id.clone())).collect();
    assert_eq!(
        got,
        vec![
            ("ann@example.com".to_string(), Some("7".to_string())),
            ("cy@example.org".to_string(), Some("11".to_string())),
        ]
    );
    assert!(subs.iter().all(|s| s.status == SubscriberStatus::Pending));

    let bad = vec![mail(1, "nobody", "subscribe")];
    assert!(fetcher.extract_subscriber_emails(&bad).is_err());
}
