use blogr::newsletter::database::SubscriberStatus;
use blogr::newsletter::migration::{
    json_field_text, parse_json_subscribers, read_json_export, subscribers_from_json, JsonExport, JsonField,
    extract_subscriber_from_fields, get_field_value, import_subscriber, map_subscriber_status,
    parse_csv_line, parse_csv_text, parse_date, MigrationConfig, MigrationError, MigrationSource,
};

#[test]
fn source_names() {
    assert_eq!(MigrationSource::from_str("Mailchimp").unwrap(), MigrationSource::Mailchimp);
    assert_eq!(MigrationSource::from_str("CSV").unwrap(), MigrationSource::Generic);
    assert_eq!(MigrationSource::from_str("json").unwrap(), MigrationSource::Json);
    match MigrationSource::from_str("aweber") {
        Err(MigrationError::UnsupportedSource(s)) => assert_eq!(s, "aweber"),
        other => panic!("unexpected {:?}", other),
    }
    let err = MigrationSource::from_str("AWeber").unwrap_err();
    assert_eq!(err.message(), "Unsupported migration source: AWeber");
    assert_eq!(MigrationError::MissingEmail.message(), "Email field is required");
    assert_eq!(
        MigrationError::InvalidEmail("nobody".to_string()).message(),
        "Invalid email format: nobody"
    );
    assert_eq!(
        MigrationSource::all_sources(),
        vec!["mailchimp", "convertkit", "substack", "beehiiv", "generic", "json"]
    );
}

#[test]
fn default_configs() {
    let c = MigrationConfig::for_source(MigrationSource::Mailchimp, "list.csv".to_string());
    assert_eq!(c.email_column.as_deref(), Some("Email Address"));
    assert_eq!(c.name_column.as_deref(), Some("FNAME"));
    assert_eq!(c.tags_column.as_deref(), Some("Tags"));
    assert!(c.skip_header);
    assert_eq!(c.delimiter, ',');
    let s = MigrationConfig::for_source(MigrationSource::Substack, "s.csv".to_string());
    assert_eq!(s.tags_column, None);
    let j = MigrationConfig::for_source(MigrationSource::Json, "j.json".to_string());
    assert!(!j.skip_header);
    let g = MigrationConfig::for_source(MigrationSource::Generic, "g.csv".to_string());
    assert_eq!(g.status_column, None);
    assert_eq!(g.date_column, None);
}

#[test]
fn csv_line_parsing() {
    let fields = parse_csv_line("test@example.com,John Doe,subscribed", ',');
    assert_eq!(fields, vec!["test@example.com", "John Doe", "subscribed"]);

    let fields = parse_csv_line(r#""test@example.com","John, Doe","subscribed""#, ',');
    assert_eq!(fields, vec!["test@example.com", "John, Doe", "subscribed"]);

    let fields = parse_csv_line(r#"a,"say ""hi""",  c  ,"#, ',');
    assert_eq!(fields, vec!["a", "say \"hi\"", "c", ""]);
}

#[test]
fn date_parsing() {
    let t = parse_date("2023-12-01 10:30:00").unwrap();
    assert_eq!(t.secs, 1_701_426_600);
    assert_eq!(parse_date("2023-12-01T10:30:00Z").unwrap().secs, 1_701_426_600);
    assert_eq!(parse_date("2023-12-01").unwrap().secs, 1_701_388_800);
    assert_eq!(parse_date("12/01/2023").unwrap().secs, 1_701_388_800);
    assert!(parse_date("yesterday").is_none());
}

#[test]
fn status_mapping() {
    let m = MigrationSource::Mailchimp;
    assert_eq!(map_subscriber_status(&Some("subscribed".to_string()), m), SubscriberStatus::Approved);
    assert_eq!(map_subscriber_status(&Some("Unsubscribed".to_string()), m), SubscriberStatus::Declined);
    assert_eq!(map_subscriber_status(&Some("cleaned".to_string()), m), SubscriberStatus::Declined);
    assert_eq!(map_subscriber_status(&Some("active".to_string()), m), SubscriberStatus::Pending);
    let g = MigrationSource::Generic;
    assert_eq!(map_subscriber_status(&Some("approved".to_string()), g), SubscriberStatus::Approved);
    assert_eq!(map_subscriber_status(&None, g), SubscriberStatus::Pending);
}

fn pairs(v: &[(&str, &str)]) -> Vec<(String, String)> {
    v.iter().map(|(a, b)| (a.to_string(), b.to_string())).collect()
}

#[test]
fn field_lookup_fallbacks() {
    let fields = pairs(&[("Email Address", ""), ("EMAIL", "x@y.z"), ("email", "")]);
    let primary = Some("Email Address".to_string());
    assert_eq!(get_field_value(&fields, &primary, "email"), Some("x@y.z".to_string()));
    let fields = pairs(&[("name", "Ann")]);
    assert_eq!(get_field_value(&fields, &None, "name"), Some("Ann".to_string()));
    assert_eq!(get_field_value(&fields, &None, "tags"), None);
}

#[test]
fn subscriber_from_fields() {
    let config = MigrationConfig::for_source(MigrationSource::ConvertKit, "f.csv".to_string());
    let fields = pairs(&[
        ("email", "ann@example.com"),
        ("first_name", "Ann"),
        ("state", "active"),
        ("created_at", "2023-12-01"),
        ("tags", " a, ,b "),
        ("city", "Oslo"),
        ("empty", ""),
    ]);
    let imp = extract_subscriber_from_fields(&fields, &config).unwrap();
    assert_eq!(imp.email, "ann@example.com");
    assert_eq!(imp.name.as_deref(), Some("Ann"));
    assert_eq!(imp.status.as_deref(), Some("active"));
    assert_eq!(imp.subscribed_at.unwrap().secs, 1_701_388_800);
    assert_eq!(imp.tags, vec!["a", "b"]);
    assert_eq!(imp.custom_fields, pairs(&[("city", "Oslo")]));

    let sub = import_subscriber(&imp, MigrationSource::ConvertKit);
    assert_eq!(sub.status, SubscriberStatus::Approved);
    assert_eq!(sub.approved_at, Some(sub.subscribed_at));
    assert_eq!(sub.source_email_id.as_deref(), Some("migration-ConvertKit"));
    assert_eq!(
        sub.notes.as_deref(),
        Some("Migrated from ConvertKit | Tags: a, b | Custom fields: {\"city\": \"Oslo\"}")
    );

    let missing = pairs(&[("name", "Bob")]);
    assert!(matches!(
        extract_subscriber_from_fields(&missing, &config),
        Err(MigrationError::MissingEmail)
    ));
    let invalid = pairs(&[("email", "bob")]);
    match extract_subscriber_from_fields(&invalid, &config) {
        Err(MigrationError::InvalidEmail(e)) => assert_eq!(e, "bob"),
        _ => panic!("expected invalid email"),
    }
}

#[test]
fn csv_export_import() {
    let config = MigrationConfig::for_source(MigrationSource::Generic, "g.csv".to_string());
    let text = "email,name\r\nann@example.com,Ann\n\n   \nnot-an-email,X\n\"bob@example.com\",\"Bob, Jr\"\n";
    let r = parse_csv_text(text, &config);
    let emails: Vec<&str> = r.subscribers.iter().map(|s| s.email.as_str()).collect();
    assert_eq!(emails, vec!["ann@example.com", "bob@example.com"]);
    assert_eq!(r.subscribers[1].name.as_deref(), Some("Bob, Jr"));
    let lines: Vec<usize> = r.warnings.iter().map(|w| w.0).collect();
    assert_eq!(lines, vec![4]);

    let mut no_header = config;
    no_header.skip_header = false;
    let r = parse_csv_text("x,ann@example.com", &no_header);
    assert_eq!(r.subscribers.len(), 0);
}

#[test]
fn json_export_import() {
    let config = MigrationConfig::for_source(MigrationSource::Json, "subs.json".to_string());
    let text = r#"[
        {"email": "ann@example.com", "name": "Ann", "tags": ["a", 1, "b"], "vip": true, "score": 4.5},
        {"name": "no email"},
        "not an object",
        {"email": "bob@example.com", "notes": null}
    ]"#;
    let subs = parse_json_subscribers(text, &config).unwrap();
    assert_eq!(subs.len(), 2);
    assert_eq!(subs[0].email, "ann@example.com");
    assert_eq!(subs[0].name.as_deref(), Some("Ann"));
    assert_eq!(subs[0].tags, vec!["a", "b"]);
    assert_eq!(subs[0].custom_fields, pairs(&[("score", "4.5"), ("vip", "true")]));
    assert_eq!(subs[1].email, "bob@example.com");

    let one = parse_json_subscribers(r#"{"email": "cy@example.com", "age": 30}"#, &config).unwrap();
    assert_eq!(one.len(), 1);
    assert_eq!(one[0].custom_fields, pairs(&[("age", "30")]));

    match parse_json_subscribers(r#"{"email": "nobody"}"#, &config) {
        Err(MigrationError::InvalidEmail(e)) => assert_eq!(e, "nobody"),
        _ => panic!("expected invalid email"),
    }
    assert!(matches!(parse_json_subscribers(r#"{"name": "x"}"#, &config), Err(MigrationError::MissingEmail)));
    let shape = parse_json_subscribers("42", &config).unwrap_err();
    assert!(matches!(shape, MigrationError::NotSubscriberJson));
    assert_eq!(shape.message(), "JSON must be an object or array of objects");
    let bad = parse_json_subscribers("{not json", &config).unwrap_err();
    assert!(matches!(bad, MigrationError::InvalidJson));
    assert_eq!(bad.message(), "Invalid JSON format");
}

#[test]
fn json_values_as_field_text() {
    assert_eq!(json_field_text(&JsonField::Str("x".to_string())).as_deref(), Some("x"));
    assert_eq!(json_field_text(&JsonField::Num("12".to_string())).as_deref(), Some("12"));
    assert_eq!(json_field_text(&JsonField::Bool(false)).as_deref(), Some("false"));
    assert_eq!(
        json_field_text(&JsonField::List(vec![Some("a".to_string()), None, Some("c".to_string())])).as_deref(),
        Some("a,c")
    );
    assert_eq!(json_field_text(&JsonField::List(vec![])).as_deref(), Some(""));
    assert_eq!(json_field_text(&JsonField::Other), None);

    match read_json_export("[1, {\"k\": [\"v\"]}]") {
        Some(JsonExport::List(items)) => {
            assert!(items[0].is_none());
            let m = items[1].as_ref().unwrap();
            assert_eq!(m[0].0, "k");
            assert!(matches!(&m[0].1, JsonField::List(l) if l == &vec![Some("v".to_string())]));
        }
        _ => panic!("expected a list"),
    }
    assert!(matches!(read_json_export("true"), Some(JsonExport::Other)));
    assert!(read_json_export("").is_none());

    let e = JsonExport::List(vec![
        Some(vec![("email".to_string(), JsonField::Str("d@example.com".to_string()))]),
        None,
    ]);
    let subs = subscribers_from_json(&e, &MigrationConfig::for_source(MigrationSource::Json, "x".to_string())).unwrap();
    assert_eq!(subs.len(), 1);
    assert_eq!(subs[0].email, "d@example.com");
}
