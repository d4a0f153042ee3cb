use blogr::commands::config::{get_value, parse_key, set_value, ConfigKey, KeyError};
use blogr::commands::theme::{apply_theme, color_lines, is_active, mismatch_message, site_type_name, theme_not_found};
use blogr::config::{Config, DeploymentType, DomainConfig, SiteType, TomlValue};
use blogr::themes::{get_all_themes, get_theme, get_theme_by_name, Theme, ThemeTemplates};

#[test]
fn test_config_validation() {
    let mut config = Config::default();
    assert!(config.validate().is_ok());

    config.blog.title = "".to_string();
    assert!(config.validate().is_err());
}

#[test]
fn test_newsletter_validation() {
    let mut config = Config::default();

    // Default newsletter config should be valid
    assert!(config.validate().is_ok());

    // Enabled newsletter without subscribe_email should fail
    config.newsletter.enabled = true;
    assert!(config.validate().is_err());

    // Invalid email format should fail
    config.newsletter.subscribe_email = Some("invalid-email".to_string());
    assert!(config.validate().is_err());

    // Valid email should pass
    config.newsletter.subscribe_email = Some("newsletter@example.com".to_string());
    assert!(config.validate().is_ok());
}

#[test]
fn config_keys_parse_by_dotted_path() {
    assert_eq!(parse_key("blog.title"), Some(ConfigKey::BlogTitle));
    assert_eq!(parse_key("theme.name"), Some(ConfigKey::ThemeName));
    assert_eq!(parse_key("domains.enforce_https"), Some(ConfigKey::DomainsEnforceHttps));
    assert_eq!(parse_key("blog"), None);
    assert_eq!(parse_key("blog.title.extra"), None);
    assert_eq!(parse_key("Blog.Title"), None);
}

#[test]
fn config_get_shows_values_and_defaults() {
    let config = Config::default();
    assert_eq!(get_value(&config, "blog.title").unwrap(), "My Blog");
    assert_eq!(get_value(&config, "blog.language").unwrap(), "en");
    assert_eq!(get_value(&config, "theme.name").unwrap(), "minimal-retro");
    assert_eq!(get_value(&config, "domains.primary").unwrap(), "Not set");
    assert_eq!(get_value(&config, "domains.enforce_https").unwrap(), "true (default)");
    let err = get_value(&config, "nope.key").unwrap_err();
    assert_eq!(err.message(), "Unknown configuration key: nope.key");
}

#[test]
fn config_set_then_get_round_trips() {
    let mut config = Config::default();
    assert!(set_value(&mut config, "blog.author", "Ada".to_string()).is_ok());
    assert_eq!(get_value(&config, "blog.author").unwrap(), "Ada");
    assert!(set_value(&mut config, "blog.timezone", "Europe/Paris".to_string()).is_ok());
    assert_eq!(get_value(&config, "blog.timezone").unwrap(), "Europe/Paris");
    // other keys keep their values
    assert_eq!(get_value(&config, "blog.title").unwrap(), "My Blog");
}

#[test]
fn config_set_refuses_domain_keys() {
    let mut config = Config::default();
    let err = set_value(&mut config, "domains.primary", "example.com".to_string()).unwrap_err();
    assert_eq!(err, KeyError::Unsupported("domains.primary".to_string()));
    assert_eq!(err.message(), "Unknown or unsupported configuration key: domains.primary");
    assert_eq!(get_value(&config, "domains.primary").unwrap(), "Not set");
}

#[test]
fn theme_registry_lookups() {
    assert_eq!(get_theme("musashi"), Some(Theme::Musashi));
    assert_eq!(get_theme_by_name("brutja"), None);
    assert_eq!(get_theme("Musashi"), None);
    let all = get_all_themes();
    assert_eq!(all.len(), 7);
    assert_eq!(all[0].0, "minimal-retro");
    for (name, theme) in &all {
        assert_eq!(get_theme(name), Some(*theme));
    }
    let names: Vec<&str> = all.iter().map(|(n, _)| n.as_str()).collect();
    assert_eq!(
        names,
        vec!["minimal-retro", "obsidian", "terminal-candy", "dark-minimal", "musashi", "slate-portfolio", "typewriter"]
    );
}

#[test]
fn theme_info_follows_the_registry() {
    let info = Theme::Musashi.info();
    assert_eq!(info.name, "Musashi");
    assert_eq!(info.site_type, SiteType::Personal);
    assert_eq!(Theme::MinimalRetro.info().site_type, SiteType::Blog);
    assert_eq!(Theme::Musashi.template_names()[0], "base.html");
}

#[test]
fn apply_theme_keeps_existing_options_and_adds_defaults() {
    let mut config = Config::default();
    config.set_theme_config("primary_color".to_string(), TomlValue::String("#000000".to_string()));
    let schema = Theme::Musashi.info().config_schema;
    apply_theme(&mut config, "musashi".to_string(), &schema);
    assert_eq!(config.theme.name, "musashi");
    // the option already set stays first and unchanged
    assert_eq!(config.theme.config[0].0, "primary_color");
    assert_eq!(config.theme.config[0].1, TomlValue::String("#000000".to_string()));
    // every schema option is present once
    assert_eq!(config.theme.config.len(), schema.len());
    let zen = config.theme.config.iter().find(|(k, _)| k == "zen_mode").unwrap();
    assert_eq!(zen.1, TomlValue::Boolean(false));
    let bg = config.theme.config.iter().find(|(k, _)| k == "background_color").unwrap();
    assert_eq!(bg.1, TomlValue::String("#faf9f7".to_string()));
}

#[test]
fn theme_texts() {
    assert_eq!(site_type_name(SiteType::Blog), "blog");
    assert_eq!(
        theme_not_found("nope"),
        "Theme 'nope' not found. Run 'blogr theme list' to see available themes."
    );
    let msg = mismatch_message("musashi", SiteType::Personal, SiteType::Blog);
    assert!(msg.starts_with("❌ Theme 'musashi' is a personal theme, but your site is configured as a blog site."));
    assert!(msg.contains("Blog themes: minimal-retro, obsidian, terminal-candy\n"));
    assert!(msg.contains("Personal themes: dark-minimal, musashi, slate-portfolio, typewriter"));
    assert!(msg.ends_with("[site] site_type = \"personal\""));
    assert!(is_active(&Some("musashi".to_string()), "musashi"));
    assert!(!is_active(&None, "musashi"));
}

#[test]
fn preview_lists_color_options() {
    let schema = Theme::Musashi.info().config_schema;
    let lines = color_lines(&schema);
    assert_eq!(lines[0], "  • primary color: #1a1a1a");
    assert_eq!(lines[3], "  • secondary text color: #6b6b6b");
    assert_eq!(lines.len(), 5);
}

#[test]
fn custom_domain_decides_deployment() {
    let mut config = Config::default();
    config.blog.domains = Some(DomainConfig {
        primary: Some("blog.example.com".to_string()),
        aliases: Vec::new(),
        subdomain: None,
        enforce_https: true,
        github_pages_domain: None,
    });
    assert_eq!(config.get_effective_base_url(), "https://blog.example.com");
    assert_eq!(config.get_deployment_type(), DeploymentType::CustomDomain);
}

#[test]
fn templates_keep_call_order() {
    let t = ThemeTemplates::new("base.html", "<base>")
        .with_template("post.html", "<post>")
        .with_template("index.html", "<index>")
        .with_template("post.html", "<again>");
    assert_eq!(
        t.into_templates(),
        vec![
            ("base.html", "<base>"),
            ("post.html", "<post>"),
            ("index.html", "<index>"),
            ("post.html", "<again>"),
        ]
    );
}

#[test]
fn theme_options_are_named_once() {
    for (_, theme) in get_all_themes() {
        let schema = theme.info().config_schema;
        let mut names: Vec<&str> = schema.iter().map(|(k, _)| k.as_str()).collect();
        let n = names.len();
        names.sort();
        names.dedup();
        assert_eq!(names.len(), n);
    }
}
