use blogr::config::{Config, TomlValue};
use blogr::content::{Post, PostMetadata, PostStatus};
use blogr::time::Timestamp;
use blogr::tui::app::{App, AppCommand, AppKey, AppMode};
use blogr::tui::config_app::{
    parse_bool, parse_u16, ConfigApp, ConfigAppCommand, ConfigAppKey, ConfigField, ConfigMode,
    ConfigSection, HighLevelConfigList, ListItem, NumberError,
};
use blogr::tui::editor::{Editor, EditorKey, SpanKind};
use blogr::tui::markdown::{MarkdownRenderer, StyleRole};
use blogr::tui::preview::{Preview, PreviewKey};
use blogr::tui::theme::{ThemeColor, TuiTheme};

fn sample_post(content: &str) -> Post {
    Post {
        metadata: PostMetadata {
            title: "T".to_string(),
            date: Timestamp { secs: 0, nanos: 0 },
            author: "A".to_string(),
            description: String::new(),
            tags: Vec::new(),
            status: PostStatus::Draft,
            slug: "t".to_string(),
            featured: false,
        },
        content: content.to_string(),
        file_path: "t.md".to_string(),
    }
}

#[test]
fn editor_typing_and_deleting() {
    let mut e = Editor::new("ab".to_string());
    assert_eq!(e.cursor(), (0, 0));
    assert!(e.handle_key_event(EditorKey::Char('x'), false));
    assert_eq!(e.get_content(), "xab");
    assert_eq!(e.cursor(), (0, 1));
    assert!(e.handle_key_event(EditorKey::Enter, false));
    assert_eq!(e.get_content(), "x\nab");
    assert_eq!(e.cursor(), (1, 0));
    assert!(e.handle_key_event(EditorKey::Backspace, false));
    assert_eq!(e.get_content(), "xab");
    assert_eq!(e.cursor(), (0, 1));
    assert!(!e.handle_key_event(EditorKey::Right, false));
    assert!(e.handle_key_event(EditorKey::Delete, false));
    assert_eq!(e.get_content(), "xa");
}

#[test]
fn editor_ctrl_keys() {
    let mut e = Editor::new("one two\nthree".to_string());
    assert!(e.handle_key_event(EditorKey::Char('k'), true));
    assert_eq!(e.get_content(), "three");
    assert_eq!(e.line_count(), 1);
}

#[test]
fn editor_highlights_markdown() {
    let e = Editor::new(String::new());
    let spans = e.highlight_line("# Title");
    assert_eq!(spans.len(), 1);
    assert_eq!(spans[0].kind, SpanKind::Header);
    let spans = e.highlight_line("a `b` c");
    let got: Vec<(String, SpanKind)> = spans.into_iter().map(|s| (s.text, s.kind)).collect();
    assert_eq!(
        got,
        vec![
            ("a ".to_string(), SpanKind::Text),
            ("`b".to_string(), SpanKind::Text),
            ("`".to_string(), SpanKind::Code),
            (" c".to_string(), SpanKind::Text),
        ]
    );
}

#[test]
fn markdown_renderer_styles_headings() {
    let r = MarkdownRenderer::new();
    let lines = r.render_markdown("# Hello\n\nText");
    assert!(lines.iter().flatten().any(|s| s.role == StyleRole::H1 && s.text.contains("Hello")));
    assert!(lines.iter().flatten().any(|s| s.text.contains("Text")));
}

#[test]
fn preview_scrolls_within_content() {
    let mut p = Preview::new();
    p.update_content("a\n\nb\n\nc\n\nd".to_string());
    let total = p.total_lines();
    assert!(total >= 4);
    p.handle_key_event(PreviewKey::End);
    assert_eq!(p.scroll_position(), total - 1);
    p.handle_key_event(PreviewKey::Down);
    assert_eq!(p.scroll_position(), total - 1);
    p.handle_key_event(PreviewKey::Home);
    assert_eq!(p.scroll_position(), 0);
    p.handle_key_event(PreviewKey::Up);
    assert_eq!(p.scroll_position(), 0);
}

#[test]
fn app_modes_and_saving() {
    let mut app = App::new(sample_post("hi"));
    assert_eq!(app.mode, AppMode::Normal);
    assert_eq!(app.handle_key_event(AppKey::Editor(EditorKey::Char('i')), false), AppCommand::Nothing);
    assert_eq!(app.mode, AppMode::Insert);
    app.handle_key_event(AppKey::Editor(EditorKey::Char('!')), false);
    assert!(app.modified);
    app.handle_key_event(AppKey::Esc, false);
    assert_eq!(app.mode, AppMode::Normal);
    assert_eq!(app.handle_key_event(AppKey::Editor(EditorKey::Char('s')), false), AppCommand::Save);
    assert_eq!(app.post.content, "!hi");
}

#[test]
fn parse_bool_and_port_like_std() {
    assert_eq!(parse_bool("true"), Some(true));
    assert_eq!(parse_bool("false"), Some(false));
    assert_eq!(parse_bool("True"), None);
    assert_eq!(parse_u16("8080"), Ok(8080));
    assert_eq!(parse_u16("+80"), Ok(80));
    assert_eq!(parse_u16("65535"), Ok(65535));
    assert_eq!(parse_u16("65536"), Err(NumberError::TooLarge));
    assert_eq!(parse_u16(""), Err(NumberError::Empty));
    assert_eq!(parse_u16("+"), Err(NumberError::InvalidDigit));
    assert_eq!(parse_u16("8o"), Err(NumberError::InvalidDigit));
    // the same answers as the standard library
    for s in ["8080", "+80", "65535", "65536", "", "+", "8o", "-1", "007"] {
        assert_eq!(parse_u16(s).ok(), s.parse::<u16>().ok(), "{}", s);
    }
    for s in ["true", "false", "TRUE", "", "yes"] {
        assert_eq!(parse_bool(s), s.parse::<bool>().ok(), "{}", s);
    }
}

#[test]
fn config_fields_show_and_set_values() {
    let mut config = Config::default();
    assert_eq!(ConfigField::DevPort.get_value(&config), "3000");
    assert_eq!(ConfigField::BuildOutputDir.get_value(&config), "dist");
    assert!(ConfigField::DevPort.set(&mut config, "8080".to_string()).is_ok());
    assert_eq!(config.dev.port, 8080);
    let err = ConfigField::DevPort.set(&mut config, "x".to_string()).unwrap_err();
    assert_eq!(err, "invalid digit found in string");
    assert_eq!(config.dev.port, 8080);
    let err = ConfigField::BuildDrafts.set(&mut config, "yes".to_string()).unwrap_err();
    assert_eq!(err, "provided string was not `true` or `false`");
    assert!(ConfigField::BlogLanguage.set(&mut config, String::new()).is_ok());
    assert_eq!(config.blog.language, None);
    assert!(ConfigField::DomainPrimary.set(&mut config, "example.com".to_string()).is_ok());
    let d = config.blog.domains.as_ref().unwrap();
    assert_eq!(d.primary.as_deref(), Some("example.com"));
    assert_eq!(d.github_pages_domain.as_deref(), Some("example.com"));
    assert!(d.enforce_https);
    assert!(ConfigField::DevPort.is_numeric());
    assert!(ConfigField::DevAutoReload.is_boolean());
    assert_eq!(ConfigField::BlogBaseUrl.label(), "Base URL");
}

#[test]
fn title_field_writes_the_author() {
    let mut config = Config::default();
    assert!(ConfigField::BlogTitle.set(&mut config, "New".to_string()).is_ok());
    assert_eq!(config.blog.author, "New");
    assert_eq!(config.blog.title, "My Blog");
}

#[test]
fn field_list_layout() {
    let mut config = Config::default();
    config.set_theme_config("accent".to_string(), TomlValue::Boolean(true));
    let list = HighLevelConfigList::new(&config);
    assert!(matches!(list.items[0], ListItem::BlankLine));
    assert!(matches!(list.items[1], ListItem::Section(ConfigSection::Blog)));
    assert!(matches!(list.items[2], ListItem::Field(ConfigField::BlogTitle)));
    assert!(matches!(list.items[10], ListItem::Field(ConfigField::ThemeName)));
    match &list.items[11] {
        ListItem::Field(f) => {
            assert_eq!(f.label(), "accent");
            assert!(f.is_boolean());
            assert_eq!(f.get_value(&config), "true");
        }
        _ => panic!("expected the theme option"),
    }
    assert_eq!(list.index_of_title(), 2);
    assert_eq!(list.next(2).map(|(i, _)| i), Some(3));
    assert_eq!(list.next(7).map(|(i, _)| i), Some(10));
    assert_eq!(list.prev(10).map(|(i, _)| i), Some(7));
    assert!(list.prev(2).is_none());
    assert_eq!(ConfigSection::Domain.label(), "Domain Settings");
}

#[test]
fn config_app_browse_edit_and_save() {
    let mut app = ConfigApp::new(Config::default());
    assert_eq!(app.mode, ConfigMode::Browse);
    assert_eq!(app.config_index, 2);
    app.handle_key_event(ConfigAppKey::Up);
    assert_eq!(app.config_index, 2);
    app.handle_key_event(ConfigAppKey::Down);
    assert_eq!(app.config_index, 3);
    assert_eq!(app.handle_key_event(ConfigAppKey::Enter), ConfigAppCommand::Nothing);
    assert_eq!(app.mode, ConfigMode::Edit);
    assert_eq!(app.edit_buffer, "Anonymous");
    assert_eq!(app.status_message, "Editing Blog Author: Press Enter to save, Esc to cancel");
    for _ in 0.."Anonymous".len() {
        app.handle_key_event(ConfigAppKey::Backspace);
    }
    for c in " Ada ".chars() {
        app.handle_key_event(ConfigAppKey::Char(c));
    }
    assert_eq!(app.handle_key_event(ConfigAppKey::Enter), ConfigAppCommand::Save);
    assert_eq!(app.mode, ConfigMode::Browse);
    assert_eq!(app.config.blog.author, "Ada");
    assert_eq!(app.get_status(), "Configuration saved successfully!");
}

#[test]
fn config_app_cancel_discard_and_refuse() {
    let mut app = ConfigApp::new(Config::default());
    app.handle_key_event(ConfigAppKey::Enter);
    app.handle_key_event(ConfigAppKey::Esc);
    assert_eq!(app.mode, ConfigMode::Browse);
    assert_eq!(app.status_message, "Edit cancelled");
    // blank text is discarded
    app.handle_key_event(ConfigAppKey::Enter);
    for _ in 0.."Anonymous".len() {
        app.handle_key_event(ConfigAppKey::Backspace);
    }
    app.handle_key_event(ConfigAppKey::Char(' '));
    assert_eq!(app.handle_key_event(ConfigAppKey::Enter), ConfigAppCommand::Nothing);
    assert_eq!(app.status_message, "Edit discarded");
    // a refused value keeps the edit open
    let mut app = ConfigApp::new(Config::default());
    while !matches!(app.selected_field, ConfigField::DevPort) {
        app.handle_key_event(ConfigAppKey::Down);
    }
    app.handle_key_event(ConfigAppKey::Enter);
    app.handle_key_event(ConfigAppKey::Char('x'));
    assert_eq!(app.handle_key_event(ConfigAppKey::Enter), ConfigAppCommand::Nothing);
    assert_eq!(app.mode, ConfigMode::Edit);
    assert_eq!(app.status_message, "invalid digit found in string");
    assert_eq!(app.config.dev.port, 3000);
}

#[test]
fn config_app_help_quit_and_theme_table() {
    let mut app = ConfigApp::new(Config::default());
    app.handle_key_event(ConfigAppKey::F(1));
    assert_eq!(app.mode, ConfigMode::Help);
    app.handle_key_event(ConfigAppKey::Char('x'));
    assert_eq!(app.mode, ConfigMode::Help);
    app.handle_key_event(ConfigAppKey::Char('h'));
    assert_eq!(app.mode, ConfigMode::Browse);
    while !matches!(app.selected_field, ConfigField::ThemeName) {
        app.handle_key_event(ConfigAppKey::Down);
    }
    app.handle_key_event(ConfigAppKey::Enter);
    assert_eq!(app.mode, ConfigMode::EditTheme);
    assert_eq!(app.options.len(), 7);
    assert_eq!(app.row_index, 0);
    app.handle_key_event(ConfigAppKey::Up);
    assert_eq!(app.row_index, 0);
    app.handle_key_event(ConfigAppKey::Down);
    assert_eq!(app.row_index, 1);
    assert_eq!(app.handle_key_event(ConfigAppKey::Enter), ConfigAppCommand::Save);
    assert_eq!(app.config.theme.name, "Obsidian");
    assert_eq!(app.mode, ConfigMode::Browse);
    app.handle_key_event(ConfigAppKey::Char('q'));
    assert!(app.is_stopped());
    assert_eq!(app.get_status(), "Shutting down");
}

#[test]
fn theme_colors_read_hex() {
    assert_eq!(TuiTheme::parse_color("#FF6B35"), Some(ThemeColor::Rgb(255, 107, 53)));
    assert_eq!(TuiTheme::parse_color("#00ff7f"), Some(ThemeColor::Rgb(0, 255, 127)));
    assert_eq!(TuiTheme::parse_color("#+f+f+f"), Some(ThemeColor::Rgb(15, 15, 15)));
    assert_eq!(TuiTheme::parse_color("FF6B35"), None);
    assert_eq!(TuiTheme::parse_color("#FF6B3"), None);
    assert_eq!(TuiTheme::parse_color("#FF6B355"), None);
    assert_eq!(TuiTheme::parse_color("#GG6B35"), None);
    assert_eq!(TuiTheme::parse_color(""), None);
}

#[test]
fn theme_from_blog_colors_with_fallbacks() {
    let t = TuiTheme::from_blog_theme("#102030", "oops", "#zzzzzz");
    assert_eq!(t.primary_color, ThemeColor::Rgb(16, 32, 48));
    assert_eq!(t.secondary_color, ThemeColor::Cyan);
    assert_eq!(t.background_color, ThemeColor::Black);
    assert_eq!(t.text_color, ThemeColor::White);
    assert_eq!(t.border_color, ThemeColor::Gray);
    assert_eq!(t.focused_border_color, ThemeColor::Rgb(16, 32, 48));
    assert_eq!(t.cursor_color(), ThemeColor::White);
    let d = TuiTheme::from_blog_theme("", "", "");
    assert_eq!(d.primary_color, ThemeColor::Blue);
    assert_eq!(d.focused_border_color, ThemeColor::Blue);
}

#[test]
fn theme_defaults_and_mode_colors() {
    let t = TuiTheme::minimal_retro();
    assert_eq!(t.primary_color, ThemeColor::Rgb(255, 107, 53));
    assert_eq!(t.cursor_color(), ThemeColor::Rgb(247, 147, 30));
    assert_eq!(t.border_color, ThemeColor::DarkGray);
    assert_eq!(t.mode_color(AppMode::Normal), ThemeColor::Blue);
    assert_eq!(t.mode_color(AppMode::Insert), ThemeColor::Green);
    assert_eq!(t.mode_color(AppMode::Preview), ThemeColor::Magenta);
    assert_eq!(t.mode_color(AppMode::Help), ThemeColor::Yellow);
}

#[test]
fn theme_option_fields_show_and_take_toml_values() {
    let mut config = Config::default();
    config.set_theme_config("accent".to_string(), TomlValue::Boolean(true));
    config.set_theme_config("width".to_string(), TomlValue::Integer(-42));
    config.set_theme_config("ratio".to_string(), TomlValue::Other("0.5".to_string()));
    config.set_theme_config("font".to_string(), TomlValue::String("serif".to_string()));
    let fields = ConfigSection::Theme.get_section(&config);
    assert_eq!(fields.len(), 5);
    assert_eq!(fields[1].get_value(&config), "true");
    assert!(fields[1].is_boolean());
    assert_eq!(fields[2].get_value(&config), "-42");
    assert!(fields[2].is_numeric());
    assert_eq!(fields[3].get_value(&config), "0.5");
    assert_eq!(fields[4].get_value(&config), "serif");
    assert!(!fields[4].is_boolean() && !fields[4].is_numeric());

    assert!(fields[2].set(&mut config, "7".to_string()).is_ok());
    assert_eq!(config.get_theme_config("width"), Some(&TomlValue::Integer(7)));
    let before = config.theme.config.clone();
    assert!(fields[2].set(&mut config, "not a value".to_string()).is_err());
    assert_eq!(config.theme.config, before);
    assert!(fields[1].set(&mut config, "false".to_string()).is_ok());
    assert_eq!(config.get_theme_config("accent"), Some(&TomlValue::Boolean(false)));
    assert!(fields[3].set(&mut config, "[1, 2]".to_string()).is_ok());
    assert_eq!(config.get_theme_config("ratio"), Some(&TomlValue::Other("[1, 2]".to_string())));
    assert!(fields[3].set(&mut config, "\"quoted\"".to_string()).is_ok());
    assert_eq!(config.get_theme_config("ratio"), Some(&TomlValue::String("quoted".to_string())));
    // a string option takes the typed text as it is
    assert!(fields[4].set(&mut config, "not a value".to_string()).is_ok());
    assert_eq!(config.get_theme_config("font"), Some(&TomlValue::String("not a value".to_string())));
    // options keep their places
    let names: Vec<&str> = config.theme.config.iter().map(|(k, _)| k.as_str()).collect();
    assert_eq!(names, vec!["accent", "width", "ratio", "font"]);
}
