//! The Terminal Candy theme.
use vstd::prelude::*;
use crate::config::SiteType;
use crate::themes::{option, schema_view, ConfigOption, ThemeInfo};
use crate::text::{lowercase, push_str, replace_all};

verus! {

/// The Terminal Candy theme.
pub struct TerminalCandyTheme;

/// The option schema of the theme, in order.
pub open spec fn terminal_candy_schema() -> Seq<(Seq<char>, Seq<char>, Seq<char>, Seq<char>)> {
    seq![
        ("primary_color"@, "string"@, "#FFB3D9"@, "Primary accent color (pastel pink)"@),
        ("secondary_color"@, "string"@, "#B4F8C8"@, "Secondary accent color (mint green)"@),
        ("tertiary_color"@, "string"@, "#C7CEEA"@, "Tertiary accent color (lavender)"@),
        ("background_color"@, "string"@, "#0D1117"@, "Background color (dark terminal)"@),
        ("text_color"@, "string"@, "#E6EDF3"@, "Main text color (light)"@),
        ("font_family"@, "string"@, "'JetBrains Mono', 'Fira Code', 'Consolas', monospace"@, "Monospace font family"@),
        ("enable_glitch"@, "boolean"@, "true"@, "Enable glitch effects on hover"@),
        ("enable_typewriter"@, "boolean"@, "true"@, "Enable typewriter animation for bio/description"@),
        ("show_ascii_art"@, "boolean"@, "true"@, "Show ASCII art decorations"@),
    ]
}

/// The names of the theme's templates, the base template first.
pub open spec fn terminal_candy_templates() -> Seq<Seq<char>> {
    seq!["base.html"@, "index.html"@, "post.html"@, "archive.html"@, "tag.html"@, "tags.html"@]
}

impl TerminalCandyTheme {
    pub fn new() -> (res: TerminalCandyTheme) {
        TerminalCandyTheme
    }

    /// What the theme is and which options it takes.
    pub fn info(&self) -> (res: ThemeInfo)
        ensures
            res.name@ == "Terminal Candy"@,
            res.version@ == "1.0.0"@,
            res.author@ == "Blogr Team"@,
            res.description@ == "A quirky terminal-inspired theme with pastel colors, glitch effects, and playful animations. Perfect for personal websites."@,
            schema_view(res.config_schema@) == terminal_candy_schema(),
            res.site_type == SiteType::Blog,
    {
        let mut schema: Vec<(String, ConfigOption)> = Vec::new();
        schema.push(option("primary_color", "string", "#FFB3D9", "Primary accent color (pastel pink)"));
        schema.push(option("secondary_color", "string", "#B4F8C8", "Secondary accent color (mint green)"));
        schema.push(option("tertiary_color", "string", "#C7CEEA", "Tertiary accent color (lavender)"));
        schema.push(option("background_color", "string", "#0D1117", "Background color (dark terminal)"));
        schema.push(option("text_color", "string", "#E6EDF3", "Main text color (light)"));
        schema.push(option("font_family", "string", "'JetBrains Mono', 'Fira Code', 'Consolas', monospace", "Monospace font family"));
        schema.push(option("enable_glitch", "boolean", "true", "Enable glitch effects on hover"));
        schema.push(option("enable_typewriter", "boolean", "true", "Enable typewriter animation for bio/description"));
        schema.push(option("show_ascii_art", "boolean", "true", "Show ASCII art decorations"));
        let res = ThemeInfo {
            name: "Terminal Candy".to_owned(),
            version: "1.0.0".to_owned(),
            author: "Blogr Team".to_owned(),
            description: "A quirky terminal-inspired theme with pastel colors, glitch effects, and playful animations. Perfect for personal websites.".to_owned(),
            config_schema: schema,
            site_type: SiteType::Blog,
        };
        assert(schema_view(res.config_schema@) =~= terminal_candy_schema());
        res
    }

    /// The names of the templates, the base template first.
    pub fn template_names(&self) -> (res: Vec<&'static str>)
        ensures
            res@.map_values(|s: &str| s@) == terminal_candy_templates(),
    {
        let v: Vec<&'static str> = vec!["base.html", "index.html", "post.html", "archive.html", "tag.html", "tags.html"];
        assert(v@.map_values(|s: &str| s@) =~= terminal_candy_templates());
        v
    }
}

} // verus!
