//! The Minimal Retro theme.
use vstd::prelude::*;
use crate::config::SiteType;
use crate::themes::{option, schema_view, ConfigOption, ThemeInfo};
use crate::text::{lowercase, push_str, replace_all};

verus! {

/// The Minimal Retro theme.
pub struct MinimalRetroTheme;

/// The option schema of the theme, in order.
pub open spec fn minimal_retro_schema() -> Seq<(Seq<char>, Seq<char>, Seq<char>, Seq<char>)> {
    seq![
        ("primary_color"@, "string"@, "#FF6B35"@, "Primary accent color (retro orange)"@),
        ("secondary_color"@, "string"@, "#F7931E"@, "Secondary accent color (warm amber)"@),
        ("background_color"@, "string"@, "#2D1B0F"@, "Background color (dark brown)"@),
        ("font_family"@, "string"@, "'Crimson Text', 'Playfair Display', Georgia, serif"@, "Artistic serif font family"@),
        ("accent_font"@, "string"@, "'Space Mono', 'Courier Prime', monospace"@, "Monospace accent font for tags and metadata"@),
        ("show_reading_time"@, "boolean"@, "true"@, "Display estimated reading time"@),
        ("show_author"@, "boolean"@, "true"@, "Display post author"@),
        ("expandable_posts"@, "boolean"@, "true"@, "Enable expandable post previews on homepage"@),
    ]
}

/// The names of the theme's templates, the base template first.
pub open spec fn minimal_retro_templates() -> Seq<Seq<char>> {
    seq!["base.html"@, "index.html"@, "post.html"@, "archive.html"@, "tag.html"@, "tags.html"@]
}

impl MinimalRetroTheme {
    pub fn new() -> (res: MinimalRetroTheme) {
        MinimalRetroTheme
    }

    /// What the theme is and which options it takes.
    pub fn info(&self) -> (res: ThemeInfo)
        ensures
            res.name@ == "Minimal Retro"@,
            res.version@ == "2.0.0"@,
            res.author@ == "Blogr Team"@,
            res.description@ == "An artistic, minimal theme focused on content with expandable posts and beautiful typography"@,
            schema_view(res.config_schema@) == minimal_retro_schema(),
            res.site_type == SiteType::Blog,
    {
        let mut schema: Vec<(String, ConfigOption)> = Vec::new();
        schema.push(option("primary_color", "string", "#FF6B35", "Primary accent color (retro orange)"));
        schema.push(option("secondary_color", "string", "#F7931E", "Secondary accent color (warm amber)"));
        schema.push(option("background_color", "string", "#2D1B0F", "Background color (dark brown)"));
        schema.push(option("font_family", "string", "'Crimson Text', 'Playfair Display', Georgia, serif", "Artistic serif font family"));
        schema.push(option("accent_font", "string", "'Space Mono', 'Courier Prime', monospace", "Monospace accent font for tags and metadata"));
        schema.push(option("show_reading_time", "boolean", "true", "Display estimated reading time"));
        schema.push(option("show_author", "boolean", "true", "Display post author"));
        schema.push(option("expandable_posts", "boolean", "true", "Enable expandable post previews on homepage"));
        let res = ThemeInfo {
            name: "Minimal Retro".to_owned(),
            version: "2.0.0".to_owned(),
            author: "Blogr Team".to_owned(),
            description: "An artistic, minimal theme focused on content with expandable posts and beautiful typography".to_owned(),
            config_schema: schema,
            site_type: SiteType::Blog,
        };
        assert(schema_view(res.config_schema@) =~= minimal_retro_schema());
        res
    }

    /// The names of the templates, the base template first.
    pub fn template_names(&self) -> (res: Vec<&'static str>)
        ensures
            res@.map_values(|s: &str| s@) == minimal_retro_templates(),
    {
        let v: Vec<&'static str> = vec!["base.html", "index.html", "post.html", "archive.html", "tag.html", "tags.html"];
        assert(v@.map_values(|s: &str| s@) =~= minimal_retro_templates());
        v
    }
}

} // verus!
