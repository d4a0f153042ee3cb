//! The Obsidian theme.
use vstd::prelude::*;
use crate::config::SiteType;
use crate::themes::{option, schema_view, ConfigOption, ThemeInfo};
use crate::text::{lowercase, push_str, replace_all};

verus! {

/// The Obsidian theme.
pub struct ObsidianTheme;

/// The option schema of the theme, in order.
pub open spec fn obsidian_schema() -> Seq<(Seq<char>, Seq<char>, Seq<char>, Seq<char>)> {
    seq![
        ("obsidian_css"@, "string"@, "static/obsidian.css"@, "Path to Obsidian CSS (served from /static/)"@),
        ("color_mode"@, "string"@, "auto"@, "Dark/light mode handling (auto | dark | light)"@),
    ]
}

/// The names of the theme's templates, the base template first.
pub open spec fn obsidian_templates() -> Seq<Seq<char>> {
    seq!["base.html"@, "index.html"@, "post.html"@, "archive.html"@, "tag.html"@, "tags.html"@]
}

impl ObsidianTheme {
    pub fn new() -> (res: ObsidianTheme) {
        ObsidianTheme
    }

    /// What the theme is and which options it takes.
    pub fn info(&self) -> (res: ThemeInfo)
        ensures
            res.name@ == "Obsidian"@,
            res.version@ == "1.0.0"@,
            res.author@ == "Blogr Team"@,
            res.description@ == "Adopts Obsidian community themes to style Blogr content"@,
            schema_view(res.config_schema@) == obsidian_schema(),
            res.site_type == SiteType::Blog,
    {
        let mut schema: Vec<(String, ConfigOption)> = Vec::new();
        schema.push(option("obsidian_css", "string", "static/obsidian.css", "Path to Obsidian CSS (served from /static/)"));
        schema.push(option("color_mode", "string", "auto", "Dark/light mode handling (auto | dark | light)"));
        let res = ThemeInfo {
            name: "Obsidian".to_owned(),
            version: "1.0.0".to_owned(),
            author: "Blogr Team".to_owned(),
            description: "Adopts Obsidian community themes to style Blogr content".to_owned(),
            config_schema: schema,
            site_type: SiteType::Blog,
        };
        assert(schema_view(res.config_schema@) =~= obsidian_schema());
        res
    }

    /// The names of the templates, the base template first.
    pub fn template_names(&self) -> (res: Vec<&'static str>)
        ensures
            res@.map_values(|s: &str| s@) == obsidian_templates(),
    {
        let v: Vec<&'static str> = vec!["base.html", "index.html", "post.html", "archive.html", "tag.html", "tags.html"];
        assert(v@.map_values(|s: &str| s@) =~= obsidian_templates());
        v
    }
}

} // verus!
