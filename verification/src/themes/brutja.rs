//! The Brutja theme.
use vstd::prelude::*;
use crate::config::SiteType;
use crate::themes::{option, schema_view, ConfigOption, ThemeInfo};
use crate::text::{lowercase, push_str, replace_all};

verus! {

/// The Brutja theme. It is not among the bundled themes: the registry
/// holds the seven documented ones.
pub struct BrutjaTheme;

/// The option schema of the theme, in order.
pub open spec fn brutja_schema() -> Seq<(Seq<char>, Seq<char>, Seq<char>, Seq<char>)> {
    seq![
        ("css"@, "string"@, "static/styles.css"@, "Path to user CSS (served from /static/)"@),
        ("hero_title"@, "string"@, "Welcome"@, "Homepage hero title"@),
        ("hero_subtitle"@, "string"@, "Customize your theme"@, "Homepage hero subtitle"@),
        ("github_username"@, "string"@, ""@, "Your github username"@),
        ("linkedin_username"@, "string"@, ""@, "The last segment of your linkedin profile URL. Do not include slashes."@),
    ]
}

/// The names of the theme's templates, the base template first.
pub open spec fn brutja_templates() -> Seq<Seq<char>> {
    seq!["base.html"@, "post_card.html"@, "index.html"@, "post.html"@, "archive.html"@, "tag.html"@, "tags.html"@]
}

impl BrutjaTheme {
    pub fn new() -> (res: BrutjaTheme) {
        BrutjaTheme
    }

    /// What the theme is and which options it takes.
    pub fn info(&self) -> (res: ThemeInfo)
        ensures
            res.name@ == "Brutja"@,
            res.version@ == "1.0.0"@,
            res.author@ == "Benjamin Corey"@,
            res.description@ == "Brutalist, minimal theme with pops of color."@,
            schema_view(res.config_schema@) == brutja_schema(),
            res.site_type == SiteType::Blog,
    {
        let mut schema: Vec<(String, ConfigOption)> = Vec::new();
        schema.push(option("css", "string", "static/styles.css", "Path to user CSS (served from /static/)"));
        schema.push(option("hero_title", "string", "Welcome", "Homepage hero title"));
        schema.push(option("hero_subtitle", "string", "Customize your theme", "Homepage hero subtitle"));
        schema.push(option("github_username", "string", "", "Your github username"));
        schema.push(option("linkedin_username", "string", "", "The last segment of your linkedin profile URL. Do not include slashes."));
        let res = ThemeInfo {
            name: "Brutja".to_owned(),
            version: "1.0.0".to_owned(),
            author: "Benjamin Corey".to_owned(),
            description: "Brutalist, minimal theme with pops of color.".to_owned(),
            config_schema: schema,
            site_type: SiteType::Blog,
        };
        assert(schema_view(res.config_schema@) =~= brutja_schema());
        res
    }

    /// The names of the templates, the base template first.
    pub fn template_names(&self) -> (res: Vec<&'static str>)
        ensures
            res@.map_values(|s: &str| s@) == brutja_templates(),
    {
        let v: Vec<&'static str> = vec!["base.html", "post_card.html", "index.html", "post.html", "archive.html", "tag.html", "tags.html"];
        assert(v@.map_values(|s: &str| s@) =~= brutja_templates());
        v
    }
}

} // verus!
