//! The Slate Portfolio theme.
use vstd::prelude::*;
use crate::config::SiteType;
use crate::themes::{option, schema_view, ConfigOption, ThemeInfo};
use crate::text::{lowercase, push_str, replace_all};

verus! {

/// The Slate Portfolio theme.
pub struct SlatePortfolioTheme;

/// The option schema of the theme, in order.
pub open spec fn slate_portfolio_schema() -> Seq<(Seq<char>, Seq<char>, Seq<char>, Seq<char>)> {
    seq![
        ("accent_color"@, "string"@, "#10b981"@, "Accent color (emerald)"@),
        ("background_color"@, "string"@, "#0f172a"@, "Background color (slate 900)"@),
        ("card_background"@, "string"@, "#1e293b"@, "Card background color (slate 800)"@),
        ("text_color"@, "string"@, "#f1f5f9"@, "Main text color (slate 100)"@),
        ("secondary_text_color"@, "string"@, "#94a3b8"@, "Secondary text color (slate 400)"@),
        ("font_family"@, "string"@, "'IBM Plex Sans', -apple-system, BlinkMacSystemFont, 'Segoe UI', sans-serif"@, "Font family"@),
        ("show_avatar"@, "boolean"@, "false"@, "Show avatar image in About section"@),
        ("avatar_url"@, "string"@, ""@, "URL to avatar image"@),
        ("cta_text"@, "string"@, "View My Work"@, "Call-to-action button text"@),
    ]
}

/// The names of the theme's templates, the base template first.
pub open spec fn slate_portfolio_templates() -> Seq<Seq<char>> {
    seq!["base.html"@, "index.html"@]
}

impl SlatePortfolioTheme {
    pub fn new() -> (res: SlatePortfolioTheme) {
        SlatePortfolioTheme
    }

    /// What the theme is and which options it takes.
    pub fn info(&self) -> (res: ThemeInfo)
        ensures
            res.name@ == "Slate Portfolio"@,
            res.version@ == "1.0.0"@,
            res.author@ == "Blogr Team"@,
            res.description@ == "A sleek, modern dark portfolio theme with polished aesthetics and smooth interactions."@,
            schema_view(res.config_schema@) == slate_portfolio_schema(),
            res.site_type == SiteType::Personal,
    {
        let mut schema: Vec<(String, ConfigOption)> = Vec::new();
        schema.push(option("accent_color", "string", "#10b981", "Accent color (emerald)"));
        schema.push(option("background_color", "string", "#0f172a", "Background color (slate 900)"));
        schema.push(option("card_background", "string", "#1e293b", "Card background color (slate 800)"));
        schema.push(option("text_color", "string", "#f1f5f9", "Main text color (slate 100)"));
        schema.push(option("secondary_text_color", "string", "#94a3b8", "Secondary text color (slate 400)"));
        schema.push(option("font_family", "string", "'IBM Plex Sans', -apple-system, BlinkMacSystemFont, 'Segoe UI', sans-serif", "Font family"));
        schema.push(option("show_avatar", "boolean", "false", "Show avatar image in About section"));
        schema.push(option("avatar_url", "string", "", "URL to avatar image"));
        schema.push(option("cta_text", "string", "View My Work", "Call-to-action button text"));
        let res = ThemeInfo {
            name: "Slate Portfolio".to_owned(),
            version: "1.0.0".to_owned(),
            author: "Blogr Team".to_owned(),
            description: "A sleek, modern dark portfolio theme with polished aesthetics and smooth interactions.".to_owned(),
            config_schema: schema,
            site_type: SiteType::Personal,
        };
        assert(schema_view(res.config_schema@) =~= slate_portfolio_schema());
        res
    }

    /// The names of the templates, the base template first.
    pub fn template_names(&self) -> (res: Vec<&'static str>)
        ensures
            res@.map_values(|s: &str| s@) == slate_portfolio_templates(),
    {
        let v: Vec<&'static str> = vec!["base.html", "index.html"];
        assert(v@.map_values(|s: &str| s@) =~= slate_portfolio_templates());
        v
    }

    /// Get example content.md for this theme: the front matter of a site
    /// for `author`, whose contact address uses the author's name
    /// lower-cased without spaces.
    pub fn example_content(author: &str) -> (res: String)
        ensures
            res@ == slate_portfolio_example(author@),
    {
        let handle = crate::themes::contact_handle_text(author);
        let mut s = String::new();
        push_str(&mut s, r##"---
title: ""##);
        push_str(&mut s, author);
        push_str(&mut s, r##""
description: "Creative developer & design engineer"
author: ""##);
        push_str(&mut s, author);
        push_str(&mut s, r##""
theme: "slate-portfolio"
theme_config:
  accent_color: "#10b981"
  show_avatar: false
  cta_text: "View My Work"
sections:
  about:
    title: "About"
    content: |
      <p>I'm a creative developer and design engineer who builds thoughtful,
      user-centered digital experiences. I specialize in transforming complex
      ideas into elegant, accessible interfaces.</p>

      <p>With a focus on clean code and beautiful design, I craft solutions
      that are both functional and delightful to use.</p>

  projects:
    title: "Selected Work"
    items:
      - title: "Quantum Dashboard"
        description: "A real-time analytics platform with beautiful data visualizations and seamless UX. Built for scale and performance."
        link: "https://github.com/yourusername/quantum"

      - title: "Neural Studio"
        description: "AI-powered creative tools that help designers and developers work faster and smarter."
        link: "https://github.com/yourusername/neural-studio"

      - title: "Flux Design System"
        description: "A comprehensive component library and design system powering modern web applications."
        link: "https://github.com/yourusername/flux"

      - title: "Prism Editor"
        description: "Next-generation code editor with AI assistance and collaborative features."
        link: "https://github.com/yourusername/prism"

  contact:
    title: "Let's Connect"
    text: "I'm currently available for freelance projects and full-time opportunities. Let's build something amazing together."
    email: ""##);
        push_str(&mut s, handle.as_str());
        push_str(&mut s, r##"@example.com"
    social:
      github: "https://github.com/yourusername"
      twitter: "https://twitter.com/yourusername"
      linkedin: "https://linkedin.com/in/yourusername"
      blog: "https://yourblog.com"
---
"##);
        s
    }
}

/// The example content for `author`.
pub open spec fn slate_portfolio_example(author: Seq<char>) -> Seq<char> {
    r##"---
title: ""##@ + author + r##""
description: "Creative developer & design engineer"
author: ""##@ + author + r##""
theme: "slate-portfolio"
theme_config:
  accent_color: "#10b981"
  show_avatar: false
  cta_text: "View My Work"
sections:
  about:
    title: "About"
    content: |
      <p>I'm a creative developer and design engineer who builds thoughtful,
      user-centered digital experiences. I specialize in transforming complex
      ideas into elegant, accessible interfaces.</p>

      <p>With a focus on clean code and beautiful design, I craft solutions
      that are both functional and delightful to use.</p>

  projects:
    title: "Selected Work"
    items:
      - title: "Quantum Dashboard"
        description: "A real-time analytics platform with beautiful data visualizations and seamless UX. Built for scale and performance."
        link: "https://github.com/yourusername/quantum"

      - title: "Neural Studio"
        description: "AI-powered creative tools that help designers and developers work faster and smarter."
        link: "https://github.com/yourusername/neural-studio"

      - title: "Flux Design System"
        description: "A comprehensive component library and design system powering modern web applications."
        link: "https://github.com/yourusername/flux"

      - title: "Prism Editor"
        description: "Next-generation code editor with AI assistance and collaborative features."
        link: "https://github.com/yourusername/prism"

  contact:
    title: "Let's Connect"
    text: "I'm currently available for freelance projects and full-time opportunities. Let's build something amazing together."
    email: ""##@ + crate::themes::contact_handle(author) + r##"@example.com"
    social:
      github: "https://github.com/yourusername"
      twitter: "https://twitter.com/yourusername"
      linkedin: "https://linkedin.com/in/yourusername"
      blog: "https://yourblog.com"
---
"##@
}

} // verus!
