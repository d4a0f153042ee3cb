//! The Dark Minimal theme.
use vstd::prelude::*;
use crate::config::SiteType;
use crate::themes::{option, schema_view, ConfigOption, ThemeInfo};
use crate::text::{lowercase, push_str, replace_all};

verus! {

/// The Dark Minimal theme.
pub struct DarkMinimalTheme;

/// The option schema of the theme, in order.
pub open spec fn dark_minimal_schema() -> Seq<(Seq<char>, Seq<char>, Seq<char>, Seq<char>)> {
    seq![
        ("primary_color"@, "string"@, "#00ff88"@, "Primary accent color (neon green)"@),
        ("background_color"@, "string"@, "#0a0a0a"@, "Background color (pure dark)"@),
        ("text_color"@, "string"@, "#e0e0e0"@, "Main text color (soft white)"@),
        ("secondary_text_color"@, "string"@, "#888888"@, "Secondary text color (gray)"@),
        ("font_family"@, "string"@, "'Inter', -apple-system, BlinkMacSystemFont, 'Segoe UI', Roboto, sans-serif"@, "Font family"@),
        ("enable_animations"@, "boolean"@, "true"@, "Enable smooth animations"@),
        ("show_social_icons"@, "boolean"@, "true"@, "Show social media icons"@),
        ("show_status_bar"@, "boolean"@, "true"@, "Show availability status bar"@),
        ("status_text"@, "string"@, "Available for opportunities"@, "Custom text for status bar"@),
        ("status_color"@, "string"@, "#00ff88"@, "Status dot color (hex code)"@),
    ]
}

/// The names of the theme's templates, the base template first.
pub open spec fn dark_minimal_templates() -> Seq<Seq<char>> {
    seq!["base.html"@, "index.html"@]
}

impl DarkMinimalTheme {
    pub fn new() -> (res: DarkMinimalTheme) {
        DarkMinimalTheme
    }

    /// What the theme is and which options it takes.
    pub fn info(&self) -> (res: ThemeInfo)
        ensures
            res.name@ == "Dark Minimal"@,
            res.version@ == "1.0.0"@,
            res.author@ == "Blogr Team"@,
            res.description@ == "A dark, minimal theme for personal websites with quirky interactions and clean aesthetics."@,
            schema_view(res.config_schema@) == dark_minimal_schema(),
            res.site_type == SiteType::Personal,
    {
        let mut schema: Vec<(String, ConfigOption)> = Vec::new();
        schema.push(option("primary_color", "string", "#00ff88", "Primary accent color (neon green)"));
        schema.push(option("background_color", "string", "#0a0a0a", "Background color (pure dark)"));
        schema.push(option("text_color", "string", "#e0e0e0", "Main text color (soft white)"));
        schema.push(option("secondary_text_color", "string", "#888888", "Secondary text color (gray)"));
        schema.push(option("font_family", "string", "'Inter', -apple-system, BlinkMacSystemFont, 'Segoe UI', Roboto, sans-serif", "Font family"));
        schema.push(option("enable_animations", "boolean", "true", "Enable smooth animations"));
        schema.push(option("show_social_icons", "boolean", "true", "Show social media icons"));
        schema.push(option("show_status_bar", "boolean", "true", "Show availability status bar"));
        schema.push(option("status_text", "string", "Available for opportunities", "Custom text for status bar"));
        schema.push(option("status_color", "string", "#00ff88", "Status dot color (hex code)"));
        let res = ThemeInfo {
            name: "Dark Minimal".to_owned(),
            version: "1.0.0".to_owned(),
            author: "Blogr Team".to_owned(),
            description: "A dark, minimal theme for personal websites with quirky interactions and clean aesthetics.".to_owned(),
            config_schema: schema,
            site_type: SiteType::Personal,
        };
        assert(schema_view(res.config_schema@) =~= dark_minimal_schema());
        res
    }

    /// The names of the templates, the base template first.
    pub fn template_names(&self) -> (res: Vec<&'static str>)
        ensures
            res@.map_values(|s: &str| s@) == dark_minimal_templates(),
    {
        let v: Vec<&'static str> = vec!["base.html", "index.html"];
        assert(v@.map_values(|s: &str| s@) =~= dark_minimal_templates());
        v
    }

    /// Get example content.md for this theme: the front matter of a site
    /// for `author`, whose contact address uses the author's name
    /// lower-cased without spaces.
    pub fn example_content(author: &str) -> (res: String)
        ensures
            res@ == dark_minimal_example(author@),
    {
        let handle = crate::themes::contact_handle_text(author);
        let mut s = String::new();
        push_str(&mut s, r##"---
title: ""##);
        push_str(&mut s, author);
        push_str(&mut s, r##""
description: "Creative technologist & digital craftsperson"
author: ""##);
        push_str(&mut s, author);
        push_str(&mut s, r##""
theme: "dark-minimal"
theme_config:
  enable_animations: true
  show_social_icons: true
  show_status_bar: true
  status_text: "Available for opportunities"
  status_color: "#00ff88"
sections:
  about:
    title: "About Me"
    content: |
      <p>I'm "##);
        push_str(&mut s, author);
        push_str(&mut s, r##", a creative technologist passionate about building
      elegant solutions to complex problems. I love experimenting with new
      technologies and bringing ideas to life.</p>

      <p>My work sits at the intersection of design and engineering, where beautiful
      interfaces meet robust, scalable systems.</p>
    principles:
      - "Craft"
      - "Innovation"
      - "Impact"

  skills:
    title: "Skills & Expertise"
    items:
      - title: "Development"
        description: "Building scalable applications with modern tech stacks"
        tags:
          - "JavaScript"
          - "TypeScript"
          - "Python"
          - "Rust"

      - title: "Design"
        description: "Creating beautiful, user-friendly interfaces"
        tags:
          - "UI/UX"
          - "Design Systems"
          - "Figma"
          - "CSS"

      - title: "Innovation"
        description: "Pushing boundaries and exploring new possibilities"
        tags:
          - "AI/ML"
          - "Web3"
          - "DevOps"
          - "Cloud"

  projects:
    title: "Featured Work"
    items:
      - title: "Project Alpha"
        status: "Live"
        description: "A modern web application that solves real problems with elegant design and powerful features."
        tech:
          - "React"
          - "Node.js"
          - "PostgreSQL"
        link: "https://github.com/yourusername/project-alpha"

      - title: "Project Beta"
        status: "In Development"
        description: "An experimental tool pushing the boundaries of what's possible on the web."
        tech:
          - "Rust"
          - "WebAssembly"
          - "Three.js"

  contact:
    title: "Get In Touch"
    text: "I'm always open to new opportunities and collaborations. Feel free to reach out if you'd like to work together!"
    email: ""##);
        push_str(&mut s, handle.as_str());
        push_str(&mut s, r##"@example.com"
    social:
      github: "https://github.com/yourusername"
      twitter: "https://twitter.com/yourusername"
      linkedin: "https://linkedin.com/in/yourusername"
      blog: "https://yourblog.com"
---
"##);
        s
    }
}

/// The example content for `author`.
pub open spec fn dark_minimal_example(author: Seq<char>) -> Seq<char> {
    r##"---
title: ""##@ + author + r##""
description: "Creative technologist & digital craftsperson"
author: ""##@ + author + r##""
theme: "dark-minimal"
theme_config:
  enable_animations: true
  show_social_icons: true
  show_status_bar: true
  status_text: "Available for opportunities"
  status_color: "#00ff88"
sections:
  about:
    title: "About Me"
    content: |
      <p>I'm "##@ + author + r##", a creative technologist passionate about building
      elegant solutions to complex problems. I love experimenting with new
      technologies and bringing ideas to life.</p>

      <p>My work sits at the intersection of design and engineering, where beautiful
      interfaces meet robust, scalable systems.</p>
    principles:
      - "Craft"
      - "Innovation"
      - "Impact"

  skills:
    title: "Skills & Expertise"
    items:
      - title: "Development"
        description: "Building scalable applications with modern tech stacks"
        tags:
          - "JavaScript"
          - "TypeScript"
          - "Python"
          - "Rust"

      - title: "Design"
        description: "Creating beautiful, user-friendly interfaces"
        tags:
          - "UI/UX"
          - "Design Systems"
          - "Figma"
          - "CSS"

      - title: "Innovation"
        description: "Pushing boundaries and exploring new possibilities"
        tags:
          - "AI/ML"
          - "Web3"
          - "DevOps"
          - "Cloud"

  projects:
    title: "Featured Work"
    items:
      - title: "Project Alpha"
        status: "Live"
        description: "A modern web application that solves real problems with elegant design and powerful features."
        tech:
          - "React"
          - "Node.js"
          - "PostgreSQL"
        link: "https://github.com/yourusername/project-alpha"

      - title: "Project Beta"
        status: "In Development"
        description: "An experimental tool pushing the boundaries of what's possible on the web."
        tech:
          - "Rust"
          - "WebAssembly"
          - "Three.js"

  contact:
    title: "Get In Touch"
    text: "I'm always open to new opportunities and collaborations. Feel free to reach out if you'd like to work together!"
    email: ""##@ + crate::themes::contact_handle(author) + r##"@example.com"
    social:
      github: "https://github.com/yourusername"
      twitter: "https://twitter.com/yourusername"
      linkedin: "https://linkedin.com/in/yourusername"
      blog: "https://yourblog.com"
---
"##@
}

} // verus!
