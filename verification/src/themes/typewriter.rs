//! The Typewriter theme.
use vstd::prelude::*;
use crate::config::SiteType;
use crate::themes::{option, schema_view, ConfigOption, ThemeInfo};
use crate::text::{lowercase, push_str, replace_all};

verus! {

/// The Typewriter theme.
pub struct TypewriterTheme;

/// The option schema of the theme, in order.
pub open spec fn typewriter_schema() -> Seq<(Seq<char>, Seq<char>, Seq<char>, Seq<char>)> {
    seq![
        ("paper_color"@, "string"@, "#f4f1e8"@, "Paper background color (vintage cream)"@),
        ("ink_color"@, "string"@, "#2b2b2b"@, "Text/ink color (dark charcoal)"@),
        ("accent_color"@, "string"@, "#8b4513"@, "Accent color (vintage brown)"@),
        ("font_family"@, "string"@, "'Courier Prime', 'Courier New', monospace"@, "Typewriter-style font family"@),
        ("show_paper_texture"@, "boolean"@, "true"@, "Show subtle paper texture overlay"@),
        ("typing_animation"@, "boolean"@, "true"@, "Enable typewriter typing animation for title"@),
        ("show_date_stamp"@, "boolean"@, "true"@, "Show vintage date stamp in header"@),
        ("cursor_blink"@, "boolean"@, "true"@, "Show blinking cursor effect"@),
    ]
}

/// The names of the theme's templates, the base template first.
pub open spec fn typewriter_templates() -> Seq<Seq<char>> {
    seq!["base.html"@, "index.html"@]
}

impl TypewriterTheme {
    pub fn new() -> (res: TypewriterTheme) {
        TypewriterTheme
    }

    /// What the theme is and which options it takes.
    pub fn info(&self) -> (res: ThemeInfo)
        ensures
            res.name@ == "Typewriter"@,
            res.version@ == "1.0.0"@,
            res.author@ == "Blogr Team"@,
            res.description@ == "A vintage typewriter-inspired theme with nostalgic aesthetics and mechanical charm."@,
            schema_view(res.config_schema@) == typewriter_schema(),
            res.site_type == SiteType::Personal,
    {
        let mut schema: Vec<(String, ConfigOption)> = Vec::new();
        schema.push(option("paper_color", "string", "#f4f1e8", "Paper background color (vintage cream)"));
        schema.push(option("ink_color", "string", "#2b2b2b", "Text/ink color (dark charcoal)"));
        schema.push(option("accent_color", "string", "#8b4513", "Accent color (vintage brown)"));
        schema.push(option("font_family", "string", "'Courier Prime', 'Courier New', monospace", "Typewriter-style font family"));
        schema.push(option("show_paper_texture", "boolean", "true", "Show subtle paper texture overlay"));
        schema.push(option("typing_animation", "boolean", "true", "Enable typewriter typing animation for title"));
        schema.push(option("show_date_stamp", "boolean", "true", "Show vintage date stamp in header"));
        schema.push(option("cursor_blink", "boolean", "true", "Show blinking cursor effect"));
        let res = ThemeInfo {
            name: "Typewriter".to_owned(),
            version: "1.0.0".to_owned(),
            author: "Blogr Team".to_owned(),
            description: "A vintage typewriter-inspired theme with nostalgic aesthetics and mechanical charm.".to_owned(),
            config_schema: schema,
            site_type: SiteType::Personal,
        };
        assert(schema_view(res.config_schema@) =~= typewriter_schema());
        res
    }

    /// The names of the templates, the base template first.
    pub fn template_names(&self) -> (res: Vec<&'static str>)
        ensures
            res@.map_values(|s: &str| s@) == typewriter_templates(),
    {
        let v: Vec<&'static str> = vec!["base.html", "index.html"];
        assert(v@.map_values(|s: &str| s@) =~= typewriter_templates());
        v
    }

    /// Get example content.md for this theme: the front matter of a site
    /// for `author`, whose contact address uses the author's name
    /// lower-cased without spaces.
    pub fn example_content(author: &str) -> (res: String)
        ensures
            res@ == typewriter_example(author@),
    {
        let handle = crate::themes::contact_handle_text(author);
        let mut s = String::new();
        push_str(&mut s, r##"---
title: ""##);
        push_str(&mut s, author);
        push_str(&mut s, r##""
description: "Writer, thinker, creator"
author: ""##);
        push_str(&mut s, author);
        push_str(&mut s, r##""
theme: "typewriter"
theme_config:
  show_paper_texture: true
  typing_animation: true
  show_date_stamp: true
  cursor_blink: true
sections:
  about:
    title: "About Me"
    content: |
      <p>Hello, I'm "##);
        push_str(&mut s, author);
        push_str(&mut s, r##". I craft words and ideas with the same care
      a typewriter demands—deliberate, thoughtful, and permanent.</p>

      <p>My work explores the intersection of technology and humanity,
      seeking to understand how we can build a better future while
      honoring the wisdom of the past.</p>
    tagline: "One keystroke at a time"

  writing:
    title: "Writing & Work"
    items:
      - title: "Essays & Articles"
        description: "Long-form explorations of technology, philosophy, and the human condition"
        note: "Published in various outlets"

      - title: "Technical Documentation"
        description: "Clear, concise guides for complex systems"
        note: "Open source contributions"

      - title: "Personal Reflections"
        description: "Thoughts on craft, creativity, and the daily practice of making"
        note: "Updated regularly"

  skills:
    title: "Tools & Techniques"
    items:
      - "Writing & Editing"
      - "Technical Communication"
      - "Research & Analysis"
      - "Content Strategy"
      - "Documentation"
      - "Storytelling"

  projects:
    title: "Selected Works"
    items:
      - title: "The Art of Code"
        year: "2024"
        description: "A collection of essays on programming as a creative practice"
        link: "https://github.com/yourusername/art-of-code"

      - title: "Digital Minimalism Guide"
        year: "2023"
        description: "A practical handbook for intentional technology use"

      - title: "Open Source Contributions"
        year: "Ongoing"
        description: "Documentation and community building for various projects"

  contact:
    title: "Get In Touch"
    text: "I'm always interested in meaningful conversations and collaborations. Drop me a line if you'd like to connect."
    email: ""##);
        push_str(&mut s, handle.as_str());
        push_str(&mut s, r##"@example.com"
    social:
      github: "https://github.com/yourusername"
      twitter: "https://twitter.com/yourusername"
      linkedin: "https://linkedin.com/in/yourusername"
      blog: "https://yourblog.com"
---
"##);
        s
    }
}

/// The example content for `author`.
pub open spec fn typewriter_example(author: Seq<char>) -> Seq<char> {
    r##"---
title: ""##@ + author + r##""
description: "Writer, thinker, creator"
author: ""##@ + author + r##""
theme: "typewriter"
theme_config:
  show_paper_texture: true
  typing_animation: true
  show_date_stamp: true
  cursor_blink: true
sections:
  about:
    title: "About Me"
    content: |
      <p>Hello, I'm "##@ + author + r##". I craft words and ideas with the same care
      a typewriter demands—deliberate, thoughtful, and permanent.</p>

      <p>My work explores the intersection of technology and humanity,
      seeking to understand how we can build a better future while
      honoring the wisdom of the past.</p>
    tagline: "One keystroke at a time"

  writing:
    title: "Writing & Work"
    items:
      - title: "Essays & Articles"
        description: "Long-form explorations of technology, philosophy, and the human condition"
        note: "Published in various outlets"

      - title: "Technical Documentation"
        description: "Clear, concise guides for complex systems"
        note: "Open source contributions"

      - title: "Personal Reflections"
        description: "Thoughts on craft, creativity, and the daily practice of making"
        note: "Updated regularly"

  skills:
    title: "Tools & Techniques"
    items:
      - "Writing & Editing"
      - "Technical Communication"
      - "Research & Analysis"
      - "Content Strategy"
      - "Documentation"
      - "Storytelling"

  projects:
    title: "Selected Works"
    items:
      - title: "The Art of Code"
        year: "2024"
        description: "A collection of essays on programming as a creative practice"
        link: "https://github.com/yourusername/art-of-code"

      - title: "Digital Minimalism Guide"
        year: "2023"
        description: "A practical handbook for intentional technology use"

      - title: "Open Source Contributions"
        year: "Ongoing"
        description: "Documentation and community building for various projects"

  contact:
    title: "Get In Touch"
    text: "I'm always interested in meaningful conversations and collaborations. Drop me a line if you'd like to connect."
    email: ""##@ + crate::themes::contact_handle(author) + r##"@example.com"
    social:
      github: "https://github.com/yourusername"
      twitter: "https://twitter.com/yourusername"
      linkedin: "https://linkedin.com/in/yourusername"
      blog: "https://yourblog.com"
---
"##@
}

} // verus!
