//! The Musashi theme.
use vstd::prelude::*;
use crate::config::SiteType;
use crate::themes::{option, schema_view, ConfigOption, ThemeInfo};
use crate::text::{lowercase, push_str, replace_all};

verus! {

/// The Musashi theme.
pub struct MusashiTheme;

/// The option schema of the theme, in order.
pub open spec fn musashi_schema() -> Seq<(Seq<char>, Seq<char>, Seq<char>, Seq<char>)> {
    seq![
        ("primary_color"@, "string"@, "#1a1a1a"@, "Primary color (ink black)"@),
        ("background_color"@, "string"@, "#faf9f7"@, "Background color (warm paper)"@),
        ("text_color"@, "string"@, "#2d2d2d"@, "Main text color (charcoal)"@),
        ("secondary_text_color"@, "string"@, "#6b6b6b"@, "Secondary text color (warm gray)"@),
        ("accent_color"@, "string"@, "#4a4a4a"@, "Accent color (slate)"@),
        ("font_family"@, "string"@, "'Noto Serif JP', 'Georgia', serif"@, "Font family with Japanese serif style"@),
        ("enable_animations"@, "boolean"@, "true"@, "Enable subtle zen-like animations"@),
        ("show_brush_strokes"@, "boolean"@, "true"@, "Show ink brush stroke decorative elements"@),
        ("zen_mode"@, "boolean"@, "false"@, "Ultra-minimalist mode with maximum whitespace"@),
    ]
}

/// The names of the theme's templates, the base template first.
pub open spec fn musashi_templates() -> Seq<Seq<char>> {
    seq!["base.html"@, "index.html"@]
}

impl MusashiTheme {
    pub fn new() -> (res: MusashiTheme) {
        MusashiTheme
    }

    /// What the theme is and which options it takes.
    pub fn info(&self) -> (res: ThemeInfo)
        ensures
            res.name@ == "Musashi"@,
            res.version@ == "1.0.0"@,
            res.author@ == "Blogr Team"@,
            res.description@ == "An elegant monochrome theme inspired by sumi-e ink wash painting. Soft whites, warm grays, and ink blacks. Peaceful, refined, embodying the warrior's disciplined way. Fully customizable from content.md."@,
            schema_view(res.config_schema@) == musashi_schema(),
            res.site_type == SiteType::Personal,
    {
        let mut schema: Vec<(String, ConfigOption)> = Vec::new();
        schema.push(option("primary_color", "string", "#1a1a1a", "Primary color (ink black)"));
        schema.push(option("background_color", "string", "#faf9f7", "Background color (warm paper)"));
        schema.push(option("text_color", "string", "#2d2d2d", "Main text color (charcoal)"));
        schema.push(option("secondary_text_color", "string", "#6b6b6b", "Secondary text color (warm gray)"));
        schema.push(option("accent_color", "string", "#4a4a4a", "Accent color (slate)"));
        schema.push(option("font_family", "string", "'Noto Serif JP', 'Georgia', serif", "Font family with Japanese serif style"));
        schema.push(option("enable_animations", "boolean", "true", "Enable subtle zen-like animations"));
        schema.push(option("show_brush_strokes", "boolean", "true", "Show ink brush stroke decorative elements"));
        schema.push(option("zen_mode", "boolean", "false", "Ultra-minimalist mode with maximum whitespace"));
        let res = ThemeInfo {
            name: "Musashi".to_owned(),
            version: "1.0.0".to_owned(),
            author: "Blogr Team".to_owned(),
            description: "An elegant monochrome theme inspired by sumi-e ink wash painting. Soft whites, warm grays, and ink blacks. Peaceful, refined, embodying the warrior's disciplined way. Fully customizable from content.md.".to_owned(),
            config_schema: schema,
            site_type: SiteType::Personal,
        };
        assert(schema_view(res.config_schema@) =~= musashi_schema());
        res
    }

    /// The names of the templates, the base template first.
    pub fn template_names(&self) -> (res: Vec<&'static str>)
        ensures
            res@.map_values(|s: &str| s@) == musashi_templates(),
    {
        let v: Vec<&'static str> = vec!["base.html", "index.html"];
        assert(v@.map_values(|s: &str| s@) =~= musashi_templates());
        v
    }

    /// Get example content.md for this theme: the front matter of a site
    /// for `author`, whose contact address uses the author's name
    /// lower-cased without spaces.
    pub fn example_content(author: &str) -> (res: String)
        ensures
            res@ == musashi_example(author@),
    {
        let handle = crate::themes::contact_handle_text(author);
        let mut s = String::new();
        push_str(&mut s, r##"---
title: ""##);
        push_str(&mut s, author);
        push_str(&mut s, r##""
description: "Developer, designer, and lifelong learner on the path of mastery"
author: ""##);
        push_str(&mut s, author);
        push_str(&mut s, r##""
theme: "musashi"
theme_config:
  enable_animations: true
  show_brush_strokes: true
  zen_mode: false
sections:
  about:
    title: "The Way"
    quote:
      text: "The way is in training. Become acquainted with every art."
      author: "Book of Five Rings"
    content: |
      <p>I walk the path of continuous improvement, where every day presents an opportunity
      to refine my craft. Like ink on paper, each experience leaves its mark, shaping who
      I am and what I create.</p>

      <p>My journey is guided by curiosity, discipline, and the pursuit of mastery.
      I believe in the power of focused work, thoughtful design, and code that speaks
      for itself.</p>
    principles:
      - "Discipline"
      - "Mastery"
      - "Simplicity"

  skills:
    title: "Expertise"
    items:
      - title: "Full-Stack Development"
        description: "Building robust applications with modern technologies and best practices"
        tags:
          - "Rust"
          - "TypeScript"
          - "React"
          - "Node.js"

      - title: "System Design"
        description: "Architecting scalable, maintainable systems that stand the test of time"
        tags:
          - "Microservices"
          - "APIs"
          - "Databases"
          - "Cloud"

      - title: "Product & Design"
        description: "Creating intuitive experiences that balance beauty with functionality"
        tags:
          - "UI/UX"
          - "Product Strategy"
          - "Design Systems"

  projects:
    title: "Selected Work"
    items:
      - title: "Zen Task Manager"
        status: "Live"
        description: "A minimalist task management system built with focus and flow in mind. Features a clean interface and powerful keyboard shortcuts."
        tech:
          - "React"
          - "TypeScript"
          - "Tailwind CSS"
        link: "https://github.com/yourusername/zen-tasks"

      - title: "Ink & Paper"
        status: "In Progress"
        description: "A note-taking application inspired by traditional pen and paper, bringing digital convenience to analog simplicity."
        tech:
          - "Rust"
          - "Tauri"
          - "SQLite"

      - title: "Haiku Compiler"
        status: "Complete"
        description: "An experimental programming language where every program reads like poetry. A meditation on code as art."
        tech:
          - "Rust"
          - "LLVM"
          - "Parser Combinators"

  contact:
    title: "Connect"
    text: "Interested in collaborating or just want to chat? I'm always open to interesting conversations and new opportunities."
    email: ""##);
        push_str(&mut s, handle.as_str());
        push_str(&mut s, r##"@example.com"
    social:
      github: "https://github.com/yourusername"
      twitter: "https://twitter.com/yourusername"
      linkedin: "https://linkedin.com/in/yourusername"
      blog: "https://yourblog.com"
---
"##);
        s
    }
}

/// The example content for `author`.
pub open spec fn musashi_example(author: Seq<char>) -> Seq<char> {
    r##"---
title: ""##@ + author + r##""
description: "Developer, designer, and lifelong learner on the path of mastery"
author: ""##@ + author + r##""
theme: "musashi"
theme_config:
  enable_animations: true
  show_brush_strokes: true
  zen_mode: false
sections:
  about:
    title: "The Way"
    quote:
      text: "The way is in training. Become acquainted with every art."
      author: "Book of Five Rings"
    content: |
      <p>I walk the path of continuous improvement, where every day presents an opportunity
      to refine my craft. Like ink on paper, each experience leaves its mark, shaping who
      I am and what I create.</p>

      <p>My journey is guided by curiosity, discipline, and the pursuit of mastery.
      I believe in the power of focused work, thoughtful design, and code that speaks
      for itself.</p>
    principles:
      - "Discipline"
      - "Mastery"
      - "Simplicity"

  skills:
    title: "Expertise"
    items:
      - title: "Full-Stack Development"
        description: "Building robust applications with modern technologies and best practices"
        tags:
          - "Rust"
          - "TypeScript"
          - "React"
          - "Node.js"

      - title: "System Design"
        description: "Architecting scalable, maintainable systems that stand the test of time"
        tags:
          - "Microservices"
          - "APIs"
          - "Databases"
          - "Cloud"

      - title: "Product & Design"
        description: "Creating intuitive experiences that balance beauty with functionality"
        tags:
          - "UI/UX"
          - "Product Strategy"
          - "Design Systems"

  projects:
    title: "Selected Work"
    items:
      - title: "Zen Task Manager"
        status: "Live"
        description: "A minimalist task management system built with focus and flow in mind. Features a clean interface and powerful keyboard shortcuts."
        tech:
          - "React"
          - "TypeScript"
          - "Tailwind CSS"
        link: "https://github.com/yourusername/zen-tasks"

      - title: "Ink & Paper"
        status: "In Progress"
        description: "A note-taking application inspired by traditional pen and paper, bringing digital convenience to analog simplicity."
        tech:
          - "Rust"
          - "Tauri"
          - "SQLite"

      - title: "Haiku Compiler"
        status: "Complete"
        description: "An experimental programming language where every program reads like poetry. A meditation on code as art."
        tech:
          - "Rust"
          - "LLVM"
          - "Parser Combinators"

  contact:
    title: "Connect"
    text: "Interested in collaborating or just want to chat? I'm always open to interesting conversations and new opportunities."
    email: ""##@ + crate::themes::contact_handle(author) + r##"@example.com"
    social:
      github: "https://github.com/yourusername"
      twitter: "https://twitter.com/yourusername"
      linkedin: "https://linkedin.com/in/yourusername"
      blog: "https://yourblog.com"
---
"##@
}

} // verus!
