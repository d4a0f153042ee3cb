//! A blog project on disk: what a new project holds, how its statistics
//! are counted and what its validation reports. The file system is reached
//! outside the library, which decides from what was found.
use vstd::prelude::*;
use crate::config::{config_error_message, config_problem, Config, SiteType};
use crate::text::{chars_of, contains_str, occurs, push_str, replace_all, replace_str, str_eq, string_of, trim, trim_vec, words, words_vec};
use crate::themes::dark_minimal::{dark_minimal_example, DarkMinimalTheme};
use crate::themes::musashi::{musashi_example, MusashiTheme};

verus! {

/// Counts over a project's posts and static files.
pub struct ProjectStats {
    pub total_posts: usize,
    pub published_posts: usize,
    pub draft_posts: usize,
    pub total_words: usize,
    pub static_files: usize,
}

impl Default for ProjectStats {
    fn default() -> (res: ProjectStats)
        ensures
            res.total_posts == 0,
            res.published_posts == 0,
            res.draft_posts == 0,
            res.total_words == 0,
            res.static_files == 0,
    {
        ProjectStats { total_posts: 0, published_posts: 0, draft_posts: 0, total_words: 0, static_files: 0 }
    }
}

/// A post file counts as a draft when its text says so.
pub open spec fn is_draft_text(content: Seq<char>) -> bool {
    occurs(content, "status: draft"@) || occurs(content, "draft: true"@)
}

/// Whether a file extension marks a post.
pub open spec fn is_post_extension(ext: Seq<char>) -> bool {
    ext == "md"@ || ext == "markdown"@
}

impl ProjectStats {
    /// Whether a file with this extension is a post.
    pub fn is_post_file(ext: &str) -> (res: bool)
        ensures
            res == is_post_extension(ext@),
    {
        str_eq(ext, "md") || str_eq(ext, "markdown")
    }

    /// Counts a post file; when its text could be read it counts as draft
    /// or published and its words are added.
    pub fn record_post(&mut self, content: Option<&str>)
        requires
            old(self).total_posts < usize::MAX,
            old(self).draft_posts < usize::MAX,
            old(self).published_posts < usize::MAX,
            match content {
                Some(c) => old(self).total_words + words(c@).len() <= usize::MAX,
                None => true,
            },
        ensures
            final(self).total_posts == old(self).total_posts + 1,
            final(self).static_files == old(self).static_files,
            match content {
                Some(c) => {
                    &&& final(self).total_words == old(self).total_words + words(c@).len()
                    &&& if is_draft_text(c@) {
                        final(self).draft_posts == old(self).draft_posts + 1
                            && final(self).published_posts == old(self).published_posts
                    } else {
                        final(self).published_posts == old(self).published_posts + 1
                            && final(self).draft_posts == old(self).draft_posts
                    }
                },
                None => {
                    &&& final(self).total_words == old(self).total_words
                    &&& final(self).draft_posts == old(self).draft_posts
                    &&& final(self).published_posts == old(self).published_posts
                },
            },
    {
        self.total_posts = self.total_posts + 1;
        if let Some(c) = content {
            let v = chars_of(c);
            if contains_str(&v, "status: draft") || contains_str(&v, "draft: true") {
                self.draft_posts = self.draft_posts + 1;
            } else {
                self.published_posts = self.published_posts + 1;
            }
            let w = words_vec(&v);
            self.total_words = self.total_words + w.len();
        }
    }

    /// Counts a static file.
    pub fn record_static_file(&mut self)
        requires
            old(self).static_files < usize::MAX,
        ensures
            final(self).static_files == old(self).static_files + 1,
            final(self).total_posts == old(self).total_posts,
            final(self).published_posts == old(self).published_posts,
            final(self).draft_posts == old(self).draft_posts,
            final(self).total_words == old(self).total_words,
    {
        self.static_files = self.static_files + 1;
    }
}

/// Helpers for starting a project when none is found.
pub struct AutoInit;

/// The commands that need a project and offer to create one.
pub open spec fn needs_project(command: Seq<char>) -> bool {
    command == "new"@ || command == "build"@ || command == "serve"@ || command == "deploy"@
        || command == "theme"@ || command == "project"@
}

impl AutoInit {
    /// Check if command should trigger auto-initialization prompt.
    pub fn should_prompt(command_name: &str) -> (res: bool)
        ensures
            res == needs_project(command_name@),
    {
        str_eq(command_name, "new") || str_eq(command_name, "build") || str_eq(command_name, "serve")
            || str_eq(command_name, "deploy") || str_eq(command_name, "theme")
            || str_eq(command_name, "project")
    }

    /// Whether an answer (trimmed and lower-cased) to a question whose
    /// default is no accepts.
    pub fn accepts(answer_lower: &str) -> (res: bool)
        ensures
            res == (answer_lower@ == "y"@ || answer_lower@ == "yes"@),
    {
        str_eq(answer_lower, "y") || str_eq(answer_lower, "yes")
    }

    /// An answer without surrounding space, or the default when blank.
    pub fn answer_or(input: &str, default: String) -> (res: String)
        ensures
            res@ == if trim(input@).len() == 0 { default@ } else { trim(input@) },
    {
        let v = chars_of(input);
        let t = trim_vec(&v);
        if t.len() == 0 {
            default
        } else {
            string_of(&t)
        }
    }

    /// An optional answer: `None` when blank, else the trimmed text.
    pub fn optional_answer(input: &str) -> (res: Option<String>)
        ensures
            match res {
                Some(s) => trim(input@).len() > 0 && s@ == trim(input@),
                None => trim(input@).len() == 0,
            },
    {
        let v = chars_of(input);
        let t = trim_vec(&v);
        if t.len() == 0 {
            None
        } else {
            Some(string_of(&t))
        }
    }
}

/// The directories a new project gets; blogs also get `posts`.
pub open spec fn project_directories(is_personal: bool) -> Seq<Seq<char>> {
    let base = seq!["themes"@, "static"@, "static/images"@, "static/css"@, "static/js"@, ".blogr"@];
    if is_personal {
        base
    } else {
        base.push("posts"@)
    }
}

/// The directories to create for a new project.
pub fn directories_to_create(is_personal: bool) -> (res: Vec<&'static str>)
    ensures
        res@.map_values(|s: &str| s@) == project_directories(is_personal),
{
    let mut v: Vec<&'static str> = vec!["themes", "static", "static/images", "static/css", "static/js", ".blogr"];
    if !is_personal {
        v.push("posts");
    }
    assert(v@.map_values(|s: &str| s@) =~= project_directories(is_personal));
    v
}

/// The generic `content.md` of a personal site.
pub open spec fn generic_personal_content(title: Seq<char>, author: Seq<char>, description: Seq<char>) -> Seq<char> {
    "# "@ + title + "\n\nWelcome to my personal website!\n\n## About Me\n\nI'm "@ + author + ", "@ + description
        + "\n\n## What I Do\n\n- 💻 Developer\n- 🎨 Designer\n- 🚀 Creator\n\n## Get In Touch\n\nFeel free to reach out if you'd like to collaborate or just say hello!\n\n- Email: hello@example.com\n- GitHub: https://github.com/username\n- Twitter: @username\n"@
}

/// The `content.md` of a new personal site: the theme's example for the
/// themes that have one, else a generic page.
pub open spec fn personal_content(c: Config) -> Seq<char> {
    if c.theme.name@ == "musashi"@ {
        musashi_example(c.blog.author@)
    } else if c.theme.name@ == "dark-minimal"@ {
        dark_minimal_example(c.blog.author@)
    } else {
        generic_personal_content(c.blog.title@, c.blog.author@, c.blog.description@)
    }
}

/// The `content.md` for a new personal site.
pub fn personal_content_text(config: &Config) -> (res: String)
    ensures
        res@ == personal_content(*config),
{
    if str_eq(config.theme.name.as_str(), "musashi") {
        MusashiTheme::example_content(config.blog.author.as_str())
    } else if str_eq(config.theme.name.as_str(), "dark-minimal") {
        DarkMinimalTheme::example_content(config.blog.author.as_str())
    } else {
        let mut s = String::new();
        push_str(&mut s, "# ");
        push_str(&mut s, config.blog.title.as_str());
        push_str(&mut s, "\n\nWelcome to my personal website!\n\n## About Me\n\nI'm ");
        push_str(&mut s, config.blog.author.as_str());
        push_str(&mut s, ", ");
        push_str(&mut s, config.blog.description.as_str());
        push_str(&mut s, "\n\n## What I Do\n\n- 💻 Developer\n- 🎨 Designer\n- 🚀 Creator\n\n## Get In Touch\n\nFeel free to reach out if you'd like to collaborate or just say hello!\n\n- Email: hello@example.com\n- GitHub: https://github.com/username\n- Twitter: @username\n");
        s
    }
}

/// What was found on disk for a project.
pub struct ProjectChecks {
    pub posts_exists: bool,
    pub posts_is_dir: bool,
    pub static_exists: bool,
    pub static_is_dir: bool,
    pub config_exists: bool,
}

/// The problems of a project, in the order they are reported.
pub open spec fn project_issues(c: Config, k: ProjectChecks) -> Seq<Seq<char>> {
    let a: Seq<Seq<char>> = if c.site.site_type == SiteType::Personal {
        Seq::empty()
    } else if !k.posts_exists {
        seq!["Missing required directory: posts"@]
    } else if !k.posts_is_dir {
        seq!["posts exists but is not a directory"@]
    } else {
        Seq::empty()
    };
    let b: Seq<Seq<char>> = if !k.static_exists {
        seq!["Missing required directory: static"@]
    } else if !k.static_is_dir {
        seq!["static exists but is not a directory"@]
    } else {
        Seq::empty()
    };
    let d: Seq<Seq<char>> = if !k.config_exists {
        seq!["Missing blogr.toml configuration file"@]
    } else {
        Seq::empty()
    };
    let e: Seq<Seq<char>> = match config_problem(c) {
        Some(err) => seq!["Configuration validation error: "@ + config_error_message(err)],
        None => Seq::empty(),
    };
    a + b + d + e
}

/// Validate project structure: the problems found.
pub fn validation_issues(config: &Config, checks: &ProjectChecks) -> (res: Vec<String>)
    ensures
        crate::utils::string_views(res@) == project_issues(*config, *checks),
{
    let mut issues: Vec<String> = Vec::new();
    let ghost v0 = crate::utils::string_views(issues@);
    if config.site.site_type != SiteType::Personal {
        if !checks.posts_exists {
            issues.push("Missing required directory: posts".to_owned());
        } else if !checks.posts_is_dir {
            issues.push("posts exists but is not a directory".to_owned());
        }
    }
    let ghost v1 = crate::utils::string_views(issues@);
    if !checks.static_exists {
        issues.push("Missing required directory: static".to_owned());
    } else if !checks.static_is_dir {
        issues.push("static exists but is not a directory".to_owned());
    }
    let ghost v2 = crate::utils::string_views(issues@);
    if !checks.config_exists {
        issues.push("Missing blogr.toml configuration file".to_owned());
    }
    let ghost v3 = crate::utils::string_views(issues@);
    match config.validate() {
        Err(e) => {
            let mut m = String::new();
            push_str(&mut m, "Configuration validation error: ");
            push_str(&mut m, e.message());
            issues.push(m);
        },
        Ok(()) => {},
    }
    assert(crate::utils::string_views(issues@) =~= project_issues(*config, *checks));
    issues
}

/// Replaces `pat` by `rep` everywhere in a text.
fn replace_in(s: &String, pat: &str, rep: &str) -> (res: String)
    requires
        pat@.len() > 0,
    ensures
        res@ == replace_all(s@, pat@, rep@),
{
    let v = chars_of(s.as_str());
    let r = replace_str(&v, pat, rep);
    string_of(&r)
}

/// The README of a new project from its template: the blog's title,
/// description and author in place of `{title}`, `{description}` and
/// `{author}`.
pub open spec fn readme_of(template: Seq<char>, c: Config) -> Seq<char> {
    replace_all(replace_all(replace_all(template, "{title}"@, c.blog.title@), "{description}"@,
        c.blog.description@), "{author}"@, c.blog.author@)
}

/// The README of a new project from its template.
pub fn fill_readme(template: &str, config: &Config) -> (res: String)
    ensures
        res@ == readme_of(template@, *config),
{
    proof {
        reveal_strlit("{title}");
        reveal_strlit("{description}");
        reveal_strlit("{author}");
    }
    let t = String::from_str(template);
    let a = replace_in(&t, "{title}", config.blog.title.as_str());
    let b = replace_in(&a, "{description}", config.blog.description.as_str());
    replace_in(&b, "{author}", config.blog.author.as_str())
}

/// The welcome post of a new blog from its template, dated `date`.
pub open spec fn sample_post_of(template: Seq<char>, c: Config, date: Seq<char>) -> Seq<char> {
    replace_all(replace_all(replace_all(replace_all(template, "{title}"@, "Welcome to My Blog"@), "{author}"@,
        c.blog.author@), "{date}"@, date), "{blog_title}"@, c.blog.title@)
}

/// The welcome post of a new blog from its template.
pub fn fill_sample_post(template: &str, config: &Config, date: &str) -> (res: String)
    ensures
        res@ == sample_post_of(template@, *config, date@),
{
    proof {
        reveal_strlit("{title}");
        reveal_strlit("{author}");
        reveal_strlit("{date}");
        reveal_strlit("{blog_title}");
    }
    let t = String::from_str(template);
    let a = replace_in(&t, "{title}", "Welcome to My Blog");
    let b = replace_in(&a, "{author}", config.blog.author.as_str());
    let c = replace_in(&b, "{date}", date);
    replace_in(&c, "{blog_title}", config.blog.title.as_str())
}

/// The about page of a new blog from its template, dated `date`.
pub open spec fn about_page_of(template: Seq<char>, c: Config, date: Seq<char>) -> Seq<char> {
    replace_all(replace_all(replace_all(template, "{author}"@, c.blog.author@), "{blog_title}"@,
        c.blog.title@), "{date}"@, date)
}

/// The about page of a new blog from its template.
pub fn fill_about_page(template: &str, config: &Config, date: &str) -> (res: String)
    ensures
        res@ == about_page_of(template@, *config, date@),
{
    proof {
        reveal_strlit("{author}");
        reveal_strlit("{blog_title}");
        reveal_strlit("{date}");
    }
    let t = String::from_str(template);
    let a = replace_in(&t, "{author}", config.blog.author.as_str());
    let b = replace_in(&a, "{blog_title}", config.blog.title.as_str());
    replace_in(&b, "{date}", date)
}

/// The deployment workflow of a new project from its template: the
/// GitHub user and repository in place of `your-username` and `your-repo`.
pub fn fill_workflow(template: &str, username: &str, repository: &str) -> (res: String)
    ensures
        res@ == replace_all(replace_all(template@, "your-username"@, username@), "your-repo"@, repository@),
{
    proof {
        reveal_strlit("your-username");
        reveal_strlit("your-repo");
    }
    let t = String::from_str(template);
    let a = replace_in(&t, "your-username", username);
    replace_in(&a, "your-repo", repository)
}

} // verus!
