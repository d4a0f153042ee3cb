//! Site configuration (`blogr.toml`): the settings, their defaults,
//! validation, and the domain settings that decide the site's URL.
use vstd::prelude::*;
use crate::newsletter::migration::opt_view;
use crate::text::{
    ends_with, has_suffix,
    chars_of, contains_char, contains_str, has_prefix, occurs, push_str, split, split_vec,
    starts_with, str_eq, string_of, trim, trim_vec, views, join, Sep,
};
use crate::utils::{string_views, join_strings};
use crate::text::{dec, push_dec};

verus! {

/// The value of a theme option, as TOML holds it: a string, a boolean, an
/// integer, or any other TOML value (a float, a date, an array, a table),
/// held as the text TOML writes for it.
#[derive(Clone, PartialEq, Eq, Debug)]
pub enum TomlValue {
    String(String),
    Boolean(bool),
    Integer(i64),
    Other(String),
}

/// A theme option's value as plain values.
pub enum TomlItem {
    String(Seq<char>),
    Boolean(bool),
    Integer(i64),
    Other(Seq<char>),
}

impl View for TomlValue {
    type V = TomlItem;

    open spec fn view(&self) -> TomlItem {
        match self {
            TomlValue::String(s) => TomlItem::String(s@),
            TomlValue::Boolean(b) => TomlItem::Boolean(*b),
            TomlValue::Integer(i) => TomlItem::Integer(*i),
            TomlValue::Other(t) => TomlItem::Other(t@),
        }
    }
}

/// An integer in decimal, with `-` before a negative one.
pub open spec fn int_text(i: i64) -> Seq<char> {
    if i < 0 { "-"@ + dec((-i) as nat) } else { dec(i as nat) }
}

/// How a value is shown: a string as its own text (no quotes), a boolean
/// as `true` or `false`, an integer in decimal, any other value as TOML
/// writes it.
pub open spec fn value_text(v: TomlItem) -> Seq<char> {
    match v {
        TomlItem::String(s) => s,
        TomlItem::Boolean(b) => if b { "true"@ } else { "false"@ },
        TomlItem::Integer(i) => int_text(i),
        TomlItem::Other(t) => t,
    }
}

impl TomlValue {
    /// The same value.
    pub fn copy(&self) -> (res: TomlValue)
        ensures
            res == *self,
    {
        match self {
            TomlValue::String(s) => TomlValue::String(s.clone()),
            TomlValue::Boolean(b) => TomlValue::Boolean(*b),
            TomlValue::Integer(i) => TomlValue::Integer(*i),
            TomlValue::Other(t) => TomlValue::Other(t.clone()),
        }
    }

    /// How the value is shown.
    pub fn text(&self) -> (res: String)
        ensures
            res@ == value_text(self@),
    {
        proof {
            reveal_strlit("-");
        }
        match self {
            TomlValue::String(s) => s.clone(),
            TomlValue::Boolean(b) => if *b { String::from_str("true") } else { String::from_str("false") },
            TomlValue::Integer(i) => {
                let mut out = String::new();
                if *i < 0 {
                    push_str(&mut out, "-");
                    let m: i128 = -(*i as i128);
                    push_dec(&mut out, m as u128);
                } else {
                    push_dec(&mut out, *i as u128);
                }
                out
            },
            TomlValue::Other(t) => t.clone(),
        }
    }
}

/// What TOML reads from the text of a value (`toml::de::ValueDeserializer`):
/// the value, or `toml`'s message when the text is not a TOML value.
pub uninterp spec fn toml_value_read(text: Seq<char>) -> Result<TomlItem, Seq<char>>;

/// Reads a TOML value from its text with `toml::de::ValueDeserializer`,
/// an error as `toml`'s message. The result is named `toml_value_read`;
/// TOML's grammar is not restated.
#[verifier::external_body]
pub(crate) fn parse_toml_value(s: &str) -> (res: Result<TomlValue, String>)
    ensures
        match res {
            Ok(v) => toml_value_read(s@) == Ok::<TomlItem, Seq<char>>(v@),
            Err(e) => toml_value_read(s@) == Err::<TomlItem, Seq<char>>(e@),
        },
{
    match <toml::Value as serde::Deserialize>::deserialize(toml::de::ValueDeserializer::new(s)) {
        Ok(toml::Value::String(t)) => Ok(TomlValue::String(t)),
        Ok(toml::Value::Boolean(b)) => Ok(TomlValue::Boolean(b)),
        Ok(toml::Value::Integer(i)) => Ok(TomlValue::Integer(i)),
        Ok(v) => Ok(TomlValue::Other(v.to_string())),
        Err(e) => Err(e.to_string()),
    }
}

/// How the site is hosted, read from its URL.
#[derive(Clone, Copy, PartialEq, Eq, Structural, Debug)]
pub enum DeploymentType {
    /// Custom domain (e.g., blog.example.com)
    CustomDomain,
    /// GitHub Pages at root (e.g., username.github.io)
    GitHubPagesRoot,
    /// GitHub Pages with subpath (e.g., username.github.io/repo)
    GitHubPagesSubpath,
    /// Unable to determine deployment type
    Unknown,
}

/// Kind of site: a blog or a personal page.
#[derive(Clone, Copy, PartialEq, Eq, Structural, Debug)]
pub enum SiteType {
    Blog,
    Personal,
}

pub struct SiteConfig {
    pub site_type: SiteType,
}

pub struct BlogConfig {
    pub title: String,
    pub author: String,
    pub description: String,
    pub base_url: String,
    pub language: Option<String>,
    pub timezone: Option<String>,
    pub domains: Option<DomainConfig>,
}

pub struct DomainConfig {
    /// Primary domain for the blog (e.g., "example.com")
    pub primary: Option<String>,
    /// Additional domains that redirect to the primary one
    pub aliases: Vec<String>,
    /// Subdomain configuration
    pub subdomain: Option<SubdomainConfig>,
    /// Whether to enforce HTTPS
    pub enforce_https: bool,
    /// Custom domain for GitHub Pages (CNAME file content)
    pub github_pages_domain: Option<String>,
}

pub struct SubdomainConfig {
    /// Subdomain prefix (e.g., "blog" for blog.example.com)
    pub prefix: String,
    /// Base domain (e.g., "example.com")
    pub base_domain: String,
}

pub struct ThemeConfig {
    pub name: String,
    /// Theme options by name, each name once.
    pub config: Vec<(String, TomlValue)>,
}

pub struct GitHubConfig {
    pub username: String,
    pub repository: String,
    pub branch: Option<String>,
}

pub struct BuildConfig {
    pub output_dir: Option<String>,
    pub drafts: bool,
    pub future_posts: bool,
}

pub struct DevConfig {
    pub port: u16,
    pub auto_reload: bool,
}

/// Search settings (the per-field score weights are kept by the caller,
/// which writes them into the search script).
pub struct SearchConfig {
    pub enabled: bool,
    pub fields: Vec<String>,
    pub exclude: Vec<String>,
    pub max_content_chars: usize,
    pub excerpt_words: usize,
    pub minify: bool,
    pub lazy_load: bool,
    pub remove_stopwords: bool,
}

pub struct NewsletterConfig {
    pub enabled: bool,
    pub subscribe_email: Option<String>,
    pub sender_name: Option<String>,
    pub confirmation_subject: Option<String>,
    pub imap: Option<ImapConfig>,
    pub smtp: Option<SmtpConfig>,
    /// Plugin settings by plugin name, each name once.
    pub plugins: Option<Vec<(String, crate::newsletter::plugin::PluginConfig)>>,
}

pub struct ImapConfig {
    pub server: String,
    pub port: u16,
    pub username: String,
    pub use_tls: Option<bool>,
}

pub struct SmtpConfig {
    pub server: String,
    pub port: u16,
    pub username: String,
    pub use_tls: Option<bool>,
}

pub struct Config {
    pub blog: BlogConfig,
    pub theme: ThemeConfig,
    pub github: Option<GitHubConfig>,
    pub build: BuildConfig,
    pub dev: DevConfig,
    pub search: SearchConfig,
    pub newsletter: NewsletterConfig,
    pub site: SiteConfig,
}

// ---------------------------------------------------------------------------
// Defaults
// ---------------------------------------------------------------------------

pub fn default_enforce_https() -> (res: bool)
    ensures
        res,
{
    true
}

pub fn default_port() -> (res: u16)
    ensures
        res == 3000,
{
    3000
}

pub fn default_search_enabled() -> (res: bool)
    ensures
        res,
{
    true
}

pub fn default_search_fields() -> (res: Vec<String>)
    ensures
        string_views(res@) == seq!["title"@, "tags"@, "content"@],
{
    let v = vec!["title".to_owned(), "tags".to_owned(), "content".to_owned()];
    assert(string_views(v@) =~= seq!["title"@, "tags"@, "content"@]);
    v
}

pub fn default_search_exclude() -> (res: Vec<String>)
    ensures
        string_views(res@) == seq!["drafts/"@],
{
    let v = vec!["drafts/".to_owned()];
    assert(string_views(v@) =~= seq!["drafts/"@]);
    v
}

pub fn default_max_content_chars() -> (res: usize)
    ensures
        res == 2000,
{
    2000
}

pub fn default_excerpt_words() -> (res: usize)
    ensures
        res == 30,
{
    30
}

pub fn default_minify() -> (res: bool)
    ensures
        res,
{
    true
}

pub fn default_lazy_load() -> (res: bool)
    ensures
        res,
{
    true
}

pub fn default_remove_stopwords() -> (res: bool)
    ensures
        !res,
{
    false
}

pub fn default_newsletter_enabled() -> (res: bool)
    ensures
        !res,
{
    false
}

impl Default for DevConfig {
    fn default() -> (res: DevConfig)
        ensures
            res.port == 3000,
            res.auto_reload,
    {
        DevConfig { port: default_port(), auto_reload: true }
    }
}

impl Default for SiteConfig {
    fn default() -> (res: SiteConfig)
        ensures
            res.site_type == SiteType::Blog,
    {
        SiteConfig { site_type: SiteType::Blog }
    }
}

impl Default for SearchConfig {
    fn default() -> (res: SearchConfig)
        ensures
            res.enabled,
            string_views(res.fields@) == seq!["title"@, "tags"@, "content"@],
            string_views(res.exclude@) == seq!["drafts/"@],
            res.max_content_chars == 2000,
            res.excerpt_words == 30,
            res.minify,
            res.lazy_load,
            !res.remove_stopwords,
    {
        SearchConfig {
            enabled: default_search_enabled(),
            fields: default_search_fields(),
            exclude: default_search_exclude(),
            max_content_chars: default_max_content_chars(),
            excerpt_words: default_excerpt_words(),
            minify: default_minify(),
            lazy_load: default_lazy_load(),
            remove_stopwords: default_remove_stopwords(),
        }
    }
}

impl Default for NewsletterConfig {
    fn default() -> (res: NewsletterConfig)
        ensures
            !res.enabled,
            res.subscribe_email is None,
            res.sender_name is None,
            res.confirmation_subject is None,
            res.imap is None,
            res.smtp is None,
            res.plugins is None,
    {
        NewsletterConfig {
            enabled: default_newsletter_enabled(),
            subscribe_email: None,
            sender_name: None,
            confirmation_subject: None,
            imap: None,
            smtp: None,
            plugins: None,
        }
    }
}

/// The settings of a new site before anything is chosen.
pub open spec fn is_default_config(c: Config) -> bool {
    &&& c.blog.title@ == "My Blog"@
    &&& c.blog.author@ == "Anonymous"@
    &&& c.blog.description@ == "A blog powered by Blogr"@
    &&& c.blog.base_url@ == "https://username.github.io/repository"@
    &&& opt_view(c.blog.language) == Some("en"@)
    &&& opt_view(c.blog.timezone) == Some("UTC"@)
    &&& c.blog.domains is None
    &&& c.theme.name@ == "minimal-retro"@
    &&& c.theme.config@.len() == 0
    &&& c.github is None
    &&& opt_view(c.build.output_dir) == Some("dist"@)
    &&& !c.build.drafts
    &&& !c.build.future_posts
    &&& c.dev.port == 3000
    &&& c.dev.auto_reload
    &&& c.search.enabled
    &&& string_views(c.search.fields@) == seq!["title"@, "tags"@, "content"@]
    &&& string_views(c.search.exclude@) == seq!["drafts/"@]
    &&& c.search.max_content_chars == 2000
    &&& c.search.excerpt_words == 30
    &&& c.search.minify
    &&& c.search.lazy_load
    &&& !c.search.remove_stopwords
    &&& !c.newsletter.enabled
    &&& c.newsletter.subscribe_email is None
    &&& c.newsletter.sender_name is None
    &&& c.newsletter.confirmation_subject is None
    &&& c.newsletter.imap is None
    &&& c.newsletter.smtp is None
    &&& c.site.site_type == SiteType::Blog
}

impl Default for Config {
    fn default() -> (res: Config)
        ensures
            is_default_config(res),
    {
        Config {
            blog: BlogConfig {
                title: "My Blog".to_owned(),
                author: "Anonymous".to_owned(),
                description: "A blog powered by Blogr".to_owned(),
                base_url: "https://username.github.io/repository".to_owned(),
                language: Some("en".to_owned()),
                timezone: Some("UTC".to_owned()),
                domains: None,
            },
            theme: ThemeConfig { name: "minimal-retro".to_owned(), config: Vec::new() },
            github: None,
            build: BuildConfig { output_dir: Some("dist".to_owned()), drafts: false, future_posts: false },
            dev: DevConfig::default(),
            search: SearchConfig::default(),
            newsletter: NewsletterConfig::default(),
            site: SiteConfig::default(),
        }
    }
}

// ---------------------------------------------------------------------------
// New sites
// ---------------------------------------------------------------------------

/// The fields that `new_with_defaults` leaves as they are by default.
pub open spec fn same_defaults_except_blog(c: Config) -> bool {
    &&& opt_view(c.blog.language) == Some("en"@)
    &&& opt_view(c.blog.timezone) == Some("UTC"@)
    &&& c.blog.domains is None
    &&& c.theme.config@.len() == 0
    &&& opt_view(c.build.output_dir) == Some("dist"@)
    &&& !c.build.drafts
    &&& !c.build.future_posts
    &&& c.dev.port == 3000
    &&& c.dev.auto_reload
    &&& c.search.enabled
    &&& !c.newsletter.enabled
}

impl Config {
    /// A default configuration with the given title, author and
    /// description; with a GitHub user name and repository the site URL is
    /// their GitHub Pages address and the repository is recorded, on branch
    /// `main`.
    pub fn new_with_defaults(
        title: String,
        author: String,
        description: String,
        github_username: Option<String>,
        github_repo: Option<String>,
    ) -> (res: Config)
        ensures
            res.blog.title == title,
            res.blog.author == author,
            res.blog.description == description,
            res.theme.name@ == "minimal-retro"@,
            res.site.site_type == SiteType::Blog,
            same_defaults_except_blog(res),
            match (github_username, github_repo) {
                (Some(u), Some(r)) => {
                    &&& res.blog.base_url@ == "https://"@ + u@ + ".github.io/"@ + r@
                    &&& res.github matches Some(g) && g.username == u && g.repository == r
                        && opt_view(g.branch) == Some("main"@)
                },
                _ => res.blog.base_url@ == "https://username.github.io/repository"@ && res.github is None,
            },
    {
        let mut config = Config::default();
        config.blog.title = title;
        config.blog.author = author;
        config.blog.description = description;
        match (github_username, github_repo) {
            (Some(username), Some(repo)) => {
                let mut url = String::new();
                push_str(&mut url, "https://");
                push_str(&mut url, username.as_str());
                push_str(&mut url, ".github.io/");
                push_str(&mut url, repo.as_str());
                config.blog.base_url = url;
                config.github = Some(GitHubConfig { username, repository: repo, branch: Some("main".to_owned()) });
            },
            _ => {},
        }
        config
    }

    /// Like `new_with_defaults`, for a personal page with the
    /// `dark-minimal` theme.
    pub fn new_personal(
        title: String,
        author: String,
        description: String,
        github_username: Option<String>,
        github_repo: Option<String>,
    ) -> (res: Config)
        ensures
            res.blog.title == title,
            res.blog.author == author,
            res.blog.description == description,
            res.theme.name@ == "dark-minimal"@,
            res.site.site_type == SiteType::Personal,
            same_defaults_except_blog(res),
            match (github_username, github_repo) {
                (Some(u), Some(r)) => {
                    &&& res.blog.base_url@ == "https://"@ + u@ + ".github.io/"@ + r@
                    &&& res.github matches Some(g) && g.username == u && g.repository == r
                        && opt_view(g.branch) == Some("main"@)
                },
                _ => res.blog.base_url@ == "https://username.github.io/repository"@ && res.github is None,
            },
    {
        let mut config = Config::new_with_defaults(title, author, description, github_username, github_repo);
        config.site.site_type = SiteType::Personal;
        config.theme.name = "dark-minimal".to_owned();
        config
    }

    /// The name of the output directory (`dist` unless configured).
    pub fn output_dir_name(&self) -> (res: &str)
        ensures
            res@ == match self.build.output_dir {
                Some(d) => d@,
                None => "dist"@,
            },
    {
        match &self.build.output_dir {
            Some(d) => d.as_str(),
            None => "dist",
        }
    }
}

// ---------------------------------------------------------------------------
// Validation
// ---------------------------------------------------------------------------

/// Why a configuration is refused.
#[derive(Clone, Copy, PartialEq, Eq, Structural, Debug)]
pub enum ConfigError {
    EmptyTitle,
    EmptyAuthor,
    EmptyDescription,
    BadBaseUrl,
    ZeroPort,
    MissingSubscribeEmail,
    InvalidSubscribeEmail,
}

impl ConfigError {
    /// The message shown for the error.
    pub fn message(&self) -> (res: &'static str)
        ensures
            res@ == config_error_message(*self),
    {
        match self {
            ConfigError::EmptyTitle => "Blog title cannot be empty",
            ConfigError::EmptyAuthor => "Blog author cannot be empty",
            ConfigError::EmptyDescription => "Blog description cannot be empty",
            ConfigError::BadBaseUrl => "Base URL must start with http:// or https://",
            ConfigError::ZeroPort => "Development server port must be greater than 0",
            ConfigError::MissingSubscribeEmail => "Newsletter is enabled but subscribe_email is not configured",
            ConfigError::InvalidSubscribeEmail => "Invalid newsletter subscribe_email format",
        }
    }
}

/// The message of each error.
pub open spec fn config_error_message(e: ConfigError) -> Seq<char> {
    match e {
        ConfigError::EmptyTitle => "Blog title cannot be empty"@,
        ConfigError::EmptyAuthor => "Blog author cannot be empty"@,
        ConfigError::EmptyDescription => "Blog description cannot be empty"@,
        ConfigError::BadBaseUrl => "Base URL must start with http:// or https://"@,
        ConfigError::ZeroPort => "Development server port must be greater than 0"@,
        ConfigError::MissingSubscribeEmail => "Newsletter is enabled but subscribe_email is not configured"@,
        ConfigError::InvalidSubscribeEmail => "Invalid newsletter subscribe_email format"@,
    }
}

/// The first rule a configuration breaks, checked in order: title, author
/// and description not blank, an `http://` or `https://` site URL, a
/// non-zero port, and for an enabled newsletter a subscription address
/// that is not blank and holds an `@`.
pub open spec fn config_problem(c: Config) -> Option<ConfigError> {
    if trim(c.blog.title@).len() == 0 {
        Some(ConfigError::EmptyTitle)
    } else if trim(c.blog.author@).len() == 0 {
        Some(ConfigError::EmptyAuthor)
    } else if trim(c.blog.description@).len() == 0 {
        Some(ConfigError::EmptyDescription)
    } else if !has_prefix(c.blog.base_url@, "http://"@) && !has_prefix(c.blog.base_url@, "https://"@) {
        Some(ConfigError::BadBaseUrl)
    } else if c.dev.port == 0 {
        Some(ConfigError::ZeroPort)
    } else if c.newsletter.enabled {
        match c.newsletter.subscribe_email {
            None => Some(ConfigError::MissingSubscribeEmail),
            Some(e) => if trim(e@).len() == 0 || !e@.contains('@') {
                Some(ConfigError::InvalidSubscribeEmail)
            } else {
                None
            },
        }
    } else {
        None
    }
}

fn is_blank(s: &String) -> (res: bool)
    ensures
        res == (trim(s@).len() == 0),
{
    let v = chars_of(s.as_str());
    let t = trim_vec(&v);
    t.len() == 0
}

impl Config {
    /// Validate configuration.
    pub fn validate(&self) -> (res: Result<(), ConfigError>)
        ensures
            match config_problem(*self) {
                Some(e) => res == Err::<(), ConfigError>(e),
                None => res is Ok,
            },
    {
        if is_blank(&self.blog.title) {
            return Err(ConfigError::EmptyTitle);
        }
        if is_blank(&self.blog.author) {
            return Err(ConfigError::EmptyAuthor);
        }
        if is_blank(&self.blog.description) {
            return Err(ConfigError::EmptyDescription);
        }
        let url = chars_of(self.blog.base_url.as_str());
        if !starts_with(&url, "http://") && !starts_with(&url, "https://") {
            return Err(ConfigError::BadBaseUrl);
        }
        if self.dev.port == 0 {
            return Err(ConfigError::ZeroPort);
        }
        if self.newsletter.enabled {
            match &self.newsletter.subscribe_email {
                None => {
                    return Err(ConfigError::MissingSubscribeEmail);
                },
                Some(email) => {
                    let ev = chars_of(email.as_str());
                    if is_blank(email) || !contains_char(&ev, '@') {
                        return Err(ConfigError::InvalidSubscribeEmail);
                    }
                },
            }
        }
        Ok(())
    }
}

// ---------------------------------------------------------------------------
// Theme options
// ---------------------------------------------------------------------------

/// The option names of a theme configuration.
pub open spec fn option_names(v: Seq<(String, TomlValue)>) -> Seq<Seq<char>> {
    v.map_values(|e: (String, TomlValue)| e.0@)
}

/// Each option name occurs once.
pub open spec fn names_unique(v: Seq<(String, TomlValue)>) -> bool {
    forall|i: int, j: int| 0 <= i < j < v.len() ==> (#[trigger] v[i]).0@ != (#[trigger] v[j]).0@
}

/// The options after `key` is set to `value`: the first option of that
/// name takes the value in its place; with none, the option goes last.
pub open spec fn options_set(v: Seq<(String, TomlValue)>, key: String, value: TomlValue, r: Seq<(String, TomlValue)>) -> bool {
    if exists|i: int| 0 <= i < v.len() && (#[trigger] v[i]).0@ == key@ {
        exists|i: int| 0 <= i < v.len() && (#[trigger] v[i]).0@ == key@
            && (forall|j: int| 0 <= j < i ==> (#[trigger] v[j]).0@ != key@)
            && r == v.update(i, (key, value))
    } else {
        r == v.push((key, value))
    }
}

/// Setting a theme option and then looking it up gives the value set: the
/// first option of that name holds it. Every other option keeps its place
/// and value, and the options grow by one only for a new name.
pub proof fn law_theme_option_read_after_write(v: Seq<(String, TomlValue)>, key: String, value: TomlValue, r: Seq<(String, TomlValue)>)
    requires
        options_set(v, key, value, r),
    ensures
        exists|i: int| 0 <= i < r.len() && (#[trigger] r[i]).0@ == key@ && r[i].1 == value
            && forall|j: int| 0 <= j < i ==> (#[trigger] r[j]).0@ != key@,
        forall|i: int| 0 <= i < v.len() && (#[trigger] v[i]).0@ != key@ ==> r[i] == v[i],
        r.len() == v.len() + if exists|i: int| 0 <= i < v.len() && (#[trigger] v[i]).0@ == key@ { 0int } else { 1int },
{
    if exists|i: int| 0 <= i < v.len() && (#[trigger] v[i]).0@ == key@ {
        let i = choose|i: int| 0 <= i < v.len() && (#[trigger] v[i]).0@ == key@
            && (forall|j: int| 0 <= j < i ==> (#[trigger] v[j]).0@ != key@)
            && r == v.update(i, (key, value));
        assert(r[i].0@ == key@ && r[i].1 == value);
        assert forall|j: int| 0 <= j < i implies (#[trigger] r[j]).0@ != key@ by {
            assert(r[j] == v[j]);
        }
    } else {
        let n = v.len() as int;
        assert(r[n].0@ == key@ && r[n].1 == value);
        assert forall|j: int| 0 <= j < n implies (#[trigger] r[j]).0@ != key@ by {
            assert(r[j] == v[j]);
        }
    }
}

fn find_option(v: &Vec<(String, TomlValue)>, key: &str) -> (res: Option<usize>)
    ensures
        match res {
            Some(i) => i < v@.len() && v@[i as int].0@ == key@
                && forall|j: int| 0 <= j < i ==> (#[trigger] v@[j]).0@ != key@,
            None => forall|j: int| 0 <= j < v@.len() ==> (#[trigger] v@[j]).0@ != key@,
        },
{
    let mut i: usize = 0;
    while i < v.len()
        invariant
            i <= v@.len(),
            forall|j: int| 0 <= j < i ==> (#[trigger] v@[j]).0@ != key@,
        decreases v.len() - i,
    {
        if str_eq(v[i].0.as_str(), key) {
            return Some(i);
        }
        i += 1;
    }
    None
}

impl Config {
    /// Replaces the theme and its options.
    pub fn set_theme(&mut self, theme_name: String, theme_config: Vec<(String, TomlValue)>)
        ensures
            final(self).theme.name == theme_name,
            final(self).theme.config@ == theme_config@,
            final(self).blog == old(self).blog,
            final(self).dev == old(self).dev,
    {
        self.theme.name = theme_name;
        self.theme.config = theme_config;
    }

    /// The value of a theme option.
    pub fn get_theme_config(&self, key: &str) -> (res: Option<&TomlValue>)
        ensures
            match res {
                Some(v) => exists|i: int| 0 <= i < self.theme.config@.len()
                    && (#[trigger] self.theme.config@[i]).0@ == key@ && self.theme.config@[i].1 == *v
                    && forall|j: int| 0 <= j < i ==> (#[trigger] self.theme.config@[j]).0@ != key@,
                None => forall|i: int| 0 <= i < self.theme.config@.len()
                    ==> (#[trigger] self.theme.config@[i]).0@ != key@,
            },
    {
        match find_option(&self.theme.config, key) {
            Some(i) => Some(&self.theme.config[i].1),
            None => None,
        }
    }

    /// Sets a theme option: an existing option keeps its place, a new one
    /// goes last.
    pub fn set_theme_config(&mut self, key: String, value: TomlValue)
        ensures
            final(self).theme.name == old(self).theme.name,
            options_set(old(self).theme.config@, key, value, final(self).theme.config@),
            exists|i: int| 0 <= i < final(self).theme.config@.len()
                && (#[trigger] final(self).theme.config@[i]).0@ == key@ && final(self).theme.config@[i].1 == value,
            forall|i: int| 0 <= i < old(self).theme.config@.len() && (#[trigger] old(self).theme.config@[i]).0@ != key@
                ==> final(self).theme.config@.contains(old(self).theme.config@[i]),
            names_unique(old(self).theme.config@) ==> names_unique(final(self).theme.config@),
            final(self).blog == old(self).blog,
            final(self).github == old(self).github,
            final(self).build == old(self).build,
            final(self).dev == old(self).dev,
            final(self).search == old(self).search,
            final(self).newsletter == old(self).newsletter,
            final(self).site == old(self).site,
    {
        let ghost old_cfg = self.theme.config@;
        let ghost kv = key@;
        let ghost kg = key;
        let ghost vg = value;
        match find_option(&self.theme.config, key.as_str()) {
            Some(i) => {
                self.theme.config.set(i, (key, value));
                assert(self.theme.config@[i as int].0@ == kv);
                assert(old_cfg[i as int].0@ == kg@);
                assert(self.theme.config@ =~= old_cfg.update(i as int, (kg, vg)));
                assert forall|j: int| 0 <= j < old_cfg.len() && (#[trigger] old_cfg[j]).0@ != kv
                    implies self.theme.config@.contains(old_cfg[j]) by {
                    assert(self.theme.config@[j] == old_cfg[j]);
                }
            },
            None => {
                self.theme.config.push((key, value));
                let ghost n = old_cfg.len();
                assert(self.theme.config@[n as int].0@ == kv);
                assert forall|j: int| 0 <= j < old_cfg.len() && (#[trigger] old_cfg[j]).0@ != kv
                    implies self.theme.config@.contains(old_cfg[j]) by {
                    assert(self.theme.config@[j] == old_cfg[j]);
                }
            },
        }
    }
}

// ---------------------------------------------------------------------------
// The site URL and domains
// ---------------------------------------------------------------------------

/// The text without its trailing slashes (`trim_end_matches('/')`).
pub open spec fn strip_slashes(s: Seq<char>) -> Seq<char>
    decreases s.len(),
{
    if s.len() > 0 && s.last() == '/' {
        strip_slashes(s.drop_last())
    } else {
        s
    }
}

/// The URL scheme for a domain setting.
pub open spec fn scheme(https: bool) -> Seq<char> {
    if https {
        "https"@
    } else {
        "http"@
    }
}

/// The site URL: from the primary domain, else from the subdomain, else the
/// configured base URL; without trailing slashes.
pub open spec fn effective_url(c: Config) -> Seq<char> {
    match c.blog.domains {
        Some(d) => match d.primary {
            Some(p) => strip_slashes(scheme(d.enforce_https) + "://"@ + p@),
            None => match d.subdomain {
                Some(sd) => strip_slashes(
                    scheme(d.enforce_https) + "://"@ + sd.prefix@ + "."@ + sd.base_domain@,
                ),
                None => strip_slashes(c.blog.base_url@),
            },
        },
        None => strip_slashes(c.blog.base_url@),
    }
}

fn strip_slashes_string(s: &String) -> (res: String)
    ensures
        res@ == strip_slashes(s@),
{
    let v = chars_of(s.as_str());
    let mut n = v.len();
    assert(v@.take(n as int) =~= v@);
    while n > 0 && v[n - 1] == '/'
        invariant
            n <= v@.len(),
            strip_slashes(v@) == strip_slashes(v@.take(n as int)),
        decreases n,
    {
        assert(v@.take(n as int).drop_last() =~= v@.take(n - 1));
        n -= 1;
    }
    assert(n > 0 ==> v@.take(n as int).last() == v@[n - 1]);
    assert(strip_slashes(v@.take(n as int)) == v@.take(n as int));
    assert(v@.take(v@.len() as int) =~= v@);
    crate::text::string_of_range(&v, 0, n)
}

/// What `url::Url::parse` makes of a text: `None` if it is no URL, else
/// its host (if it has one) and its path.
pub uninterp spec fn url_parts(s: Seq<char>) -> Option<(Option<Seq<char>>, Seq<char>)>;

/// Parses a URL with `url::Url::parse` and gives its `host_str` and `path`.
/// The result is named `url_parts`; the URL standard's parsing is not
/// restated.
#[verifier::external_body]
pub(crate) fn parse_url_parts(s: &str) -> (res: Option<(Option<String>, String)>)
    ensures
        match res {
            Some((h, p)) => url_parts(s@) == Some((opt_view(h), p@)),
            None => url_parts(s@) is None,
        },
{
    match url::Url::parse(s) {
        Ok(u) => {
            let host = match u.host_str() {
                Some(h) => Some(h.to_string()),
                None => None,
            };
            Some((host, u.path().to_string()))
        },
        Err(_) => None,
    }
}

/// The hosting read from the parts of a URL: a `*.github.io` host is GitHub
/// Pages, at the root when the path is `/` or empty; another host that
/// mentions `github.io` counts as a GitHub Pages subpath; any other host is
/// a custom domain; no URL or no host, unknown.
pub open spec fn deployment_of(parts: Option<(Option<Seq<char>>, Seq<char>)>) -> DeploymentType {
    match parts {
        Some((Some(h), p)) => if has_suffix(h, ".github.io"@) && p != "/"@ && p.len() > 0 {
            DeploymentType::GitHubPagesSubpath
        } else if has_suffix(h, ".github.io"@) {
            DeploymentType::GitHubPagesRoot
        } else if occurs(h, "github.io"@) {
            DeploymentType::GitHubPagesSubpath
        } else {
            DeploymentType::CustomDomain
        },
        _ => DeploymentType::Unknown,
    }
}

/// The hosting for the parts of a parsed URL.
pub fn deployment_type_for(parts: &Option<(Option<String>, String)>) -> (res: DeploymentType)
    ensures
        res == deployment_of(match parts {
            Some((h, p)) => Some((opt_view(*h), p@)),
            None => None,
        }),
{
    match parts {
        Some((Some(h), p)) => {
            let hv = chars_of(h.as_str());
            let pv = chars_of(p.as_str());
            let gh = ends_with(&hv, ".github.io");
            if gh && !crate::text::vec_eq_str(&pv, "/") && pv.len() > 0 {
                DeploymentType::GitHubPagesSubpath
            } else if gh {
                DeploymentType::GitHubPagesRoot
            } else if contains_str(&hv, "github.io") {
                DeploymentType::GitHubPagesSubpath
            } else {
                DeploymentType::CustomDomain
            }
        },
        _ => DeploymentType::Unknown,
    }
}

/// Everything but the domain settings is the same.
pub open spec fn same_but_domains(a: Config, b: Config) -> bool {
    &&& a.blog.title == b.blog.title
    &&& a.blog.author == b.blog.author
    &&& a.blog.description == b.blog.description
    &&& a.blog.base_url == b.blog.base_url
    &&& a.blog.language == b.blog.language
    &&& a.blog.timezone == b.blog.timezone
    &&& a.theme == b.theme
    &&& a.github == b.github
    &&& a.build == b.build
    &&& a.dev == b.dev
    &&& a.search == b.search
    &&& a.newsletter == b.newsletter
    &&& a.site == b.site
}

/// The aliases after adding `x`: it goes last unless it is there already.
pub open spec fn aliases_after_add(a: Seq<Seq<char>>, x: Seq<char>) -> Seq<Seq<char>> {
    if a.contains(x) {
        a
    } else {
        a.push(x)
    }
}

/// Other than `x`.
pub open spec fn other_than(x: Seq<char>) -> spec_fn(Seq<char>) -> bool {
    |y: Seq<char>| y != x
}

/// The aliases after removing `x`: every copy of it goes.
pub open spec fn aliases_after_remove(a: Seq<Seq<char>>, x: Seq<char>) -> Seq<Seq<char>> {
    a.filter(other_than(x))
}

/// All domains of a domain setting: primary, then subdomain, then aliases.
pub open spec fn all_domains(c: Config) -> Seq<Seq<char>> {
    match c.blog.domains {
        Some(d) => (match d.primary {
            Some(p) => seq![p@],
            None => Seq::empty(),
        }) + (match d.subdomain {
            Some(sd) => seq![sd.prefix@ + "."@ + sd.base_domain@],
            None => Seq::empty(),
        }) + string_views(d.aliases@),
        None => Seq::empty(),
    }
}

pub(crate) fn string_in(v: &Vec<String>, x: &String) -> (res: bool)
    ensures
        res == string_views(v@).contains(x@),
{
    let mut i: usize = 0;
    while i < v.len()
        invariant
            i <= v@.len(),
            forall|j: int| 0 <= j < i ==> v@[j]@ != x@,
        decreases v.len() - i,
    {
        if v[i] == *x {
            assert(string_views(v@)[i as int] == x@);
            return true;
        }
        i += 1;
    }
    assert forall|j: int| 0 <= j < string_views(v@).len() implies string_views(v@)[j] != x@ by {
        assert(v@[j]@ != x@);
    }
    false
}

impl Config {
    /// Get the effective base URL, considering domain configuration.
    pub fn get_effective_base_url(&self) -> (res: String)
        ensures
            res@ == effective_url(*self),
    {
        match &self.blog.domains {
            Some(domains) => {
                let scheme_text = if domains.enforce_https { "https" } else { "http" };
                match &domains.primary {
                    Some(primary) => {
                        let mut u = String::new();
                        push_str(&mut u, scheme_text);
                        push_str(&mut u, "://");
                        push_str(&mut u, primary.as_str());
                        strip_slashes_string(&u)
                    },
                    None => match &domains.subdomain {
                        Some(sd) => {
                            let mut u = String::new();
                            push_str(&mut u, scheme_text);
                            push_str(&mut u, "://");
                            push_str(&mut u, sd.prefix.as_str());
                            push_str(&mut u, ".");
                            push_str(&mut u, sd.base_domain.as_str());
                            strip_slashes_string(&u)
                        },
                        None => strip_slashes_string(&self.blog.base_url),
                    },
                }
            },
            None => strip_slashes_string(&self.blog.base_url),
        }
    }

    /// Detect the deployment type based on the effective base URL.
    pub fn get_deployment_type(&self) -> (res: DeploymentType)
        ensures
            res == deployment_of(url_parts(effective_url(*self))),
    {
        let url = self.get_effective_base_url();
        let parts = parse_url_parts(url.as_str());
        deployment_type_for(&parts)
    }

    /// Sets the base URL to the effective URL.
    pub fn sync_base_url_with_domains(&mut self)
        ensures
            final(self).blog.base_url@ == effective_url(*old(self)),
            final(self).blog.domains == old(self).blog.domains,
            final(self).blog.title == old(self).blog.title,
            final(self).theme == old(self).theme,
    {
        let u = self.get_effective_base_url();
        self.blog.base_url = u;
    }

    /// Set primary domain (also the GitHub Pages domain).
    pub fn set_primary_domain(&mut self, domain: String, enforce_https: bool)
        ensures
            same_but_domains(*final(self), *old(self)),
            final(self).blog.domains matches Some(d) && {
                &&& d.primary == Some(domain)
                &&& d.enforce_https == enforce_https
                &&& d.github_pages_domain == Some(domain)
                &&& match old(self).blog.domains {
                    Some(od) => d.aliases == od.aliases && d.subdomain == od.subdomain,
                    None => d.aliases@.len() == 0 && d.subdomain is None,
                }
            },
    {
        match self.blog.domains.take() {
            None => {
                self.blog.domains = Some(DomainConfig {
                    primary: Some(domain.clone()),
                    aliases: Vec::new(),
                    subdomain: None,
                    enforce_https,
                    github_pages_domain: Some(domain),
                });
            },
            Some(mut d) => {
                d.primary = Some(domain.clone());
                d.enforce_https = enforce_https;
                d.github_pages_domain = Some(domain);
                self.blog.domains = Some(d);
            },
        }
    }

    /// Set subdomain configuration (its full name becomes the GitHub Pages
    /// domain).
    pub fn set_subdomain(&mut self, prefix: String, base_domain: String, enforce_https: bool)
        ensures
            same_but_domains(*final(self), *old(self)),
            final(self).blog.domains matches Some(d) && {
                &&& d.subdomain matches Some(sd) && sd.prefix == prefix && sd.base_domain == base_domain
                &&& d.enforce_https == enforce_https
                &&& opt_view(d.github_pages_domain) == Some(prefix@ + "."@ + base_domain@)
                &&& match old(self).blog.domains {
                    Some(od) => d.aliases == od.aliases && d.primary == od.primary,
                    None => d.aliases@.len() == 0 && d.primary is None,
                }
            },
    {
        let mut full = String::new();
        push_str(&mut full, prefix.as_str());
        push_str(&mut full, ".");
        push_str(&mut full, base_domain.as_str());
        match self.blog.domains.take() {
            None => {
                self.blog.domains = Some(DomainConfig {
                    primary: None,
                    aliases: Vec::new(),
                    subdomain: Some(SubdomainConfig { prefix, base_domain }),
                    enforce_https,
                    github_pages_domain: Some(full),
                });
            },
            Some(mut d) => {
                d.subdomain = Some(SubdomainConfig { prefix, base_domain });
                d.enforce_https = enforce_https;
                d.github_pages_domain = Some(full);
                self.blog.domains = Some(d);
            },
        }
    }

    /// Add domain alias (once).
    pub fn add_domain_alias(&mut self, alias: String)
        ensures
            same_but_domains(*final(self), *old(self)),
            final(self).blog.domains matches Some(d) && match old(self).blog.domains {
                Some(od) => {
                    &&& string_views(d.aliases@) == aliases_after_add(string_views(od.aliases@), alias@)
                    &&& d.primary == od.primary
                    &&& d.subdomain == od.subdomain
                    &&& d.enforce_https == od.enforce_https
                    &&& d.github_pages_domain == od.github_pages_domain
                },
                None => {
                    &&& string_views(d.aliases@) == seq![alias@]
                    &&& d.primary is None
                    &&& d.subdomain is None
                    &&& d.enforce_https
                    &&& d.github_pages_domain is None
                },
            },
    {
        match self.blog.domains.take() {
            None => {
                let v = vec![alias];
                assert(string_views(v@) =~= seq![v@[0]@]);
                self.blog.domains = Some(DomainConfig {
                    primary: None,
                    aliases: v,
                    subdomain: None,
                    enforce_https: true,
                    github_pages_domain: None,
                });
            },
            Some(mut d) => {
                let ghost before = string_views(d.aliases@);
                if !string_in(&d.aliases, &alias) {
                    let ghost av = alias@;
                    d.aliases.push(alias);
                    assert(string_views(d.aliases@) =~= before.push(av));
                }
                self.blog.domains = Some(d);
            },
        }
    }

    /// Remove domain alias.
    pub fn remove_domain_alias(&mut self, alias: &str)
        ensures
            same_but_domains(*final(self), *old(self)),
            match old(self).blog.domains {
                Some(od) => final(self).blog.domains matches Some(d) && {
                    &&& string_views(d.aliases@) == aliases_after_remove(string_views(od.aliases@), alias@)
                    &&& d.primary == od.primary
                    &&& d.subdomain == od.subdomain
                    &&& d.enforce_https == od.enforce_https
                    &&& d.github_pages_domain == od.github_pages_domain
                },
                None => final(self).blog.domains is None,
            },
    {
        match self.blog.domains.take() {
            None => {},
            Some(mut d) => {
                let ghost sv = string_views(d.aliases@);
                let mut kept: Vec<String> = Vec::new();
                let mut i: usize = 0;
                while i < d.aliases.len()
                    invariant
                        i <= d.aliases@.len(),
                        sv == string_views(d.aliases@),
                        string_views(kept@) == aliases_after_remove(sv.take(i as int), alias@),
                    decreases d.aliases.len() - i,
                {
                    proof {
                        reveal(Seq::filter);
                        assert(sv.take(i + 1).drop_last() =~= sv.take(i as int));
                        assert(sv.take(i + 1).last() == d.aliases@[i as int]@);
                    }
                    if !str_eq(d.aliases[i].as_str(), alias) {
                        let ghost before = string_views(kept@);
                        let a = d.aliases[i].clone();
                        kept.push(a);
                        assert(string_views(kept@) =~= before.push(sv[i as int]));
                    }
                    i += 1;
                }
                assert(sv.take(d.aliases@.len() as int) =~= sv);
                d.aliases = kept;
                self.blog.domains = Some(d);
            },
        }
    }

    /// Clear all domain configuration.
    pub fn clear_domains(&mut self)
        ensures
            same_but_domains(*final(self), *old(self)),
            final(self).blog.domains is None,
    {
        self.blog.domains = None;
    }

    /// Get all configured domains (primary, subdomain, aliases).
    pub fn get_all_domains(&self) -> (res: Vec<String>)
        ensures
            string_views(res@) == all_domains(*self),
    {
        let mut out: Vec<String> = Vec::new();
        match &self.blog.domains {
            None => {
                assert(string_views(out@) =~= all_domains(*self));
            },
            Some(d) => {
                let ghost p = match &d.primary {
                    Some(p) => seq![p@],
                    None => Seq::<Seq<char>>::empty(),
                };
                if let Some(primary) = &d.primary {
                    out.push(primary.clone());
                }
                assert(string_views(out@) =~= p);
                let ghost q = match &d.subdomain {
                    Some(sd) => seq![sd.prefix@ + "."@ + sd.base_domain@],
                    None => Seq::<Seq<char>>::empty(),
                };
                if let Some(sd) = &d.subdomain {
                    let mut full = String::new();
                    push_str(&mut full, sd.prefix.as_str());
                    push_str(&mut full, ".");
                    push_str(&mut full, sd.base_domain.as_str());
                    out.push(full);
                }
                assert(string_views(out@) =~= p + q);
                let mut i: usize = 0;
                while i < d.aliases.len()
                    invariant
                        i <= d.aliases@.len(),
                        string_views(out@) == p + q + string_views(d.aliases@).take(i as int),
                    decreases d.aliases.len() - i,
                {
                    let ghost before = string_views(out@);
                    out.push(d.aliases[i].clone());
                    assert(string_views(out@) =~= before.push(d.aliases@[i as int]@));
                    assert(string_views(d.aliases@).take(i + 1) =~= string_views(d.aliases@).take(i as int).push(d.aliases@[i as int]@));
                    i += 1;
                }
                assert(string_views(d.aliases@).take(d.aliases@.len() as int) =~= string_views(d.aliases@));
            },
        }
        out
    }
}

/// Adding an alias puts it among the aliases, and adding it again changes
/// nothing; removing it takes it out and keeps every other alias.
pub proof fn law_alias_add_remove(a: Seq<Seq<char>>, x: Seq<char>, y: Seq<char>)
    ensures
        aliases_after_add(a, x).contains(x),
        aliases_after_add(aliases_after_add(a, x), x) == aliases_after_add(a, x),
        !aliases_after_remove(a, x).contains(x),
        y != x ==> (aliases_after_remove(a, x).contains(y) == a.contains(y)),
{
    let p = other_than(x);
    if !a.contains(x) {
        assert(a.push(x)[a.len() as int] == x);
    }
    if aliases_after_remove(a, x).contains(x) {
        let i = choose|i: int| 0 <= i < aliases_after_remove(a, x).len() && aliases_after_remove(a, x)[i] == x;
        a.lemma_filter_pred(p, i);
    }
    if y != x {
        if a.contains(y) {
            let i = choose|i: int| 0 <= i < a.len() && a[i] == y;
            a.lemma_filter_contains(p, i);
        }
        if aliases_after_remove(a, x).contains(y) {
            let i = choose|i: int| 0 <= i < aliases_after_remove(a, x).len() && aliases_after_remove(a, x)[i] == y;
            a.lemma_filter_pred(p, i);
            a.lemma_filter_contains_rev(p, y);
        }
    }
}

/// After setting a primary domain the site URL is that domain under the
/// chosen scheme, and it is the first of all domains.
pub proof fn law_primary_domain_decides_url(c: Config, d: Config, domain: String, https: bool)
    requires
        same_but_domains(d, c),
        d.blog.domains matches Some(dc) && dc.primary == Some(domain) && dc.enforce_https == https,
    ensures
        effective_url(d) == strip_slashes(scheme(https) + "://"@ + domain@),
        all_domains(d).len() > 0 && all_domains(d)[0] == domain@,
{
}

// ---------------------------------------------------------------------------
// Domain commands
// ---------------------------------------------------------------------------

/// The domain subcommands.
pub enum DomainAction {
    SetDomain { domain: Option<String>, subdomain: Option<String>, enforce_https: bool, github_pages: bool },
    List,
    Clear,
    AddAlias { alias: String },
    RemoveAlias { alias: String },
}

/// What to do with a domain given to `domain set`.
pub enum DomainPlan {
    /// Configure this subdomain.
    Subdomain { prefix: String, base_domain: String },
    /// The name looks like a subdomain: ask, and configure this subdomain
    /// if the answer is yes, else the name as primary domain.
    AskSubdomain { prefix: String, base_domain: String },
    /// Configure the name as primary domain.
    Primary,
    /// A subdomain was asked for but the name has no dot.
    Invalid,
}

/// The plan for a domain name: with an explicit subdomain prefix the part
/// after the first dot is the base domain (the name needs a dot); without
/// one, a name of more than two labels is offered as a subdomain of the
/// rest, and others are primary domains.
pub open spec fn domain_plan(domain: Seq<char>, prefix: Option<Seq<char>>) -> (int, Seq<char>, Seq<char>) {
    let parts = split(domain, Sep::Char('.'));
    let base = join(parts.skip(1), "."@);
    match prefix {
        Some(p) => if parts.len() < 2 {
            (3, Seq::empty(), Seq::empty())
        } else {
            (0, p, base)
        },
        None => if parts.len() > 2 {
            (1, parts[0], base)
        } else {
            (2, Seq::empty(), Seq::empty())
        },
    }
}

/// The plan as (kind, prefix, base domain), kinds numbered in the order of
/// the variants.
pub open spec fn plan_view(p: DomainPlan) -> (int, Seq<char>, Seq<char>) {
    match p {
        DomainPlan::Subdomain { prefix, base_domain } => (0, prefix@, base_domain@),
        DomainPlan::AskSubdomain { prefix, base_domain } => (1, prefix@, base_domain@),
        DomainPlan::Primary => (2, Seq::empty(), Seq::empty()),
        DomainPlan::Invalid => (3, Seq::empty(), Seq::empty()),
    }
}

/// Decides how to configure a domain name.
pub fn plan_domain(domain: &str, subdomain: Option<String>) -> (res: DomainPlan)
    ensures
        plan_view(res) == domain_plan(domain@, opt_view(subdomain)),
{
    let v = chars_of(domain);
    let parts = split_vec(&v, &Sep::Char('.'));
    proof { crate::text::lemma_split_nonempty(v@, Sep::Char('.')); }
    let ghost pv = views(parts@);
    match subdomain {
        Some(prefix) => {
            if parts.len() < 2 {
                DomainPlan::Invalid
            } else {
                let base = join_from(&parts, 1);
                DomainPlan::Subdomain { prefix, base_domain: base }
            }
        },
        None => {
            if parts.len() > 2 {
                let prefix = string_of(&parts[0]);
                let base = join_from(&parts, 1);
                DomainPlan::AskSubdomain { prefix, base_domain: base }
            } else {
                DomainPlan::Primary
            }
        },
    }
}

fn join_from(parts: &Vec<Vec<char>>, from: usize) -> (res: String)
    requires
        from <= parts@.len(),
    ensures
        res@ == join(views(parts@).skip(from as int), "."@),
{
    let mut rest: Vec<Vec<char>> = Vec::new();
    let mut i = from;
    while i < parts.len()
        invariant
            from <= i <= parts@.len(),
            views(rest@) == views(parts@).subrange(from as int, i as int),
        decreases parts.len() - i,
    {
        let ghost before = views(rest@);
        let c = parts[i].clone();
        assert(c@ =~= parts@[i as int]@);
        rest.push(c);
        assert(views(rest@) =~= before.push(parts@[i as int]@));
        assert(views(parts@).subrange(from as int, i + 1) =~= views(parts@).subrange(from as int, i as int).push(parts@[i as int]@));
        i += 1;
    }
    assert(views(parts@).subrange(from as int, parts@.len() as int) =~= views(parts@).skip(from as int));
    let dot = chars_of(".");
    crate::text::join_all(&rest, &dot)
}

/// An answer to a yes/no question whose default is yes: blank, `y` or
/// `yes`, ignoring case and surrounding space.
pub open spec fn is_yes(answer_lower: Seq<char>) -> bool {
    answer_lower.len() == 0 || answer_lower == "y"@ || answer_lower == "yes"@
}

/// Whether an answer (already trimmed and lower-cased) accepts.
pub fn accepts_yes(answer_lower: &str) -> (res: bool)
    ensures
        res == is_yes(answer_lower@),
{
    answer_lower.unicode_len() == 0 || str_eq(answer_lower, "y") || str_eq(answer_lower, "yes")
}

// ---------------------------------------------------------------------------
// Values from the environment
// ---------------------------------------------------------------------------

/// Settings read from the environment; reading happens outside the
/// library, which picks among what was found.
pub struct EnvConfig;

impl EnvConfig {
    /// The first value that is set.
    pub fn first_set(first: Option<String>, second: Option<String>) -> (res: Option<String>)
        ensures
            res == match first {
                Some(v) => Some(v),
                None => second,
            },
    {
        match first {
            Some(v) => Some(v),
            None => second,
        }
    }

    /// A value printed by `git config`, without surrounding white space.
    pub fn git_value(output: &str) -> (res: String)
        ensures
            res@ == trim(output@),
    {
        let v = chars_of(output);
        let t = trim_vec(&v);
        string_of(&t)
    }
}

} // verus!
