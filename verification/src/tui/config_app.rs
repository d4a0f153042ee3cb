//! The configuration editor screen: the fields it shows, grouped in
//! sections, what each field shows and how typing a value changes the
//! configuration, and the screen's modes as a state machine. Writing the
//! configuration to disk is done by the caller when a key asks for it.
use vstd::prelude::*;
use crate::config::{BlogConfig, BuildConfig, Config, DevConfig, DomainConfig, ThemeConfig, TomlItem, TomlValue,
    options_set, parse_toml_value, toml_value_read, value_text};
use crate::text::{chars_of, dec, push_char, push_dec, push_str, str_eq, trim, trim_vec, string_of, string_of_range};
use crate::themes::{get_all_themes, schema_view, theme_registry, theme_schema, theme_site_type, registry_view, ThemeInfo};
use crate::commands::theme::{default_value, schema_names};

verus! {

// ---------------------------------------------------------------------------
// Reading the text of a value
// ---------------------------------------------------------------------------

/// What `str::parse::<bool>` gives: `true` and `false` only.
pub open spec fn bool_named(s: Seq<char>) -> Option<bool> {
    if s == "true"@ {
        Some(true)
    } else if s == "false"@ {
        Some(false)
    } else {
        None
    }
}

/// Why a text is not a number.
#[derive(Clone, Copy, PartialEq, Eq, Structural, Debug)]
pub enum NumberError {
    Empty,
    InvalidDigit,
    TooLarge,
}

/// The message of a number error, as the standard library words it.
pub open spec fn number_error_text(e: NumberError) -> Seq<char> {
    match e {
        NumberError::Empty => "cannot parse integer from empty string"@,
        NumberError::InvalidDigit => "invalid digit found in string"@,
        NumberError::TooLarge => "number too large to fit in target type"@,
    }
}

/// Whether a character is a decimal digit.
pub open spec fn is_digit(c: char) -> bool {
    '0' <= c && c <= '9'
}

/// Reads decimal digits from the left onto `acc`, stopping at the first
/// character that is not a digit or the first value above 65535.
pub open spec fn scan_u16(d: Seq<char>, acc: int) -> Result<int, NumberError>
    decreases d.len(),
{
    if d.len() == 0 {
        Ok(acc)
    } else if !is_digit(d[0]) {
        Err(NumberError::InvalidDigit)
    } else {
        let n = acc * 10 + (d[0] as int - '0' as int);
        if n > 65535 {
            Err(NumberError::TooLarge)
        } else {
            scan_u16(d.skip(1), n)
        }
    }
}

/// What `str::parse::<u16>` gives: decimal digits after an optional `+`.
pub open spec fn u16_named(s: Seq<char>) -> Result<int, NumberError> {
    if s.len() == 0 {
        Err(NumberError::Empty)
    } else if s[0] == '+' {
        if s.len() == 1 {
            Err(NumberError::InvalidDigit)
        } else {
            scan_u16(s.skip(1), 0)
        }
    } else {
        scan_u16(s, 0)
    }
}

/// Reads a boolean as `str::parse::<bool>` does.
pub fn parse_bool(s: &str) -> (res: Option<bool>)
    ensures
        res == bool_named(s@),
{
    if str_eq(s, "true") {
        Some(true)
    } else if str_eq(s, "false") {
        Some(false)
    } else {
        None
    }
}

/// Reads a port number as `str::parse::<u16>` does.
pub fn parse_u16(s: &str) -> (res: Result<u16, NumberError>)
    ensures
        match res {
            Ok(n) => u16_named(s@) == Ok::<int, NumberError>(n as int),
            Err(e) => u16_named(s@) == Err::<int, NumberError>(e),
        },
{
    let v = chars_of(s);
    if v.len() == 0 {
        return Err(NumberError::Empty);
    }
    let mut i: usize = 0;
    if v[0] == '+' {
        if v.len() == 1 {
            return Err(NumberError::InvalidDigit);
        }
        i = 1;
    }
    let ghost start = i as int;
    let mut acc: u32 = 0;
    proof {
        if start == 0 {
            assert(v@.skip(0) =~= v@);
        }
    }
    while i < v.len()
        invariant
            v@ == s@,
            u16_named(s@) == scan_u16(v@.skip(start), 0),
            start <= i <= v@.len(),
            acc <= 65535,
            scan_u16(v@.skip(start), 0) == scan_u16(v@.skip(i as int), acc as int),
        decreases v.len() - i,
    {
        assert(v@.skip(i as int).skip(1) =~= v@.skip(i + 1));
        let c = v[i];
        assert(v@.skip(i as int)[0] == c);
        if !('0' <= c && c <= '9') {
            return Err(NumberError::InvalidDigit);
        }
        let d: u32 = (c as u32) - ('0' as u32);
        let n: u32 = acc * 10 + d;
        if n > 65535 {
            return Err(NumberError::TooLarge);
        }
        acc = n;
        i += 1;
    }
    assert(v@.skip(i as int).len() == 0);
    Ok(acc as u16)
}

/// The message of a number error.
pub fn number_error_message(e: NumberError) -> (res: String)
    ensures
        res@ == number_error_text(e),
{
    match e {
        NumberError::Empty => String::from_str("cannot parse integer from empty string"),
        NumberError::InvalidDigit => String::from_str("invalid digit found in string"),
        NumberError::TooLarge => String::from_str("number too large to fit in target type"),
    }
}

/// The message when a boolean does not read, as the standard library
/// words it.
pub open spec fn bool_error_text() -> Seq<char> {
    "provided string was not `true` or `false`"@
}

// ---------------------------------------------------------------------------
// Fields
// ---------------------------------------------------------------------------

/// A field of the configuration editor.
pub enum ConfigField {
    BlogTitle,
    BlogAuthor,
    BlogDescription,
    BlogBaseUrl,
    BlogLanguage,
    BlogTimezone,
    ThemeName,
    ThemeOption { name: String, value: TomlValue },
    DomainPrimary,
    DomainEnforceHttps,
    BuildOutputDir,
    BuildDrafts,
    BuildFuturePosts,
    DevPort,
    DevAutoReload,
}

/// How a field is labelled.
pub open spec fn field_label(f: ConfigField) -> Seq<char> {
    match f {
        ConfigField::BlogTitle => "Blog Title"@,
        ConfigField::BlogAuthor => "Blog Author"@,
        ConfigField::BlogDescription => "Blog Description"@,
        ConfigField::BlogBaseUrl => "Base URL"@,
        ConfigField::BlogLanguage => "Language"@,
        ConfigField::BlogTimezone => "Timezone"@,
        ConfigField::ThemeName => "Theme Name"@,
        ConfigField::ThemeOption { name, .. } => name@,
        ConfigField::DomainPrimary => "Primary Domain"@,
        ConfigField::DomainEnforceHttps => "Enforce HTTPS"@,
        ConfigField::BuildOutputDir => "Output Directory"@,
        ConfigField::BuildDrafts => "Include Drafts"@,
        ConfigField::BuildFuturePosts => "Include Future Posts"@,
        ConfigField::DevPort => "Development Port"@,
        ConfigField::DevAutoReload => "Auto Reload"@,
    }
}

/// A boolean as text.
pub open spec fn bool_text(b: bool) -> Seq<char> {
    if b { "true"@ } else { "false"@ }
}

/// An optional text, empty when absent.
pub open spec fn or_empty(o: Option<String>) -> Seq<char> {
    match o {
        Some(s) => s@,
        None => Seq::empty(),
    }
}

/// What a field shows of a configuration.
pub open spec fn field_value(c: Config, f: ConfigField) -> Seq<char> {
    match f {
        ConfigField::BlogTitle => c.blog.title@,
        ConfigField::BlogAuthor => c.blog.author@,
        ConfigField::BlogDescription => c.blog.description@,
        ConfigField::BlogBaseUrl => c.blog.base_url@,
        ConfigField::BlogLanguage => or_empty(c.blog.language),
        ConfigField::BlogTimezone => or_empty(c.blog.timezone),
        ConfigField::ThemeName => c.theme.name@,
        ConfigField::ThemeOption { value, .. } => value_text(value@),
        ConfigField::DomainPrimary => match c.blog.domains {
            Some(d) => or_empty(d.primary),
            None => Seq::empty(),
        },
        ConfigField::DomainEnforceHttps => match c.blog.domains {
            Some(d) => bool_text(d.enforce_https),
            None => "true"@,
        },
        ConfigField::BuildOutputDir => match c.build.output_dir {
            Some(s) => s@,
            None => "dist"@,
        },
        ConfigField::BuildDrafts => bool_text(c.build.drafts),
        ConfigField::BuildFuturePosts => bool_text(c.build.future_posts),
        ConfigField::DevPort => dec(c.dev.port as nat),
        ConfigField::DevAutoReload => bool_text(c.dev.auto_reload),
    }
}

fn bool_string(b: bool) -> (res: String)
    ensures
        res@ == bool_text(b),
{
    if b { String::from_str("true") } else { String::from_str("false") }
}

fn or_empty_string(o: &Option<String>) -> (res: String)
    ensures
        res@ == or_empty(*o),
{
    match o {
        Some(s) => s.clone(),
        None => String::new(),
    }
}

/// Whether the field holds a boolean.
pub open spec fn field_is_boolean(f: ConfigField) -> bool {
    match f {
        ConfigField::DomainEnforceHttps | ConfigField::BuildDrafts | ConfigField::BuildFuturePosts
        | ConfigField::DevAutoReload => true,
        ConfigField::ThemeOption { value, .. } => value is Boolean,
        _ => false,
    }
}

/// Whether the field holds a number.
pub open spec fn field_is_numeric(f: ConfigField) -> bool {
    match f {
        ConfigField::DevPort => true,
        ConfigField::ThemeOption { value, .. } => value is Integer,
        _ => false,
    }
}

/// An optional text from typed text: none when empty.
pub open spec fn nonempty_text(v: String) -> Option<String> {
    if v@.len() == 0 { None } else { Some(v) }
}

/// The domain settings after the primary domain is typed: missing
/// settings start from HTTPS enforced and nothing else; the typed domain
/// (none when empty) becomes both the primary and the GitHub Pages domain.
pub open spec fn primary_typed(old: Option<DomainConfig>, new: DomainConfig, v: String) -> bool {
    match old {
        Some(d) => new == DomainConfig { primary: nonempty_text(v), github_pages_domain: nonempty_text(v), ..d },
        None => new.primary == nonempty_text(v) && new.aliases@.len() == 0 && new.subdomain is None
            && new.enforce_https && new.github_pages_domain == nonempty_text(v),
    }
}

/// The domain settings after HTTPS enforcement is set: missing settings
/// start empty.
pub open spec fn https_typed(old: Option<DomainConfig>, new: DomainConfig, b: bool) -> bool {
    match old {
        Some(d) => new == DomainConfig { enforce_https: b, ..d },
        None => new.primary is None && new.aliases@.len() == 0 && new.subdomain is None
            && new.enforce_https == b && new.github_pages_domain is None,
    }
}

/// The configuration after typing `v` into a field, and the result: a
/// message when the text does not read as the field's kind of value, the
/// configuration then unchanged. The title field writes the author.
pub open spec fn field_set(old: Config, new: Config, f: ConfigField, v: String, res: Result<(), String>) -> bool {
    match f {
        ConfigField::BlogTitle => res is Ok && new == Config { blog: BlogConfig { author: v, ..old.blog }, ..old },
        ConfigField::BlogAuthor => res is Ok && new == Config { blog: BlogConfig { author: v, ..old.blog }, ..old },
        ConfigField::BlogDescription =>
            res is Ok && new == Config { blog: BlogConfig { description: v, ..old.blog }, ..old },
        ConfigField::BlogBaseUrl =>
            res is Ok && new == Config { blog: BlogConfig { base_url: v, ..old.blog }, ..old },
        ConfigField::BlogLanguage =>
            res is Ok && new == Config { blog: BlogConfig { language: nonempty_text(v), ..old.blog }, ..old },
        ConfigField::BlogTimezone =>
            res is Ok && new == Config { blog: BlogConfig { timezone: nonempty_text(v), ..old.blog }, ..old },
        ConfigField::ThemeName => res is Ok && new == Config { theme: ThemeConfig { name: v, ..old.theme }, ..old },
        ConfigField::ThemeOption { name, value } => match value {
            TomlValue::String(_) => res is Ok && new == Config { theme: new.theme, ..old }
                && new.theme.name == old.theme.name
                && options_set(old.theme.config@, name, TomlValue::String(v), new.theme.config@),
            _ => match toml_value_read(v@) {
                Ok(item) => res is Ok && new == Config { theme: new.theme, ..old }
                    && new.theme.name == old.theme.name
                    && exists|x: TomlValue| x@ == item && #[trigger] options_set(old.theme.config@, name, x, new.theme.config@),
                Err(m) => (res matches Err(e) && e@ == m) && new == old,
            },
        },
        ConfigField::DomainPrimary => res is Ok && (new.blog.domains matches Some(d)
            && primary_typed(old.blog.domains, d, v))
            && new == Config { blog: BlogConfig { domains: new.blog.domains, ..old.blog }, ..old },
        ConfigField::DomainEnforceHttps => match bool_named(v@) {
            None => (res matches Err(m) && m@ == bool_error_text()) && new == old,
            Some(b) => res is Ok && (new.blog.domains matches Some(d) && https_typed(old.blog.domains, d, b))
                && new == Config { blog: BlogConfig { domains: new.blog.domains, ..old.blog }, ..old },
        },
        ConfigField::BuildOutputDir =>
            res is Ok && new == Config { build: BuildConfig { output_dir: nonempty_text(v), ..old.build }, ..old },
        ConfigField::BuildDrafts => match bool_named(v@) {
            None => (res matches Err(m) && m@ == bool_error_text()) && new == old,
            Some(b) => res is Ok && new == Config { build: BuildConfig { drafts: b, ..old.build }, ..old },
        },
        ConfigField::BuildFuturePosts => match bool_named(v@) {
            None => (res matches Err(m) && m@ == bool_error_text()) && new == old,
            Some(b) => res is Ok && new == Config { build: BuildConfig { future_posts: b, ..old.build }, ..old },
        },
        ConfigField::DevPort => match u16_named(v@) {
            Err(e) => (res matches Err(m) && m@ == number_error_text(e)) && new == old,
            Ok(n) => res is Ok && new == Config { dev: DevConfig { port: n as u16, ..old.dev }, ..old },
        },
        ConfigField::DevAutoReload => match bool_named(v@) {
            None => (res matches Err(m) && m@ == bool_error_text()) && new == old,
            Some(b) => res is Ok && new == Config { dev: DevConfig { auto_reload: b, ..old.dev }, ..old },
        },
    }
}

fn nonempty_string(v: String) -> (res: Option<String>)
    ensures
        res == nonempty_text(v),
{
    if v.as_str().is_empty() { None } else { Some(v) }
}

fn bool_error() -> (res: String)
    ensures
        res@ == bool_error_text(),
{
    String::from_str("provided string was not `true` or `false`")
}

impl ConfigField {
    /// The same field.
    pub fn copy(&self) -> (res: ConfigField)
        ensures
            res == *self,
    {
        match self {
            ConfigField::BlogTitle => ConfigField::BlogTitle,
            ConfigField::BlogAuthor => ConfigField::BlogAuthor,
            ConfigField::BlogDescription => ConfigField::BlogDescription,
            ConfigField::BlogBaseUrl => ConfigField::BlogBaseUrl,
            ConfigField::BlogLanguage => ConfigField::BlogLanguage,
            ConfigField::BlogTimezone => ConfigField::BlogTimezone,
            ConfigField::ThemeName => ConfigField::ThemeName,
            ConfigField::ThemeOption { name, value } => ConfigField::ThemeOption {
                name: name.clone(),
                value: value.copy(),
            },
            ConfigField::DomainPrimary => ConfigField::DomainPrimary,
            ConfigField::DomainEnforceHttps => ConfigField::DomainEnforceHttps,
            ConfigField::BuildOutputDir => ConfigField::BuildOutputDir,
            ConfigField::BuildDrafts => ConfigField::BuildDrafts,
            ConfigField::BuildFuturePosts => ConfigField::BuildFuturePosts,
            ConfigField::DevPort => ConfigField::DevPort,
            ConfigField::DevAutoReload => ConfigField::DevAutoReload,
        }
    }

    /// How the field is labelled.
    pub fn label(&self) -> (res: String)
        ensures
            res@ == field_label(*self),
    {
        match self {
            ConfigField::BlogTitle => String::from_str("Blog Title"),
            ConfigField::BlogAuthor => String::from_str("Blog Author"),
            ConfigField::BlogDescription => String::from_str("Blog Description"),
            ConfigField::BlogBaseUrl => String::from_str("Base URL"),
            ConfigField::BlogLanguage => String::from_str("Language"),
            ConfigField::BlogTimezone => String::from_str("Timezone"),
            ConfigField::ThemeName => String::from_str("Theme Name"),
            ConfigField::ThemeOption { name, .. } => name.clone(),
            ConfigField::DomainPrimary => String::from_str("Primary Domain"),
            ConfigField::DomainEnforceHttps => String::from_str("Enforce HTTPS"),
            ConfigField::BuildOutputDir => String::from_str("Output Directory"),
            ConfigField::BuildDrafts => String::from_str("Include Drafts"),
            ConfigField::BuildFuturePosts => String::from_str("Include Future Posts"),
            ConfigField::DevPort => String::from_str("Development Port"),
            ConfigField::DevAutoReload => String::from_str("Auto Reload"),
        }
    }

    /// What the field shows of a configuration.
    pub fn get_value(&self, config: &Config) -> (res: String)
        ensures
            res@ == field_value(*config, *self),
    {
        match self {
            ConfigField::BlogTitle => config.blog.title.clone(),
            ConfigField::BlogAuthor => config.blog.author.clone(),
            ConfigField::BlogDescription => config.blog.description.clone(),
            ConfigField::BlogBaseUrl => config.blog.base_url.clone(),
            ConfigField::BlogLanguage => or_empty_string(&config.blog.language),
            ConfigField::BlogTimezone => or_empty_string(&config.blog.timezone),
            ConfigField::ThemeName => config.theme.name.clone(),
            ConfigField::ThemeOption { value, .. } => value.text(),
            ConfigField::DomainPrimary => match &config.blog.domains {
                Some(d) => or_empty_string(&d.primary),
                None => String::new(),
            },
            ConfigField::DomainEnforceHttps => match &config.blog.domains {
                Some(d) => bool_string(d.enforce_https),
                None => String::from_str("true"),
            },
            ConfigField::BuildOutputDir => match &config.build.output_dir {
                Some(s) => s.clone(),
                None => String::from_str("dist"),
            },
            ConfigField::BuildDrafts => bool_string(config.build.drafts),
            ConfigField::BuildFuturePosts => bool_string(config.build.future_posts),
            ConfigField::DevPort => {
                let mut out = String::new();
                push_dec(&mut out, config.dev.port as u128);
                out
            },
            ConfigField::DevAutoReload => bool_string(config.dev.auto_reload),
        }
    }

    /// Whether the field holds a boolean.
    pub fn is_boolean(&self) -> (res: bool)
        ensures
            res == field_is_boolean(*self),
    {
        match self {
            ConfigField::DomainEnforceHttps | ConfigField::BuildDrafts | ConfigField::BuildFuturePosts
            | ConfigField::DevAutoReload => true,
            ConfigField::ThemeOption { value, .. } => match value {
                TomlValue::Boolean(_) => true,
                _ => false,
            },
            _ => false,
        }
    }

    /// Whether the field holds a number.
    pub fn is_numeric(&self) -> (res: bool)
        ensures
            res == field_is_numeric(*self),
    {
        match self {
            ConfigField::DevPort => true,
            ConfigField::ThemeOption { value, .. } => match value {
                TomlValue::Integer(_) => true,
                _ => false,
            },
            _ => false,
        }
    }

    /// Types `new_value` into the field of the configuration.
    pub fn set(&self, config: &mut Config, new_value: String) -> (res: Result<(), String>)
        ensures
            field_set(*old(config), *final(config), *self, new_value, res),
    {
        match self {
            ConfigField::BlogTitle => config.blog.author = new_value,
            ConfigField::BlogAuthor => config.blog.author = new_value,
            ConfigField::BlogDescription => config.blog.description = new_value,
            ConfigField::BlogBaseUrl => config.blog.base_url = new_value,
            ConfigField::BlogLanguage => config.blog.language = nonempty_string(new_value),
            ConfigField::BlogTimezone => config.blog.timezone = nonempty_string(new_value),
            ConfigField::ThemeName => config.theme.name = new_value,
            ConfigField::ThemeOption { name, value } => {
                let v = match value {
                    TomlValue::String(_) => TomlValue::String(new_value),
                    _ => match parse_toml_value(new_value.as_str()) {
                        Ok(v) => v,
                        Err(e) => return Err(e),
                    },
                };
                config.set_theme_config(name.clone(), v);
            },
            ConfigField::DomainPrimary => {
                let p = nonempty_string(new_value);
                let g = match &p {
                    Some(s) => Some(s.clone()),
                    None => None,
                };
                match &mut config.blog.domains {
                    Some(d) => {
                        d.primary = p;
                        d.github_pages_domain = g;
                    },
                    None => {
                        config.blog.domains = Some(DomainConfig {
                            primary: p,
                            aliases: Vec::new(),
                            subdomain: None,
                            enforce_https: true,
                            github_pages_domain: g,
                        });
                    },
                }
            },
            ConfigField::DomainEnforceHttps => {
                let b = match parse_bool(new_value.as_str()) {
                    Some(b) => b,
                    None => return Err(bool_error()),
                };
                match &mut config.blog.domains {
                    Some(d) => {
                        d.enforce_https = b;
                    },
                    None => {
                        config.blog.domains = Some(DomainConfig {
                            primary: None,
                            aliases: Vec::new(),
                            subdomain: None,
                            enforce_https: b,
                            github_pages_domain: None,
                        });
                    },
                }
            },
            ConfigField::BuildOutputDir => config.build.output_dir = nonempty_string(new_value),
            ConfigField::BuildDrafts => match parse_bool(new_value.as_str()) {
                Some(b) => config.build.drafts = b,
                None => return Err(bool_error()),
            },
            ConfigField::BuildFuturePosts => match parse_bool(new_value.as_str()) {
                Some(b) => config.build.future_posts = b,
                None => return Err(bool_error()),
            },
            ConfigField::DevPort => match parse_u16(new_value.as_str()) {
                Ok(n) => config.dev.port = n,
                Err(e) => return Err(number_error_message(e)),
            },
            ConfigField::DevAutoReload => match parse_bool(new_value.as_str()) {
                Some(b) => config.dev.auto_reload = b,
                None => return Err(bool_error()),
            },
        }
        Ok(())
    }
}

/// Typing a text into a field that shows text and then reading the field
/// gives the text back (a non-empty text for the optional ones). The
/// title field is left out: typing into it writes the author.
pub proof fn law_field_read_after_write(old: Config, new: Config, f: ConfigField, v: String, res: Result<(), String>)
    requires
        field_set(old, new, f, v, res),
        f is BlogAuthor || f is BlogDescription || f is BlogBaseUrl || f is ThemeName
            || ((f is BlogLanguage || f is BlogTimezone || f is BuildOutputDir || f is DomainPrimary) && v@.len() > 0),
    ensures
        res is Ok,
        field_value(new, f) == v@,
{
}

/// A typed value that is refused leaves the configuration unchanged.
pub proof fn law_rejected_value_changes_nothing(old: Config, new: Config, f: ConfigField, v: String, res: Result<(), String>)
    requires
        field_set(old, new, f, v, res),
        res is Err,
    ensures
        new == old,
{
}

// ---------------------------------------------------------------------------
// Sections and the field list
// ---------------------------------------------------------------------------

/// The sections of the editor, in the order they are listed.
#[derive(Clone, Copy, PartialEq, Eq, Structural, Debug)]
pub enum ConfigSection {
    Blog,
    Theme,
    Domain,
    Build,
    Development,
}

/// How a section is labelled.
pub open spec fn section_label(s: ConfigSection) -> Seq<char> {
    match s {
        ConfigSection::Blog => "Blog Settings"@,
        ConfigSection::Theme => "Theme Settings"@,
        ConfigSection::Domain => "Domain Settings"@,
        ConfigSection::Build => "Build Settings"@,
        ConfigSection::Development => "Development Settings"@,
    }
}

/// The theme fields of a configuration: the theme name, then one field
/// per theme option, named as the option.
pub open spec fn theme_fields(c: Config, fs: Seq<ConfigField>) -> bool {
    &&& fs.len() == c.theme.config@.len() + 1
    &&& fs[0] == ConfigField::ThemeName
    &&& forall|i: int| 0 <= i < c.theme.config@.len() ==>
        ((#[trigger] fs[i + 1]) matches ConfigField::ThemeOption { name, value }
            && name@ == c.theme.config@[i].0@ && value == c.theme.config@[i].1)
}

/// The fields of a section other than the theme's.
pub open spec fn fixed_fields(s: ConfigSection) -> Seq<ConfigField> {
    match s {
        ConfigSection::Blog => seq![ConfigField::BlogTitle, ConfigField::BlogAuthor, ConfigField::BlogDescription,
            ConfigField::BlogBaseUrl, ConfigField::BlogLanguage, ConfigField::BlogTimezone],
        ConfigSection::Theme => seq![ConfigField::ThemeName],
        ConfigSection::Domain => seq![ConfigField::DomainPrimary, ConfigField::DomainEnforceHttps],
        ConfigSection::Build => seq![ConfigField::BuildOutputDir, ConfigField::BuildDrafts, ConfigField::BuildFuturePosts],
        ConfigSection::Development => seq![ConfigField::DevPort, ConfigField::DevAutoReload],
    }
}

/// The fields listed under a section.
pub open spec fn section_fields(c: Config, s: ConfigSection, fs: Seq<ConfigField>) -> bool {
    if s == ConfigSection::Theme { theme_fields(c, fs) } else { fs == fixed_fields(s) }
}

impl ConfigSection {
    /// How the section is labelled.
    pub fn label(&self) -> (res: &'static str)
        ensures
            res@ == section_label(*self),
    {
        match self {
            ConfigSection::Blog => "Blog Settings",
            ConfigSection::Theme => "Theme Settings",
            ConfigSection::Domain => "Domain Settings",
            ConfigSection::Build => "Build Settings",
            ConfigSection::Development => "Development Settings",
        }
    }

    /// The sections in the order they are listed.
    pub fn all() -> (res: Vec<ConfigSection>)
        ensures
            res@ == seq![ConfigSection::Blog, ConfigSection::Theme, ConfigSection::Domain,
                ConfigSection::Build, ConfigSection::Development],
    {
        vec![ConfigSection::Blog, ConfigSection::Theme, ConfigSection::Domain,
            ConfigSection::Build, ConfigSection::Development]
    }

    /// The fields listed under the section.
    pub fn get_section(&self, config: &Config) -> (res: Vec<ConfigField>)
        ensures
            section_fields(*config, *self, res@),
    {
        match self {
            ConfigSection::Blog => vec![ConfigField::BlogTitle, ConfigField::BlogAuthor,
                ConfigField::BlogDescription, ConfigField::BlogBaseUrl, ConfigField::BlogLanguage,
                ConfigField::BlogTimezone],
            ConfigSection::Theme => {
                let mut fs = vec![ConfigField::ThemeName];
                let mut i: usize = 0;
                while i < config.theme.config.len()
                    invariant
                        i <= config.theme.config@.len(),
                        fs@.len() == i + 1,
                        fs@[0] == ConfigField::ThemeName,
                        forall|j: int| 0 <= j < i ==>
                            ((#[trigger] fs@[j + 1]) matches ConfigField::ThemeOption { name, value }
                            && name@ == config.theme.config@[j].0@ && value == config.theme.config@[j].1),
                    decreases config.theme.config.len() - i,
                {
                    let value = config.theme.config[i].1.copy();
                    fs.push(ConfigField::ThemeOption { name: config.theme.config[i].0.clone(), value });
                    i += 1;
                }
                fs
            },
            ConfigSection::Domain => vec![ConfigField::DomainPrimary, ConfigField::DomainEnforceHttps],
            ConfigSection::Build => vec![ConfigField::BuildOutputDir, ConfigField::BuildDrafts,
                ConfigField::BuildFuturePosts],
            ConfigSection::Development => vec![ConfigField::DevPort, ConfigField::DevAutoReload],
        }
    }
}

/// A line of the field list.
pub enum ListItem {
    Field(ConfigField),
    Section(ConfigSection),
    BlankLine,
}

/// The lines of one section: a blank line, its heading, its fields.
pub open spec fn section_lines(s: ConfigSection, fs: Seq<ConfigField>) -> Seq<ListItem> {
    seq![ListItem::BlankLine, ListItem::Section(s)] + fs.map_values(|f: ConfigField| ListItem::Field(f))
}

/// The field list of a configuration: each section's lines, in order.
pub open spec fn is_layout(c: Config, items: Seq<ListItem>) -> bool {
    exists|t: Seq<ConfigField>| #[trigger] theme_fields(c, t) && items ==
        section_lines(ConfigSection::Blog, fixed_fields(ConfigSection::Blog))
        + section_lines(ConfigSection::Theme, t)
        + section_lines(ConfigSection::Domain, fixed_fields(ConfigSection::Domain))
        + section_lines(ConfigSection::Build, fixed_fields(ConfigSection::Build))
        + section_lines(ConfigSection::Development, fixed_fields(ConfigSection::Development))
}

/// Whether a line is a field.
pub open spec fn is_field_line(i: ListItem) -> bool {
    i is Field
}

/// The first field line after `index`, if any.
pub open spec fn next_field_index(items: Seq<ListItem>, index: int) -> Option<int> {
    if exists|j: int| index < j < items.len() && is_field_line(#[trigger] items[j]) {
        Some(choose|j: int| index < j < items.len() && is_field_line(#[trigger] items[j])
            && forall|k: int| index < k < j ==> !is_field_line(#[trigger] items[k]))
    } else {
        None
    }
}

/// The last field line before `index`, if any.
pub open spec fn prev_field_index(items: Seq<ListItem>, index: int) -> Option<int> {
    if exists|j: int| 0 <= j < index && j < items.len() && is_field_line(#[trigger] items[j]) {
        Some(choose|j: int| 0 <= j < index && j < items.len() && is_field_line(#[trigger] items[j])
            && forall|k: int| j < k < index && k < items.len() ==> !is_field_line(#[trigger] items[k]))
    } else {
        None
    }
}

/// The field list with its section headings and blank lines.
pub struct HighLevelConfigList {
    pub items: Vec<ListItem>,
}

fn push_section(items: &mut Vec<ListItem>, s: ConfigSection, fs: Vec<ConfigField>)
    ensures
        final(items)@ == old(items)@ + section_lines(s, fs@),
{
    let ghost start = items@;
    items.push(ListItem::BlankLine);
    items.push(ListItem::Section(s));
    let mut fs = fs;
    let ghost all = fs@;
    let mut rev: Vec<ConfigField> = Vec::new();
    while fs.len() > 0
        invariant
            fs@ == all.take(fs@.len() as int),
            rev@.len() + fs@.len() == all.len(),
            forall|j: int| 0 <= j < rev@.len() ==> rev@[j] == all[all.len() - 1 - j],
            items@ == start + seq![ListItem::BlankLine, ListItem::Section(s)],
        decreases fs.len(),
    {
        let f = fs.pop().unwrap();
        rev.push(f);
    }
    while rev.len() > 0
        invariant
            rev@.len() <= all.len(),
            forall|j: int| 0 <= j < rev@.len() ==> rev@[j] == all[all.len() - 1 - j],
            items@ == start + seq![ListItem::BlankLine, ListItem::Section(s)]
                + all.take(all.len() - rev@.len()).map_values(|f: ConfigField| ListItem::Field(f)),
        decreases rev.len(),
    {
        let ghost done = all.len() - rev@.len();
        let f = rev.pop().unwrap();
        items.push(ListItem::Field(f));
        assert(all.take(done + 1).map_values(|f: ConfigField| ListItem::Field(f))
            =~= all.take(done).map_values(|f: ConfigField| ListItem::Field(f)).push(ListItem::Field(all[done])));
    }
    assert(all.take(all.len() as int) =~= all);
}

impl HighLevelConfigList {
    /// The field list of a configuration.
    pub fn new(config: &Config) -> (res: HighLevelConfigList)
        ensures
            is_layout(*config, res.items@),
    {
        let mut items: Vec<ListItem> = Vec::new();
        let blog = ConfigSection::Blog.get_section(config);
        push_section(&mut items, ConfigSection::Blog, blog);
        let theme = ConfigSection::Theme.get_section(config);
        let ghost t = theme@;
        push_section(&mut items, ConfigSection::Theme, theme);
        let domain = ConfigSection::Domain.get_section(config);
        push_section(&mut items, ConfigSection::Domain, domain);
        let build = ConfigSection::Build.get_section(config);
        push_section(&mut items, ConfigSection::Build, build);
        let dev = ConfigSection::Development.get_section(config);
        push_section(&mut items, ConfigSection::Development, dev);
        assert(theme_fields(*config, t));
        assert(items@ =~= section_lines(ConfigSection::Blog, fixed_fields(ConfigSection::Blog))
            + section_lines(ConfigSection::Theme, t)
            + section_lines(ConfigSection::Domain, fixed_fields(ConfigSection::Domain))
            + section_lines(ConfigSection::Build, fixed_fields(ConfigSection::Build))
            + section_lines(ConfigSection::Development, fixed_fields(ConfigSection::Development)));
        HighLevelConfigList { items }
    }

    /// The first field line after `index`, with its field.
    pub fn next(&self, index: usize) -> (res: Option<(usize, &ConfigField)>)
        ensures
            match res {
                Some((j, f)) => next_field_index(self.items@, index as int) == Some(j as int)
                    && self.items@[j as int] == ListItem::Field(*f),
                None => next_field_index(self.items@, index as int) is None,
            },
    {
        let mut j: usize = index;
        while j < self.items.len() && j + 1 < self.items.len()
            invariant
                index <= j,
                forall|k: int| index < k <= j && k < self.items@.len() ==> !is_field_line(#[trigger] self.items@[k]),
            decreases self.items.len() - j,
        {
            j += 1;
            match &self.items[j] {
                ListItem::Field(f) => {
                    proof {
                        assert(is_field_line(self.items@[j as int]));
                        let c = choose|c: int| index < c < self.items@.len() && is_field_line(#[trigger] self.items@[c])
                            && forall|k: int| index < k < c ==> !is_field_line(#[trigger] self.items@[k]);
                        if c < j {
                        } else if c > j {
                            assert(!is_field_line(self.items@[j as int]));
                        }
                    }
                    return Some((j, f));
                },
                _ => {},
            }
        }
        None
    }

    /// The last field line before `index`, with its field.
    pub fn prev(&self, index: usize) -> (res: Option<(usize, &ConfigField)>)
        ensures
            match res {
                Some((j, f)) => prev_field_index(self.items@, index as int) == Some(j as int)
                    && self.items@[j as int] == ListItem::Field(*f),
                None => prev_field_index(self.items@, index as int) is None,
            },
    {
        let mut j: usize = if index < self.items.len() { index } else { self.items.len() };
        while j > 0
            invariant
                j <= index,
                j <= self.items@.len(),
                forall|k: int| j <= k < index && k < self.items@.len() ==> !is_field_line(#[trigger] self.items@[k]),
            decreases j,
        {
            j -= 1;
            match &self.items[j] {
                ListItem::Field(f) => {
                    proof {
                        assert(is_field_line(self.items@[j as int]));
                        let c = choose|c: int| 0 <= c < index && c < self.items@.len() && is_field_line(#[trigger] self.items@[c])
                            && forall|k: int| c < k < index && k < self.items@.len() ==> !is_field_line(#[trigger] self.items@[k]);
                        if c < j {
                            assert(!is_field_line(self.items@[j as int]));
                        } else if c > j {
                        }
                    }
                    return Some((j, f));
                },
                _ => {},
            }
        }
        None
    }

    /// The line of the first blog title field, or line 2 when there is
    /// none.
    pub fn index_of_title(&self) -> (res: usize)
        ensures
            (res < self.items@.len() && self.items@[res as int] == ListItem::Field(ConfigField::BlogTitle)
                && forall|k: int| 0 <= k < res ==> self.items@[k] != ListItem::Field(ConfigField::BlogTitle))
            || (res == 2 && forall|k: int| 0 <= k < self.items@.len()
                ==> self.items@[k] != ListItem::Field(ConfigField::BlogTitle)),
    {
        let mut i: usize = 0;
        while i < self.items.len()
            invariant
                i <= self.items@.len(),
                forall|k: int| 0 <= k < i ==> self.items@[k] != ListItem::Field(ConfigField::BlogTitle),
            decreases self.items.len() - i,
        {
            match &self.items[i] {
                ListItem::Field(ConfigField::BlogTitle) => return i,
                _ => {},
            }
            i += 1;
        }
        2
    }
}

/// In the field list of any configuration the blog title is on line 2,
/// the first field line.
pub proof fn lemma_title_line(c: Config, items: Seq<ListItem>)
    requires
        is_layout(c, items),
    ensures
        items.len() > 2,
        items[2] == ListItem::Field(ConfigField::BlogTitle),
        items[0] == ListItem::BlankLine,
        items[1] == ListItem::Section(ConfigSection::Blog),
{
    let t = choose|t: Seq<ConfigField>| #[trigger] theme_fields(c, t) && items ==
        section_lines(ConfigSection::Blog, fixed_fields(ConfigSection::Blog))
        + section_lines(ConfigSection::Theme, t)
        + section_lines(ConfigSection::Domain, fixed_fields(ConfigSection::Domain))
        + section_lines(ConfigSection::Build, fixed_fields(ConfigSection::Build))
        + section_lines(ConfigSection::Development, fixed_fields(ConfigSection::Development));
    let b = section_lines(ConfigSection::Blog, fixed_fields(ConfigSection::Blog));
    assert(b.len() == 8);
    assert(b[2] == ListItem::Field(ConfigField::BlogTitle));
    assert(items[2] == b[2]);
    assert(items[0] == b[0]);
    assert(items[1] == b[1]);
}

// ---------------------------------------------------------------------------
// The editor's modes
// ---------------------------------------------------------------------------

/// The modes of the configuration editor.
#[derive(Clone, Copy, PartialEq, Eq, Structural, Debug)]
pub enum ConfigMode {
    /// Moving through the fields.
    Browse,
    /// Typing a new value for the selected field.
    Edit,
    /// Choosing a theme from the table.
    EditTheme,
    /// The help overlay.
    Help,
    /// The editor has been closed.
    Shutdown,
}

/// A key for the configuration editor.
#[derive(Clone, Copy, PartialEq, Eq, Structural, Debug)]
pub enum ConfigAppKey {
    Char(char),
    /// A function key by number.
    F(u8),
    Up,
    Down,
    Enter,
    Esc,
    Backspace,
    Other,
}

/// What the caller must do after a key.
#[derive(Clone, Copy, PartialEq, Eq, Structural, Debug)]
pub enum ConfigAppCommand {
    Nothing,
    /// Write the configuration to `blogr.toml`.
    Save,
}

/// The configuration editor.
pub struct ConfigApp {
    pub config: Config,
    pub mode: ConfigMode,
    /// The selected field.
    pub selected_field: ConfigField,
    /// The line of the selected field in the list.
    pub config_index: usize,
    /// The field list with headings and blank lines.
    pub list_layout: HighLevelConfigList,
    pub status_message: String,
    /// The text typed so far in edit mode.
    pub edit_buffer: String,
    /// The themes offered in the theme table.
    pub options: Vec<ThemeInfo>,
    /// The selected row of the theme table.
    pub row_index: usize,
    /// The row of the theme in use, if the table has it.
    pub current_theme_index: Option<usize>,
}

/// The first theme of the table named as the configured theme.
pub open spec fn first_named(options: Seq<ThemeInfo>, name: Seq<char>) -> Option<int> {
    if exists|i: int| 0 <= i < options.len() && (#[trigger] options[i]).name@ == name {
        Some(choose|i: int| 0 <= i < options.len() && (#[trigger] options[i]).name@ == name
            && forall|k: int| 0 <= k < i ==> (#[trigger] options[k]).name@ != name)
    } else {
        None
    }
}

/// The lines of the configuration editor's help.
pub open spec fn config_help_text() -> Seq<Seq<char>> {
    seq![
        "Blogr Configuration Editor Help"@,
        ""@,
        "Navigation:"@,
        "  ↑/↓       - Navigate fields"@,
        "  Enter     - Edit selected field"@,
        "  Esc       - Cancel edit"@,
        ""@,
        "Actions:"@,
        "  s         - Save configuration"@,
        "  q         - Quit"@,
        "  h/F1      - Toggle this help"@,
        ""@,
        "Field Types:"@,
        "  Text      - Enter any text"@,
        "  Boolean   - Enter 'true' or 'false'"@,
        "  Number    - Enter a valid number"@,
        ""@,
        "Press any key to close this help"@,
    ]
}

/// The help text of the configuration editor.
pub fn config_help_lines() -> (res: Vec<&'static str>)
    ensures
        res@.map_values(|s: &str| s@) == config_help_text(),
{
    let v: Vec<&'static str> = vec![
        "Blogr Configuration Editor Help",
        "",
        "Navigation:",
        "  ↑/↓       - Navigate fields",
        "  Enter     - Edit selected field",
        "  Esc       - Cancel edit",
        "",
        "Actions:",
        "  s         - Save configuration",
        "  q         - Quit",
        "  h/F1      - Toggle this help",
        "",
        "Field Types:",
        "  Text      - Enter any text",
        "  Boolean   - Enter 'true' or 'false'",
        "  Number    - Enter a valid number",
        "",
        "Press any key to close this help",
    ];
    assert(v@.map_values(|s: &str| s@) =~= config_help_text());
    v
}

/// The options of a theme as a configuration: each option's default,
/// booleans as TOML booleans and the rest as TOML strings.
fn schema_defaults(schema: &Vec<(String, crate::themes::ConfigOption)>) -> (res: Vec<(String, TomlValue)>)
    ensures
        crate::commands::theme::option_names(res@) == schema_names(schema@),
        res@ == schema@.map_values(|e: (String, crate::themes::ConfigOption)| (e.0, default_value(e.1))),
{
    let mut out: Vec<(String, TomlValue)> = Vec::new();
    let mut i: usize = 0;
    while i < schema.len()
        invariant
            i <= schema@.len(),
            crate::commands::theme::option_names(out@) == schema_names(schema@.take(i as int)),
            out@ == schema@.take(i as int).map_values(|e: (String, crate::themes::ConfigOption)| (e.0, default_value(e.1))),
        decreases schema.len() - i,
    {
        let opt = &schema[i].1;
        let value = if str_eq(opt.option_type.as_str(), "boolean") {
            TomlValue::Boolean(str_eq(opt.default.as_str(), "true"))
        } else {
            TomlValue::String(opt.default.clone())
        };
        proof {
            reveal_strlit("boolean");
            reveal_strlit("true");
        }
        assert(value == default_value(schema@[i as int].1));
        let ghost before = out@;
        out.push((schema[i].0.clone(), value));
        assert(schema@.take(i + 1) =~= schema@.take(i as int).push(schema@[i as int]));
        assert(crate::commands::theme::option_names(out@) =~= crate::commands::theme::option_names(before).push(schema@[i as int].0@));
        assert(schema_names(schema@.take(i + 1)) =~= schema_names(schema@.take(i as int)).push(schema@[i as int].0@));
        assert(out@ =~= schema@.take(i + 1).map_values(|e: (String, crate::themes::ConfigOption)| (e.0, default_value(e.1))));
        i += 1;
    }
    assert(schema@.take(schema@.len() as int) =~= schema@);
    out
}

impl ConfigApp {
    /// The theme table has a selected row while it is shown.
    pub open spec fn wf(&self) -> bool {
        self.mode == ConfigMode::EditTheme ==> self.row_index < self.options@.len()
    }

    /// The editor on a configuration, in browse mode on the blog title.
    pub fn new(config: Config) -> (res: ConfigApp)
        ensures
            res.mode == ConfigMode::Browse,
            res.config == config,
            res.selected_field == ConfigField::BlogTitle,
            res.config_index == 2,
            is_layout(config, res.list_layout.items@),
            res.status_message@ == "Navigate with ↑/↓, Enter to edit, 'q' to quit"@,
            res.wf(),
    {
        let list_layout = HighLevelConfigList::new(&config);
        let config_index = list_layout.index_of_title();
        proof {
            lemma_title_line(config, list_layout.items@);
        }
        ConfigApp {
            config,
            mode: ConfigMode::Browse,
            selected_field: ConfigField::BlogTitle,
            config_index,
            list_layout,
            status_message: String::from_str("Navigate with ↑/↓, Enter to edit, 'q' to quit"),
            edit_buffer: String::new(),
            options: Vec::new(),
            row_index: 0,
            current_theme_index: None,
        }
    }

    /// Whether the editor has been closed.
    pub fn is_stopped(&self) -> (res: bool)
        ensures
            res == (self.mode == ConfigMode::Shutdown),
    {
        self.mode == ConfigMode::Shutdown
    }

    /// The status line.
    pub fn get_status(&self) -> (res: String)
        ensures
            res@ == if self.mode == ConfigMode::Shutdown { "Shutting down"@ } else { self.status_message@ },
    {
        if self.mode == ConfigMode::Shutdown {
            String::from_str("Shutting down")
        } else {
            self.status_message.clone()
        }
    }

    /// What the edit box shows: the typed text, with the kind of value
    /// expected for booleans and numbers.
    pub fn edit_input_text(&self) -> (res: String)
        ensures
            res@ == if field_is_boolean(self.selected_field) {
                self.edit_buffer@ + " (true/false)"@
            } else if field_is_numeric(self.selected_field) {
                self.edit_buffer@ + " (number)"@
            } else {
                self.edit_buffer@
            },
    {
        let mut out = self.edit_buffer.clone();
        if self.selected_field.is_boolean() {
            push_str(&mut out, " (true/false)");
        } else if self.selected_field.is_numeric() {
            push_str(&mut out, " (number)");
        }
        out
    }

    fn key_up(&mut self)
        ensures
            final(self).mode == old(self).mode,
            final(self).config == old(self).config,
            final(self).list_layout == old(self).list_layout,
            final(self).status_message == old(self).status_message,
            old(self).config_index == 0 ==> (final(self).config_index == 0
                && final(self).selected_field == old(self).selected_field),
            old(self).config_index > 0 ==> match prev_field_index(old(self).list_layout.items@, old(self).config_index as int) {
                Some(j) => final(self).config_index == j
                    && old(self).list_layout.items@[j] == ListItem::Field(final(self).selected_field),
                None => final(self).config_index == old(self).config_index
                    && final(self).selected_field == old(self).selected_field,
            },
    {
        if self.config_index == 0 {
            return;
        }
        let found = match self.list_layout.prev(self.config_index) {
            Some((j, f)) => Some((j, f.copy())),
            None => None,
        };
        match found {
            Some((j, f)) => {
                self.selected_field = f;
                self.config_index = j;
            },
            None => {},
        }
    }

    fn key_down(&mut self)
        ensures
            final(self).mode == old(self).mode,
            final(self).config == old(self).config,
            final(self).list_layout == old(self).list_layout,
            final(self).status_message == old(self).status_message,
            match next_field_index(old(self).list_layout.items@, old(self).config_index as int) {
                Some(j) => final(self).config_index == j
                    && old(self).list_layout.items@[j] == ListItem::Field(final(self).selected_field),
                None => final(self).config_index == old(self).config_index
                    && final(self).selected_field == old(self).selected_field,
            },
    {
        let found = match self.list_layout.next(self.config_index) {
            Some((j, f)) => Some((j, f.copy())),
            None => None,
        };
        match found {
            Some((j, f)) => {
                self.selected_field = f;
                self.config_index = j;
            },
            None => {},
        }
    }

    fn enter_edit_theme(&mut self)
        ensures
            final(self).mode == ConfigMode::EditTheme,
            final(self).config == old(self).config,
            final(self).selected_field == old(self).selected_field,
            final(self).config_index == old(self).config_index,
            final(self).status_message == old(self).status_message,
            final(self).list_layout == old(self).list_layout,
            offered_themes(final(self).options@),
            final(self).current_theme_index == match first_named(final(self).options@, old(self).config.theme.name@) {
                Some(i) => Some(i as usize),
                None => None::<usize>,
            },
            final(self).row_index == match final(self).current_theme_index { Some(i) => i, None => 0 },
    {
        let options = theme_options();
        let current = find_theme_row(&options, self.config.theme.name.as_str());
        self.current_theme_index = current;
        self.row_index = match current { Some(c) => c, None => 0 };
        self.options = options;
        self.mode = ConfigMode::EditTheme;
    }
}

/// The status line while a field is edited.
pub open spec fn editing_text(f: ConfigField) -> Seq<char> {
    "Editing "@ + field_label(f) + ": Press Enter to save, Esc to cancel"@
}

/// The status line after the configuration is written.
pub open spec fn saved_text() -> Seq<char> {
    "Configuration saved successfully!"@
}

/// The editor after a change of configuration is kept: back to browsing,
/// the field list rebuilt, the selection where it was.
pub open spec fn saved(old: ConfigApp, new: ConfigApp) -> bool {
    &&& new.mode == ConfigMode::Browse
    &&& is_layout(new.config, new.list_layout.items@)
    &&& new.status_message@ == saved_text()
    &&& new.selected_field == old.selected_field
    &&& new.config_index == old.config_index
}

/// Everything but the mode and the status line is as it was.
pub open spec fn same_view(a: ConfigApp, b: ConfigApp) -> bool {
    &&& a.config == b.config
    &&& a.selected_field == b.selected_field
    &&& a.config_index == b.config_index
    &&& a.list_layout == b.list_layout
}

/// A key while browsing: `q` stops the editor, `h` or F1 opens the help,
/// the arrows move between fields, Enter starts editing the selected field
/// (the theme table for the theme name); nothing is saved.
pub open spec fn browse_step(before: ConfigApp, after: ConfigApp, key: ConfigAppKey, cmd: ConfigAppCommand) -> bool {
    &&& cmd == ConfigAppCommand::Nothing
    &&& after.config == before.config
    &&& match key {
        ConfigAppKey::Char(c) => if c == 'q' || c == 'Q' {
            after.mode == ConfigMode::Shutdown && same_view(after, before)
        } else if c == 'h' {
            after.mode == ConfigMode::Help && same_view(after, before)
        } else {
            after == before
        },
        ConfigAppKey::F(n) => if n == 1 {
            after.mode == ConfigMode::Help && same_view(after, before)
        } else {
            after == before
        },
        ConfigAppKey::Up => after.mode == ConfigMode::Browse
            && (before.config_index == 0 ==> (after.config_index == 0
                && after.selected_field == before.selected_field))
            && (before.config_index > 0 ==> match prev_field_index(before.list_layout.items@, before.config_index as int) {
                Some(j) => after.config_index == j
                    && before.list_layout.items@[j] == ListItem::Field(after.selected_field),
                None => after.config_index == before.config_index
                    && after.selected_field == before.selected_field,
            }),
        ConfigAppKey::Down => after.mode == ConfigMode::Browse
            && match next_field_index(before.list_layout.items@, before.config_index as int) {
                Some(j) => after.config_index == j
                    && before.list_layout.items@[j] == ListItem::Field(after.selected_field),
                None => after.config_index == before.config_index
                    && after.selected_field == before.selected_field,
            },
        ConfigAppKey::Enter => if before.selected_field is ThemeName {
            after.mode == ConfigMode::EditTheme && same_view(after, before)
                && offered_themes(after.options@)
                && after.row_index == match first_named(after.options@, before.config.theme.name@) {
                    Some(i) => i,
                    None => 0,
                }
        } else {
            after.mode == ConfigMode::Edit && same_view(after, before)
                && after.edit_buffer@ == field_value(before.config, before.selected_field)
                && after.status_message@ == editing_text(before.selected_field)
        },
        _ => after == before,
    }
}

/// A key while a field is edited: Esc cancels, Enter saves the trimmed
/// text (an empty one is discarded, one the field refuses keeps the
/// editor open with the message), Backspace and characters edit the text.
pub open spec fn edit_step(before: ConfigApp, after: ConfigApp, key: ConfigAppKey, cmd: ConfigAppCommand) -> bool {
    match key {
        ConfigAppKey::Esc => cmd == ConfigAppCommand::Nothing && after.mode == ConfigMode::Browse
            && same_view(after, before) && after.status_message@ == "Edit cancelled"@,
        ConfigAppKey::Enter => {
            let v = trim(before.edit_buffer@);
            if v.len() == 0 {
                cmd == ConfigAppCommand::Nothing && after.mode == ConfigMode::Browse
                    && same_view(after, before) && after.status_message@ == "Edit discarded"@
            } else {
                exists|s: String, r: Result<(), String>| #![trigger field_set(before.config, after.config, before.selected_field, s, r)]
                    s@ == v && field_set(before.config, after.config, before.selected_field, s, r)
                    && match r {
                        Ok(_) => cmd == ConfigAppCommand::Save && saved(before, after),
                        Err(m) => cmd == ConfigAppCommand::Nothing && after.mode == ConfigMode::Edit
                            && same_view(after, before) && after.status_message == m
                            && after.edit_buffer == before.edit_buffer,
                    }
            }
        },
        ConfigAppKey::Backspace => cmd == ConfigAppCommand::Nothing && after.mode == ConfigMode::Edit
            && same_view(after, before)
            && after.edit_buffer@ == if before.edit_buffer@.len() == 0 {
                before.edit_buffer@
            } else {
                before.edit_buffer@.drop_last()
            },
        ConfigAppKey::Char(c) => cmd == ConfigAppCommand::Nothing && after.mode == ConfigMode::Edit
            && same_view(after, before) && after.edit_buffer@ == before.edit_buffer@.push(c),
        _ => cmd == ConfigAppCommand::Nothing && after == before,
    }
}

/// A key on the help screen: Esc, `h` or F1 go back to browsing; other
/// keys do nothing.
pub open spec fn help_step(before: ConfigApp, after: ConfigApp, key: ConfigAppKey, cmd: ConfigAppCommand) -> bool {
    &&& cmd == ConfigAppCommand::Nothing
    &&& (key == ConfigAppKey::Esc || key == ConfigAppKey::Char('h') || key == ConfigAppKey::F(1))
        ==> after.mode == ConfigMode::Browse && same_view(after, before)
            && after.status_message == before.status_message
    &&& !(key == ConfigAppKey::Esc || key == ConfigAppKey::Char('h') || key == ConfigAppKey::F(1))
        ==> after == before
}

/// A key in the theme table: Esc goes back, the arrows move within the
/// table, Enter chooses the theme with its default options and saves.
pub open spec fn theme_step(before: ConfigApp, after: ConfigApp, key: ConfigAppKey, cmd: ConfigAppCommand) -> bool {
    match key {
        ConfigAppKey::Esc => cmd == ConfigAppCommand::Nothing && after.mode == ConfigMode::Browse
            && same_view(after, before) && after.status_message == before.status_message,
        ConfigAppKey::Up => cmd == ConfigAppCommand::Nothing && after.mode == ConfigMode::EditTheme
            && same_view(after, before) && after.options == before.options
            && after.row_index == if before.row_index == 0 { 0 } else { (before.row_index - 1) as usize },
        ConfigAppKey::Down => cmd == ConfigAppCommand::Nothing && after.mode == ConfigMode::EditTheme
            && same_view(after, before) && after.options == before.options
            && after.row_index == if before.row_index + 1 >= before.options@.len() {
                before.row_index
            } else {
                (before.row_index + 1) as usize
            },
        ConfigAppKey::Enter => cmd == ConfigAppCommand::Save && saved(before, after)
            && after.config.theme.name == before.options@[before.row_index as int].name
            && after.config.theme.config@ == before.options@[before.row_index as int].config_schema@.map_values(
                |e: (String, crate::themes::ConfigOption)| (e.0, default_value(e.1)))
            && crate::commands::theme::option_names(after.config.theme.config@)
                == schema_names(before.options@[before.row_index as int].config_schema@)
            && after.config.blog == before.config.blog,
        _ => cmd == ConfigAppCommand::Nothing && after == before,
    }
}

impl ConfigApp {
    fn browse_key(&mut self, key: ConfigAppKey) -> (cmd: ConfigAppCommand)
        requires
            old(self).mode == ConfigMode::Browse,
        ensures
            final(self).wf(),
            browse_step(*old(self), *final(self), key, cmd),
    {
        match key {
            ConfigAppKey::Char(c) => {
                if c == 'q' || c == 'Q' {
                    self.mode = ConfigMode::Shutdown;
                } else if c == 'h' {
                    self.mode = ConfigMode::Help;
                }
            },
            ConfigAppKey::F(n) => {
                if n == 1 {
                    self.mode = ConfigMode::Help;
                }
            },
            ConfigAppKey::Up => self.key_up(),
            ConfigAppKey::Down => self.key_down(),
            ConfigAppKey::Enter => {
                if matches!(self.selected_field, ConfigField::ThemeName) {
                    self.enter_edit_theme();
                    proof {
                        assert(theme_registry().len() == 7);
                    }
                } else {
                    self.edit_buffer = self.selected_field.get_value(&self.config);
                    let mut status = String::new();
                    push_str(&mut status, "Editing ");
                    let label = self.selected_field.label();
                    push_str(&mut status, label.as_str());
                    push_str(&mut status, ": Press Enter to save, Esc to cancel");
                    self.status_message = status;
                    self.mode = ConfigMode::Edit;
                }
            },
            _ => {},
        }
        ConfigAppCommand::Nothing
    }

    fn edit_key(&mut self, key: ConfigAppKey) -> (cmd: ConfigAppCommand)
        requires
            old(self).mode == ConfigMode::Edit,
        ensures
            final(self).wf(),
            edit_step(*old(self), *final(self), key, cmd),
    {
        match key {
            ConfigAppKey::Esc => {
                self.mode = ConfigMode::Browse;
                self.status_message = String::from_str("Edit cancelled");
                ConfigAppCommand::Nothing
            },
            ConfigAppKey::Enter => {
                let bv = chars_of(self.edit_buffer.as_str());
                let tv = trim_vec(&bv);
                if tv.len() == 0 {
                    self.mode = ConfigMode::Browse;
                    self.status_message = String::from_str("Edit discarded");
                    return ConfigAppCommand::Nothing;
                }
                let value = string_of(&tv);
                let ghost sv = value;
                let r = self.selected_field.set(&mut self.config, value);
                match r {
                    Ok(()) => {
                        self.list_layout = HighLevelConfigList::new(&self.config);
                        self.status_message = String::from_str("Configuration saved successfully!");
                        self.mode = ConfigMode::Browse;
                        ConfigAppCommand::Save
                    },
                    Err(m) => {
                        self.status_message = m;
                        ConfigAppCommand::Nothing
                    },
                }
            },
            ConfigAppKey::Backspace => {
                let bv = chars_of(self.edit_buffer.as_str());
                if bv.len() > 0 {
                    self.edit_buffer = string_of_range(&bv, 0, bv.len() - 1);
                    proof {
                        assert(bv@.subrange(0, bv@.len() - 1) =~= bv@.drop_last());
                    }
                }
                ConfigAppCommand::Nothing
            },
            ConfigAppKey::Char(c) => {
                push_char(&mut self.edit_buffer, c);
                ConfigAppCommand::Nothing
            },
            _ => ConfigAppCommand::Nothing,
        }
    }

    fn help_key(&mut self, key: ConfigAppKey) -> (cmd: ConfigAppCommand)
        requires
            old(self).mode == ConfigMode::Help,
        ensures
            final(self).wf(),
            help_step(*old(self), *final(self), key, cmd),
    {
        let back = match key {
            ConfigAppKey::Esc => true,
            ConfigAppKey::Char(c) => c == 'h',
            ConfigAppKey::F(n) => n == 1,
            _ => false,
        };
        if back {
            self.mode = ConfigMode::Browse;
        }
        ConfigAppCommand::Nothing
    }

    fn edit_theme_key(&mut self, key: ConfigAppKey) -> (cmd: ConfigAppCommand)
        requires
            old(self).mode == ConfigMode::EditTheme,
            old(self).wf(),
        ensures
            final(self).wf(),
            theme_step(*old(self), *final(self), key, cmd),
    {
        match key {
            ConfigAppKey::Esc => {
                self.mode = ConfigMode::Browse;
                ConfigAppCommand::Nothing
            },
            ConfigAppKey::Up => {
                if self.row_index > 0 {
                    self.row_index = self.row_index - 1;
                }
                ConfigAppCommand::Nothing
            },
            ConfigAppKey::Down => {
                let len = self.options.len();
                if len > 0 && self.row_index < len - 1 {
                    self.row_index = self.row_index + 1;
                }
                ConfigAppCommand::Nothing
            },
            ConfigAppKey::Enter => {
                let row = self.row_index;
                let name = self.options[row].name.clone();
                let defaults = schema_defaults(&self.options[row].config_schema);
                self.config.set_theme(name, defaults);
                self.list_layout = HighLevelConfigList::new(&self.config);
                self.status_message = String::from_str("Configuration saved successfully!");
                self.mode = ConfigMode::Browse;
                ConfigAppCommand::Save
            },
            _ => ConfigAppCommand::Nothing,
        }
    }

    /// Handles a key in the current mode. `Save` asks the caller to write
    /// the configuration to `blogr.toml`; a failure to write ends the
    /// editor with that error.
    pub fn handle_key_event(&mut self, key: ConfigAppKey) -> (cmd: ConfigAppCommand)
        requires
            old(self).wf(),
        ensures
            final(self).wf(),
            match old(self).mode {
                ConfigMode::Browse => browse_step(*old(self), *final(self), key, cmd),
                ConfigMode::Edit => edit_step(*old(self), *final(self), key, cmd),
                ConfigMode::EditTheme => theme_step(*old(self), *final(self), key, cmd),
                ConfigMode::Help => help_step(*old(self), *final(self), key, cmd),
                ConfigMode::Shutdown => *final(self) == *old(self) && cmd == ConfigAppCommand::Nothing,
            },
            cmd == ConfigAppCommand::Save ==> final(self).mode == ConfigMode::Browse
                && is_layout(final(self).config, final(self).list_layout.items@),
            cmd == ConfigAppCommand::Nothing ==> final(self).config == old(self).config,
    {
        match self.mode {
            ConfigMode::Browse => self.browse_key(key),
            ConfigMode::Edit => {
                self.edit_key(key)
            },
            ConfigMode::EditTheme => self.edit_theme_key(key),
            ConfigMode::Help => self.help_key(key),
            ConfigMode::Shutdown => ConfigAppCommand::Nothing,
        }
    }
}

/// The theme table: the bundled themes in registry order.
pub open spec fn offered_themes(options: Seq<ThemeInfo>) -> bool {
    &&& options.len() == theme_registry().len()
    &&& forall|i: int| 0 <= i < options.len() ==>
        (#[trigger] options[i]).site_type == theme_site_type(theme_registry()[i].1)
        && schema_view(options[i].config_schema@) == theme_schema(theme_registry()[i].1)
}

/// The rows of the theme table.
fn theme_options() -> (res: Vec<ThemeInfo>)
    ensures
        offered_themes(res@),
{
    let all = get_all_themes();
    let mut options: Vec<ThemeInfo> = Vec::new();
    let mut i: usize = 0;
    while i < all.len()
        invariant
            i <= all@.len(),
            registry_view(all@) == theme_registry(),
            options@.len() == i,
            forall|k: int| 0 <= k < i ==>
                (#[trigger] options@[k]).site_type == theme_site_type(theme_registry()[k].1)
                && schema_view(options@[k].config_schema@) == theme_schema(theme_registry()[k].1),
        decreases all.len() - i,
    {
        assert(registry_view(all@)[i as int].1 == all@[i as int].1);
        let info = all[i].1.info();
        options.push(info);
        i += 1;
    }
    options
}

/// The first row of the table whose theme has the given name.
fn find_theme_row(options: &Vec<ThemeInfo>, name: &str) -> (res: Option<usize>)
    ensures
        res == match first_named(options@, name@) {
            Some(i) => Some(i as usize),
            None => None::<usize>,
        },
{
    let mut k: usize = 0;
    while k < options.len()
        invariant
            k <= options@.len(),
            forall|j: int| 0 <= j < k ==> (#[trigger] options@[j]).name@ != name@,
        decreases options.len() - k,
    {
        if str_eq(options[k].name.as_str(), name) {
            proof {
                let w = choose|i: int| 0 <= i < options@.len() && (#[trigger] options@[i]).name@ == name@
                    && forall|m: int| 0 <= m < i ==> (#[trigger] options@[m]).name@ != name@;
                if w < k {
                } else if w > k {
                    assert(options@[k as int].name@ == name@);
                }
            }
            return Some(k);
        }
        k += 1;
    }
    None
}

} // verus!
