//! `blogr config get` and `blogr config set`: the configuration keys, what
//! reading one shows and what writing one changes.
use vstd::prelude::*;
use crate::config::{all_domains, effective_url, Config};
use crate::utils::string_views;
use crate::text::{chars_of, push_str, split, split_vec, vec_eq_str, views, Sep};

verus! {

/// A configuration key that can be read.
#[derive(Clone, Copy, PartialEq, Eq, Structural, Debug)]
pub enum ConfigKey {
    BlogTitle,
    BlogAuthor,
    BlogDescription,
    BlogBaseUrl,
    BlogLanguage,
    BlogTimezone,
    ThemeName,
    DomainsPrimary,
    DomainsEnforceHttps,
}

/// The key named by the dot-separated parts of a key path.
pub open spec fn key_of_parts(p: Seq<Seq<char>>) -> Option<ConfigKey> {
    if p.len() != 2 {
        None
    } else if p[0] == "blog"@ {
        if p[1] == "title"@ {
            Some(ConfigKey::BlogTitle)
        } else if p[1] == "author"@ {
            Some(ConfigKey::BlogAuthor)
        } else if p[1] == "description"@ {
            Some(ConfigKey::BlogDescription)
        } else if p[1] == "base_url"@ {
            Some(ConfigKey::BlogBaseUrl)
        } else if p[1] == "language"@ {
            Some(ConfigKey::BlogLanguage)
        } else if p[1] == "timezone"@ {
            Some(ConfigKey::BlogTimezone)
        } else {
            None
        }
    } else if p[0] == "theme"@ && p[1] == "name"@ {
        Some(ConfigKey::ThemeName)
    } else if p[0] == "domains"@ && p[1] == "primary"@ {
        Some(ConfigKey::DomainsPrimary)
    } else if p[0] == "domains"@ && p[1] == "enforce_https"@ {
        Some(ConfigKey::DomainsEnforceHttps)
    } else {
        None
    }
}

/// The key named by a key path such as `blog.title`.
pub open spec fn key_named(key: Seq<char>) -> Option<ConfigKey> {
    key_of_parts(split(key, Sep::Char('.')))
}

/// The key named by a key path such as `blog.title`.
pub fn parse_key(key: &str) -> (res: Option<ConfigKey>)
    ensures
        res == key_named(key@),
{
    let v = chars_of(key);
    let parts = split_vec(&v, &Sep::Char('.'));
    proof {
        assert(views(parts@) == split(key@, Sep::Char('.')));
    }
    if parts.len() != 2 {
        return None;
    }
    proof {
        assert(parts@[0]@ == views(parts@)[0]);
        assert(parts@[1]@ == views(parts@)[1]);
    }
    let a = &parts[0];
    let b = &parts[1];
    if vec_eq_str(a, "blog") {
        if vec_eq_str(b, "title") {
            Some(ConfigKey::BlogTitle)
        } else if vec_eq_str(b, "author") {
            Some(ConfigKey::BlogAuthor)
        } else if vec_eq_str(b, "description") {
            Some(ConfigKey::BlogDescription)
        } else if vec_eq_str(b, "base_url") {
            Some(ConfigKey::BlogBaseUrl)
        } else if vec_eq_str(b, "language") {
            Some(ConfigKey::BlogLanguage)
        } else if vec_eq_str(b, "timezone") {
            Some(ConfigKey::BlogTimezone)
        } else {
            None
        }
    } else if vec_eq_str(a, "theme") && vec_eq_str(b, "name") {
        Some(ConfigKey::ThemeName)
    } else if vec_eq_str(a, "domains") && vec_eq_str(b, "primary") {
        Some(ConfigKey::DomainsPrimary)
    } else if vec_eq_str(a, "domains") && vec_eq_str(b, "enforce_https") {
        Some(ConfigKey::DomainsEnforceHttps)
    } else {
        None
    }
}

/// An optional setting as shown: its value or `Not set`.
pub open spec fn or_not_set(o: Option<String>) -> Seq<char> {
    match o {
        Some(s) => s@,
        None => "Not set"@,
    }
}

/// What reading a key shows.
pub open spec fn shown_value(c: Config, k: ConfigKey) -> Seq<char> {
    match k {
        ConfigKey::BlogTitle => c.blog.title@,
        ConfigKey::BlogAuthor => c.blog.author@,
        ConfigKey::BlogDescription => c.blog.description@,
        ConfigKey::BlogBaseUrl => c.blog.base_url@,
        ConfigKey::BlogLanguage => or_not_set(c.blog.language),
        ConfigKey::BlogTimezone => or_not_set(c.blog.timezone),
        ConfigKey::ThemeName => c.theme.name@,
        ConfigKey::DomainsPrimary => match c.blog.domains {
            Some(d) => or_not_set(d.primary),
            None => "Not set"@,
        },
        ConfigKey::DomainsEnforceHttps => match c.blog.domains {
            Some(d) => if d.enforce_https { "true"@ } else { "false"@ },
            None => "true (default)"@,
        },
    }
}

fn or_not_set_text(o: &Option<String>) -> (res: String)
    ensures
        res@ == or_not_set(*o),
{
    match o {
        Some(s) => s.clone(),
        None => String::from_str("Not set"),
    }
}

/// Why a key cannot be read or written.
#[derive(Clone, PartialEq, Eq, Debug)]
pub enum KeyError {
    /// Reading a key that is not known.
    Unknown(String),
    /// Writing a key that is not known or cannot be written.
    Unsupported(String),
}

/// The message of a key error.
pub open spec fn key_error_text(e: KeyError) -> Seq<char> {
    match e {
        KeyError::Unknown(k) => "Unknown configuration key: "@ + k@,
        KeyError::Unsupported(k) => "Unknown or unsupported configuration key: "@ + k@,
    }
}

impl KeyError {
    /// The message of the error.
    pub fn message(&self) -> (res: String)
        ensures
            res@ == key_error_text(*self),
    {
        let mut out = String::new();
        match self {
            KeyError::Unknown(k) => {
                push_str(&mut out, "Unknown configuration key: ");
                push_str(&mut out, k.as_str());
            },
            KeyError::Unsupported(k) => {
                push_str(&mut out, "Unknown or unsupported configuration key: ");
                push_str(&mut out, k.as_str());
            },
        }
        out
    }
}

/// What reading a key shows, or why the key cannot be read.
pub fn get_value(config: &Config, key: &str) -> (res: Result<String, KeyError>)
    ensures
        match key_named(key@) {
            Some(k) => res matches Ok(v) && v@ == shown_value(*config, k),
            None => res matches Err(KeyError::Unknown(s)) && s@ == key@,
        },
{
    match parse_key(key) {
        None => Err(KeyError::Unknown(String::from_str(key))),
        Some(k) => {
            let v = match k {
                ConfigKey::BlogTitle => config.blog.title.clone(),
                ConfigKey::BlogAuthor => config.blog.author.clone(),
                ConfigKey::BlogDescription => config.blog.description.clone(),
                ConfigKey::BlogBaseUrl => config.blog.base_url.clone(),
                ConfigKey::BlogLanguage => or_not_set_text(&config.blog.language),
                ConfigKey::BlogTimezone => or_not_set_text(&config.blog.timezone),
                ConfigKey::ThemeName => config.theme.name.clone(),
                ConfigKey::DomainsPrimary => match &config.blog.domains {
                    Some(d) => or_not_set_text(&d.primary),
                    None => String::from_str("Not set"),
                },
                ConfigKey::DomainsEnforceHttps => match &config.blog.domains {
                    Some(d) => if d.enforce_https {
                        String::from_str("true")
                    } else {
                        String::from_str("false")
                    },
                    None => String::from_str("true (default)"),
                },
            };
            Ok(v)
        },
    }
}

/// The keys that can be written: those of the blog and the theme name.
pub open spec fn writable(k: ConfigKey) -> bool {
    !(k is DomainsPrimary) && !(k is DomainsEnforceHttps)
}

/// The configuration after writing a value to a writable key; the rest is
/// unchanged.
pub open spec fn written(c: Config, k: ConfigKey, s: String) -> bool {
    match k {
        ConfigKey::BlogTitle => c.blog.title == s,
        ConfigKey::BlogAuthor => c.blog.author == s,
        ConfigKey::BlogDescription => c.blog.description == s,
        ConfigKey::BlogBaseUrl => c.blog.base_url == s,
        ConfigKey::BlogLanguage => c.blog.language == Some(s),
        ConfigKey::BlogTimezone => c.blog.timezone == Some(s),
        ConfigKey::ThemeName => c.theme.name == s,
        _ => true,
    }
}

/// Everything a write to `k` leaves alone is as it was.
pub open spec fn same_but(a: Config, b: Config, k: ConfigKey) -> bool {
    &&& (k != ConfigKey::BlogTitle ==> a.blog.title == b.blog.title)
    &&& (k != ConfigKey::BlogAuthor ==> a.blog.author == b.blog.author)
    &&& (k != ConfigKey::BlogDescription ==> a.blog.description == b.blog.description)
    &&& (k != ConfigKey::BlogBaseUrl ==> a.blog.base_url == b.blog.base_url)
    &&& (k != ConfigKey::BlogLanguage ==> a.blog.language == b.blog.language)
    &&& (k != ConfigKey::BlogTimezone ==> a.blog.timezone == b.blog.timezone)
    &&& (k != ConfigKey::ThemeName ==> a.theme.name == b.theme.name)
    &&& a.blog.domains == b.blog.domains
    &&& a.theme.config == b.theme.config
    &&& a.github == b.github
    &&& a.build == b.build
    &&& a.dev == b.dev
    &&& a.search == b.search
    &&& a.newsletter == b.newsletter
    &&& a.site == b.site
}

/// Writes a value to a key of the configuration; keys that are not known
/// or cannot be written leave it unchanged.
pub fn set_value(config: &mut Config, key: &str, value: String) -> (res: Result<(), KeyError>)
    ensures
        match key_named(key@) {
            Some(k) => if writable(k) {
                res is Ok && written(*final(config), k, value)
                    && same_but(*final(config), *old(config), k)
            } else {
                (res matches Err(KeyError::Unsupported(s)) && s@ == key@) && *final(config) == *old(config)
            },
            None => (res matches Err(KeyError::Unsupported(s)) && s@ == key@) && *final(config) == *old(config),
        },
{
    match parse_key(key) {
        Some(ConfigKey::BlogTitle) => config.blog.title = value,
        Some(ConfigKey::BlogAuthor) => config.blog.author = value,
        Some(ConfigKey::BlogDescription) => config.blog.description = value,
        Some(ConfigKey::BlogBaseUrl) => config.blog.base_url = value,
        Some(ConfigKey::BlogLanguage) => config.blog.language = Some(value),
        Some(ConfigKey::BlogTimezone) => config.blog.timezone = Some(value),
        Some(ConfigKey::ThemeName) => config.theme.name = value,
        _ => return Err(KeyError::Unsupported(String::from_str(key))),
    }
    Ok(())
}

/// Reading a key just written shows the value written, and writing a key
/// leaves what the other keys show unchanged.
pub proof fn law_set_then_get(before: Config, after: Config, k: ConfigKey, v: String, other: ConfigKey)
    requires
        writable(k),
        written(after, k, v),
        same_but(after, before, k),
    ensures
        shown_value(after, k) == v@,
        other != k ==> shown_value(after, other) == shown_value(before, other),
{
}

/// The lines of the domain summary shown after a domain change.
pub open spec fn domain_summary(c: Config) -> Seq<Seq<char>> {
    match c.blog.domains {
        None => Seq::empty(),
        Some(d) => {
            let ds = all_domains(c);
            (if ds.len() > 0 {
                seq!["🌐 Configured domains:"@] + ds.map_values(|x: Seq<char>| "  • "@ + x)
            } else {
                Seq::empty()
            }) + seq![
                "🔒 HTTPS: "@ + if d.enforce_https { "Enforced"@ } else { "Optional"@ },
                "📍 Effective URL: "@ + effective_url(c),
            ]
        },
    }
}

fn bullet_lines(v: &Vec<String>) -> (res: Vec<String>)
    ensures
        string_views(res@) == string_views(v@).map_values(|x: Seq<char>| "  • "@ + x),
{
    let mut out: Vec<String> = Vec::new();
    let mut i: usize = 0;
    while i < v.len()
        invariant
            i <= v@.len(),
            string_views(out@) == string_views(v@.take(i as int)).map_values(|x: Seq<char>| "  • "@ + x),
        decreases v.len() - i,
    {
        let mut line = String::new();
        push_str(&mut line, "  • ");
        push_str(&mut line, v[i].as_str());
        let ghost before = string_views(out@);
        out.push(line);
        assert(v@.take(i + 1) =~= v@.take(i as int).push(v@[i as int]));
        assert(string_views(v@.take(i + 1)) =~= string_views(v@.take(i as int)).push(v@[i as int]@));
        assert(string_views(out@) =~= before.push("  • "@ + v@[i as int]@));
        assert(string_views(out@) =~= string_views(v@.take(i + 1)).map_values(|x: Seq<char>| "  • "@ + x));
        i += 1;
    }
    assert(v@.take(v@.len() as int) =~= v@);
    out
}

/// The lines of the domain summary shown after a domain change.
pub fn domain_summary_lines(config: &Config) -> (res: Vec<String>)
    ensures
        string_views(res@) == domain_summary(*config),
{
    match &config.blog.domains {
        None => Vec::new(),
        Some(d) => {
            let all = config.get_all_domains();
            let mut out: Vec<String> = Vec::new();
            if all.len() > 0 {
                out.push(String::from_str("🌐 Configured domains:"));
                let mut bullets = bullet_lines(&all);
                out.append(&mut bullets);
            }
            let mut https = String::new();
            push_str(&mut https, "🔒 HTTPS: ");
            if d.enforce_https {
                push_str(&mut https, "Enforced");
            } else {
                push_str(&mut https, "Optional");
            }
            out.push(https);
            let mut url = String::new();
            push_str(&mut url, "📍 Effective URL: ");
            let eff = config.get_effective_base_url();
            push_str(&mut url, eff.as_str());
            out.push(url);
            assert(string_views(out@) =~= domain_summary(*config));
            out
        },
    }
}

} // verus!
