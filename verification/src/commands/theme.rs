//! `blogr theme`: choosing a theme for a site, filling in its options,
//! and the texts that describe a theme.
use vstd::prelude::*;
use crate::config::{Config, SiteType, TomlValue, names_unique};
use crate::themes::{get_all_themes, registry_view, schema_view, theme_registry, theme_site_type,
    ConfigOption, Theme};
use crate::text::{chars_of, occurs, contains_str, join, push_str, replace_all, replace_str, str_eq,
    string_of};
use crate::utils::{join_strings, string_views};

verus! {

/// How a kind of site is written in `blogr.toml`.
pub open spec fn site_type_text(t: SiteType) -> Seq<char> {
    match t {
        SiteType::Blog => "blog"@,
        SiteType::Personal => "personal"@,
    }
}

/// How a kind of site is written in `blogr.toml`.
pub fn site_type_name(t: SiteType) -> (res: &'static str)
    ensures
        res@ == site_type_text(t),
{
    match t {
        SiteType::Blog => "blog",
        SiteType::Personal => "personal",
    }
}

/// The message for a theme name that is not registered.
pub fn theme_not_found(name: &str) -> (res: String)
    ensures
        res@ == "Theme '"@ + name@ + "' not found. Run 'blogr theme list' to see available themes."@,
{
    let mut out = String::new();
    push_str(&mut out, "Theme '");
    push_str(&mut out, name);
    push_str(&mut out, "' not found. Run 'blogr theme list' to see available themes.");
    out
}

/// The registered names of the themes for a kind of site, in registry
/// order.
pub open spec fn names_for(v: Seq<(Seq<char>, Theme)>, t: SiteType) -> Seq<Seq<char>>
    decreases v.len(),
{
    if v.len() == 0 {
        Seq::empty()
    } else {
        let rest = names_for(v.drop_last(), t);
        if theme_site_type(v.last().1) == t {
            rest.push(v.last().0)
        } else {
            rest
        }
    }
}

fn theme_names_for(v: &Vec<(String, Theme)>, t: SiteType) -> (res: Vec<String>)
    ensures
        string_views(res@) == names_for(registry_view(v@), t),
{
    let mut out: Vec<String> = Vec::new();
    let mut i: usize = 0;
    while i < v.len()
        invariant
            i <= v@.len(),
            string_views(out@) == names_for(registry_view(v@.take(i as int)), t),
        decreases v.len() - i,
    {
        assert(registry_view(v@.take(i + 1)).drop_last() =~= registry_view(v@.take(i as int)));
        let th = v[i].1;
        let is_kind = match (th, t) {
            (Theme::MinimalRetro, SiteType::Blog) | (Theme::Obsidian, SiteType::Blog)
            | (Theme::TerminalCandy, SiteType::Blog) => true,
            (Theme::DarkMinimal, SiteType::Personal) | (Theme::Musashi, SiteType::Personal)
            | (Theme::SlatePortfolio, SiteType::Personal) | (Theme::Typewriter, SiteType::Personal) => true,
            _ => false,
        };
        if is_kind {
            out.push(v[i].0.clone());
            assert(string_views(out@) =~= names_for(registry_view(v@.take(i + 1)), t));
        } else {
            assert(string_views(out@) =~= names_for(registry_view(v@.take(i + 1)), t));
        }
        i += 1;
    }
    assert(v@.take(v@.len() as int) =~= v@);
    out
}

/// Why a theme does not fit a site: the theme's name, its kind and the
/// site's kind, with the themes that fit each kind (joined names).
pub open spec fn mismatch_text(name: Seq<char>, theme: SiteType, site: SiteType, blog: Seq<char>, personal: Seq<char>) -> Seq<char> {
    "❌ Theme '"@ + name + "' is a "@ + site_type_text(theme) + " theme, but your site is configured as a "@
        + site_type_text(site) + " site.\n\nBlog themes: "@ + blog + "\nPersonal themes: "@ + personal
        + "\n\n💡 To use this theme, either:\n1. Choose a compatible "@ + site_type_text(site)
        + " theme from the list above\n2. Change your site type in blogr.toml: [site] site_type = \""@
        + site_type_text(theme) + "\""@
}

/// The message for a theme that does not fit the kind of site, listing
/// the registered themes of each kind.
pub fn mismatch_message(name: &str, theme: SiteType, site: SiteType) -> (res: String)
    ensures
        res@ == mismatch_text(name@, theme, site,
            join(names_for(theme_registry(), SiteType::Blog), ", "@),
            join(names_for(theme_registry(), SiteType::Personal), ", "@)),
{
    let all = get_all_themes();
    let blog = theme_names_for(&all, SiteType::Blog);
    let personal = theme_names_for(&all, SiteType::Personal);
    let blog_text = join_strings(&blog, ", ");
    let personal_text = join_strings(&personal, ", ");
    let mut out = String::new();
    push_str(&mut out, "❌ Theme '");
    push_str(&mut out, name);
    push_str(&mut out, "' is a ");
    push_str(&mut out, site_type_name(theme));
    push_str(&mut out, " theme, but your site is configured as a ");
    push_str(&mut out, site_type_name(site));
    push_str(&mut out, " site.\n\nBlog themes: ");
    push_str(&mut out, blog_text.as_str());
    push_str(&mut out, "\nPersonal themes: ");
    push_str(&mut out, personal_text.as_str());
    push_str(&mut out, "\n\n💡 To use this theme, either:\n1. Choose a compatible ");
    push_str(&mut out, site_type_name(site));
    push_str(&mut out, " theme from the list above\n2. Change your site type in blogr.toml: [site] site_type = \"");
    push_str(&mut out, site_type_name(theme));
    push_str(&mut out, "\"");
    out
}

/// The option names of a theme configuration.
pub open spec fn option_names(v: Seq<(String, TomlValue)>) -> Seq<Seq<char>> {
    v.map_values(|e: (String, TomlValue)| e.0@)
}

/// The names a schema adds to a configuration that has `names`: each
/// schema name not already there, first occurrence only, in schema order.
pub open spec fn added_names(names: Seq<Seq<char>>, schema: Seq<Seq<char>>) -> Seq<Seq<char>>
    decreases schema.len(),
{
    if schema.len() == 0 {
        Seq::empty()
    } else {
        let before = added_names(names, schema.drop_last());
        let n = schema.last();
        if names.contains(n) || before.contains(n) {
            before
        } else {
            before.push(n)
        }
    }
}

/// The names of a schema.
pub open spec fn schema_names(schema: Seq<(String, ConfigOption)>) -> Seq<Seq<char>> {
    schema.map_values(|e: (String, ConfigOption)| e.0@)
}

fn has_option(v: &Vec<(String, TomlValue)>, key: &str) -> (res: bool)
    ensures
        res == option_names(v@).contains(key@),
{
    let mut i: usize = 0;
    while i < v.len()
        invariant
            i <= v@.len(),
            forall|j: int| 0 <= j < i ==> (#[trigger] v@[j]).0@ != key@,
        decreases v.len() - i,
    {
        if str_eq(v[i].0.as_str(), key) {
            assert(option_names(v@)[i as int] == key@);
            return true;
        }
        i += 1;
    }
    assert forall|j: int| 0 <= j < option_names(v@).len() implies option_names(v@)[j] != key@ by {
        assert(v@[j].0@ != key@);
    }
    false
}

/// The value a schema option starts with: a boolean option's default
/// read as `true` or not, any other option's default as a string.
pub open spec fn default_value(opt: ConfigOption) -> TomlValue {
    if opt.option_type@ == "boolean"@ {
        TomlValue::Boolean(opt.default@ == "true"@)
    } else {
        TomlValue::String(opt.default)
    }
}

/// The options a schema adds to a configuration whose option names are
/// `names`: each schema option whose name is not there yet, first
/// occurrence only, in schema order, with its default value.
pub open spec fn added_options(names: Seq<Seq<char>>, schema: Seq<(String, ConfigOption)>) -> Seq<(String, TomlValue)>
    decreases schema.len(),
{
    if schema.len() == 0 {
        Seq::empty()
    } else {
        let before = added_options(names, schema.drop_last());
        let e = schema.last();
        if names.contains(e.0@) || option_names(before).contains(e.0@) {
            before
        } else {
            before.push((e.0, default_value(e.1)))
        }
    }
}

proof fn lemma_added_options_names(names: Seq<Seq<char>>, schema: Seq<(String, ConfigOption)>)
    ensures
        option_names(added_options(names, schema)) == added_names(names, schema_names(schema)),
    decreases schema.len(),
{
    if schema.len() > 0 {
        lemma_added_options_names(names, schema.drop_last());
        assert(schema_names(schema).drop_last() =~= schema_names(schema.drop_last()));
        let before = added_options(names, schema.drop_last());
        let e = schema.last();
        assert(option_names(before.push((e.0, default_value(e.1)))) =~= option_names(before).push(e.0@));
    }
}

proof fn lemma_added_names_fresh(names: Seq<Seq<char>>, schema: Seq<Seq<char>>)
    ensures
        forall|k: int| 0 <= k < added_names(names, schema).len()
            ==> !names.contains(#[trigger] added_names(names, schema)[k]),
        (names + added_names(names, schema)).no_duplicates() <== names.no_duplicates(),
    decreases schema.len(),
{
    if schema.len() > 0 {
        lemma_added_names_fresh(names, schema.drop_last());
        let before = added_names(names, schema.drop_last());
        let n = schema.last();
        if !(names.contains(n) || before.contains(n)) {
            if names.no_duplicates() {
                let all = names + before.push(n);
                assert(all =~= (names + before).push(n));
                assert forall|a: int, b: int| 0 <= a < b < all.len() implies all[a] != all[b] by {
                    if b == all.len() - 1 {
                        if a < names.len() {
                            assert(names[a] == all[a]);
                        } else {
                            assert(before[a - names.len()] == all[a]);
                        }
                    } else {
                        assert(all[a] == (names + before)[a]);
                        assert(all[b] == (names + before)[b]);
                    }
                }
            }
        }
    }
}

/// Chooses a theme: sets its name and adds each option of its schema
/// that the configuration does not have yet, with the schema's default
/// (booleans as TOML booleans, the rest as TOML strings). Options already
/// set are kept as they are, in place.
pub fn apply_theme(config: &mut Config, name: String, schema: &Vec<(String, ConfigOption)>)
    ensures
        final(config).theme.name == name,
        final(config).theme.config@.take(old(config).theme.config@.len() as int)
            == old(config).theme.config@,
        option_names(final(config).theme.config@)
            == option_names(old(config).theme.config@) + added_names(option_names(old(config).theme.config@), schema_names(schema@)),
        final(config).theme.config@
            == old(config).theme.config@ + added_options(option_names(old(config).theme.config@), schema@),
        names_unique(old(config).theme.config@) ==> names_unique(final(config).theme.config@),
        final(config).blog == old(config).blog,
        final(config).site == old(config).site,
{
    let ghost nm = name;
    config.theme.name = name;
    let ghost old_cfg = config.theme.config@;
    let ghost old_names = option_names(old_cfg);
    let mut i: usize = 0;
    while i < schema.len()
        invariant
            i <= schema@.len(),
            config.theme.config@.take(old_cfg.len() as int) == old_cfg,
            option_names(config.theme.config@)
                == old_names + added_names(old_names, schema_names(schema@.take(i as int))),
            old_names == option_names(old_cfg),
            config.theme.config@ == old_cfg + added_options(old_names, schema@.take(i as int)),
            config.theme.name == nm,
            config.blog == old(config).blog,
            config.site == old(config).site,
        decreases schema.len() - i,
    {
        let key = &schema[i].0;
        let ghost before = config.theme.config@;
        assert(schema_names(schema@.take(i + 1)).drop_last() =~= schema_names(schema@.take(i as int)));
        assert(schema_names(schema@.take(i + 1)).last() == key@);
        proof {
            let added = added_names(old_names, schema_names(schema@.take(i as int)));
            assert((old_names + added).contains(key@) <==> (old_names.contains(key@) || added.contains(key@))) by {
                if (old_names + added).contains(key@) {
                    let k = choose|k: int| 0 <= k < (old_names + added).len() && (old_names + added)[k] == key@;
                    if k >= old_names.len() {
                        assert(added[k - old_names.len()] == key@);
                    }
                }
                if added.contains(key@) {
                    let k = choose|k: int| 0 <= k < added.len() && added[k] == key@;
                    assert((old_names + added)[k + old_names.len()] == key@);
                }
                if old_names.contains(key@) {
                    let k = choose|k: int| 0 <= k < old_names.len() && old_names[k] == key@;
                    assert((old_names + added)[k] == key@);
                }
            }
        }
        proof {
            let prev = added_options(old_names, schema@.take(i as int));
            assert(schema@.take(i + 1).drop_last() =~= schema@.take(i as int));
            assert(option_names(old_cfg + prev) =~= old_names + option_names(prev));
            lemma_added_options_names(old_names, schema@.take(i as int));
        }
        if !has_option(&config.theme.config, key.as_str()) {
            let opt = &schema[i].1;
            let value = if str_eq(opt.option_type.as_str(), "boolean") {
                TomlValue::Boolean(str_eq(opt.default.as_str(), "true"))
            } else {
                TomlValue::String(opt.default.clone())
            };
            proof {
                reveal_strlit("boolean");
                reveal_strlit("true");
            }
            assert(value == default_value(schema@[i as int].1));
            config.theme.config.push((key.clone(), value));
            assert(option_names(config.theme.config@) =~= option_names(before).push(key@));
            assert(config.theme.config@.take(old_cfg.len() as int) =~= before.take(old_cfg.len() as int));
        }
        i += 1;
    }
    assert(schema@.take(schema@.len() as int) =~= schema@);
    proof {
        lemma_added_names_fresh(old_names, schema_names(schema@));
        let fin = config.theme.config@;
        if names_unique(old_cfg) {
            assert(old_names.no_duplicates()) by {
                assert forall|a: int, b: int| 0 <= a < b < old_names.len() implies old_names[a] != old_names[b] by {
                    assert(old_cfg[a].0@ != old_cfg[b].0@);
                }
            }
            assert forall|a: int, b: int| 0 <= a < b < fin.len() implies (#[trigger] fin[a]).0@ != (#[trigger] fin[b]).0@ by {
                assert(option_names(fin)[a] == fin[a].0@);
                assert(option_names(fin)[b] == fin[b].0@);
            }
        }
    }
}

/// The options of a theme whose names speak of a colour, as the preview
/// lists them: the name with spaces for underscores, and the default.
pub open spec fn color_line(e: (Seq<char>, Seq<char>, Seq<char>, Seq<char>)) -> Seq<char> {
    "  • "@ + replace_all(e.0, "_"@, " "@) + ": "@ + e.2
}

/// The preview lines of the colour options, in schema order.
pub open spec fn color_lines_of(s: Seq<(Seq<char>, Seq<char>, Seq<char>, Seq<char>)>) -> Seq<Seq<char>>
    decreases s.len(),
{
    if s.len() == 0 {
        Seq::empty()
    } else {
        let rest = color_lines_of(s.drop_last());
        if occurs(s.last().0, "color"@) {
            rest.push(color_line(s.last()))
        } else {
            rest
        }
    }
}

/// The preview lines of a schema's colour options.
pub fn color_lines(schema: &Vec<(String, ConfigOption)>) -> (res: Vec<String>)
    ensures
        string_views(res@) == color_lines_of(schema_view(schema@)),
{
    proof {
        reveal_strlit("_");
    }
    let mut out: Vec<String> = Vec::new();
    let mut i: usize = 0;
    while i < schema.len()
        invariant
            i <= schema@.len(),
            string_views(out@) == color_lines_of(schema_view(schema@.take(i as int))),
        decreases schema.len() - i,
    {
        assert(schema_view(schema@.take(i + 1)).drop_last() =~= schema_view(schema@.take(i as int)));
        let e = &schema[i];
        let nv = chars_of(e.0.as_str());
        if contains_str(&nv, "color") {
            proof {
                reveal_strlit("_");
            }
            let spaced = replace_str(&nv, "_", " ");
            let mut line = String::new();
            push_str(&mut line, "  • ");
            let sp = string_of(&spaced);
            push_str(&mut line, sp.as_str());
            push_str(&mut line, ": ");
            push_str(&mut line, e.1.default.as_str());
            out.push(line);
        }
        assert(string_views(out@) =~= color_lines_of(schema_view(schema@.take(i + 1))));
        i += 1;
    }
    assert(schema@.take(schema@.len() as int) =~= schema@);
    out
}

/// Whether the configured theme is the named one.
pub fn is_active(current: &Option<String>, name: &str) -> (res: bool)
    ensures
        res == match current {
            Some(c) => c@ == name@,
            None => false,
        },
{
    match current {
        Some(c) => str_eq(c.as_str(), name),
        None => false,
    }
}

} // verus!
