//! The bundled themes: what each one is, the options it takes, its
//! templates by name, and example content for personal sites.
use vstd::prelude::*;
use crate::config::SiteType;
use crate::text::{chars_of, lowercase, replace_all, replace_str, str_eq, string_of, to_lowercase};
use self::dark_minimal::{dark_minimal_schema, dark_minimal_templates, DarkMinimalTheme};
use self::minimal_retro::{minimal_retro_schema, minimal_retro_templates, MinimalRetroTheme};
use self::musashi::{musashi_schema, musashi_templates, MusashiTheme};
use self::obsidian::{obsidian_schema, obsidian_templates, ObsidianTheme};
use self::slate_portfolio::{slate_portfolio_schema, slate_portfolio_templates, SlatePortfolioTheme};
use self::terminal_candy::{terminal_candy_schema, terminal_candy_templates, TerminalCandyTheme};
use self::typewriter::{typewriter_schema, typewriter_templates, TypewriterTheme};

pub mod brutja;
pub mod dark_minimal;
pub mod minimal_retro;
pub mod musashi;
pub mod obsidian;
pub mod slate_portfolio;
pub mod terminal_candy;
pub mod typewriter;

verus! {

/// One option a theme takes.
pub struct ConfigOption {
    pub option_type: String,
    pub default: String,
    pub description: String,
}

/// What a theme is.
pub struct ThemeInfo {
    pub name: String,
    pub version: String,
    pub author: String,
    pub description: String,
    /// The options by name, in the order the theme lists them.
    pub config_schema: Vec<(String, ConfigOption)>,
    /// Type of site this theme supports.
    pub site_type: SiteType,
}

/// An option schema as (name, type, default, description).
pub open spec fn schema_view(v: Seq<(String, ConfigOption)>) -> Seq<(Seq<char>, Seq<char>, Seq<char>, Seq<char>)> {
    v.map_values(|e: (String, ConfigOption)| (e.0@, e.1.option_type@, e.1.default@, e.1.description@))
}

/// One schema entry.
pub fn option(name: &str, option_type: &str, default: &str, description: &str) -> (res: (String, ConfigOption))
    ensures
        res.0@ == name@,
        res.1.option_type@ == option_type@,
        res.1.default@ == default@,
        res.1.description@ == description@,
{
    (
        name.to_owned(),
        ConfigOption {
            option_type: option_type.to_owned(),
            default: default.to_owned(),
            description: description.to_owned(),
        },
    )
}

/// The author's name as used in an example address: lower-cased, spaces
/// removed.
pub open spec fn contact_handle(author: Seq<char>) -> Seq<char> {
    replace_all(lowercase(author), " "@, ""@)
}

/// The contact handle of an author name.
pub fn contact_handle_text(author: &str) -> (res: String)
    ensures
        res@ == contact_handle(author@),
{
    proof {
        reveal_strlit(" ");
    }
    let lower = to_lowercase(author);
    let v = chars_of(lower.as_str());
    let r = replace_str(&v, " ", "");
    string_of(&r)
}

/// The templates of a theme, by name, the base template first.
pub struct ThemeTemplates {
    pub templates: Vec<(&'static str, &'static str)>,
}

/// Templates as names and texts.
pub open spec fn templates_view(v: Seq<(&'static str, &'static str)>) -> Seq<(Seq<char>, Seq<char>)> {
    v.map_values(|e: (&'static str, &'static str)| (e.0@, e.1@))
}

impl ThemeTemplates {
    /// Templates holding the base template, which must come first.
    pub fn new(base_template_name: &'static str, base_template: &'static str) -> (res: ThemeTemplates)
        ensures
            templates_view(res.templates@) == seq![(base_template_name@, base_template@)],
    {
        let v = vec![(base_template_name, base_template)];
        assert(templates_view(v@) =~= seq![(base_template_name@, base_template@)]);
        ThemeTemplates { templates: v }
    }

    /// The same templates and one more, last.
    pub fn with_template(self, name: &'static str, template: &'static str) -> (res: ThemeTemplates)
        ensures
            templates_view(res.templates@) == templates_view(self.templates@).push((name@, template@)),
    {
        let mut t = self;
        let ghost before = templates_view(t.templates@);
        t.templates.push((name, template));
        assert(templates_view(t.templates@) =~= before.push((name@, template@)));
        t
    }

    /// The templates in order.
    pub fn into_templates(self) -> (res: Vec<(&'static str, &'static str)>)
        ensures
            res@ == self.templates@,
    {
        self.templates
    }
}

/// The templates of `t.with_template(n1, t1)...with_template(nk, tk)`
/// where `t` held `start` (for `ThemeTemplates::new(bn, bt)`, the one base
/// template) and `added` is `[(n1, t1), ..., (nk, tk)]`: each step is the
/// push that `with_template` ensures.
pub open spec fn templates_added(
    start: Seq<(Seq<char>, Seq<char>)>,
    added: Seq<(Seq<char>, Seq<char>)>,
) -> Seq<(Seq<char>, Seq<char>)>
    decreases added.len(),
{
    if added.len() == 0 {
        start
    } else {
        templates_added(start, added.drop_last()).push(added.last())
    }
}

/// However many templates are added, the templates are those there were
/// followed by the added ones in the order of the calls: the base template
/// stays first, and nothing is dropped, replaced or merged. One more call
/// (`next`) is one more `with_template` step.
pub proof fn law_templates_in_call_order(
    start: Seq<(Seq<char>, Seq<char>)>,
    added: Seq<(Seq<char>, Seq<char>)>,
    next: (Seq<char>, Seq<char>),
)
    ensures
        templates_added(start, added.push(next)) == templates_added(start, added).push(next),
        templates_added(start, added) == start + added,
        start.len() > 0 ==> templates_added(start, added)[0] == start[0],
    decreases added.len(),
{
    assert(added.push(next).drop_last() =~= added);
    if added.len() > 0 {
        law_templates_in_call_order(start, added.drop_last(), next);
        assert(start + added =~= (start + added.drop_last()).push(added.last()));
    } else {
        assert(start + added =~= start);
    }
}

/// The bundled themes.
#[derive(Clone, Copy, PartialEq, Eq, Structural, Debug)]
pub enum Theme {
    MinimalRetro,
    Obsidian,
    TerminalCandy,
    DarkMinimal,
    Musashi,
    SlatePortfolio,
    Typewriter,
}

/// The name a theme is registered and configured under.
pub open spec fn theme_key(t: Theme) -> Seq<char> {
    match t {
        Theme::MinimalRetro => "minimal-retro"@,
        Theme::Obsidian => "obsidian"@,
        Theme::TerminalCandy => "terminal-candy"@,
        Theme::DarkMinimal => "dark-minimal"@,
        Theme::Musashi => "musashi"@,
        Theme::SlatePortfolio => "slate-portfolio"@,
        Theme::Typewriter => "typewriter"@,
    }
}

/// The theme registered under a name.
pub open spec fn theme_named(name: Seq<char>) -> Option<Theme> {
    if name == "minimal-retro"@ {
        Some(Theme::MinimalRetro)
    } else if name == "obsidian"@ {
        Some(Theme::Obsidian)
    } else if name == "terminal-candy"@ {
        Some(Theme::TerminalCandy)
    } else if name == "dark-minimal"@ {
        Some(Theme::DarkMinimal)
    } else if name == "musashi"@ {
        Some(Theme::Musashi)
    } else if name == "slate-portfolio"@ {
        Some(Theme::SlatePortfolio)
    } else if name == "typewriter"@ {
        Some(Theme::Typewriter)
    } else {
        None
    }
}

/// The kind of site a theme is for.
pub open spec fn theme_site_type(t: Theme) -> SiteType {
    match t {
        Theme::MinimalRetro | Theme::Obsidian | Theme::TerminalCandy => SiteType::Blog,
        _ => SiteType::Personal,
    }
}

/// The option schema of a theme.
pub open spec fn theme_schema(t: Theme) -> Seq<(Seq<char>, Seq<char>, Seq<char>, Seq<char>)> {
    match t {
        Theme::MinimalRetro => minimal_retro_schema(),
        Theme::Obsidian => obsidian_schema(),
        Theme::TerminalCandy => terminal_candy_schema(),
        Theme::DarkMinimal => dark_minimal_schema(),
        Theme::Musashi => musashi_schema(),
        Theme::SlatePortfolio => slate_portfolio_schema(),
        Theme::Typewriter => typewriter_schema(),
    }
}

/// Each option of a schema is named once.
pub open spec fn schema_names_unique(s: Seq<(Seq<char>, Seq<char>, Seq<char>, Seq<char>)>) -> bool {
    forall|i: int, j: int| 0 <= i < j < s.len() ==> (#[trigger] s[i]).0 != (#[trigger] s[j]).0
}

#[verifier::rlimit(60)]
proof fn lemma_minimal_retro_options_named_once()
    ensures
        schema_names_unique(minimal_retro_schema()),
{
    reveal_strlit("primary_color");
    reveal_strlit("secondary_color");
    reveal_strlit("background_color");
    reveal_strlit("font_family");
    reveal_strlit("accent_font");
    reveal_strlit("show_reading_time");
    reveal_strlit("show_author");
    reveal_strlit("expandable_posts");
    let s = minimal_retro_schema();
    let names = seq!["primary_color"@, "secondary_color"@, "background_color"@, "font_family"@, "accent_font"@, "show_reading_time"@, "show_author"@, "expandable_posts"@];
    assert(s.len() == 8);
    assert(s[0].0 == names[0]);
    assert(s[1].0 == names[1]);
    assert(s[2].0 == names[2]);
    assert(s[3].0 == names[3]);
    assert(s[4].0 == names[4]);
    assert(s[5].0 == names[5]);
    assert(s[6].0 == names[6]);
    assert(s[7].0 == names[7]);
    assert(names[2][0] != names[7][0]);
    assert(names[3][0] != names[4][0]);
    assert(names[3][0] != names[6][0]);
    assert(names[4][0] != names[6][0]);
    assert forall|i: int, j: int| 0 <= i < j < s.len() implies (#[trigger] s[i]).0 != (#[trigger] s[j]).0 by {
        assert(s[i].0 == names[i] && s[j].0 == names[j]);
    }
}

#[verifier::rlimit(60)]
proof fn lemma_obsidian_options_named_once()
    ensures
        schema_names_unique(obsidian_schema()),
{
    reveal_strlit("obsidian_css");
    reveal_strlit("color_mode");
    let s = obsidian_schema();
    let names = seq!["obsidian_css"@, "color_mode"@];
    assert(s.len() == 2);
    assert(s[0].0 == names[0]);
    assert(s[1].0 == names[1]);
    assert forall|i: int, j: int| 0 <= i < j < s.len() implies (#[trigger] s[i]).0 != (#[trigger] s[j]).0 by {
        assert(s[i].0 == names[i] && s[j].0 == names[j]);
    }
}

#[verifier::rlimit(60)]
proof fn lemma_terminal_candy_options_named_once()
    ensures
        schema_names_unique(terminal_candy_schema()),
{
    reveal_strlit("primary_color");
    reveal_strlit("secondary_color");
    reveal_strlit("tertiary_color");
    reveal_strlit("background_color");
    reveal_strlit("text_color");
    reveal_strlit("font_family");
    reveal_strlit("enable_glitch");
    reveal_strlit("enable_typewriter");
    reveal_strlit("show_ascii_art");
    let s = terminal_candy_schema();
    let names = seq!["primary_color"@, "secondary_color"@, "tertiary_color"@, "background_color"@, "text_color"@, "font_family"@, "enable_glitch"@, "enable_typewriter"@, "show_ascii_art"@];
    assert(s.len() == 9);
    assert(s[0].0 == names[0]);
    assert(s[1].0 == names[1]);
    assert(s[2].0 == names[2]);
    assert(s[3].0 == names[3]);
    assert(s[4].0 == names[4]);
    assert(s[5].0 == names[5]);
    assert(s[6].0 == names[6]);
    assert(s[7].0 == names[7]);
    assert(s[8].0 == names[8]);
    assert(names[0][0] != names[6][0]);
    assert(names[2][0] != names[8][0]);
    assert forall|i: int, j: int| 0 <= i < j < s.len() implies (#[trigger] s[i]).0 != (#[trigger] s[j]).0 by {
        assert(s[i].0 == names[i] && s[j].0 == names[j]);
    }
}

#[verifier::rlimit(60)]
proof fn lemma_dark_minimal_options_named_once()
    ensures
        schema_names_unique(dark_minimal_schema()),
{
    reveal_strlit("primary_color");
    reveal_strlit("background_color");
    reveal_strlit("text_color");
    reveal_strlit("secondary_text_color");
    reveal_strlit("font_family");
    reveal_strlit("enable_animations");
    reveal_strlit("show_social_icons");
    reveal_strlit("show_status_bar");
    reveal_strlit("status_text");
    reveal_strlit("status_color");
    let s = dark_minimal_schema();
    let names = seq!["primary_color"@, "background_color"@, "text_color"@, "secondary_text_color"@, "font_family"@, "enable_animations"@, "show_social_icons"@, "show_status_bar"@, "status_text"@, "status_color"@];
    assert(s.len() == 10);
    assert(s[0].0 == names[0]);
    assert(s[1].0 == names[1]);
    assert(s[2].0 == names[2]);
    assert(s[3].0 == names[3]);
    assert(s[4].0 == names[4]);
    assert(s[5].0 == names[5]);
    assert(s[6].0 == names[6]);
    assert(s[7].0 == names[7]);
    assert(s[8].0 == names[8]);
    assert(s[9].0 == names[9]);
    assert(names[4][0] != names[8][0]);
    assert(names[5][0] != names[6][0]);
    assert forall|i: int, j: int| 0 <= i < j < s.len() implies (#[trigger] s[i]).0 != (#[trigger] s[j]).0 by {
        assert(s[i].0 == names[i] && s[j].0 == names[j]);
    }
}

#[verifier::rlimit(60)]
proof fn lemma_musashi_options_named_once()
    ensures
        schema_names_unique(musashi_schema()),
{
    reveal_strlit("primary_color");
    reveal_strlit("background_color");
    reveal_strlit("text_color");
    reveal_strlit("secondary_text_color");
    reveal_strlit("accent_color");
    reveal_strlit("font_family");
    reveal_strlit("enable_animations");
    reveal_strlit("show_brush_strokes");
    reveal_strlit("zen_mode");
    let s = musashi_schema();
    let names = seq!["primary_color"@, "background_color"@, "text_color"@, "secondary_text_color"@, "accent_color"@, "font_family"@, "enable_animations"@, "show_brush_strokes"@, "zen_mode"@];
    assert(s.len() == 9);
    assert(s[0].0 == names[0]);
    assert(s[1].0 == names[1]);
    assert(s[2].0 == names[2]);
    assert(s[3].0 == names[3]);
    assert(s[4].0 == names[4]);
    assert(s[5].0 == names[5]);
    assert(s[6].0 == names[6]);
    assert(s[7].0 == names[7]);
    assert(s[8].0 == names[8]);
    assert forall|i: int, j: int| 0 <= i < j < s.len() implies (#[trigger] s[i]).0 != (#[trigger] s[j]).0 by {
        assert(s[i].0 == names[i] && s[j].0 == names[j]);
    }
}

#[verifier::rlimit(60)]
proof fn lemma_slate_portfolio_options_named_once()
    ensures
        schema_names_unique(slate_portfolio_schema()),
{
    reveal_strlit("accent_color");
    reveal_strlit("background_color");
    reveal_strlit("card_background");
    reveal_strlit("text_color");
    reveal_strlit("secondary_text_color");
    reveal_strlit("font_family");
    reveal_strlit("show_avatar");
    reveal_strlit("avatar_url");
    reveal_strlit("cta_text");
    let s = slate_portfolio_schema();
    let names = seq!["accent_color"@, "background_color"@, "card_background"@, "text_color"@, "secondary_text_color"@, "font_family"@, "show_avatar"@, "avatar_url"@, "cta_text"@];
    assert(s.len() == 9);
    assert(s[0].0 == names[0]);
    assert(s[1].0 == names[1]);
    assert(s[2].0 == names[2]);
    assert(s[3].0 == names[3]);
    assert(s[4].0 == names[4]);
    assert(s[5].0 == names[5]);
    assert(s[6].0 == names[6]);
    assert(s[7].0 == names[7]);
    assert(s[8].0 == names[8]);
    assert(names[3][0] != names[7][0]);
    assert(names[5][0] != names[6][0]);
    assert forall|i: int, j: int| 0 <= i < j < s.len() implies (#[trigger] s[i]).0 != (#[trigger] s[j]).0 by {
        assert(s[i].0 == names[i] && s[j].0 == names[j]);
    }
}

#[verifier::rlimit(60)]
proof fn lemma_typewriter_options_named_once()
    ensures
        schema_names_unique(typewriter_schema()),
{
    reveal_strlit("paper_color");
    reveal_strlit("ink_color");
    reveal_strlit("accent_color");
    reveal_strlit("font_family");
    reveal_strlit("show_paper_texture");
    reveal_strlit("typing_animation");
    reveal_strlit("show_date_stamp");
    reveal_strlit("cursor_blink");
    let s = typewriter_schema();
    let names = seq!["paper_color"@, "ink_color"@, "accent_color"@, "font_family"@, "show_paper_texture"@, "typing_animation"@, "show_date_stamp"@, "cursor_blink"@];
    assert(s.len() == 8);
    assert(s[0].0 == names[0]);
    assert(s[1].0 == names[1]);
    assert(s[2].0 == names[2]);
    assert(s[3].0 == names[3]);
    assert(s[4].0 == names[4]);
    assert(s[5].0 == names[5]);
    assert(s[6].0 == names[6]);
    assert(s[7].0 == names[7]);
    assert(names[0][0] != names[3][0]);
    assert(names[2][0] != names[7][0]);
    assert forall|i: int, j: int| 0 <= i < j < s.len() implies (#[trigger] s[i]).0 != (#[trigger] s[j]).0 by {
        assert(s[i].0 == names[i] && s[j].0 == names[j]);
    }
}

/// Every bundled theme names each of its options once, so its options can
/// stand in a list as they would in a map.
pub proof fn law_theme_options_named_once(t: Theme)
    ensures
        schema_names_unique(theme_schema(t)),
{
    match t {
        Theme::MinimalRetro => lemma_minimal_retro_options_named_once(),
        Theme::Obsidian => lemma_obsidian_options_named_once(),
        Theme::TerminalCandy => lemma_terminal_candy_options_named_once(),
        Theme::DarkMinimal => lemma_dark_minimal_options_named_once(),
        Theme::Musashi => lemma_musashi_options_named_once(),
        Theme::SlatePortfolio => lemma_slate_portfolio_options_named_once(),
        Theme::Typewriter => lemma_typewriter_options_named_once(),
    }
}

/// The template names of a theme, the base template first.
pub open spec fn theme_templates(t: Theme) -> Seq<Seq<char>> {
    match t {
        Theme::MinimalRetro => minimal_retro_templates(),
        Theme::Obsidian => obsidian_templates(),
        Theme::TerminalCandy => terminal_candy_templates(),
        Theme::DarkMinimal => dark_minimal_templates(),
        Theme::Musashi => musashi_templates(),
        Theme::SlatePortfolio => slate_portfolio_templates(),
        Theme::Typewriter => typewriter_templates(),
    }
}

impl Theme {
    /// What the theme is and which options it takes.
    pub fn info(&self) -> (res: ThemeInfo)
        ensures
            res.site_type == theme_site_type(*self),
            schema_view(res.config_schema@) == theme_schema(*self),
    {
        match self {
            Theme::MinimalRetro => MinimalRetroTheme::new().info(),
            Theme::Obsidian => ObsidianTheme::new().info(),
            Theme::TerminalCandy => TerminalCandyTheme::new().info(),
            Theme::DarkMinimal => DarkMinimalTheme::new().info(),
            Theme::Musashi => MusashiTheme::new().info(),
            Theme::SlatePortfolio => SlatePortfolioTheme::new().info(),
            Theme::Typewriter => TypewriterTheme::new().info(),
        }
    }

    /// The names of the theme's templates, the base template first.
    pub fn template_names(&self) -> (res: Vec<&'static str>)
        ensures
            res@.map_values(|s: &str| s@) == theme_templates(*self),
    {
        match self {
            Theme::MinimalRetro => MinimalRetroTheme::new().template_names(),
            Theme::Obsidian => ObsidianTheme::new().template_names(),
            Theme::TerminalCandy => TerminalCandyTheme::new().template_names(),
            Theme::DarkMinimal => DarkMinimalTheme::new().template_names(),
            Theme::Musashi => MusashiTheme::new().template_names(),
            Theme::SlatePortfolio => SlatePortfolioTheme::new().template_names(),
            Theme::Typewriter => TypewriterTheme::new().template_names(),
        }
    }
}

/// The theme registered under a name.
pub fn get_theme(name: &str) -> (res: Option<Theme>)
    ensures
        res == theme_named(name@),
{
    if str_eq(name, "minimal-retro") {
        Some(Theme::MinimalRetro)
    } else if str_eq(name, "obsidian") {
        Some(Theme::Obsidian)
    } else if str_eq(name, "terminal-candy") {
        Some(Theme::TerminalCandy)
    } else if str_eq(name, "dark-minimal") {
        Some(Theme::DarkMinimal)
    } else if str_eq(name, "musashi") {
        Some(Theme::Musashi)
    } else if str_eq(name, "slate-portfolio") {
        Some(Theme::SlatePortfolio)
    } else if str_eq(name, "typewriter") {
        Some(Theme::Typewriter)
    } else {
        None
    }
}

/// The theme registered under a name.
pub fn get_theme_by_name(name: &str) -> (res: Option<Theme>)
    ensures
        res == theme_named(name@),
{
    get_theme(name)
}

/// The themes of a registry.
pub open spec fn registered_themes(v: Seq<(String, Theme)>) -> Seq<Theme> {
    v.map_values(|e: (String, Theme)| e.1)
}

/// A registry as names and themes.
pub open spec fn registry_view(v: Seq<(String, Theme)>) -> Seq<(Seq<char>, Theme)> {
    v.map_values(|e: (String, Theme)| (e.0@, e.1))
}

/// The bundled themes, each under the name it is registered under.
pub open spec fn theme_registry() -> Seq<(Seq<char>, Theme)> {
    seq![
        ("minimal-retro"@, Theme::MinimalRetro),
        ("obsidian"@, Theme::Obsidian),
        ("terminal-candy"@, Theme::TerminalCandy),
        ("dark-minimal"@, Theme::DarkMinimal),
        ("musashi"@, Theme::Musashi),
        ("slate-portfolio"@, Theme::SlatePortfolio),
        ("typewriter"@, Theme::Typewriter),
    ]
}

/// Every bundled theme once, each with the name it is registered under.
pub fn get_all_themes() -> (res: Vec<(String, Theme)>)
    ensures
        registry_view(res@) == theme_registry(),
        forall|i: int| 0 <= i < res@.len() ==> theme_named((#[trigger] res@[i]).0@) == Some(res@[i].1),
        forall|t: Theme| #[trigger] registered_themes(res@).contains(t),
{
    let v: Vec<(String, Theme)> = vec![
        ("minimal-retro".to_owned(), Theme::MinimalRetro),
        ("obsidian".to_owned(), Theme::Obsidian),
        ("terminal-candy".to_owned(), Theme::TerminalCandy),
        ("dark-minimal".to_owned(), Theme::DarkMinimal),
        ("musashi".to_owned(), Theme::Musashi),
        ("slate-portfolio".to_owned(), Theme::SlatePortfolio),
        ("typewriter".to_owned(), Theme::Typewriter),
    ];
    proof {
        reveal_strlit("minimal-retro");
        reveal_strlit("obsidian");
        reveal_strlit("terminal-candy");
        reveal_strlit("dark-minimal");
        reveal_strlit("musashi");
        reveal_strlit("slate-portfolio");
        reveal_strlit("typewriter");
        let m = registered_themes(v@);
        assert(registry_view(v@) =~= theme_registry());
        assert forall|i: int| 0 <= i < v@.len() implies theme_named((#[trigger] v@[i]).0@) == Some(v@[i].1) by {
            law_theme_lookup_round_trip(v@[i].1);
            assert(v@[i].0@ == theme_key(v@[i].1));
        }
        assert forall|t: Theme| #[trigger] m.contains(t) by {
            match t {
                Theme::MinimalRetro => assert(m[0] == t),
                Theme::Obsidian => assert(m[1] == t),
                Theme::TerminalCandy => assert(m[2] == t),
                Theme::DarkMinimal => assert(m[3] == t),
                Theme::Musashi => assert(m[4] == t),
                Theme::SlatePortfolio => assert(m[5] == t),
                Theme::Typewriter => assert(m[6] == t),
            }
        }
    }
    v
}

/// A registered name names its theme: looking a theme up by the name it
/// is registered under gives it back.
pub proof fn law_theme_lookup_round_trip(t: Theme)
    ensures
        theme_named(theme_key(t)) == Some(t),
{
    reveal_strlit("minimal-retro");
    reveal_strlit("obsidian");
    reveal_strlit("terminal-candy");
    reveal_strlit("dark-minimal");
    reveal_strlit("musashi");
    reveal_strlit("slate-portfolio");
    reveal_strlit("typewriter");
    match t {
        Theme::MinimalRetro => {},
        Theme::Obsidian => {
            assert("obsidian"@[0] != "minimal-retro"@[0]);
        },
        Theme::TerminalCandy => {
            assert("terminal-candy"@[0] != "minimal-retro"@[0]);
            assert("terminal-candy"@[0] != "obsidian"@[0]);
        },
        Theme::DarkMinimal => {
            assert("dark-minimal"@[0] != "minimal-retro"@[0]);
            assert("dark-minimal"@[0] != "obsidian"@[0]);
            assert("dark-minimal"@[0] != "terminal-candy"@[0]);
        },
        Theme::Musashi => {
            assert("musashi"@[1] != "minimal-retro"@[1]);
            assert("musashi"@[0] != "obsidian"@[0]);
            assert("musashi"@[0] != "terminal-candy"@[0]);
            assert("musashi"@[0] != "dark-minimal"@[0]);
        },
        Theme::SlatePortfolio => {
            assert("slate-portfolio"@[0] != "minimal-retro"@[0]);
            assert("slate-portfolio"@[0] != "obsidian"@[0]);
            assert("slate-portfolio"@[0] != "terminal-candy"@[0]);
            assert("slate-portfolio"@[0] != "dark-minimal"@[0]);
            assert("slate-portfolio"@[0] != "musashi"@[0]);
        },
        Theme::Typewriter => {
            assert("typewriter"@[0] != "minimal-retro"@[0]);
            assert("typewriter"@[0] != "obsidian"@[0]);
            assert("typewriter"@[1] != "terminal-candy"@[1]);
            assert("typewriter"@[0] != "dark-minimal"@[0]);
            assert("typewriter"@[0] != "musashi"@[0]);
            assert("typewriter"@[0] != "slate-portfolio"@[0]);
        },
    }
}

} // verus!
