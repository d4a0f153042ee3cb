//! Markdown: the event stream of the parser, HTML, plain text and
//! excerpts.
use vstd::prelude::*;
use crate::text::{chars_of, join, push_char, push_str, replace_all, replace_str, string_of, words, words_vec};
use pulldown_cmark::{CodeBlockKind, Event, Tag};
use crate::newsletter::migration::opt_view;

verus! {

/// A Markdown element, as far as the library tells them apart.
#[derive(Clone, Copy, PartialEq, Eq, Structural, Debug)]
pub enum MdTag {
    Paragraph,
    /// A heading of level 1 to 6.
    Heading(u8),
    BlockQuote,
    CodeBlock,
    List,
    Item,
    Emphasis,
    Strong,
    Link,
    Other,
}

/// An event of the Markdown parser.
pub enum MdEvent {
    /// The start of a code block, with the language of a fenced one as
    /// written (possibly empty); `None` for an indented one.
    CodeBlockStart(Option<String>),
    Start(MdTag),
    End(MdTag),
    Text(String),
    Code(String),
    Html(String),
    SoftBreak,
    HardBreak,
    Rule,
    Other,
}

/// An event as plain values.
pub enum MdItem {
    CodeBlockStart(Option<Seq<char>>),
    Start(MdTag),
    End(MdTag),
    Text(Seq<char>),
    Code(Seq<char>),
    Html(Seq<char>),
    SoftBreak,
    HardBreak,
    Rule,
    Other,
}

/// The plain values of an event.
pub open spec fn md_item(e: MdEvent) -> MdItem {
    match e {
        MdEvent::CodeBlockStart(l) => MdItem::CodeBlockStart(match l {
            Some(x) => Some(x@),
            None => None,
        }),
        MdEvent::Start(t) => MdItem::Start(t),
        MdEvent::End(t) => MdItem::End(t),
        MdEvent::Text(s) => MdItem::Text(s@),
        MdEvent::Code(s) => MdItem::Code(s@),
        MdEvent::Html(s) => MdItem::Html(s@),
        MdEvent::SoftBreak => MdItem::SoftBreak,
        MdEvent::HardBreak => MdItem::HardBreak,
        MdEvent::Rule => MdItem::Rule,
        MdEvent::Other => MdItem::Other,
    }
}

/// The plain values of a sequence of events.
pub open spec fn md_items(v: Seq<MdEvent>) -> Seq<MdItem> {
    v.map_values(|e: MdEvent| md_item(e))
}


/// The events `pulldown_cmark::Parser::new_ext` yields for a text with the
/// given option bits.
pub uninterp spec fn md_events_with(s: Seq<char>, options: u32) -> Seq<MdItem>;

/// An event of `pulldown_cmark`, carried into the conversion below.
#[verifier::external_type_specification]
#[verifier::external_body]
pub struct ExEvent<'a>(pulldown_cmark::Event<'a>);

/// An element of `pulldown_cmark`, carried into the conversion below.
#[verifier::external_type_specification]
#[verifier::external_body]
pub struct ExTag<'a>(pulldown_cmark::Tag<'a>);

/// The library's name for a parser element (`Tag`): one arm per variant,
/// used by `md_event`. It claims nothing; the parser wrapper below states
/// what its events are.
#[verifier::external_body]
fn md_tag(t: &Tag) -> (res: MdTag) {
    match t {
        Tag::Paragraph => MdTag::Paragraph,
        Tag::Heading(level, _, _) => MdTag::Heading(*level as u8),
        Tag::BlockQuote => MdTag::BlockQuote,
        Tag::CodeBlock(_) => MdTag::CodeBlock,
        Tag::List(_) => MdTag::List,
        Tag::Item => MdTag::Item,
        Tag::Emphasis => MdTag::Emphasis,
        Tag::Strong => MdTag::Strong,
        Tag::Link(_, _, _) => MdTag::Link,
        _ => MdTag::Other,
    }
}

/// The library's form of a parser event: one arm per variant (the start
/// of a code block by its kind, keeping a fenced block's language), used
/// by `markdown_events_with`. It claims nothing; that wrapper states what
/// its events are.
#[verifier::external_body]
fn md_event(e: Event) -> (res: MdEvent) {
    match e {
        Event::Start(Tag::CodeBlock(CodeBlockKind::Fenced(l))) => MdEvent::CodeBlockStart(Some(l.to_string())),
        Event::Start(Tag::CodeBlock(CodeBlockKind::Indented)) => MdEvent::CodeBlockStart(None),
        Event::Start(t) => MdEvent::Start(md_tag(&t)),
        Event::End(t) => MdEvent::End(md_tag(&t)),
        Event::Text(t) => MdEvent::Text(t.to_string()),
        Event::Code(t) => MdEvent::Code(t.to_string()),
        Event::Html(t) => MdEvent::Html(t.to_string()),
        Event::SoftBreak => MdEvent::SoftBreak,
        Event::HardBreak => MdEvent::HardBreak,
        Event::Rule => MdEvent::Rule,
        _ => MdEvent::Other,
    }
}

/// The events of `pulldown_cmark::Parser::new_ext` on a text with the
/// given option bits (`Options::from_bits_truncate`). The result is named
/// `md_events_with`.
#[verifier::external_body]
pub(crate) fn markdown_events_with(s: &str, options: u32) -> (res: Vec<MdEvent>)
    ensures
        md_items(res@) == md_events_with(s@, options),
{
    pulldown_cmark::Parser::new_ext(s, pulldown_cmark::Options::from_bits_truncate(options))
        .map(md_event)
        .collect()
}

/// The events of a text with no parser options (`Parser::new`, which is
/// `Parser::new_ext` with none).
pub open spec fn md_events(s: Seq<char>) -> Seq<MdItem> {
    md_events_with(s, 0)
}

/// The events of a text with no parser options.
pub(crate) fn markdown_events(s: &str) -> (res: Vec<MdEvent>)
    ensures
        md_items(res@) == md_events(s@),
{
    markdown_events_with(s, 0)
}

/// The HTML that opens a code block: the language of a fenced block, as
/// written (possibly empty), becomes a class; an indented block has none.
pub open spec fn code_block_start_text(lang: Option<Seq<char>>) -> Seq<char> {
    match lang {
        Some(l) => "<pre class=\"highlight\"><code class=\"language-"@ + l + "\">"@,
        None => "<pre class=\"highlight\"><code>"@,
    }
}

/// The HTML that opens a code block; `lang` is the language of a fenced
/// block, `None` for an indented one.
pub fn code_block_start(lang: Option<&str>) -> (res: String)
    ensures
        res@ == code_block_start_text(match lang { Some(l) => Some(l@), None => None }),
{
    let mut out = String::new();
    match lang {
        Some(l) => {
            push_str(&mut out, "<pre class=\"highlight\"><code class=\"language-");
            push_str(&mut out, l);
            push_str(&mut out, "\">");
        },
        None => push_str(&mut out, "<pre class=\"highlight\"><code>"),
    }
    out
}

/// The HTML that closes a code block.
pub fn code_block_end() -> (res: String)
    ensures
        res@ == "</code></pre>"@,
{
    let mut out = String::new();
    push_str(&mut out, "</code></pre>");
    out
}

/// The views of optional strings.
pub open spec fn option_views(v: Seq<Option<String>>) -> Seq<Option<Seq<char>>> {
    v.map_values(|o: Option<String>| match o {
        Some(x) => Some(x@),
        None => None,
    })
}

/// The HTML that `syntect` highlights code with: the syntax found by the
/// language as a token, else as a file extension, else plain text, and the
/// bundled theme `base16-ocean.dark`; `None` where syntect reports an error.
pub uninterp spec fn highlighted_html(code: Seq<char>, language: Seq<char>) -> Option<Seq<char>>;

/// Highlights code as HTML with `syntect::html::highlighted_html_for_string`,
/// with the syntax and theme sets `syntect` bundles (`load_defaults_newlines`,
/// `ThemeSet::load_defaults`). The result is named `highlighted_html`; the
/// grammars and colours are syntect's.
#[verifier::external_body]
fn highlight_code(code: &str, language: &str) -> (res: Option<String>)
    ensures
        opt_view(res) == highlighted_html(code@, language@),
{
    let syntaxes = syntect::parsing::SyntaxSet::load_defaults_newlines();
    let themes = syntect::highlighting::ThemeSet::load_defaults();
    let syntax = syntaxes
        .find_syntax_by_token(language)
        .or_else(|| syntaxes.find_syntax_by_extension(language))
        .unwrap_or_else(|| syntaxes.find_syntax_plain_text());
    syntect::html::highlighted_html_for_string(code, &syntaxes, syntax, &themes.themes["base16-ocean.dark"]).ok()
}

/// The language a code block is highlighted as: a fenced block's, as
/// written; none (the empty text) for an indented one.
pub open spec fn block_language(lang: Option<Seq<char>>) -> Seq<char> {
    match lang {
        Some(l) => l,
        None => Seq::empty(),
    }
}

/// The language of the code block that the next event lies in, after the
/// given events; `None` outside code blocks.
pub open spec fn code_context(items: Seq<MdItem>) -> Option<Seq<char>>
    decreases items.len(),
{
    if items.len() == 0 {
        None
    } else {
        match items.last() {
            MdItem::CodeBlockStart(lang) => Some(block_language(lang)),
            MdItem::End(MdTag::CodeBlock) => None,
            _ => code_context(items.drop_last()),
        }
    }
}

/// What stands in place of an event in the given context: the opening and
/// closing HTML of a code block for the events that start and end one, the
/// highlighted HTML for text inside one, nothing (the event is written as
/// it is) for the others. `None` where highlighting fails.
pub open spec fn code_block_html(item: MdItem, context: Option<Seq<char>>) -> Option<Option<Seq<char>>> {
    match item {
        MdItem::CodeBlockStart(lang) => Some(Some(code_block_start_text(lang))),
        MdItem::End(MdTag::CodeBlock) => Some(Some("</code></pre>"@)),
        MdItem::Text(t) => match context {
            Some(l) => match highlighted_html(t, l) {
                Some(h) => Some(Some(h)),
                None => None,
            },
            None => Some(None),
        },
        _ => Some(None),
    }
}

/// What stands in place of each of the events; `None` where highlighting
/// any code fails.
pub open spec fn code_block_replacements(items: Seq<MdItem>) -> Option<Seq<Option<Seq<char>>>>
    decreases items.len(),
{
    if items.len() == 0 {
        Some(Seq::empty())
    } else {
        match code_block_replacements(items.drop_last()) {
            None => None,
            Some(r) => match code_block_html(items.last(), code_context(items.drop_last())) {
                None => None,
                Some(x) => Some(r.push(x)),
            },
        }
    }
}

proof fn lemma_replacements_fail(items: Seq<MdItem>, k: int, n: int)
    requires
        0 <= k <= n <= items.len(),
        code_block_replacements(items.take(k)) is None,
    ensures
        code_block_replacements(items.take(n)) is None,
    decreases n - k,
{
    if k < n {
        assert(items.take(k + 1).drop_last() =~= items.take(k));
        lemma_replacements_fail(items, k + 1, n);
    }
}

/// For each event, the HTML written in its place: code blocks are opened
/// by `code_block_start` and closed by `code_block_end`, and the code in
/// them is highlighted; `None` keeps the event. `None` as a whole where
/// highlighting fails.
pub fn code_block_replacements_of(events: &Vec<MdEvent>) -> (res: Option<Vec<Option<String>>>)
    ensures
        match code_block_replacements(md_items(events@)) {
            Some(r) => res matches Some(v) && option_views(v@) == r && v@.len() == events@.len(),
            None => res is None,
        },
{
    let ghost items = md_items(events@);
    let mut out: Vec<Option<String>> = Vec::new();
    let mut context: Option<String> = None;
    let mut i: usize = 0;
    while i < events.len()
        invariant
            i <= events@.len(),
            items == md_items(events@),
            code_block_replacements(items.take(i as int)) == Some(option_views(out@)),
            out@.len() == i,
            opt_view(context) == code_context(items.take(i as int)),
        decreases events.len() - i,
    {
        assert(items.take(i + 1).drop_last() =~= items.take(i as int));
        assert(items.take(i + 1).last() == md_item(events@[i as int]));
        let r = match &events[i] {
            MdEvent::CodeBlockStart(lang) => {
                context = Some(match lang {
                    Some(l) => l.clone(),
                    None => String::new(),
                });
                Some(code_block_start(match lang {
                    Some(l) => Some(l.as_str()),
                    None => None,
                }))
            },
            MdEvent::End(MdTag::CodeBlock) => {
                context = None;
                Some(code_block_end())
            },
            MdEvent::Text(t) => match &context {
                Some(l) => match highlight_code(t.as_str(), l.as_str()) {
                    Some(h) => Some(h),
                    None => {
                        proof { lemma_replacements_fail(items, i + 1, items.len() as int); }
                        assert(items.take(items.len() as int) =~= items);
                        return None;
                    },
                },
                None => None,
            },
            _ => None,
        };
        let ghost before = out@;
        out.push(r);
        assert(option_views(out@) =~= option_views(before).push(opt_view(r)));
        i += 1;
    }
    assert(items.take(events@.len() as int) =~= items);
    Some(out)
}

/// A raw HTML event of `pulldown_cmark` (`Event::Html`) holding `h`. It
/// claims nothing.
#[verifier::external_body]
fn html_event(h: String) -> (res: Event<'static>) {
    Event::Html(h.into())
}

/// The event written in place of a parsed one: raw HTML where a
/// replacement is given, the parsed event itself otherwise.
fn event_or_html<'a>(e: Event<'a>, replacement: &Option<String>) -> (res: Event<'a>)
    ensures
        replacement is None ==> res == e,
{
    match replacement {
        Some(h) => html_event(h.clone()),
        None => e,
    }
}

/// The HTML that `pulldown_cmark::html::push_html` writes for the events of
/// `Parser::new_ext` on a text with the given option bits, where each event
/// whose entry in `replacements` is `Some(h)` is written as the raw HTML `h`
/// (`Event::Html`) and the others as they are.
pub uninterp spec fn md_html_replacing(s: Seq<char>, options: u32, replacements: Seq<Option<Seq<char>>>) -> Seq<char>;

/// Writes the events of `pulldown_cmark::Parser::new_ext` on `s` as HTML
/// with `pulldown_cmark::html::push_html`, each event paired with its entry
/// of `replacements` (one per event) and handed over as `event_or_html`
/// gives it. The result is named `md_html_replacing`; CommonMark's rules
/// and the HTML writer are not restated.
#[verifier::external_body]
fn push_html_replacing(s: &str, options: u32, replacements: &Vec<Option<String>>) -> (res: String)
    requires
        replacements@.len() == md_events_with(s@, options).len(),
    ensures
        res@ == md_html_replacing(s@, options, option_views(replacements@)),
{
    let parser = pulldown_cmark::Parser::new_ext(s, pulldown_cmark::Options::from_bits_truncate(options));
    let events = parser.zip(replacements.iter()).map(|(e, r)| event_or_html(e, r));
    let mut out = String::new();
    pulldown_cmark::html::push_html(&mut out, events);
    out
}

/// The parser options of posts: strikethrough, tables, footnotes and task
/// lists (`pulldown_cmark::Options` bits 3, 1, 2 and 4).
pub const POST_OPTIONS: u32 = 30;

/// The HTML of a post's Markdown: the parser's events written by the HTML
/// writer, each code block opened and closed by the library's own HTML and
/// its code highlighted; `None` where highlighting fails.
pub open spec fn markdown_html(s: Seq<char>) -> Option<Seq<char>> {
    match code_block_replacements(md_events_with(s, POST_OPTIONS)) {
        Some(r) => Some(md_html_replacing(s, POST_OPTIONS, r)),
        None => None,
    }
}

/// Renders a post's Markdown to HTML, with the post options and code
/// highlighted; `None` where highlighting fails.
pub fn render_markdown(markdown: &str) -> (res: Option<String>)
    ensures
        opt_view(res) == markdown_html(markdown@),
{
    let events = markdown_events_with(markdown, POST_OPTIONS);
    match code_block_replacements_of(&events) {
        Some(replacements) => Some(push_html_replacing(markdown, POST_OPTIONS, &replacements)),
        None => None,
    }
}

/// The plain text of events: texts and inline code as they are, a space
/// for each line break, nothing for the rest.
pub open spec fn plain_text(items: Seq<MdItem>) -> Seq<char>
    decreases items.len(),
{
    if items.len() == 0 {
        Seq::empty()
    } else {
        let t = plain_text(items.drop_last());
        match items.last() {
            MdItem::Text(s) => t + s,
            MdItem::Code(s) => t + s,
            MdItem::SoftBreak => t.push(' '),
            MdItem::HardBreak => t.push(' '),
            _ => t,
        }
    }
}

/// The plain text of parsed Markdown.
pub fn text_of_events(events: &Vec<MdEvent>) -> (res: String)
    ensures
        res@ == plain_text(md_items(events@)),
{
    let ghost items = md_items(events@);
    let mut text = String::new();
    let mut i: usize = 0;
    while i < events.len()
        invariant
            i <= events@.len(),
            items == md_items(events@),
            text@ == plain_text(items.take(i as int)),
        decreases events.len() - i,
    {
        assert(items.take(i + 1).drop_last() =~= items.take(i as int));
        assert(items.take(i + 1).last() == md_item(events@[i as int]));
        match &events[i] {
            MdEvent::Text(t) => push_str(&mut text, t.as_str()),
            MdEvent::Code(t) => push_str(&mut text, t.as_str()),
            MdEvent::SoftBreak => push_char(&mut text, ' '),
            MdEvent::HardBreak => push_char(&mut text, ' '),
            _ => {},
        }
        i += 1;
    }
    assert(items.take(events@.len() as int) =~= items);
    text
}

/// Convert markdown to plain text (for excerpts).
pub fn markdown_to_text(markdown: &str) -> (res: String)
    ensures
        res@ == plain_text(md_events(markdown@)),
{
    let events = markdown_events(markdown);
    text_of_events(&events)
}

/// The first `limit` words of a text joined by spaces, with `...` when
/// there were more.
pub open spec fn word_excerpt(text: Seq<char>, limit: nat) -> Seq<char> {
    let w = words(text);
    let e = join(w.take(if w.len() < limit { w.len() as int } else { limit as int }), " "@);
    if w.len() > limit {
        e + "..."@
    } else {
        e
    }
}

/// The excerpt of a plain text.
pub fn excerpt_of_text(text: &str, word_limit: usize) -> (res: String)
    ensures
        res@ == word_excerpt(text@, word_limit as nat),
{
    let v = chars_of(text);
    let w = words_vec(&v);
    let k = if w.len() < word_limit { w.len() } else { word_limit };
    let space = chars_of(" ");
    let mut res = crate::text::join_prefix(&w, k, &space);
    if w.len() > word_limit {
        push_str(&mut res, "...");
    }
    res
}

/// Extract excerpt from markdown (first N words of its plain text).
pub fn extract_excerpt(markdown: &str, word_limit: usize) -> (res: String)
    ensures
        res@ == word_excerpt(plain_text(md_events(markdown@)), word_limit as nat),
{
    let text = markdown_to_text(markdown);
    excerpt_of_text(text.as_str(), word_limit)
}

/// Special HTML characters replaced by entities, `&` first.
pub open spec fn escaped(s: Seq<char>) -> Seq<char> {
    replace_all(
        replace_all(
            replace_all(replace_all(replace_all(s, "&"@, "&amp;"@), "<"@, "&lt;"@), ">"@, "&gt;"@),
            "\""@,
            "&quot;"@,
        ),
        "'"@,
        "&#x27;"@,
    )
}

/// HTML escape text.
pub fn html_escape(text: &str) -> (res: String)
    ensures
        res@ == escaped(text@),
{
    proof {
        reveal_strlit("&");
        reveal_strlit("<");
        reveal_strlit(">");
        reveal_strlit("\"");
        reveal_strlit("'");
    }
    let v = chars_of(text);
    let a = replace_str(&v, "&", "&amp;");
    let b = replace_str(&a, "<", "&lt;");
    let c = replace_str(&b, ">", "&gt;");
    let d = replace_str(&c, "\"", "&quot;");
    let e = replace_str(&d, "'", "&#x27;");
    string_of(&e)
}

/// The code block the parser is in; the renderer does not track it, so
/// there is none.
pub fn get_current_context() -> (res: Option<String>)
    ensures
        res is None,
{
    None
}

} // verus!
