//! Markdown preview for the terminal: parser events become lines of
//! styled pieces of text. Colours come with the theme outside the library;
//! here each piece carries the role that picks its style.
use vstd::prelude::*;
use crate::generator::markdown::{markdown_events_with, md_events_with, md_item, md_items, MdEvent, MdItem, MdTag};
use crate::text::{chars_of, has_prefix, push_str, split, split_vec, starts_with, string_of, views, Sep};

verus! {

/// What a piece of text is, which decides its style.
#[derive(Clone, Copy, PartialEq, Eq, Structural, Debug)]
pub enum StyleRole {
    Text,
    CodeBlock,
    H1,
    H2,
    H3,
    Header,
    Code,
    Bold,
    Italic,
    Blockquote,
    List,
    Link,
    Html,
    Raw,
    Rule,
}

/// A piece of a line.
pub struct StyledSpan {
    pub text: String,
    pub role: StyleRole,
}

/// A line as pieces of text and roles.
pub open spec fn line_view(l: Seq<StyledSpan>) -> Seq<(Seq<char>, StyleRole)> {
    l.map_values(|s: StyledSpan| (s.text@, s.role))
}

/// Lines as pieces of text and roles.
pub open spec fn lines_view(ls: Seq<Vec<StyledSpan>>) -> Seq<Seq<(Seq<char>, StyleRole)>> {
    ls.map_values(|l: Vec<StyledSpan>| line_view(l@))
}

/// The renderer's state between events.
pub struct RenderState {
    pub lines: Seq<Seq<(Seq<char>, StyleRole)>>,
    pub cur: Seq<(Seq<char>, StyleRole)>,
    pub in_code_block: bool,
    pub in_header: bool,
    pub header_level: u8,
    pub in_emphasis: bool,
    pub in_strong: bool,
    pub in_blockquote: bool,
    pub list_level: nat,
}

/// The state before any event.
pub open spec fn initial_state() -> RenderState {
    RenderState {
        lines: Seq::empty(),
        cur: Seq::empty(),
        in_code_block: false,
        in_header: false,
        header_level: 0,
        in_emphasis: false,
        in_strong: false,
        in_blockquote: false,
        list_level: 0,
    }
}

/// The open line, if it has pieces, moved to the lines.
pub open spec fn flushed(st: RenderState) -> RenderState {
    if st.cur.len() > 0 {
        RenderState { lines: st.lines.push(st.cur), cur: Seq::empty(), ..st }
    } else {
        st
    }
}

/// The state with one more finished line.
pub open spec fn with_line(st: RenderState, l: Seq<(Seq<char>, StyleRole)>) -> RenderState {
    RenderState { lines: st.lines.push(l), ..st }
}

/// The state with one more piece on the open line.
pub open spec fn with_span(st: RenderState, p: (Seq<char>, StyleRole)) -> RenderState {
    RenderState { cur: st.cur.push(p), ..st }
}

/// An empty line after a block.
pub open spec fn blank_line() -> Seq<(Seq<char>, StyleRole)> {
    seq![(Seq::<char>::empty(), StyleRole::Raw)]
}

/// The role of text in the current state.
pub open spec fn text_role(st: RenderState) -> StyleRole {
    if st.in_code_block {
        StyleRole::CodeBlock
    } else if st.in_header {
        if st.header_level == 1 {
            StyleRole::H1
        } else if st.header_level == 2 {
            StyleRole::H2
        } else if st.header_level == 3 {
            StyleRole::H3
        } else {
            StyleRole::Header
        }
    } else if st.in_strong {
        StyleRole::Bold
    } else if st.in_emphasis {
        StyleRole::Italic
    } else if st.in_blockquote {
        StyleRole::Blockquote
    } else {
        StyleRole::Text
    }
}

/// The pieces of a text from piece `i` on: each newline ends the open line,
/// and a piece is added when it is not empty or is the first.
pub open spec fn add_pieces(
    lines: Seq<Seq<(Seq<char>, StyleRole)>>,
    cur: Seq<(Seq<char>, StyleRole)>,
    ps: Seq<Seq<char>>,
    i: int,
    role: StyleRole,
) -> (Seq<Seq<(Seq<char>, StyleRole)>>, Seq<(Seq<char>, StyleRole)>)
    decreases ps.len() - i,
{
    if i < 0 || i >= ps.len() {
        (lines, cur)
    } else {
        let l2 = if i > 0 { lines.push(cur) } else { lines };
        let c2 = if i > 0 { Seq::empty() } else { cur };
        let c3 = if ps[i].len() > 0 || i == 0 { c2.push((ps[i], role)) } else { c2 };
        add_pieces(l2, c3, ps, i + 1, role)
    }
}

/// The text shown for a text event: indented by two spaces inside block
/// quotes and code blocks unless it already starts so.
pub open spec fn shown_text(st: RenderState, t: Seq<char>) -> Seq<char> {
    if (st.in_blockquote || st.in_code_block) && !has_prefix(t, "  "@) {
        "  "@ + t
    } else {
        t
    }
}

/// The bullet of a list item at the current depth.
pub open spec fn bullet(level: nat) -> Seq<char> {
    Seq::new((2 * (if level >= 1 { level - 1 } else { 0 })) as nat, |i: int| ' ') + "• "@
}

/// A horizontal rule: 80 box-drawing dashes.
pub open spec fn rule_text() -> Seq<char> {
    Seq::new(80, |i: int| '─')
}

/// The state after one event.
pub open spec fn render_step(st: RenderState, e: MdItem) -> RenderState {
    match e {
        MdItem::CodeBlockStart(_) => RenderState { in_code_block: true, ..flushed(st) },
        MdItem::Start(t) => match t {
            MdTag::Heading(level) => RenderState { in_header: true, header_level: level, ..flushed(st) },
            MdTag::Emphasis => RenderState { in_emphasis: true, ..st },
            MdTag::Strong => RenderState { in_strong: true, ..st },
            MdTag::CodeBlock => RenderState { in_code_block: true, ..flushed(st) },
            MdTag::BlockQuote => RenderState { in_blockquote: true, ..flushed(st) },
            MdTag::List => RenderState { list_level: st.list_level + 1, ..flushed(st) },
            MdTag::Item => {
                let f = flushed(st);
                RenderState { cur: f.cur.push((bullet(st.list_level), StyleRole::List)), ..f }
            },
            MdTag::Paragraph => flushed(st),
            MdTag::Link => RenderState { cur: st.cur.push(("["@, StyleRole::Link)), ..st },
            MdTag::Other => st,
        },
        MdItem::End(t) => match t {
            MdTag::Heading(_) => {
                let f = flushed(st);
                RenderState { lines: f.lines.push(blank_line()), in_header: false, header_level: 0, ..f }
            },
            MdTag::Emphasis => RenderState { in_emphasis: false, ..st },
            MdTag::Strong => RenderState { in_strong: false, ..st },
            MdTag::CodeBlock => {
                let f = flushed(st);
                RenderState { lines: f.lines.push(blank_line()), in_code_block: false, ..f }
            },
            MdTag::BlockQuote => {
                let f = flushed(st);
                RenderState { lines: f.lines.push(blank_line()), in_blockquote: false, ..f }
            },
            MdTag::List => {
                let f = flushed(st);
                RenderState {
                    lines: f.lines.push(blank_line()),
                    list_level: if st.list_level >= 1 { (st.list_level - 1) as nat } else { 0 },
                    ..f
                }
            },
            MdTag::Item => flushed(st),
            MdTag::Paragraph => {
                let f = flushed(st);
                RenderState { lines: f.lines.push(blank_line()), ..f }
            },
            MdTag::Link => RenderState { cur: st.cur.push(("]"@, StyleRole::Link)), ..st },
            MdTag::Other => st,
        },
        MdItem::Text(t) => {
            let r = add_pieces(st.lines, st.cur, split(shown_text(st, t), Sep::Char('\n')), 0, text_role(st));
            RenderState { lines: r.0, cur: r.1, ..st }
        },
        MdItem::Code(c) => RenderState { cur: st.cur.push((c, StyleRole::Code)), ..st },
        MdItem::Html(h) => RenderState { cur: st.cur.push((h, StyleRole::Html)), ..st },
        MdItem::SoftBreak => RenderState { cur: st.cur.push((" "@, StyleRole::Raw)), ..st },
        MdItem::HardBreak => RenderState { lines: st.lines.push(st.cur), cur: Seq::empty(), ..st },
        MdItem::Rule => {
            let f = flushed(st);
            RenderState {
                lines: f.lines.push(seq![(rule_text(), StyleRole::Rule)]).push(blank_line()),
                ..f
            }
        },
        MdItem::Other => st,
    }
}

/// The state after a sequence of events.
pub open spec fn render_fold(items: Seq<MdItem>) -> RenderState
    decreases items.len(),
{
    if items.len() == 0 {
        initial_state()
    } else {
        render_step(render_fold(items.drop_last()), items.last())
    }
}

/// The lines rendered from events: the state's lines and the open line.
pub open spec fn rendered(items: Seq<MdItem>) -> Seq<Seq<(Seq<char>, StyleRole)>> {
    flushed(render_fold(items)).lines
}

/// The parser options the preview uses: strikethrough, tables, footnotes
/// and task lists.
pub open spec fn preview_options() -> u32 {
    30
}

/// Markdown renderer for the terminal.
pub struct MarkdownRenderer {
    /// Parser option bits.
    pub options: u32,
}

/// The executable side of the renderer's state.
struct Renderer {
    lines: Vec<Vec<StyledSpan>>,
    cur: Vec<StyledSpan>,
    in_code_block: bool,
    in_header: bool,
    header_level: u8,
    in_emphasis: bool,
    in_strong: bool,
    in_blockquote: bool,
    list_level: usize,
}

impl Renderer {
    spec fn view(&self) -> RenderState {
        RenderState {
            lines: lines_view(self.lines@),
            cur: line_view(self.cur@),
            in_code_block: self.in_code_block,
            in_header: self.in_header,
            header_level: self.header_level,
            in_emphasis: self.in_emphasis,
            in_strong: self.in_strong,
            in_blockquote: self.in_blockquote,
            list_level: self.list_level as nat,
        }
    }

    fn flush(&mut self)
        ensures
            final(self).view() == flushed(old(self).view()),
    {
        if self.cur.len() > 0 {
            let ghost before = lines_view(self.lines@);
            let ghost c = line_view(self.cur@);
            let mut line: Vec<StyledSpan> = Vec::new();
            std::mem::swap(&mut line, &mut self.cur);
            self.lines.push(line);
            assert(lines_view(self.lines@) =~= before.push(c));
            assert(line_view(self.cur@) =~= Seq::<(Seq<char>, StyleRole)>::empty());
        }
    }

    fn push_line(&mut self, line: Vec<StyledSpan>)
        ensures
            final(self).view() == with_line(old(self).view(), line_view(line@)),
    {
        let ghost before = lines_view(self.lines@);
        let ghost lv = line_view(line@);
        self.lines.push(line);
        assert(lines_view(self.lines@) =~= before.push(lv));
    }

    fn push_blank(&mut self)
        ensures
            final(self).view() == with_line(old(self).view(), blank_line()),
    {
        let line = vec![StyledSpan { text: String::new(), role: StyleRole::Raw }];
        assert(line_view(line@) =~= blank_line());
        self.push_line(line);
    }

    fn push_span(&mut self, text: String, role: StyleRole)
        ensures
            final(self).view() == with_span(old(self).view(), (text@, role)),
    {
        let ghost before = line_view(self.cur@);
        let ghost tv = text@;
        self.cur.push(StyledSpan { text, role });
        assert(line_view(self.cur@) =~= before.push((tv, role)));
    }

    fn text_role(&self) -> (res: StyleRole)
        ensures
            res == text_role(self.view()),
    {
        if self.in_code_block {
            StyleRole::CodeBlock
        } else if self.in_header {
            if self.header_level == 1 {
                StyleRole::H1
            } else if self.header_level == 2 {
                StyleRole::H2
            } else if self.header_level == 3 {
                StyleRole::H3
            } else {
                StyleRole::Header
            }
        } else if self.in_strong {
            StyleRole::Bold
        } else if self.in_emphasis {
            StyleRole::Italic
        } else if self.in_blockquote {
            StyleRole::Blockquote
        } else {
            StyleRole::Text
        }
    }

    fn add_text(&mut self, t: &String)
        ensures
            final(self).view() == render_step(old(self).view(), MdItem::Text(t@)),
    {
        let ghost st = self.view();
        let role = self.text_role();
        let tv = chars_of(t.as_str());
        let shown = if (self.in_blockquote || self.in_code_block) && !starts_with(&tv, "  ") {
            let mut s = String::new();
            push_str(&mut s, "  ");
            push_str(&mut s, t.as_str());
            chars_of(s.as_str())
        } else {
            tv
        };
        assert(shown@ == shown_text(st, t@));
        let pieces = split_vec(&shown, &Sep::Char('\n'));
        let ghost ps = views(pieces@);
        let mut i: usize = 0;
        while i < pieces.len()
            invariant
                i <= pieces@.len(),
                ps == views(pieces@),
                ps == split(shown_text(st, t@), Sep::Char('\n')),
                role == text_role(st),
                self.in_code_block == st.in_code_block,
                self.in_header == st.in_header,
                self.header_level == st.header_level,
                self.in_emphasis == st.in_emphasis,
                self.in_strong == st.in_strong,
                self.in_blockquote == st.in_blockquote,
                self.list_level == st.list_level,
                add_pieces(st.lines, st.cur, ps, 0, role)
                    == add_pieces(lines_view(self.lines@), line_view(self.cur@), ps, i as int, role),
            decreases pieces.len() - i,
        {
            if i > 0 {
                let mut line: Vec<StyledSpan> = Vec::new();
            std::mem::swap(&mut line, &mut self.cur);
                self.push_line(line);
                assert(line_view(self.cur@) =~= Seq::<(Seq<char>, StyleRole)>::empty());
            }
            if pieces[i].len() > 0 || i == 0 {
                let s = string_of(&pieces[i]);
                self.push_span(s, role);
            }
            i += 1;
        }
    }

    fn start(&mut self, t: MdTag)
        requires
            old(self).list_level < usize::MAX,
        ensures
            final(self).view() == render_step(old(self).view(), MdItem::Start(t)),
            final(self).list_level <= old(self).list_level + 1,
    {
        match t {
            MdTag::Heading(level) => {
                self.flush();
                self.in_header = true;
                self.header_level = level;
            },
            MdTag::Emphasis => {
                self.in_emphasis = true;
            },
            MdTag::Strong => {
                self.in_strong = true;
            },
            MdTag::CodeBlock => {
                self.flush();
                self.in_code_block = true;
            },
            MdTag::BlockQuote => {
                self.flush();
                self.in_blockquote = true;
            },
            MdTag::List => {
                self.flush();
                self.list_level = self.list_level + 1;
            },
            MdTag::Item => {
                let level = self.list_level;
                self.flush();
                let b = bullet_text(level);
                self.push_span(b, StyleRole::List);
            },
            MdTag::Paragraph => {
                self.flush();
            },
            MdTag::Link => {
                self.push_span("[".to_owned(), StyleRole::Link);
            },
            MdTag::Other => {},
        }
    }

    fn end(&mut self, t: MdTag)
        ensures
            final(self).view() == render_step(old(self).view(), MdItem::End(t)),
            final(self).list_level <= old(self).list_level,
    {
        match t {
            MdTag::Heading(_) => {
                self.flush();
                self.push_blank();
                self.in_header = false;
                self.header_level = 0;
            },
            MdTag::Emphasis => {
                self.in_emphasis = false;
            },
            MdTag::Strong => {
                self.in_strong = false;
            },
            MdTag::CodeBlock => {
                self.flush();
                self.push_blank();
                self.in_code_block = false;
            },
            MdTag::BlockQuote => {
                self.flush();
                self.push_blank();
                self.in_blockquote = false;
            },
            MdTag::List => {
                self.flush();
                self.push_blank();
                self.list_level = if self.list_level >= 1 { self.list_level - 1 } else { 0 };
            },
            MdTag::Item => {
                self.flush();
            },
            MdTag::Paragraph => {
                self.flush();
                self.push_blank();
            },
            MdTag::Link => {
                self.push_span("]".to_owned(), StyleRole::Link);
            },
            MdTag::Other => {},
        }
    }

    fn hard_break(&mut self)
        ensures
            final(self).view() == render_step(old(self).view(), MdItem::HardBreak),
    {
        let mut line: Vec<StyledSpan> = Vec::new();
        std::mem::swap(&mut line, &mut self.cur);
        self.push_line(line);
        assert(line_view(self.cur@) =~= Seq::<(Seq<char>, StyleRole)>::empty());
    }

    fn rule(&mut self)
        ensures
            final(self).view() == render_step(old(self).view(), MdItem::Rule),
    {
        self.flush();
        let r = rule_string();
        let line = vec![StyledSpan { text: r, role: StyleRole::Rule }];
        assert(line_view(line@) =~= seq![(rule_text(), StyleRole::Rule)]);
        self.push_line(line);
        self.push_blank();
    }

    fn step(&mut self, e: &MdEvent)
        requires
            old(self).list_level < usize::MAX,
        ensures
            final(self).view() == render_step(old(self).view(), md_item(*e)),
            final(self).list_level <= old(self).list_level + 1,
    {
        match e {
            MdEvent::CodeBlockStart(_) => self.start(MdTag::CodeBlock),
            MdEvent::Start(t) => self.start(*t),
            MdEvent::End(t) => self.end(*t),
            MdEvent::Text(t) => self.add_text(t),
            MdEvent::Code(c) => self.push_span(c.clone(), StyleRole::Code),
            MdEvent::Html(h) => self.push_span(h.clone(), StyleRole::Html),
            MdEvent::SoftBreak => self.push_span(" ".to_owned(), StyleRole::Raw),
            MdEvent::HardBreak => self.hard_break(),
            MdEvent::Rule => self.rule(),
            MdEvent::Other => {},
        }
    }
}

fn bullet_text(level: usize) -> (res: String)
    ensures
        res@ == bullet(level as nat),
{
    let mut b = String::new();
    let depth = if level >= 1 { level - 1 } else { 0 };
    let mut k: usize = 0;
    while k < depth
        invariant
            k <= depth,
            b@ == Seq::new((2 * k) as nat, |i: int| ' '),
        decreases depth - k,
    {
        push_str(&mut b, "  ");
        proof { reveal_strlit("  "); }
        assert(b@ =~= Seq::new((2 * (k + 1)) as nat, |i: int| ' '));
        k += 1;
    }
    push_str(&mut b, "• ");
    b
}

fn rule_string() -> (res: String)
    ensures
        res@ == rule_text(),
{
    let mut r = String::new();
    let mut k: usize = 0;
    while k < 80
        invariant
            k <= 80,
            r@ == Seq::new(k as nat, |i: int| '─'),
        decreases 80 - k,
    {
        crate::text::push_char(&mut r, '─');
        assert(r@ =~= Seq::new((k + 1) as nat, |i: int| '─'));
        k += 1;
    }
    r
}

impl MarkdownRenderer {
    /// A renderer with strikethrough, tables, footnotes and task lists.
    pub fn new() -> (res: MarkdownRenderer)
        ensures
            res.options == preview_options(),
    {
        MarkdownRenderer { options: 30 }
    }

    /// The lines for parser events.
    pub fn render_events(events: &Vec<MdEvent>) -> (res: Vec<Vec<StyledSpan>>)
        ensures
            lines_view(res@) == rendered(md_items(events@)),
    {
        let ghost items = md_items(events@);
        let mut r = Renderer {
            lines: Vec::new(),
            cur: Vec::new(),
            in_code_block: false,
            in_header: false,
            header_level: 0,
            in_emphasis: false,
            in_strong: false,
            in_blockquote: false,
            list_level: 0,
        };
        assert(r.view() =~= initial_state()) by {
            assert(lines_view(r.lines@) =~= Seq::<Seq<(Seq<char>, StyleRole)>>::empty());
            assert(line_view(r.cur@) =~= Seq::<(Seq<char>, StyleRole)>::empty());
        }
        let mut i: usize = 0;
        while i < events.len()
            invariant
                i <= events@.len(),
                items == md_items(events@),
                r.view() == render_fold(items.take(i as int)),
                r.list_level <= i,
            decreases events.len() - i,
        {
            assert(items.take(i + 1).drop_last() =~= items.take(i as int));
            assert(items.take(i + 1).last() == md_item(events@[i as int]));
            r.step(&events[i]);
            i += 1;
        }
        assert(items.take(events@.len() as int) =~= items);
        r.flush();
        r.lines
    }

    /// Render markdown to lines of styled pieces.
    pub fn render_markdown(&self, markdown: &str) -> (res: Vec<Vec<StyledSpan>>)
        ensures
            lines_view(res@) == rendered(md_events_with(markdown@, self.options)),
    {
        let events = markdown_events_with(markdown, self.options);
        MarkdownRenderer::render_events(&events)
    }
}

} // verus!
