//! The preview pane: rendered lines and a scroll position that stays on
//! the content.
use vstd::prelude::*;
use crate::tui::markdown::{lines_view, preview_options, rendered, MarkdownRenderer, StyledSpan};
use crate::generator::markdown::md_events_with;

verus! {

/// Keys the preview scrolls with.
#[derive(Clone, Copy, PartialEq, Eq, Structural, Debug)]
pub enum PreviewKey {
    Up,
    Down,
    PageUp,
    PageDown,
    Home,
    End,
    Other,
}

/// Preview component for rendering markdown.
pub struct Preview {
    /// Rendered content lines
    content: Vec<Vec<StyledSpan>>,
    /// Scroll position
    scroll: usize,
    /// Markdown renderer
    renderer: MarkdownRenderer,
}

/// The lines a page moves: three fewer than the pane is high (at least
/// one), ten when the height is not known.
pub open spec fn page_lines(height: Option<u16>) -> nat {
    let p: int = match height {
        Some(h) => if h >= 3 { h - 3 } else { 0 },
        None => 10,
    };
    if p < 1 { 1 } else { p as nat }
}

/// The last line that can be scrolled to.
pub open spec fn last_line(len: nat) -> nat {
    if len >= 1 { (len - 1) as nat } else { 0 }
}

/// The scroll position after a key.
pub open spec fn scrolled(scroll: nat, len: nat, key: PreviewKey, height: Option<u16>) -> nat {
    match key {
        PreviewKey::Up => if scroll > 0 { (scroll - 1) as nat } else { scroll },
        PreviewKey::Down => if scroll + 1 < len { scroll + 1 } else { scroll },
        PreviewKey::PageUp => if scroll >= page_lines(height) { (scroll - page_lines(height)) as nat } else { 0 },
        PreviewKey::PageDown => if scroll + page_lines(height) < len {
            scroll + page_lines(height)
        } else {
            last_line(len)
        },
        PreviewKey::Home => 0,
        PreviewKey::End => last_line(len),
        PreviewKey::Other => scroll,
    }
}

impl Preview {
    /// The rendered lines.
    pub closed spec fn lines(&self) -> Seq<Seq<(Seq<char>, crate::tui::markdown::StyleRole)>> {
        lines_view(self.content@)
    }

    /// The scroll position.
    pub closed spec fn position(&self) -> nat {
        self.scroll as nat
    }

    /// The scroll position is on the content (or 0 when there is none).
    pub open spec fn wf(&self) -> bool {
        self.position() <= last_line(self.lines().len())
    }

    /// An empty preview.
    pub fn new() -> (res: Preview)
        ensures
            res.wf(),
            res.lines().len() == 0,
            res.position() == 0,
    {
        Preview { content: Vec::new(), scroll: 0, renderer: MarkdownRenderer::new() }
    }

    /// Shows new Markdown, scrolled to the top.
    pub fn update_content(&mut self, markdown: String)
        ensures
            final(self).wf(),
            final(self).lines() == rendered(md_events_with(markdown@, preview_options())),
            final(self).position() == 0,
    {
        let r = MarkdownRenderer::new();
        self.content = r.render_markdown(markdown.as_str());
        self.renderer = r;
        self.scroll = 0;
    }

    /// Handle key events for scrolling.
    pub fn handle_key_event(&mut self, key: PreviewKey)
        requires
            old(self).wf(),
        ensures
            final(self).wf(),
            final(self).lines() == old(self).lines(),
            final(self).position() == scrolled(old(self).position(), old(self).lines().len(), key, None),
    {
        self.handle_key_event_with_height(key, None)
    }

    /// Handle key events for scrolling, knowing the pane's height.
    pub fn handle_key_event_with_height(&mut self, key: PreviewKey, height: Option<u16>)
        requires
            old(self).wf(),
        ensures
            final(self).wf(),
            final(self).lines() == old(self).lines(),
            final(self).position() == scrolled(old(self).position(), old(self).lines().len(), key, height),
    {
        let len = self.content.len();
        let page: usize = match height {
            Some(h) => {
                let p: usize = if h >= 3 { (h - 3) as usize } else { 0 };
                if p < 1 { 1 } else { p }
            },
            None => 10,
        };
        let last = if len >= 1 { len - 1 } else { 0 };
        match key {
            PreviewKey::Up => {
                if self.scroll > 0 {
                    self.scroll = self.scroll - 1;
                }
            },
            PreviewKey::Down => {
                if self.scroll < last {
                    self.scroll = self.scroll + 1;
                }
            },
            PreviewKey::PageUp => {
                if self.scroll >= page {
                    self.scroll = self.scroll - page;
                } else {
                    self.scroll = 0;
                }
            },
            PreviewKey::PageDown => {
                if page < len - self.scroll {
                    self.scroll = self.scroll + page;
                } else {
                    self.scroll = last;
                }
            },
            PreviewKey::Home => {
                self.scroll = 0;
            },
            PreviewKey::End => {
                self.scroll = last;
            },
            PreviewKey::Other => {},
        }
    }

    /// The lines shown in a pane of `height` lines: from the scroll
    /// position, as many as fit.
    pub fn visible_range(&self, height: usize) -> (res: (usize, usize))
        requires
            self.wf(),
        ensures
            res.0 == self.position(),
            res.1 == if self.position() + height < self.lines().len() { self.position() + height } else { self.lines().len() as int },
    {
        let start = self.scroll;
        let end = if height < self.content.len() - start {
            start + height
        } else {
            self.content.len()
        };
        proof {
            assert(self.lines().len() == self.content@.len());
        }
        (start, end)
    }

    /// Get the current scroll position.
    pub fn scroll_position(&self) -> (res: usize)
        ensures
            res == self.position(),
    {
        self.scroll
    }

    /// Get the total number of lines.
    pub fn total_lines(&self) -> (res: usize)
        ensures
            res == self.lines().len(),
    {
        self.content.len()
    }

    /// The rendered lines.
    pub fn content(&self) -> (res: &Vec<Vec<StyledSpan>>)
        ensures
            lines_view(res@) == self.lines(),
    {
        &self.content
    }
}

/// Scrolling never leaves the content, whatever the keys.
pub proof fn law_scroll_stays_on_content(scroll: nat, len: nat, key: PreviewKey, height: Option<u16>)
    requires
        scroll <= last_line(len),
    ensures
        scrolled(scroll, len, key, height) <= last_line(len),
{
}

} // verus!
