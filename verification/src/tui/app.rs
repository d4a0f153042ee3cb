//! The post editor screen as a state machine over its modes (normal,
//! insert, preview, help). Saving is done by the caller when a key asks for
//! it.
use vstd::prelude::*;
use crate::content::Post;
use crate::tui::editor::{content_of, key_spec, Editor, EditorKey, EditorModel};
use crate::tui::markdown::{preview_options, rendered};
use crate::tui::preview::{scrolled, Preview, PreviewKey};
use crate::generator::markdown::md_events_with;

verus! {

/// Application mode.
#[derive(Clone, Copy, PartialEq, Eq, Structural, Debug)]
pub enum AppMode {
    Normal,
    Insert,
    Preview,
    Help,
}

/// Which pane has the focus.
#[derive(Clone, Copy, PartialEq, Eq, Structural, Debug)]
pub enum Focus {
    Editor,
    Preview,
}

/// A key for the screen.
#[derive(Clone, Copy, PartialEq, Eq, Structural, Debug)]
pub enum AppKey {
    Esc,
    /// A function key by number.
    F(u8),
    /// A key the editor knows.
    Editor(EditorKey),
}

/// What the caller must do after a key.
#[derive(Clone, Copy, PartialEq, Eq, Structural, Debug)]
pub enum AppCommand {
    Nothing,
    /// Save the post, then call `save_finished`.
    Save,
}

/// Main application state.
pub struct App {
    pub running: bool,
    pub mode: AppMode,
    pub focus: Focus,
    /// The post being edited
    pub post: Post,
    /// Markdown editor
    pub editor: Editor,
    /// Preview pane
    pub preview: Preview,
    /// Whether the post has been modified
    pub modified: bool,
    pub status_message: String,
    pub show_help: bool,
}

/// Status texts.
pub open spec fn normal_status() -> Seq<char> {
    "NORMAL MODE - Press 'h' for help"@
}

pub open spec fn insert_status() -> Seq<char> {
    "INSERT MODE - Press Esc to return to normal mode"@
}

pub open spec fn preview_status() -> Seq<char> {
    "PREVIEW MODE - Press Esc to return to normal mode"@
}

/// The preview key for a key.
pub open spec fn preview_key(key: AppKey) -> PreviewKey {
    match key {
        AppKey::Editor(EditorKey::Up) => PreviewKey::Up,
        AppKey::Editor(EditorKey::Down) => PreviewKey::Down,
        AppKey::Editor(EditorKey::PageUp) => PreviewKey::PageUp,
        AppKey::Editor(EditorKey::PageDown) => PreviewKey::PageDown,
        AppKey::Editor(EditorKey::Home) => PreviewKey::Home,
        AppKey::Editor(EditorKey::End) => PreviewKey::End,
        _ => PreviewKey::Other,
    }
}

/// The preview shows the editor's text.
pub open spec fn preview_of(app: App) -> bool {
    app.preview.lines() == rendered(md_events_with(content_of(app.editor.model()), preview_options()))
        && app.preview.position() == 0
}

/// A key in normal mode: `q` quits unless there are unsaved changes, `Q`
/// quits, `i` and `p` switch modes, `s` asks for a save of the text, `h`
/// or F1 open the help, Tab moves the focus, `r` refreshes the preview.
pub open spec fn normal_step(before: App, after: App, key: AppKey, res: AppCommand) -> bool {
    &&& after.editor.model() == before.editor.model()
    &&& match key {
        AppKey::Editor(EditorKey::Char('q')) => if before.modified {
            after.running == before.running
                && after.status_message@ == "Press 's' to save, 'Q' to quit without saving"@
        } else {
            !after.running
        },
        AppKey::Editor(EditorKey::Char('Q')) => !after.running,
        AppKey::Editor(EditorKey::Char('i')) => after.mode == AppMode::Insert
            && after.status_message@ == insert_status(),
        AppKey::Editor(EditorKey::Char('p')) => after.mode == AppMode::Preview
            && after.focus == Focus::Preview && preview_of(after)
            && after.status_message@ == preview_status(),
        AppKey::Editor(EditorKey::Char('s')) => res == AppCommand::Save
            && after.post.content@ == content_of(before.editor.model()),
        AppKey::Editor(EditorKey::Char('h')) | AppKey::F(1) => after.show_help
            && after.mode == AppMode::Help,
        AppKey::Editor(EditorKey::Tab) => after.focus == (if before.focus == Focus::Editor {
            Focus::Preview
        } else {
            Focus::Editor
        }) && preview_of(after),
        AppKey::Editor(EditorKey::Char('r')) => preview_of(after)
            && after.status_message@ == "Preview refreshed"@,
        _ => after == before,
    }
    &&& res == AppCommand::Save <==> key == AppKey::Editor(EditorKey::Char('s'))
}

/// A key in insert mode: Esc goes back to normal mode; any other key is
/// an edit of the text.
pub open spec fn insert_step(before: App, after: App, key: AppKey, ctrl: bool) -> bool {
    &&& key == AppKey::Esc ==> after.mode == AppMode::Normal && after.focus == Focus::Editor
        && after.status_message@ == normal_status()
        && after.editor.model() == before.editor.model()
    &&& key != AppKey::Esc ==> ({
        let k = match key {
            AppKey::Editor(e) => e,
            _ => EditorKey::Other,
        };
        let (m, changed) = key_spec(before.editor.model(), k, ctrl);
        &&& after.editor.model() == m
        &&& after.modified == (before.modified || changed)
        &&& changed ==> after.post.content@ == content_of(m)
        &&& (changed && before.focus == Focus::Preview) ==> preview_of(after)
        &&& after.mode == before.mode
    })
}

/// A key in preview mode: Esc back to normal, `i` to insert, others
/// scroll the preview.
pub open spec fn preview_step(before: App, after: App, key: AppKey) -> bool {
    &&& after.editor.model() == before.editor.model()
    &&& if key == AppKey::Esc {
        after.mode == AppMode::Normal && after.focus == Focus::Editor
            && after.status_message@ == normal_status()
    } else if key == AppKey::Editor(EditorKey::Char('i')) {
        after.mode == AppMode::Insert && after.focus == Focus::Editor
            && after.status_message@ == insert_status()
    } else {
        after == App { preview: after.preview, ..before }
            && after.preview.lines() == before.preview.lines()
            && after.preview.position() == scrolled(
                before.preview.position(), before.preview.lines().len(), preview_key(key), None)
    }
}

/// A key in the help view: Esc, `h` or F1 close it.
pub open spec fn help_view_step(before: App, after: App, key: AppKey) -> bool {
    &&& after.editor.model() == before.editor.model()
    &&& (key == AppKey::Esc || key == AppKey::Editor(EditorKey::Char('h')) || key == AppKey::F(1)) ==> {
        &&& !after.show_help
        &&& after.mode == AppMode::Normal
        &&& after.status_message@ == normal_status()
    }
    &&& !(key == AppKey::Esc || key == AppKey::Editor(EditorKey::Char('h')) || key == AppKey::F(1))
        ==> after == before
}

impl App {
    /// The screen is consistent: the editor and preview are.
    pub open spec fn wf(&self) -> bool {
        self.editor.inv() && self.preview.wf()
    }

    /// A screen editing `post`, in normal mode.
    pub fn new(post: Post) -> (res: App)
        ensures
            res.wf(),
            res.running,
            res.mode == AppMode::Normal,
            res.focus == Focus::Editor,
            res.editor.model().lines == crate::tui::editor::initial_lines(post.content@),
            res.post == post,
            !res.modified,
            res.status_message@ == "Press 'i' to enter insert mode, 'q' to quit"@,
            !res.show_help,
    {
        let content = post.content.clone();
        let editor = Editor::new(content);
        App {
            running: true,
            mode: AppMode::Normal,
            focus: Focus::Editor,
            post,
            editor,
            preview: Preview::new(),
            modified: false,
            status_message: "Press 'i' to enter insert mode, 'q' to quit".to_owned(),
            show_help: false,
        }
    }

    /// Set running to false to quit the application.
    pub fn quit(&mut self)
        ensures
            !final(self).running,
            final(self).mode == old(self).mode,
            final(self).modified == old(self).modified,
            final(self).editor.model() == old(self).editor.model(),
            final(self).wf() == old(self).wf(),
    {
        self.running = false;
    }

    fn update_preview(&mut self)
        requires
            old(self).wf(),
        ensures
            final(self).wf(),
            preview_of(*final(self)),
            final(self).editor.model() == old(self).editor.model(),
            final(self).post == old(self).post,
            final(self).mode == old(self).mode,
            final(self).focus == old(self).focus,
            final(self).running == old(self).running,
            final(self).modified == old(self).modified,
            final(self).status_message == old(self).status_message,
            final(self).show_help == old(self).show_help,
    {
        let content = self.editor.get_content();
        self.preview.update_content(content);
    }

    /// Handle key events by mode.
    pub fn handle_key_event(&mut self, key: AppKey, ctrl: bool) -> (res: AppCommand)
        requires
            old(self).wf(),
        ensures
            final(self).wf(),
            match old(self).mode {
                AppMode::Normal => normal_step(*old(self), *final(self), key, res),
                AppMode::Insert => insert_step(*old(self), *final(self), key, ctrl) && res == AppCommand::Nothing,
                AppMode::Preview => preview_step(*old(self), *final(self), key) && res == AppCommand::Nothing,
                AppMode::Help => help_view_step(*old(self), *final(self), key) && res == AppCommand::Nothing,
            },
            res == AppCommand::Save ==> old(self).mode == AppMode::Normal,
            old(self).mode == AppMode::Insert && key != AppKey::Esc ==> ({
                let k = match key {
                    AppKey::Editor(e) => e,
                    _ => EditorKey::Other,
                };
                let (m, changed) = key_spec(old(self).editor.model(), k, ctrl);
                &&& final(self).editor.model() == m
                &&& final(self).modified == (old(self).modified || changed)
                &&& changed ==> final(self).post.content@ == content_of(m)
            }),
            old(self).mode == AppMode::Preview && key != AppKey::Esc && key != AppKey::Editor(EditorKey::Char('i'))
                ==> final(self).preview.position() == scrolled(
                    old(self).preview.position(), old(self).preview.lines().len(), preview_key(key), None),
    {
        match self.mode {
            AppMode::Normal => self.handle_normal_mode(key),
            AppMode::Insert => {
                self.handle_insert_mode(key, ctrl);
                AppCommand::Nothing
            },
            AppMode::Preview => {
                self.handle_preview_mode(key);
                AppCommand::Nothing
            },
            AppMode::Help => {
                self.handle_help_mode(key);
                AppCommand::Nothing
            },
        }
    }

    /// Keys in normal mode.
    pub fn handle_normal_mode(&mut self, key: AppKey) -> (res: AppCommand)
        requires
            old(self).wf(),
        ensures
            final(self).wf(),
            normal_step(*old(self), *final(self), key, res),
    {
        match key {
            AppKey::Editor(EditorKey::Char('q')) => {
                if self.modified {
                    self.status_message = "Press 's' to save, 'Q' to quit without saving".to_owned();
                } else {
                    self.quit();
                }
                AppCommand::Nothing
            },
            AppKey::Editor(EditorKey::Char('Q')) => {
                self.quit();
                AppCommand::Nothing
            },
            AppKey::Editor(EditorKey::Char('i')) => {
                self.mode = AppMode::Insert;
                self.status_message = "INSERT MODE - Press Esc to return to normal mode".to_owned();
                AppCommand::Nothing
            },
            AppKey::Editor(EditorKey::Char('p')) => {
                self.mode = AppMode::Preview;
                self.focus = Focus::Preview;
                self.update_preview();
                self.status_message = "PREVIEW MODE - Press Esc to return to normal mode".to_owned();
                AppCommand::Nothing
            },
            AppKey::Editor(EditorKey::Char('s')) => {
                self.post.content = self.editor.get_content();
                AppCommand::Save
            },
            AppKey::Editor(EditorKey::Char('h')) | AppKey::F(1) => {
                self.show_help = true;
                self.mode = AppMode::Help;
                AppCommand::Nothing
            },
            AppKey::Editor(EditorKey::Tab) => {
                self.focus = match self.focus {
                    Focus::Editor => Focus::Preview,
                    Focus::Preview => Focus::Editor,
                };
                self.update_preview();
                AppCommand::Nothing
            },
            AppKey::Editor(EditorKey::Char('r')) => {
                self.update_preview();
                self.status_message = "Preview refreshed".to_owned();
                AppCommand::Nothing
            },
            _ => AppCommand::Nothing,
        }
    }

    /// Records the outcome of a save: a saved post is no longer modified.
    pub fn save_finished(&mut self, saved: bool)
        ensures
            final(self).modified == (old(self).modified && !saved),
            final(self).status_message@ == "Post saved successfully!"@,
            final(self).mode == old(self).mode,
            final(self).editor.model() == old(self).editor.model(),
            final(self).wf() == old(self).wf(),
    {
        if saved {
            self.modified = false;
        }
        self.status_message = "Post saved successfully!".to_owned();
    }

    /// Keys in insert mode: Esc goes back to normal mode, everything else
    /// edits; an edit marks the post modified, copies the text into it and
    /// refreshes the preview when it has the focus.
    pub fn handle_insert_mode(&mut self, key: AppKey, ctrl: bool)
        requires
            old(self).wf(),
        ensures
            final(self).wf(),
            insert_step(*old(self), *final(self), key, ctrl),
    {
        match key {
            AppKey::Esc => {
                self.mode = AppMode::Normal;
                self.focus = Focus::Editor;
                self.status_message = "NORMAL MODE - Press 'h' for help".to_owned();
            },
            _ => {
                let k = match key {
                    AppKey::Editor(e) => e,
                    _ => EditorKey::Other,
                };
                if self.editor.handle_key_event(k, ctrl) {
                    self.modified = true;
                    self.post.content = self.editor.get_content();
                    if self.focus == Focus::Preview {
                        self.update_preview();
                    }
                }
            },
        }
    }

    /// Keys in preview mode: Esc back to normal, `i` to insert, others
    /// scroll the preview.
    pub fn handle_preview_mode(&mut self, key: AppKey)
        requires
            old(self).wf(),
        ensures
            final(self).wf(),
            preview_step(*old(self), *final(self), key),
    {
        match key {
            AppKey::Esc => {
                self.mode = AppMode::Normal;
                self.focus = Focus::Editor;
                self.status_message = "NORMAL MODE - Press 'h' for help".to_owned();
            },
            AppKey::Editor(EditorKey::Char('i')) => {
                self.mode = AppMode::Insert;
                self.focus = Focus::Editor;
                self.status_message = "INSERT MODE - Press Esc to return to normal mode".to_owned();
            },
            _ => {
                let pk = match key {
                    AppKey::Editor(EditorKey::Up) => PreviewKey::Up,
                    AppKey::Editor(EditorKey::Down) => PreviewKey::Down,
                    AppKey::Editor(EditorKey::PageUp) => PreviewKey::PageUp,
                    AppKey::Editor(EditorKey::PageDown) => PreviewKey::PageDown,
                    AppKey::Editor(EditorKey::Home) => PreviewKey::Home,
                    AppKey::Editor(EditorKey::End) => PreviewKey::End,
                    _ => PreviewKey::Other,
                };
                self.preview.handle_key_event(pk);
            },
        }
    }

    /// Keys in the help view: Esc, `h` or F1 close it.
    pub fn handle_help_mode(&mut self, key: AppKey)
        requires
            old(self).wf(),
        ensures
            final(self).wf(),
            help_view_step(*old(self), *final(self), key),
    {
        match key {
            AppKey::Esc | AppKey::Editor(EditorKey::Char('h')) | AppKey::F(1) => {
                self.show_help = false;
                self.mode = AppMode::Normal;
                self.status_message = "NORMAL MODE - Press 'h' for help".to_owned();
            },
            _ => {},
        }
    }

    /// The name of the mode shown in the status bar.
    pub fn mode_text(&self) -> (res: &'static str)
        ensures
            res@ == match self.mode {
                AppMode::Normal => "NORMAL"@,
                AppMode::Insert => "INSERT"@,
                AppMode::Preview => "PREVIEW"@,
                AppMode::Help => "HELP"@,
            },
    {
        match self.mode {
            AppMode::Normal => "NORMAL",
            AppMode::Insert => "INSERT",
            AppMode::Preview => "PREVIEW",
            AppMode::Help => "HELP",
        }
    }
}

} // verus!
