//! The notifications the engine emits.
use vstd::prelude::*;
use crate::types::{Cursor, Mark, MarkView, ScreenUpdate, ScreenUpdateView};

verus! {

/// Events emitted by the engine. Each event is addressed to one session and
/// carries a stable name for routing.
#[derive(Debug)]
pub enum TerminalEvent {
    /// Session was created.
    SessionCreated { session_id: String },
    /// Session was destroyed.
    SessionDestroyed { session_id: String },
    /// Terminal was resized.
    TerminalResized { session_id: String, cols: u16, rows: u16 },
    /// Screen content was updated.
    ScreenUpdate(ScreenUpdate),
    /// Full screen refresh (sent on reconnect); the screen is base64 encoded.
    ScreenRefresh { session_id: String, screen: String },
    /// Terminal bell.
    Bell { session_id: String },
    /// Window title changed.
    TitleChange { session_id: String, title: String },
    /// Current working directory changed.
    DirectoryChange { session_id: String, cwd: String },
    /// Shell integration mark.
    Mark { session_id: String, mark: Mark },
    /// Process exited.
    ProcessExit { session_id: String, exit_code: Option<i32> },
    /// Cursor position changed.
    CursorMove { session_id: String, cursor: Cursor },
    /// Selection changed; the text is the selected text, if any.
    SelectionChange { session_id: String, text: Option<String> },
    /// Clipboard request (OSC 52); the content is base64 encoded.
    ClipboardRequest { session_id: String, content: String },
    /// Hyperlink detected.
    Hyperlink { session_id: String, url: String, row: u16, start_col: u16, end_col: u16 },
}

/// An event as a value.
pub enum EventView {
    SessionCreated { session_id: Seq<char> },
    SessionDestroyed { session_id: Seq<char> },
    TerminalResized { session_id: Seq<char>, cols: u16, rows: u16 },
    ScreenUpdate(ScreenUpdateView),
    ScreenRefresh { session_id: Seq<char>, screen: Seq<char> },
    Bell { session_id: Seq<char> },
    TitleChange { session_id: Seq<char>, title: Seq<char> },
    DirectoryChange { session_id: Seq<char>, cwd: Seq<char> },
    Mark { session_id: Seq<char>, mark: MarkView },
    ProcessExit { session_id: Seq<char>, exit_code: Option<i32> },
    CursorMove { session_id: Seq<char>, cursor: Cursor },
    SelectionChange { session_id: Seq<char>, text: Option<Seq<char>> },
    ClipboardRequest { session_id: Seq<char>, content: Seq<char> },
    Hyperlink { session_id: Seq<char>, url: Seq<char>, row: u16, start_col: u16, end_col: u16 },
}

impl EventView {
    /// The session the event is addressed to.
    pub open spec fn session_id(self) -> Seq<char> {
        match self {
            EventView::SessionCreated { session_id } => session_id,
            EventView::SessionDestroyed { session_id } => session_id,
            EventView::TerminalResized { session_id, .. } => session_id,
            EventView::ScreenUpdate(update) => update.session_id,
            EventView::ScreenRefresh { session_id, .. } => session_id,
            EventView::Bell { session_id } => session_id,
            EventView::TitleChange { session_id, .. } => session_id,
            EventView::DirectoryChange { session_id, .. } => session_id,
            EventView::Mark { session_id, .. } => session_id,
            EventView::ProcessExit { session_id, .. } => session_id,
            EventView::CursorMove { session_id, .. } => session_id,
            EventView::SelectionChange { session_id, .. } => session_id,
            EventView::ClipboardRequest { session_id, .. } => session_id,
            EventView::Hyperlink { session_id, .. } => session_id,
        }
    }

    /// The name under which the event is routed: one per kind.
    pub open spec fn name(self) -> Seq<char> {
        match self {
            EventView::SessionCreated { .. } => "terminal://session-created"@,
            EventView::SessionDestroyed { .. } => "terminal://session-destroyed"@,
            EventView::TerminalResized { .. } => "terminal://terminal-resized"@,
            EventView::ScreenUpdate(_) => "terminal://screen-update"@,
            EventView::ScreenRefresh { .. } => "terminal://screen-refresh"@,
            EventView::Bell { .. } => "terminal://bell"@,
            EventView::TitleChange { .. } => "terminal://title-change"@,
            EventView::DirectoryChange { .. } => "terminal://directory-change"@,
            EventView::Mark { .. } => "terminal://mark"@,
            EventView::ProcessExit { .. } => "terminal://process-exit"@,
            EventView::CursorMove { .. } => "terminal://cursor-move"@,
            EventView::SelectionChange { .. } => "terminal://selection-change"@,
            EventView::ClipboardRequest { .. } => "terminal://clipboard-request"@,
            EventView::Hyperlink { .. } => "terminal://hyperlink"@,
        }
    }
}

impl View for TerminalEvent {
    type V = EventView;

    open spec fn view(&self) -> EventView {
        match self {
            TerminalEvent::SessionCreated { session_id } => EventView::SessionCreated {
                session_id: session_id@,
            },
            TerminalEvent::SessionDestroyed { session_id } => EventView::SessionDestroyed {
                session_id: session_id@,
            },
            TerminalEvent::TerminalResized { session_id, cols, rows } => EventView::TerminalResized {
                session_id: session_id@,
                cols: *cols,
                rows: *rows,
            },
            TerminalEvent::ScreenUpdate(update) => EventView::ScreenUpdate(update@),
            TerminalEvent::ScreenRefresh { session_id, screen } => EventView::ScreenRefresh {
                session_id: session_id@,
                screen: screen@,
            },
            TerminalEvent::Bell { session_id } => EventView::Bell { session_id: session_id@ },
            TerminalEvent::TitleChange { session_id, title } => EventView::TitleChange {
                session_id: session_id@,
                title: title@,
            },
            TerminalEvent::DirectoryChange { session_id, cwd } => EventView::DirectoryChange {
                session_id: session_id@,
                cwd: cwd@,
            },
            TerminalEvent::Mark { session_id, mark } => EventView::Mark {
                session_id: session_id@,
                mark: mark@,
            },
            TerminalEvent::ProcessExit { session_id, exit_code } => EventView::ProcessExit {
                session_id: session_id@,
                exit_code: *exit_code,
            },
            TerminalEvent::CursorMove { session_id, cursor } => EventView::CursorMove {
                session_id: session_id@,
                cursor: *cursor,
            },
            TerminalEvent::SelectionChange { session_id, text } => EventView::SelectionChange {
                session_id: session_id@,
                text: text.deep_view(),
            },
            TerminalEvent::ClipboardRequest { session_id, content } => EventView::ClipboardRequest {
                session_id: session_id@,
                content: content@,
            },
            TerminalEvent::Hyperlink { session_id, url, row, start_col, end_col } => EventView::Hyperlink {
                session_id: session_id@,
                url: url@,
                row: *row,
                start_col: *start_col,
                end_col: *end_col,
            },
        }
    }
}

impl DeepView for TerminalEvent {
    type V = EventView;

    open spec fn deep_view(&self) -> EventView {
        self@
    }
}

impl TerminalEvent {
    /// Get the session ID for this event.
    pub fn session_id(&self) -> (id: &str)
        ensures
            id@ == self@.session_id(),
    {
        match self {
            Self::SessionCreated { session_id } => session_id.as_str(),
            Self::SessionDestroyed { session_id } => session_id.as_str(),
            Self::TerminalResized { session_id, .. } => session_id.as_str(),
            Self::ScreenUpdate(update) => update.session_id.as_str(),
            Self::ScreenRefresh { session_id, .. } => session_id.as_str(),
            Self::Bell { session_id } => session_id.as_str(),
            Self::TitleChange { session_id, .. } => session_id.as_str(),
            Self::DirectoryChange { session_id, .. } => session_id.as_str(),
            Self::Mark { session_id, .. } => session_id.as_str(),
            Self::ProcessExit { session_id, .. } => session_id.as_str(),
            Self::CursorMove { session_id, .. } => session_id.as_str(),
            Self::SelectionChange { session_id, .. } => session_id.as_str(),
            Self::ClipboardRequest { session_id, .. } => session_id.as_str(),
            Self::Hyperlink { session_id, .. } => session_id.as_str(),
        }
    }

    /// Get the name under which the event is emitted.
    pub fn event_name(&self) -> (name: &'static str)
        ensures
            name@ == self@.name(),
    {
        match self {
            Self::SessionCreated { .. } => "terminal://session-created",
            Self::SessionDestroyed { .. } => "terminal://session-destroyed",
            Self::TerminalResized { .. } => "terminal://terminal-resized",
            Self::ScreenUpdate { .. } => "terminal://screen-update",
            Self::ScreenRefresh { .. } => "terminal://screen-refresh",
            Self::Bell { .. } => "terminal://bell",
            Self::TitleChange { .. } => "terminal://title-change",
            Self::DirectoryChange { .. } => "terminal://directory-change",
            Self::Mark { .. } => "terminal://mark",
            Self::ProcessExit { .. } => "terminal://process-exit",
            Self::CursorMove { .. } => "terminal://cursor-move",
            Self::SelectionChange { .. } => "terminal://selection-change",
            Self::ClipboardRequest { .. } => "terminal://clipboard-request",
            Self::Hyperlink { .. } => "terminal://hyperlink",
        }
    }
}

} // verus!
