//! A multi-session terminal emulation engine.
//!
//! The engine keeps one screen emulator per session, turns the bytes a
//! pseudo-terminal produced into a structured screen, and queues the
//! notifications a front end needs. It performs no I/O of its own: the host
//! hands it the bytes that arrived and collects the bytes and notifications
//! that are to leave.
pub mod emulator;
pub mod error;
pub mod events;
pub mod laws;
pub mod manager;
pub mod pty;
pub mod redraw;
pub mod session;
pub mod terminal;
pub mod text;
pub mod theme;
pub mod types;

pub use types::{
    idx_to_color, Cell, CellAttributes, CellChange, Color, Cursor, CursorPosition, CursorShape,
    Mark, MarkType, Row, Screen, ScreenUpdate, Size,
};
pub use terminal::Terminal;
pub use theme::{theme_names, Theme};
pub use error::{Error, Result};
pub use events::TerminalEvent;
pub use pty::{Host, Launch, Pty, PtyConfig};
pub use session::{Session, SessionConfig, SessionId, SessionInfo};
pub use manager::SessionManager;
