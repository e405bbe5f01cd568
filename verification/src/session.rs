//! One terminal session: a pseudo-terminal controller, a terminal emulator,
//! a theme and the session's metadata.
use vstd::prelude::*;
use vstd::string::StringExecFns;
use crate::error::{Error, ErrorView, Result};
use crate::events::{EventView, TerminalEvent};
use crate::pty::{Host, HostView, Pty, PtyConfig, PtyConfigView, PtyView};
use crate::terminal::{Terminal, TerminalView};
use crate::text::copy_text;
use crate::theme::{builtin_theme, dark_theme, Theme, ThemeView};
use crate::types::{
    Cursor, Mark, MarkView, Screen, ScreenUpdate, ScreenUpdateView, Size,
};

verus! {

/// Unique session identifier.
pub type SessionId = String;

/// Configuration for creating a new session.
#[derive(Debug)]
pub struct SessionConfig {
    /// Optional session ID (generated if not provided).
    pub id: Option<String>,
    /// Working directory.
    pub cwd: Option<String>,
    /// Shell to use.
    pub shell: Option<String>,
    /// Environment variables, in the order in which they are to be set.
    pub env: Vec<(String, String)>,
    /// Initial terminal size.
    pub cols: Option<u16>,
    pub rows: Option<u16>,
    /// Theme name.
    pub theme: Option<String>,
}

/// A session configuration as a value.
pub struct ConfigView {
    pub id: Option<Seq<char>>,
    pub cwd: Option<Seq<char>>,
    pub shell: Option<Seq<char>>,
    pub env: Seq<(Seq<char>, Seq<char>)>,
    pub cols: Option<u16>,
    pub rows: Option<u16>,
    pub theme: Option<Seq<char>>,
}

impl ConfigView {
    /// The size the session starts with: what is configured, and 80 columns
    /// by 24 rows where nothing is.
    pub open spec fn size(self) -> Size {
        Size {
            cols: match self.cols {
                Some(cols) => cols,
                None => 80,
            },
            rows: match self.rows {
                Some(rows) => rows,
                None => 24,
            },
        }
    }

    /// A configuration is valid when its size has at least one column and
    /// one row.
    pub open spec fn valid(self) -> bool {
        self.size().valid()
    }

    /// What the configuration asks of the pseudo-terminal.
    pub open spec fn pty(self) -> PtyConfigView {
        PtyConfigView { cwd: self.cwd, shell: self.shell, env: self.env, size: self.size() }
    }

    /// The theme the session starts with: the configured one if the table
    /// has it, the default theme otherwise.
    pub open spec fn chosen_theme(self) -> ThemeView {
        match self.theme {
            Some(name) => match builtin_theme(name) {
                Some(theme) => theme,
                None => dark_theme(),
            },
            None => dark_theme(),
        }
    }

    /// The same configuration with the identifier set.
    pub open spec fn identified(self, id: Seq<char>) -> ConfigView {
        ConfigView { id: Some(id), ..self }
    }
}

impl View for SessionConfig {
    type V = ConfigView;

    open spec fn view(&self) -> ConfigView {
        ConfigView {
            id: self.id.deep_view(),
            cwd: self.cwd.deep_view(),
            shell: self.shell.deep_view(),
            env: self.env.deep_view(),
            cols: self.cols,
            rows: self.rows,
            theme: self.theme.deep_view(),
        }
    }
}

impl Default for SessionConfig {
    fn default() -> (config: Self)
        ensures
            config@ == (ConfigView {
                id: None,
                cwd: None,
                shell: None,
                env: Seq::empty(),
                cols: Some(80u16),
                rows: Some(24u16),
                theme: None,
            }),
    {
        let config = Self {
            id: None,
            cwd: None,
            shell: None,
            env: Vec::new(),
            cols: Some(80),
            rows: Some(24),
            theme: None,
        };
        assert(config.env.deep_view() =~= Seq::empty());
        config
    }
}

/// Information about a session.
#[derive(Debug)]
pub struct SessionInfo {
    pub id: SessionId,
    pub cwd: Option<String>,
    pub shell: Option<String>,
    pub title: String,
    pub size: Size,
    pub is_alive: bool,
    pub created_at: u64,
}

/// Session information as a value.
pub struct InfoView {
    pub id: Seq<char>,
    pub cwd: Option<Seq<char>>,
    pub shell: Option<Seq<char>>,
    pub title: Seq<char>,
    pub size: Size,
    pub is_alive: bool,
    pub created_at: u64,
}

impl View for SessionInfo {
    type V = InfoView;

    open spec fn view(&self) -> InfoView {
        InfoView {
            id: self.id@,
            cwd: self.cwd.deep_view(),
            shell: self.shell.deep_view(),
            title: self.title@,
            size: self.size,
            is_alive: self.is_alive,
            created_at: self.created_at,
        }
    }
}

impl DeepView for SessionInfo {
    type V = InfoView;

    open spec fn deep_view(&self) -> InfoView {
        self@
    }
}

/// A terminal session combining PTY and terminal emulator.
pub struct Session {
    pub id: SessionId,
    terminal: Terminal,
    pty: Pty,
    theme: Theme,
    config: SessionConfig,
    created_at: u64,
    marks: Vec<Mark>,
}

/// The state of a session.
pub struct SessionView {
    pub id: Seq<char>,
    pub terminal: TerminalView,
    pub pty: PtyView,
    pub theme: ThemeView,
    pub config: ConfigView,
    pub created_at: u64,
    pub marks: Seq<MarkView>,
}

/// The description of the error for a size without columns or rows.
pub open spec fn empty_size_message() -> Seq<char> {
    "terminal size must be at least 1x1"@
}

impl SessionView {
    /// The emulator is well formed, and terminal and pseudo-terminal share
    /// one size.
    pub open spec fn wf(self) -> bool {
        &&& self.terminal.wf()
        &&& self.pty.size == self.terminal.size
    }

    /// The session that `config` asks for, under the identifier `id`, made
    /// on `host` at the time `now`.
    pub open spec fn created(id: Seq<char>, config: ConfigView, host: HostView, now: u64) -> SessionView {
        SessionView {
            id,
            terminal: TerminalView::fresh(config.size().cols, config.size().rows),
            pty: PtyView::spawned(config.pty(), host),
            theme: config.chosen_theme(),
            config,
            created_at: now,
            marks: Seq::empty(),
        }
    }

    /// The read-only projection of the session for listings.
    pub open spec fn info(self) -> InfoView {
        InfoView {
            id: self.id,
            cwd: self.config.cwd,
            shell: self.config.shell,
            title: self.terminal.title,
            size: self.terminal.size,
            is_alive: self.pty.alive,
            created_at: self.created_at,
        }
    }

    /// Whether output waits to be processed.
    pub open spec fn has_output(self) -> bool {
        self.pty.inbox.len() > 0
    }

    /// Whether a processing pass has anything to do: output waits, or the
    /// terminal was resized since the last pass and owes a full frame.
    pub open spec fn passes(self) -> bool {
        self.has_output() || self.terminal.resized
    }

    /// The bytes the next processing pass feeds the emulator: the oldest
    /// chunk that waits, and nothing where none waits.
    pub open spec fn next_chunk(self) -> Seq<u8> {
        if self.has_output() {
            self.pty.inbox[0]
        } else {
            Seq::empty()
        }
    }

    /// The session after one processing pass: the oldest chunk of output
    /// that waits, if any, has left the queue and gone through the emulator;
    /// after a resize the emulator is gone through even with no output.
    pub open spec fn stepped(self) -> SessionView {
        if self.passes() {
            SessionView {
                pty: if self.has_output() {
                    PtyView { inbox: self.pty.inbox.drop_first(), ..self.pty }
                } else {
                    self.pty
                },
                terminal: self.terminal.processed(self.next_chunk()),
                ..self
            }
        } else {
            self
        }
    }

    /// The update that one processing pass yields: none where the pass has
    /// nothing to do or the emulator reports no change; otherwise the
    /// changes with the cursor as it stands after the pass, and the title if
    /// there is one.
    pub open spec fn update(self) -> Option<ScreenUpdateView> {
        if self.passes() && self.terminal.changes(self.next_chunk()).len() > 0 {
            let after = self.terminal.processed(self.next_chunk());
            Some(
                ScreenUpdateView {
                    session_id: self.id,
                    changes: self.terminal.changes(self.next_chunk()),
                    cursor: after.cursor(),
                    title: if after.title.len() > 0 {
                        Some(after.title)
                    } else {
                        None
                    },
                },
            )
        } else {
            None
        }
    }

    /// The notifications of one processing pass: the update, if there is
    /// one, followed by a bell if the processed output rang it.
    pub open spec fn emitted(self) -> Seq<EventView> {
        match self.update() {
            Some(update) => if self.terminal.processed(self.next_chunk()).bell {
                seq![EventView::ScreenUpdate(update), EventView::Bell { session_id: self.id }]
            } else {
                seq![EventView::ScreenUpdate(update)]
            },
            None => Seq::empty(),
        }
    }

    /// The session after a resize.
    pub open spec fn resized(self, cols: u16, rows: u16) -> SessionView {
        SessionView {
            terminal: self.terminal.resized(cols, rows),
            pty: PtyView { size: Size { cols, rows }, ..self.pty },
            ..self
        }
    }

    /// The session after bytes were written to it.
    pub open spec fn written(self, data: Seq<u8>) -> SessionView {
        SessionView { pty: PtyView { outbox: self.pty.outbox + data, ..self.pty }, ..self }
    }

    /// The session after a chunk of output arrived for it.
    pub open spec fn delivered(self, chunk: Seq<u8>) -> SessionView {
        SessionView { pty: PtyView { inbox: self.pty.inbox.push(chunk), ..self.pty }, ..self }
    }

    /// The session after its process was marked dead.
    pub open spec fn killed(self) -> SessionView {
        SessionView { pty: PtyView { alive: false, ..self.pty }, ..self }
    }
}

impl View for Session {
    type V = SessionView;

    closed spec fn view(&self) -> SessionView {
        SessionView {
            id: self.id@,
            terminal: self.terminal@,
            pty: self.pty@,
            theme: self.theme@,
            config: self.config@,
            created_at: self.created_at,
            marks: self.marks.deep_view(),
        }
    }
}

impl DeepView for Session {
    type V = SessionView;

    open spec fn deep_view(&self) -> SessionView {
        self@
    }
}

/// `uuid::Uuid::new_v4`, written out in its text form. The identifier is
/// drawn at random; whatever is drawn, the text form is the hyphenated one,
/// which has 36 characters.
#[verifier::external_body]
fn generate_id() -> (id: String)
    ensures
        id@.len() == 36,
{
    uuid::Uuid::new_v4().to_string()
}

fn copy_env(env: &Vec<(String, String)>) -> (copy: Vec<(String, String)>)
    ensures
        copy.deep_view() == env.deep_view(),
{
    let mut copy: Vec<(String, String)> = Vec::new();
    let mut i: usize = 0;
    while i < env.len()
        invariant
            i <= env@.len(),
            copy@.len() == i,
            forall|j: int| 0 <= j < i ==> (#[trigger] copy@[j]).deep_view() == env@[j].deep_view(),
        decreases env@.len() - i,
    {
        copy.push((env[i].0.clone(), env[i].1.clone()));
        i = i + 1;
    }
    copy
}

impl SessionConfig {
    /// The identifier the session is to have: the configured one, or a
    /// new random one.
    pub fn resolve_id(&self) -> (id: SessionId)
        ensures
            self@.id is Some ==> id@ == self@.id.unwrap(),
            self@.id is None ==> id@.len() == 36,
    {
        match &self.id {
            Some(id) => id.clone(),
            None => generate_id(),
        }
    }

    /// What the configuration asks of the pseudo-terminal.
    pub fn pty_config(&self) -> (pty: PtyConfig)
        ensures
            pty@ == self@.pty(),
    {
        PtyConfig {
            cwd: copy_text(&self.cwd),
            shell: copy_text(&self.shell),
            env: copy_env(&self.env),
            size: Size {
                cols: match self.cols {
                    Some(cols) => cols,
                    None => 80,
                },
                rows: match self.rows {
                    Some(rows) => rows,
                    None => 24,
                },
            },
        }
    }
}

impl Session {
    /// The session's invariant.
    pub open spec fn wf(&self) -> bool {
        self@.wf()
    }

    /// Create a new session under the identifier the configuration names,
    /// or under a new random one where it names none. A size without
    /// columns or rows is refused.
    pub fn new(config: SessionConfig, host: &Host, created_at: u64) -> (session: Result<Self>)
        ensures
            config@.valid() ==> session is Ok,
            !config@.valid() ==> session is Err,
            session matches Err(e) ==> e@ == ErrorView::InvalidConfig(empty_size_message()),
            session matches Ok(s) ==> s.wf() && s@ == SessionView::created(
                s@.id,
                config@,
                host@,
                created_at,
            ) && (config@.id is Some ==> s@.id == config@.id.unwrap()) && (config@.id is None
                ==> s@.id.len() == 36),
    {
        let id = config.resolve_id();
        Self::with_id(id, config, host, created_at)
    }

    /// Create a new session under the identifier `id`.
    pub fn with_id(id: SessionId, config: SessionConfig, host: &Host, created_at: u64) -> (session:
        Result<Self>)
        ensures
            config@.valid() ==> session is Ok,
            !config@.valid() ==> session is Err,
            session matches Err(e) ==> e@ == ErrorView::InvalidConfig(empty_size_message()),
            session matches Ok(s) ==> s.wf() && s@ == SessionView::created(
                id@,
                config@,
                host@,
                created_at,
            ),
    {
        let pty_config = config.pty_config();
        let size = pty_config.size;
        if size.cols == 0 || size.rows == 0 {
            return Err(Error::InvalidConfig(String::from_str("terminal size must be at least 1x1")));
        }
        let terminal = Terminal::new(size.cols, size.rows);
        let pty = Pty::spawn(pty_config, host);
        let theme = match &config.theme {
            Some(name) => match Theme::by_name(name.as_str()) {
                Some(theme) => theme,
                None => Theme::default(),
            },
            None => Theme::default(),
        };
        let session = Self { id, terminal, pty, theme, config, created_at, marks: Vec::new() };
        assert(session@.marks =~= Seq::empty());
        Ok(session)
    }

    /// The identifier of the session.
    pub fn id(&self) -> (id: &SessionId)
        ensures
            id@ == self@.id,
    {
        &self.id
    }

    /// Get session info.
    pub fn info(&self) -> (info: SessionInfo)
        ensures
            info@ == self@.info(),
    {
        SessionInfo {
            id: self.id.clone(),
            cwd: copy_text(&self.config.cwd),
            shell: copy_text(&self.config.shell),
            title: String::from_str(self.terminal.title()),
            size: self.terminal.size(),
            is_alive: self.pty.is_alive(),
            created_at: self.created_at,
        }
    }

    /// Write data to the session's PTY.
    pub fn write(&mut self, data: &[u8])
        ensures
            final(self)@ == old(self)@.written(data@),
            old(self).wf() ==> final(self).wf(),
    {
        self.pty.write(data);
    }

    /// Take the bytes that were written to the session and wait for the
    /// process.
    pub fn take_input(&mut self) -> (bytes: Vec<u8>)
        ensures
            bytes@ == old(self)@.pty.outbox,
            final(self)@ == (SessionView {
                pty: PtyView { outbox: Seq::empty(), ..old(self)@.pty },
                ..old(self)@
            }),
            old(self).wf() ==> final(self).wf(),
    {
        self.pty.take_input()
    }

    /// Queue a chunk of output that arrived from the session's process.
    pub fn deliver(&mut self, chunk: Vec<u8>)
        ensures
            final(self)@ == old(self)@.delivered(chunk@),
            old(self).wf() ==> final(self).wf(),
    {
        self.pty.deliver(chunk);
    }

    /// Resize the session: the emulator and the pseudo-terminal take the
    /// new size, and a notification of the resize is emitted.
    pub fn resize(&mut self, cols: u16, rows: u16, events: &mut Vec<TerminalEvent>)
        requires
            old(self).wf(),
            cols >= 1,
            rows >= 1,
        ensures
            final(self).wf(),
            final(self)@ == old(self)@.resized(cols, rows),
            final(events).deep_view() == old(events).deep_view().push(
                EventView::TerminalResized { session_id: old(self)@.id, cols, rows },
            ),
    {
        self.terminal.resize(cols, rows);
        self.pty.resize(cols, rows);
        events.push(TerminalEvent::TerminalResized { session_id: self.id.clone(), cols, rows });
    }

    /// Get the full screen state.
    pub fn get_screen(&self) -> (screen: Screen)
        requires
            self.wf(),
        ensures
            screen@ == self@.terminal.screen(),
            screen@.wf(),
    {
        self.terminal.get_screen()
    }

    /// Get cursor state.
    pub fn get_cursor(&self) -> (cursor: Cursor)
        requires
            self.wf(),
        ensures
            cursor == self@.terminal.cursor(),
            cursor.position.within(self@.terminal.size),
    {
        self.terminal.get_cursor()
    }

    /// Get the theme.
    pub fn theme(&self) -> (theme: &Theme)
        ensures
            theme@ == self@.theme,
    {
        &self.theme
    }

    /// Set the theme.
    pub fn set_theme(&mut self, theme: Theme)
        ensures
            final(self)@ == (SessionView { theme: theme@, ..old(self)@ }),
            old(self).wf() ==> final(self).wf(),
    {
        self.theme = theme;
    }

    /// Whether the session's process is alive.
    pub fn is_alive(&self) -> (alive: bool)
        ensures
            alive == self@.pty.alive,
    {
        self.pty.is_alive()
    }

    /// The controller of the session's pseudo-terminal.
    pub fn pty(&self) -> (pty: &Pty)
        ensures
            pty@ == self@.pty,
    {
        &self.pty
    }

    /// Process any available PTY output: at most one chunk per call. After
    /// a resize the pass goes through the emulator even where no output
    /// waits, so that the full frame of the new grid is reported. Returns
    /// the update if the screen changed, and emits it.
    pub fn process_output(&mut self, events: &mut Vec<TerminalEvent>) -> (update: Option<
        ScreenUpdate,
    >)
        requires
            old(self).wf(),
        ensures
            final(self).wf(),
            final(self)@ == old(self)@.stepped(),
            update.deep_view() == old(self)@.update(),
            final(events).deep_view() == old(events).deep_view() + old(self)@.emitted(),
    {
        let data = match self.pty.try_read() {
            Some(data) => data,
            None => {
                if !self.terminal.needs_refresh() {
                    return None;
                }
                Vec::new()
            },
        };
        {
            let changes = self.terminal.process(data.as_slice());
            if changes.len() > 0 {
                let title = self.terminal.title();
                let update = ScreenUpdate {
                    session_id: self.id.clone(),
                    changes,
                    cursor: self.terminal.get_cursor(),
                    title: if title.is_empty() {
                        None
                    } else {
                        Some(String::from_str(title))
                    },
                };
                events.push(TerminalEvent::ScreenUpdate(update.clone()));
                if self.terminal.check_bell() {
                    events.push(TerminalEvent::Bell { session_id: self.id.clone() });
                }
                return Some(update);
            }
        }
        None
    }

    /// Get marks.
    pub fn marks(&self) -> (marks: &[Mark])
        ensures
            marks.deep_view() == self@.marks,
    {
        self.marks.as_slice()
    }

    /// Add a mark: it joins the end of the log, and is emitted.
    pub fn add_mark(&mut self, mark: Mark, events: &mut Vec<TerminalEvent>)
        ensures
            final(self)@ == (SessionView { marks: old(self)@.marks.push(mark@), ..old(self)@ }),
            old(self).wf() ==> final(self).wf(),
            final(events).deep_view() == old(events).deep_view().push(
                EventView::Mark { session_id: old(self)@.id, mark: mark@ },
            ),
    {
        self.marks.push(mark.clone());
        assert(self@.marks =~= old(self)@.marks.push(mark@));
        events.push(TerminalEvent::Mark { session_id: self.id.clone(), mark });
    }

    /// Kill the session: its process is marked dead.
    pub fn kill(&mut self)
        ensures
            final(self)@ == old(self)@.killed(),
            old(self).wf() ==> final(self).wf(),
    {
        self.pty.kill();
    }
}

} // verus!
