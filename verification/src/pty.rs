//! The pseudo-terminal controller of one session.
//!
//! The controller decides how the child process is to be launched and keeps
//! what passes between the session and the process: the chunks of output
//! that arrived and were not read yet, the bytes that were written and not
//! handed over yet, the window size and the liveness flag. The host moves
//! the bytes between the controller and the operating system.
use std::collections::VecDeque;
use vstd::prelude::*;
use vstd::string::StringExecFns;
use crate::text::{contains_text, copy_text, occurs_in};
use crate::types::Size;

verus! {

/// Configuration for spawning a PTY.
#[derive(Debug)]
pub struct PtyConfig {
    /// Working directory.
    pub cwd: Option<String>,
    /// Shell to use (defaults to system shell).
    pub shell: Option<String>,
    /// Environment variables.
    pub env: Vec<(String, String)>,
    /// Initial size.
    pub size: Size,
}

/// A spawn configuration as a value.
pub struct PtyConfigView {
    pub cwd: Option<Seq<char>>,
    pub shell: Option<Seq<char>>,
    pub env: Seq<(Seq<char>, Seq<char>)>,
    pub size: Size,
}

impl View for PtyConfig {
    type V = PtyConfigView;

    open spec fn view(&self) -> PtyConfigView {
        PtyConfigView {
            cwd: self.cwd.deep_view(),
            shell: self.shell.deep_view(),
            env: self.env.deep_view(),
            size: self.size,
        }
    }
}

impl Default for PtyConfig {
    fn default() -> (config: Self)
        ensures
            config@ == (PtyConfigView {
                cwd: None,
                shell: None,
                env: Seq::empty(),
                size: Size { cols: 80, rows: 24 },
            }),
    {
        let config = Self { cwd: None, shell: None, env: Vec::new(), size: Size::default() };
        assert(config.env.deep_view() =~= Seq::empty());
        config
    }
}

/// What the host's environment offers for a launch.
#[derive(Debug)]
pub struct Host {
    /// The user's shell as the environment names it, if it does.
    pub shell: Option<String>,
    /// Whether the platform is Windows.
    pub windows: bool,
}

/// A host environment as a value.
pub struct HostView {
    pub shell: Option<Seq<char>>,
    pub windows: bool,
}

impl View for Host {
    type V = HostView;

    open spec fn view(&self) -> HostView {
        HostView { shell: self.shell.deep_view(), windows: self.windows }
    }
}

/// How the child process is to be launched.
#[derive(Debug)]
pub struct Launch {
    /// The program to run.
    pub program: String,
    /// The directory to start in, if not the host's own.
    pub cwd: Option<String>,
    /// The variables to set, in this order; a later entry overrides an
    /// earlier one of the same name.
    pub env: Vec<(String, String)>,
    /// The initial window size.
    pub size: Size,
}

/// A launch as a value.
pub struct LaunchView {
    pub program: Seq<char>,
    pub cwd: Option<Seq<char>>,
    pub env: Seq<(Seq<char>, Seq<char>)>,
    pub size: Size,
}

impl View for Launch {
    type V = LaunchView;

    open spec fn view(&self) -> LaunchView {
        LaunchView {
            program: self.program@,
            cwd: self.cwd.deep_view(),
            env: self.env.deep_view(),
            size: self.size,
        }
    }
}

/// The shell to run: the configured one, else the one the environment names,
/// else the platform's default.
pub open spec fn resolved_shell(shell: Option<Seq<char>>, host: HostView) -> Seq<char> {
    match shell {
        Some(shell) => shell,
        None => match host.shell {
            Some(shell) => shell,
            None => if host.windows {
                "powershell.exe"@
            } else {
                "/bin/sh"@
            },
        },
    }
}

/// The variables set on top of the configured ones: `TERM` names a terminal
/// with 256 colours, and a shell whose path contains "zsh" is told that shell
/// integration is installed.
pub open spec fn launch_extras(program: Seq<char>) -> Seq<(Seq<char>, Seq<char>)> {
    if occurs_in("zsh"@, program) {
        seq![("TERM"@, "xterm-256color"@), ("ITERM_SHELL_INTEGRATION_INSTALLED"@, "Yes"@)]
    } else {
        seq![("TERM"@, "xterm-256color"@)]
    }
}

/// The launch that a configuration asks for on a host.
pub open spec fn launch_of(config: PtyConfigView, host: HostView) -> LaunchView {
    let program = resolved_shell(config.shell, host);
    LaunchView {
        program,
        cwd: config.cwd,
        env: config.env + launch_extras(program),
        size: config.size,
    }
}

/// The controller of one pseudo-terminal.
pub struct Pty {
    launch: Launch,
    size: Size,
    /// Whether the process is still alive.
    alive: bool,
    /// Output that arrived and was not read yet, oldest first.
    inbox: VecDeque<Vec<u8>>,
    /// Bytes written and not handed to the host yet.
    outbox: Vec<u8>,
}

/// The state of a controller.
pub struct PtyView {
    pub launch: LaunchView,
    pub size: Size,
    pub alive: bool,
    pub inbox: Seq<Seq<u8>>,
    pub outbox: Seq<u8>,
}

impl PtyView {
    /// The controller right after the launch was decided.
    pub open spec fn spawned(config: PtyConfigView, host: HostView) -> PtyView {
        PtyView {
            launch: launch_of(config, host),
            size: config.size,
            alive: true,
            inbox: Seq::empty(),
            outbox: Seq::empty(),
        }
    }
}

/// The chunks of a queue as values.
pub open spec fn chunks_of(queue: Seq<Vec<u8>>) -> Seq<Seq<u8>> {
    Seq::new(queue.len(), |i: int| queue[i]@)
}

impl View for Pty {
    type V = PtyView;

    closed spec fn view(&self) -> PtyView {
        PtyView {
            launch: self.launch@,
            size: self.size,
            alive: self.alive,
            inbox: chunks_of(self.inbox@),
            outbox: self.outbox@,
        }
    }
}

impl Pty {
    /// Decide the launch of a new pseudo-terminal and set up its controller:
    /// alive, with nothing received and nothing written.
    pub fn spawn(config: PtyConfig, host: &Host) -> (pty: Self)
        ensures
            pty@ == PtyView::spawned(config@, host@),
    {
        let PtyConfig { cwd, shell, env, size } = config;
        let program = match shell {
            Some(shell) => shell,
            None => match copy_text(&host.shell) {
                Some(shell) => shell,
                None => if host.windows {
                    String::from_str("powershell.exe")
                } else {
                    String::from_str("/bin/sh")
                },
            },
        };
        let mut env = env;
        let ghost configured = env.deep_view();
        // Set TERM
        env.push((String::from_str("TERM"), String::from_str("xterm-256color")));
        // Enable shell integration for common shells
        if contains_text(program.as_str(), "zsh") {
            env.push((String::from_str("ITERM_SHELL_INTEGRATION_INSTALLED"), String::from_str("Yes")));
        }
        assert(env.deep_view() =~= configured + launch_extras(program@));
        let pty = Self {
            launch: Launch { program, cwd, env, size },
            size,
            alive: true,
            inbox: VecDeque::new(),
            outbox: Vec::new(),
        };
        assert(pty@.inbox =~= Seq::empty());
        pty
    }

    /// How the child process is to be launched.
    pub fn launch(&self) -> (launch: &Launch)
        ensures
            launch@ == self@.launch,
    {
        &self.launch
    }

    /// Write data to the PTY: the bytes join those that wait for the host.
    pub fn write(&mut self, data: &[u8])
        ensures
            final(self)@ == (PtyView { outbox: old(self)@.outbox + data@, ..old(self)@ }),
    {
        let mut i: usize = 0;
        while i < data.len()
            invariant
                i <= data@.len(),
                self@ == (PtyView { outbox: old(self)@.outbox + data@.subrange(0, i as int), ..old(self)@ }),
            decreases data@.len() - i,
        {
            self.outbox.push(data[i]);
            assert(self.outbox@ =~= old(self)@.outbox + data@.subrange(0, i + 1));
            i = i + 1;
        }
        assert(data@.subrange(0, i as int) =~= data@);
    }

    /// Take the bytes that were written since they were last taken.
    pub fn take_input(&mut self) -> (bytes: Vec<u8>)
        ensures
            bytes@ == old(self)@.outbox,
            final(self)@ == (PtyView { outbox: Seq::empty(), ..old(self)@ }),
    {
        let mut bytes: Vec<u8> = Vec::new();
        std::mem::swap(&mut self.outbox, &mut bytes);
        bytes
    }

    /// Resize the PTY: record the window size the process is to have.
    pub fn resize(&mut self, cols: u16, rows: u16)
        ensures
            final(self)@ == (PtyView { size: Size { cols, rows }, ..old(self)@ }),
    {
        self.size = Size { cols, rows };
    }

    /// The window size the process is to have.
    pub fn size(&self) -> (size: Size)
        ensures
            size == self@.size,
    {
        self.size
    }

    /// Queue a chunk of output that arrived from the process.
    pub fn deliver(&mut self, chunk: Vec<u8>)
        ensures
            final(self)@ == (PtyView { inbox: old(self)@.inbox.push(chunk@), ..old(self)@ }),
    {
        self.inbox.push_back(chunk);
        assert(self@.inbox =~= old(self)@.inbox.push(chunk@));
    }

    /// Try to read without blocking: the oldest chunk that waits, if any.
    pub fn try_read(&mut self) -> (chunk: Option<Vec<u8>>)
        ensures
            old(self)@.inbox.len() == 0 ==> chunk is None && final(self)@ == old(self)@,
            old(self)@.inbox.len() > 0 ==> chunk is Some && chunk.unwrap()@ == old(self)@.inbox[0]
                && final(self)@ == (PtyView { inbox: old(self)@.inbox.drop_first(), ..old(self)@ }),
    {
        let chunk = self.inbox.pop_front();
        assert(old(self)@.inbox.len() > 0 ==> self@.inbox =~= old(self)@.inbox.drop_first());
        chunk
    }

    /// Whether the PTY process is still alive.
    pub fn is_alive(&self) -> (alive: bool)
        ensures
            alive == self@.alive,
    {
        self.alive
    }

    /// Mark the process dead. The owner does so to give the process up; the
    /// host does so when the stream from the process ends.
    pub fn kill(&mut self)
        ensures
            final(self)@ == (PtyView { alive: false, ..old(self)@ }),
    {
        self.alive = false;
    }
}

} // verus!
