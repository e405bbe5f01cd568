use terminal_engine::{
    Color, CursorPosition, Error, Host, Mark, MarkType, Session, SessionConfig, Size,
    TerminalEvent,
};

fn host() -> Host {
    Host { shell: Some("/bin/bash".to_string()), windows: false }
}

fn config_with_id(id: &str) -> SessionConfig {
    SessionConfig { id: Some(id.to_string()), ..SessionConfig::default() }
}

fn session(id: &str) -> Session {
    Session::new(config_with_id(id), &host(), 1700000000).unwrap()
}

#[test]
fn default_session_config() {
    let config = SessionConfig::default();
    assert!(config.id.is_none());
    assert!(config.cwd.is_none());
    assert!(config.shell.is_none());
    assert!(config.env.is_empty());
    assert_eq!(config.cols, Some(80));
    assert_eq!(config.rows, Some(24));
    assert!(config.theme.is_none());
}

#[test]
fn a_new_session_reports_its_configuration() {
    let config = SessionConfig {
        id: Some("main".to_string()),
        cwd: Some("/home/me".to_string()),
        shell: Some("/bin/zsh".to_string()),
        env: vec![("LANG".to_string(), "C".to_string())],
        cols: Some(120),
        rows: Some(40),
        theme: Some("nord".to_string()),
    };
    let session = Session::new(config, &host(), 42).unwrap();
    assert_eq!(session.id, "main");
    assert_eq!(session.id(), "main");
    let info = session.info();
    assert_eq!(info.id, "main");
    assert_eq!(info.cwd.as_deref(), Some("/home/me"));
    assert_eq!(info.shell.as_deref(), Some("/bin/zsh"));
    assert_eq!(info.title, "");
    assert_eq!(info.size, Size { cols: 120, rows: 40 });
    assert!(info.is_alive);
    assert_eq!(info.created_at, 42);
    assert!(session.is_alive());
    assert_eq!(session.theme().name, "nord");
    assert_eq!(session.theme().background, Color::new(46, 52, 64));
    assert!(session.marks().is_empty());
    let launch = session.pty().launch();
    assert_eq!(launch.program, "/bin/zsh");
    assert_eq!(launch.cwd.as_deref(), Some("/home/me"));
    assert_eq!(launch.size, Size { cols: 120, rows: 40 });
    assert_eq!(
        launch.env,
        vec![
            ("LANG".to_string(), "C".to_string()),
            ("TERM".to_string(), "xterm-256color".to_string()),
            ("ITERM_SHELL_INTEGRATION_INSTALLED".to_string(), "Yes".to_string()),
        ]
    );
    assert_eq!(session.pty().size(), Size { cols: 120, rows: 40 });
}

#[test]
fn missing_dimensions_default_to_80_by_24() {
    let config = SessionConfig { cols: None, rows: None, ..config_with_id("a") };
    let session = Session::new(config, &host(), 0).unwrap();
    assert_eq!(session.info().size, Size { cols: 80, rows: 24 });
    let config = SessionConfig { cols: Some(100), rows: None, ..config_with_id("b") };
    let session = Session::new(config, &host(), 0).unwrap();
    assert_eq!(session.info().size, Size { cols: 100, rows: 24 });
    assert_eq!(session.get_screen().cells.len(), 24);
    assert_eq!(session.get_screen().cells[0].len(), 100);
}

#[test]
fn a_size_without_columns_or_rows_is_refused() {
    for (cols, rows) in [(Some(0), Some(24)), (Some(80), Some(0)), (Some(0), Some(0)), (None, Some(0))] {
        let config = SessionConfig { cols, rows, ..config_with_id("a") };
        match Session::new(config, &host(), 0) {
            Err(Error::InvalidConfig(detail)) => {
                assert_eq!(detail, "terminal size must be at least 1x1")
            }
            _ => panic!("a size of {:?} x {:?} was accepted", cols, rows),
        }
    }
    let config = SessionConfig { cols: Some(1), rows: Some(1), ..config_with_id("a") };
    assert!(Session::new(config, &host(), 0).is_ok());
}

#[test]
fn an_unknown_theme_falls_back_to_the_default() {
    let config = SessionConfig { theme: Some("not-a-theme".to_string()), ..config_with_id("a") };
    let session = Session::new(config, &host(), 0).unwrap();
    assert_eq!(session.theme().name, "");
    assert_eq!(session.theme().background, Color::new(24, 24, 27));
    let session = Session::new(config_with_id("b"), &host(), 0).unwrap();
    assert_eq!(session.theme().background, Color::new(24, 24, 27));
}

#[test]
fn generated_identifiers_are_fresh() {
    let a = Session::new(SessionConfig::default(), &host(), 0).unwrap();
    let b = Session::new(SessionConfig::default(), &host(), 0).unwrap();
    assert_ne!(a.id, b.id);
    // The hyphenated form of a UUID.
    for id in [&a.id, &b.id] {
        assert_eq!(id.len(), 36);
        assert_eq!(id.matches('-').count(), 4);
        assert!(id.chars().all(|c| c == '-' || c.is_ascii_hexdigit()));
    }
    assert_eq!(a.info().id, a.id);
    let named = Session::with_id("mine".to_string(), SessionConfig::default(), &host(), 0).unwrap();
    assert_eq!(named.id, "mine");
    assert_eq!(SessionConfig::default().resolve_id().len(), 36);
    assert_eq!(config_with_id("given").resolve_id(), "given");
}

#[test]
fn one_pass_processes_one_chunk() {
    let mut session = session("s");
    let mut events = Vec::new();
    assert!(session.process_output(&mut events).is_none());
    assert!(events.is_empty());
    session.deliver(b"hi\r\n".to_vec());
    session.deliver(b"there".to_vec());
    let update = session.process_output(&mut events).unwrap();
    assert_eq!(update.session_id, "s");
    assert_eq!(update.changes.len(), 80 * 24);
    assert_eq!(update.changes[0].cell.char, "h");
    assert_eq!(update.changes[1].cell.char, "i");
    assert_eq!(update.changes[80].cell.char, "");
    assert_eq!(update.cursor.position, CursorPosition { row: 1, col: 0 });
    assert!(update.title.is_none());
    assert_eq!(events.len(), 1);
    match &events[0] {
        TerminalEvent::ScreenUpdate(sent) => {
            assert_eq!(sent.session_id, "s");
            assert_eq!(sent.changes.len(), update.changes.len());
            assert_eq!(sent.cursor, update.cursor);
            assert_eq!(sent.changes[1].cell.char, "i");
        }
        other => panic!("unexpected event {:?}", other),
    }
    // The second chunk waits for the second pass.
    assert_eq!(session.get_screen().cells[1][0].char, "");
    let update = session.process_output(&mut events).unwrap();
    assert_eq!(update.changes[80].cell.char, "t");
    assert_eq!(update.cursor.position, CursorPosition { row: 1, col: 5 });
    assert_eq!(events.len(), 2);
    // Nothing waits any more.
    assert!(session.process_output(&mut events).is_none());
    assert!(session.process_output(&mut events).is_none());
    assert_eq!(events.len(), 2);
}

#[test]
fn output_that_changes_nothing_on_the_screen_yields_no_update() {
    let mut session = session("s");
    let mut events = Vec::new();
    session.deliver(b"abc".to_vec());
    assert!(session.process_output(&mut events).is_some());
    session.deliver(b"\x1b[1;1H".to_vec());
    assert!(session.process_output(&mut events).is_none());
    session.deliver(Vec::new());
    assert!(session.process_output(&mut events).is_none());
    // A bell with no change of the screen stays silent as well.
    session.deliver(b"\x07".to_vec());
    assert!(session.process_output(&mut events).is_none());
    assert_eq!(events.len(), 1);
}

#[test]
fn a_bell_follows_the_update_of_its_chunk() {
    let mut session = session("s");
    let mut events = Vec::new();
    session.deliver(b"ding\x07".to_vec());
    session.deliver(b"quiet".to_vec());
    assert!(session.process_output(&mut events).is_some());
    assert_eq!(events.len(), 2);
    assert!(matches!(&events[0], TerminalEvent::ScreenUpdate(_)));
    assert!(matches!(&events[1], TerminalEvent::Bell { session_id } if session_id == "s"));
    assert!(session.process_output(&mut events).is_some());
    assert_eq!(events.len(), 3);
    assert!(matches!(&events[2], TerminalEvent::ScreenUpdate(_)));
}

#[test]
fn the_title_rides_on_the_update_once_there_is_one() {
    let mut session = session("s");
    let mut events = Vec::new();
    session.deliver(b"a".to_vec());
    assert!(session.process_output(&mut events).unwrap().title.is_none());
    session.deliver(b"\x1b]0;build\x07b".to_vec());
    let update = session.process_output(&mut events).unwrap();
    assert_eq!(update.title.as_deref(), Some("build"));
    assert_eq!(session.info().title, "build");
    session.deliver(b"\x1b]0;\x07c".to_vec());
    let update = session.process_output(&mut events).unwrap();
    assert_eq!(update.title.as_deref(), Some("build"));
    let copy = update.clone();
    assert_eq!(copy.title, update.title);
    assert_eq!(copy.changes.len(), update.changes.len());
    assert_eq!(copy.session_id, "s");
}

#[test]
fn resize_reaches_terminal_and_pty_and_is_notified() {
    let mut session = session("s");
    let mut events = Vec::new();
    session.resize(100, 30, &mut events);
    assert_eq!(session.info().size, Size { cols: 100, rows: 30 });
    assert_eq!(session.pty().size(), Size { cols: 100, rows: 30 });
    assert_eq!(session.get_screen().size, Size { cols: 100, rows: 30 });
    assert_eq!(session.get_screen().cells.len(), 30);
    assert_eq!(events.len(), 1);
    assert!(matches!(
        &events[0],
        TerminalEvent::TerminalResized { session_id, cols: 100, rows: 30 } if session_id == "s"
    ));
    // The next pass reports a full frame of the new size, output or none.
    assert_eq!(session.process_output(&mut events).unwrap().changes.len(), 3000);
    assert_eq!(events.len(), 2);
    assert!(session.process_output(&mut events).is_none());
    session.resize(100, 30, &mut events);
    assert_eq!(events.len(), 3);
    assert!(session.process_output(&mut events).is_some());
    assert!(session.process_output(&mut events).is_none());
}

#[test]
fn written_bytes_reach_the_host_once() {
    let mut session = session("s");
    session.write(b"echo hi");
    session.write(b"\n");
    assert_eq!(session.take_input(), b"echo hi\n".to_vec());
    assert!(session.take_input().is_empty());
}

#[test]
fn marks_are_kept_in_order_and_emitted() {
    let mut session = session("s");
    let mut events = Vec::new();
    let first = Mark {
        row: 1,
        timestamp: 10,
        mark_type: MarkType::PromptStart,
        command: None,
        exit_code: None,
    };
    let second = Mark {
        row: 2,
        timestamp: 20,
        mark_type: MarkType::CommandEnd,
        command: Some("make".to_string()),
        exit_code: Some(2),
    };
    session.add_mark(first, &mut events);
    session.add_mark(second.clone(), &mut events);
    let marks = session.marks();
    assert_eq!(marks.len(), 2);
    assert_eq!(marks[0].row, 1);
    assert_eq!(marks[0].mark_type, MarkType::PromptStart);
    assert_eq!(marks[1].command.as_deref(), Some("make"));
    assert_eq!(marks[1].exit_code, Some(2));
    assert_eq!(marks[1].timestamp, second.timestamp);
    assert_eq!(events.len(), 2);
    match &events[1] {
        TerminalEvent::Mark { session_id, mark } => {
            assert_eq!(session_id, "s");
            assert_eq!(mark.row, 2);
            assert_eq!(mark.mark_type, MarkType::CommandEnd);
            assert_eq!(mark.command.as_deref(), Some("make"));
        }
        other => panic!("unexpected event {:?}", other),
    }
}

#[test]
fn kill_marks_the_session_dead_and_keeps_its_state() {
    let mut session = session("s");
    session.deliver(b"last words".to_vec());
    session.kill();
    assert!(!session.is_alive());
    assert!(!session.info().is_alive);
    let mut events = Vec::new();
    assert!(session.process_output(&mut events).is_some());
    assert_eq!(session.get_screen().cells[0][0].char, "l");
}

#[test]
fn a_theme_can_be_set() {
    let mut session = session("s");
    session.set_theme(terminal_engine::Theme::by_name("dracula").unwrap());
    assert_eq!(session.theme().background, Color::new(40, 42, 54));
    assert_eq!(session.get_cursor().position, CursorPosition { row: 0, col: 0 });
}
