use terminal_engine::{
    Color, CursorPosition, Error, Host, SessionConfig, SessionManager, Size, TerminalEvent,
};

const WHITE: Color = Color { r: 255, g: 255, b: 255 };
const BLACK: Color = Color { r: 0, g: 0, b: 0 };

fn host() -> Host {
    Host { shell: None, windows: false }
}

fn named(id: &str) -> SessionConfig {
    SessionConfig { id: Some(id.to_string()), ..SessionConfig::default() }
}

fn sized(id: &str, cols: u16, rows: u16) -> SessionConfig {
    SessionConfig { cols: Some(cols), rows: Some(rows), ..named(id) }
}

fn manager_with(ids: &[&str]) -> SessionManager {
    let mut manager = SessionManager::new();
    for id in ids {
        assert_eq!(manager.create(named(id), &host(), 1).unwrap(), *id);
    }
    manager.take_events();
    manager
}

fn not_found<T: std::fmt::Debug>(result: Result<T, Error>, id: &str) {
    match result {
        Err(Error::SessionNotFound(missing)) => assert_eq!(missing, id),
        other => panic!("expected SessionNotFound, got {:?}", other),
    }
}

#[test]
fn a_new_manager_is_empty() {
    let mut manager = SessionManager::new();
    assert_eq!(manager.count(), 0);
    assert!(manager.list().is_empty());
    assert!(manager.take_events().is_empty());
    assert!(manager.cleanup_dead().is_empty());
    manager.process_all();
    assert!(manager.take_events().is_empty());
}

#[test]
fn create_then_info_shows_the_configured_size_and_a_live_process() {
    let mut manager = SessionManager::new();
    let id = manager.create(sized("a", 132, 43), &host(), 99).unwrap();
    assert_eq!(id, "a");
    let info = manager.get_info("a").unwrap();
    assert_eq!(info.id, "a");
    assert_eq!(info.size, Size { cols: 132, rows: 43 });
    assert!(info.is_alive);
    assert_eq!(info.created_at, 99);
    let events = manager.take_events();
    assert_eq!(events.len(), 1);
    assert!(matches!(&events[0], TerminalEvent::SessionCreated { session_id } if session_id == "a"));
    assert_eq!(manager.count(), 1);
}

#[test]
fn create_without_dimensions_uses_80_by_24() {
    let mut manager = SessionManager::new();
    let config = SessionConfig { cols: None, rows: None, ..named("a") };
    manager.create(config, &host(), 0).unwrap();
    let info = manager.get_info("a").unwrap();
    assert_eq!(info.size, Size { cols: 80, rows: 24 });
    assert!(info.is_alive);
    manager.create(SessionConfig::default(), &host(), 0).unwrap();
    assert_eq!(manager.list()[1].size, Size { cols: 80, rows: 24 });
}

#[test]
fn create_generates_an_identifier_where_none_is_given() {
    let mut manager = SessionManager::new();
    let a = manager.create(SessionConfig::default(), &host(), 0).unwrap();
    let b = manager.create(SessionConfig::default(), &host(), 0).unwrap();
    assert_ne!(a, b);
    assert_eq!(a.len(), 36);
    assert_eq!(manager.count(), 2);
    assert_eq!(manager.get_info(&a).unwrap().id, a);
    assert_eq!(manager.get_info(&b).unwrap().id, b);
    let events = manager.take_events();
    assert_eq!(events.len(), 2);
    assert_eq!(events[0].session_id(), a);
    assert_eq!(events[1].session_id(), b);
}

#[test]
fn create_with_a_taken_identifier_fails_and_leaves_the_session_untouched() {
    let mut manager = manager_with(&["a"]);
    manager.deliver("a", b"before".to_vec()).unwrap();
    manager.process("a").unwrap();
    manager.take_events();
    match manager.create(sized("a", 10, 5), &host(), 2) {
        Err(Error::SessionAlreadyExists(id)) => assert_eq!(id, "a"),
        other => panic!("expected SessionAlreadyExists, got {:?}", other),
    }
    match manager.create_with_id("a".to_string(), named("other"), &host(), 2) {
        Err(Error::SessionAlreadyExists(id)) => assert_eq!(id, "a"),
        other => panic!("expected SessionAlreadyExists, got {:?}", other),
    }
    assert_eq!(manager.count(), 1);
    assert!(manager.take_events().is_empty());
    let info = manager.get_info("a").unwrap();
    assert_eq!(info.size, Size { cols: 80, rows: 24 });
    assert_eq!(info.created_at, 1);
    assert_eq!(manager.get_screen("a").unwrap().cells[0][0].char, "b");
}

#[test]
fn a_taken_identifier_is_reported_before_a_bad_size() {
    let mut manager = manager_with(&["a"]);
    assert!(matches!(
        manager.create(sized("a", 0, 0), &host(), 2),
        Err(Error::SessionAlreadyExists(_))
    ));
    match manager.create(sized("b", 0, 24), &host(), 2) {
        Err(Error::InvalidConfig(detail)) => assert_eq!(detail, "terminal size must be at least 1x1"),
        other => panic!("expected InvalidConfig, got {:?}", other),
    }
    assert_eq!(manager.count(), 1);
    assert!(manager.take_events().is_empty());
}

#[test]
fn prepare_and_insert_make_up_create() {
    let mut manager = manager_with(&["a"]);
    assert!(matches!(
        manager.prepare("a".to_string(), named("a"), &host(), 5),
        Err(Error::SessionAlreadyExists(_))
    ));
    assert!(matches!(
        manager.prepare("b".to_string(), sized("b", 0, 1), &host(), 5),
        Err(Error::InvalidConfig(_))
    ));
    let session = manager.prepare("b".to_string(), sized("x", 90, 20), &host(), 5).ok().unwrap();
    assert_eq!(session.id, "b");
    assert_eq!(session.pty().launch().program, "/bin/sh");
    // Nothing has happened to the registry yet.
    assert_eq!(manager.count(), 1);
    assert!(manager.take_events().is_empty());
    assert_eq!(manager.insert(session).unwrap(), "b");
    assert_eq!(manager.count(), 2);
    assert_eq!(manager.get_info("b").unwrap().size, Size { cols: 90, rows: 20 });
    assert_eq!(manager.get_info("b").unwrap().created_at, 5);
    let events = manager.take_events();
    assert_eq!(events.len(), 1);
    assert!(matches!(&events[0], TerminalEvent::SessionCreated { session_id } if session_id == "b"));
    // A second session under the same identifier is refused at the door.
    let twin = terminal_engine::Session::with_id("b".to_string(), named("b"), &host(), 6).unwrap();
    assert!(matches!(manager.insert(twin), Err(Error::SessionAlreadyExists(id)) if id == "b"));
    assert_eq!(manager.count(), 2);
    assert!(manager.take_events().is_empty());
}

#[test]
fn operations_on_a_missing_session_fail_and_change_nothing() {
    let mut manager = manager_with(&["a"]);
    manager.deliver("a", b"x".to_vec()).unwrap();
    not_found(manager.write("ghost", b"data"), "ghost");
    not_found(manager.resize("ghost", 10, 10), "ghost");
    not_found(manager.get_screen("ghost").map(|s| s.size), "ghost");
    not_found(manager.process("ghost").map(|u| u.is_some()), "ghost");
    not_found(manager.get_theme("ghost").map(|t| t.name), "ghost");
    not_found(manager.set_theme("ghost", "dracula"), "ghost");
    not_found(manager.set_theme("ghost", "not-a-theme"), "ghost");
    not_found(manager.get_info("ghost").map(|i| i.id), "ghost");
    not_found(manager.destroy("ghost"), "ghost");
    not_found(manager.deliver("ghost", b"y".to_vec()), "ghost");
    not_found(manager.take_input("ghost"), "ghost");
    not_found(manager.mark_exited("ghost"), "ghost");
    not_found(manager.resize("", 10, 10), "");
    // Nothing was emitted, and the one session is as it was.
    assert!(manager.take_events().is_empty());
    assert_eq!(manager.count(), 1);
    assert_eq!(manager.get_info("a").unwrap().size, Size { cols: 80, rows: 24 });
    assert!(manager.take_input("a").unwrap().is_empty());
    assert_eq!(manager.get_theme("a").unwrap().background, Color::new(24, 24, 27));
    assert!(manager.process("a").unwrap().is_some());
}

#[test]
fn a_second_pass_without_new_output_returns_nothing() {
    let mut manager = manager_with(&["a"]);
    manager.deliver("a", b"hello".to_vec()).unwrap();
    assert!(manager.process("a").unwrap().is_some());
    assert_eq!(manager.take_events().len(), 1);
    assert!(manager.process("a").unwrap().is_none());
    assert!(manager.process("a").unwrap().is_none());
    assert!(manager.take_events().is_empty());
    // Without any output at all the first pass is silent too.
    let mut manager = manager_with(&["b"]);
    assert!(manager.process("b").unwrap().is_none());
    assert!(manager.take_events().is_empty());
}

#[test]
fn resize_round_trip() {
    let mut manager = manager_with(&["a"]);
    manager.deliver("a", b"\x1b[24;80Hx".to_vec()).unwrap();
    manager.process("a").unwrap();
    manager.take_events();
    manager.resize("a", 40, 10).unwrap();
    let screen = manager.get_screen("a").unwrap();
    assert_eq!(screen.size, Size { cols: 40, rows: 10 });
    assert_eq!(screen.cells.len(), 10);
    assert!(screen.cells.iter().all(|row| row.len() == 40));
    assert!(screen.cursor.position.row < 10 && screen.cursor.position.col < 40);
    assert_eq!(manager.get_info("a").unwrap().size, Size { cols: 40, rows: 10 });
    let events = manager.take_events();
    assert_eq!(events.len(), 1);
    assert!(matches!(
        &events[0],
        TerminalEvent::TerminalResized { session_id, cols: 40, rows: 10 } if session_id == "a"
    ));
    // The next pass yields the full frame of the new grid, though no
    // output has arrived.
    let update = manager.process("a").unwrap().unwrap();
    assert_eq!(update.session_id, "a");
    assert_eq!(update.changes.len(), 400);
    assert!(update.changes.iter().all(|c| c.row < 10 && c.col < 40));
    for (i, change) in update.changes.iter().enumerate() {
        assert_eq!((usize::from(change.row), usize::from(change.col)), (i / 40, i % 40));
    }
    assert!(update.cursor.position.row < 10 && update.cursor.position.col < 40);
    let events = manager.take_events();
    assert_eq!(events.len(), 1);
    assert!(matches!(&events[0], TerminalEvent::ScreenUpdate(u) if u.changes.len() == 400));
    // The pass after that is silent again.
    assert!(manager.process("a").unwrap().is_none());
    assert!(manager.take_events().is_empty());
    // Growing works the same way, and so does a pass of all sessions.
    manager.resize("a", 200, 60).unwrap();
    assert_eq!(manager.get_screen("a").unwrap().size, Size { cols: 200, rows: 60 });
    manager.take_events();
    manager.process_all();
    let events = manager.take_events();
    assert_eq!(events.len(), 1);
    assert!(matches!(&events[0], TerminalEvent::ScreenUpdate(u) if u.changes.len() == 12000));
    manager.process_all();
    assert!(manager.take_events().is_empty());
    // With output waiting the refresh comes with that output.
    manager.resize("a", 10, 2).unwrap();
    manager.deliver("a", b"\x1b[1;1Hy".to_vec()).unwrap();
    let update = manager.process("a").unwrap().unwrap();
    assert_eq!(update.changes.len(), 20);
    assert_eq!(update.changes[0].cell.char, "y");
    assert!(manager.process("a").unwrap().is_none());
}

#[test]
fn a_new_session_without_output_stays_silent() {
    let mut manager = manager_with(&["a"]);
    assert!(manager.process("a").unwrap().is_none());
    manager.process_all();
    assert!(manager.take_events().is_empty());
}

#[test]
fn resize_refuses_a_size_without_columns_or_rows() {
    let mut manager = manager_with(&["a"]);
    for (cols, rows) in [(0, 10), (10, 0), (0, 0)] {
        match manager.resize("a", cols, rows) {
            Err(Error::InvalidConfig(detail)) => {
                assert_eq!(detail, "terminal size must be at least 1x1")
            }
            other => panic!("expected InvalidConfig, got {:?}", other),
        }
    }
    assert_eq!(manager.get_info("a").unwrap().size, Size { cols: 80, rows: 24 });
    assert!(manager.take_events().is_empty());
    manager.resize("a", 1, 1).unwrap();
    assert_eq!(manager.get_info("a").unwrap().size, Size { cols: 1, rows: 1 });
}

#[test]
fn themes_are_set_by_name() {
    let mut manager = manager_with(&["a", "b"]);
    manager.set_theme("a", "dracula").unwrap();
    let theme = manager.get_theme("a").unwrap();
    assert_eq!(theme.name, "dracula");
    assert_eq!(theme.background, Color::new(40, 42, 54));
    match manager.set_theme("a", "not-a-theme") {
        Err(Error::InvalidConfig(detail)) => assert_eq!(detail, "Unknown theme: not-a-theme"),
        other => panic!("expected InvalidConfig, got {:?}", other),
    }
    // The theme stays, and the other session never had it.
    assert_eq!(manager.get_theme("a").unwrap().background, Color::new(40, 42, 54));
    assert_eq!(manager.get_theme("a").unwrap().name, "dracula");
    assert_eq!(manager.get_theme("b").unwrap().background, Color::new(24, 24, 27));
    assert!(manager.take_events().is_empty());
}

#[test]
fn a_session_starts_with_the_theme_of_its_configuration() {
    let mut manager = SessionManager::new();
    let config = SessionConfig { theme: Some("light".to_string()), ..named("a") };
    manager.create(config, &host(), 0).unwrap();
    assert_eq!(manager.get_theme("a").unwrap().name, "light");
    assert_eq!(manager.get_theme("a").unwrap().background, WHITE);
}

#[test]
fn output_of_the_shell_shows_on_the_screen() {
    let mut manager = SessionManager::new();
    manager.create(named("a"), &host(), 0).unwrap();
    manager.take_events();
    // The shell writes "hi\n"; the line discipline of the pseudo-terminal
    // hands it on with a carriage return before the line feed.
    manager.deliver("a", b"hi\r\n".to_vec()).unwrap();
    manager.process_all();
    let screen = manager.get_screen("a").unwrap();
    assert_eq!(screen.cells[0][0].char, "h");
    assert_eq!(screen.cells[0][1].char, "i");
    for cell in &screen.cells[0][..2] {
        assert_eq!(cell.fg, WHITE);
        assert_eq!(cell.bg, BLACK);
        assert!(!cell.attrs.bold && !cell.attrs.italic && !cell.attrs.underline);
    }
    assert_eq!(screen.cursor.position, CursorPosition { row: 1, col: 0 });
    assert!(screen.cursor.visible);
    let events = manager.take_events();
    assert_eq!(events.len(), 1);
    match &events[0] {
        TerminalEvent::ScreenUpdate(update) => {
            assert_eq!(update.session_id, "a");
            assert_eq!(update.changes.len(), 80 * 24);
            assert_eq!(update.cursor.position, CursorPosition { row: 1, col: 0 });
        }
        other => panic!("unexpected event {:?}", other),
    }
}

#[test]
fn process_all_gives_every_session_one_pass_in_order() {
    let mut manager = manager_with(&["a", "b", "c"]);
    manager.deliver("c", b"third".to_vec()).unwrap();
    manager.deliver("a", b"first\x07".to_vec()).unwrap();
    manager.deliver("a", b" again".to_vec()).unwrap();
    manager.process_all();
    let events = manager.take_events();
    assert_eq!(events.len(), 3);
    assert!(matches!(&events[0], TerminalEvent::ScreenUpdate(u) if u.session_id == "a"));
    assert!(matches!(&events[1], TerminalEvent::Bell { session_id } if session_id == "a"));
    assert!(matches!(&events[2], TerminalEvent::ScreenUpdate(u) if u.session_id == "c"));
    assert_eq!(manager.get_screen("a").unwrap().cells[0][4].char, "t");
    assert_eq!(manager.get_screen("a").unwrap().cells[0][5].char, "");
    assert_eq!(manager.get_screen("b").unwrap().cells[0][0].char, "");
    manager.process_all();
    let events = manager.take_events();
    assert_eq!(events.len(), 1);
    assert!(matches!(&events[0], TerminalEvent::ScreenUpdate(u) if u.session_id == "a"));
    assert_eq!(manager.get_screen("a").unwrap().cells[0][6].char, "a");
    manager.process_all();
    assert!(manager.take_events().is_empty());
}

#[test]
fn dead_sessions_are_reclaimed_once() {
    let mut manager = manager_with(&["a", "b", "c"]);
    // The stream of "b" has ended.
    manager.mark_exited("b").unwrap();
    assert!(!manager.get_info("b").unwrap().is_alive);
    assert!(manager.get_info("a").unwrap().is_alive);
    // Until the clean-up the session is still listed.
    assert_eq!(manager.count(), 3);
    assert_eq!(manager.cleanup_dead(), vec!["b".to_string()]);
    let ids: Vec<String> = manager.list().into_iter().map(|i| i.id).collect();
    assert_eq!(ids, vec!["a".to_string(), "c".to_string()]);
    assert_eq!(manager.count(), 2);
    not_found(manager.get_info("b").map(|i| i.id), "b");
    let events = manager.take_events();
    assert_eq!(events.len(), 1);
    assert!(matches!(
        &events[0],
        TerminalEvent::ProcessExit { session_id, exit_code: None } if session_id == "b"
    ));
    // A second clean-up finds nothing.
    assert!(manager.cleanup_dead().is_empty());
    assert!(manager.take_events().is_empty());
    assert_eq!(manager.count(), 2);
}

#[test]
fn a_clean_up_reclaims_all_the_dead_in_order() {
    let mut manager = manager_with(&["a", "b", "c", "d", "e"]);
    for id in ["e", "a", "c"] {
        manager.mark_exited(id).unwrap();
    }
    assert_eq!(manager.cleanup_dead(), vec!["a".to_string(), "c".to_string(), "e".to_string()]);
    let events = manager.take_events();
    let exited: Vec<&str> = events.iter().map(|e| e.session_id()).collect();
    assert_eq!(exited, vec!["a", "c", "e"]);
    assert!(events.iter().all(|e| e.event_name() == "terminal://process-exit"));
    let ids: Vec<String> = manager.list().into_iter().map(|i| i.id).collect();
    assert_eq!(ids, vec!["b".to_string(), "d".to_string()]);
    // The identifier of a reclaimed session is free again.
    assert_eq!(manager.create(named("a"), &host(), 7).unwrap(), "a");
    assert_eq!(manager.get_info("a").unwrap().created_at, 7);
}

#[test]
fn destroy_removes_the_session_and_is_notified() {
    let mut manager = manager_with(&["a", "b"]);
    manager.destroy("a").unwrap();
    assert_eq!(manager.count(), 1);
    not_found(manager.get_info("a").map(|i| i.id), "a");
    not_found(manager.destroy("a"), "a");
    let events = manager.take_events();
    assert_eq!(events.len(), 1);
    assert!(matches!(&events[0], TerminalEvent::SessionDestroyed { session_id } if session_id == "a"));
    assert_eq!(manager.list()[0].id, "b");
    // Destroyed is not dead: nothing is left to reclaim.
    assert!(manager.cleanup_dead().is_empty());
    assert!(manager.take_events().is_empty());
}

#[test]
fn the_listing_follows_the_order_of_creation() {
    let mut manager = manager_with(&["z", "m", "a"]);
    manager.resize("m", 10, 10).unwrap();
    let list = manager.list();
    assert_eq!(list.len(), 3);
    assert_eq!(list[0].id, "z");
    assert_eq!(list[1].id, "m");
    assert_eq!(list[1].size, Size { cols: 10, rows: 10 });
    assert_eq!(list[2].id, "a");
    assert_eq!(manager.count(), 3);
}

#[test]
fn written_bytes_wait_per_session() {
    let mut manager = manager_with(&["a", "b"]);
    manager.write("a", b"ls").unwrap();
    manager.write("b", b"pwd\n").unwrap();
    manager.write("a", b"\n").unwrap();
    assert_eq!(manager.take_input("a").unwrap(), b"ls\n".to_vec());
    assert!(manager.take_input("a").unwrap().is_empty());
    assert_eq!(manager.take_input("b").unwrap(), b"pwd\n".to_vec());
    assert!(manager.take_events().is_empty());
}

#[test]
fn events_are_taken_once_and_in_order() {
    let mut manager = SessionManager::new();
    manager.create(named("a"), &host(), 0).unwrap();
    manager.resize("a", 90, 30).unwrap();
    manager.deliver("a", b"x".to_vec()).unwrap();
    manager.process("a").unwrap();
    manager.destroy("a").unwrap();
    let events = manager.take_events();
    let names: Vec<&str> = events.iter().map(|e| e.event_name()).collect();
    assert_eq!(
        names,
        vec![
            "terminal://session-created",
            "terminal://terminal-resized",
            "terminal://screen-update",
            "terminal://session-destroyed",
        ]
    );
    assert!(events.iter().all(|e| e.session_id() == "a"));
    assert!(manager.take_events().is_empty());
}

#[test]
fn history_stays_bounded_under_a_flood_of_lines() {
    let mut manager = manager_with(&["a"]);
    manager.resize("a", 20, 4).unwrap();
    let mut n = 0;
    for _ in 0..60 {
        let mut chunk = Vec::new();
        for _ in 0..200 {
            chunk.extend_from_slice(format!("row {}\r\n", n).as_bytes());
            n += 1;
        }
        manager.deliver("a", chunk).unwrap();
        manager.process("a").unwrap();
        manager.take_events();
    }
    assert_eq!(n, 12000);
    let screen = manager.get_screen("a").unwrap();
    assert_eq!(screen.scrollback_len, 10000);
    let shown: Vec<String> = screen
        .cells
        .iter()
        .map(|row| row.iter().map(|c| c.char.as_str()).collect::<String>())
        .collect();
    assert_eq!(shown, vec!["row 11997", "row 11998", "row 11999", ""]);
}
