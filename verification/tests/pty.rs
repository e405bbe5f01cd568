use terminal_engine::text::contains_text;
use terminal_engine::{Host, Pty, PtyConfig, Size};

fn unix_host(shell: Option<&str>) -> Host {
    Host { shell: shell.map(|s| s.to_string()), windows: false }
}

fn pair(name: &str, value: &str) -> (String, String) {
    (name.to_string(), value.to_string())
}

#[test]
fn default_pty_config() {
    let config = PtyConfig::default();
    assert!(config.cwd.is_none());
    assert!(config.shell.is_none());
    assert!(config.env.is_empty());
    assert_eq!(config.size, Size { cols: 80, rows: 24 });
    assert_eq!(Size::default(), Size { cols: 80, rows: 24 });
}

#[test]
fn configured_shell_wins() {
    let config = PtyConfig {
        cwd: Some("/work".to_string()),
        shell: Some("/bin/bash".to_string()),
        env: vec![pair("A", "1"), pair("B", "2")],
        size: Size { cols: 100, rows: 30 },
    };
    let pty = Pty::spawn(config, &unix_host(Some("/bin/zsh")));
    let launch = pty.launch();
    assert_eq!(launch.program, "/bin/bash");
    assert_eq!(launch.cwd.as_deref(), Some("/work"));
    assert_eq!(launch.env, vec![pair("A", "1"), pair("B", "2"), pair("TERM", "xterm-256color")]);
    assert_eq!(launch.size, Size { cols: 100, rows: 30 });
    assert_eq!(pty.size(), Size { cols: 100, rows: 30 });
    assert!(pty.is_alive());
}

#[test]
fn shell_of_the_environment_is_the_fallback() {
    let pty = Pty::spawn(PtyConfig::default(), &unix_host(Some("/usr/bin/fish")));
    assert_eq!(pty.launch().program, "/usr/bin/fish");
    assert_eq!(pty.launch().env, vec![pair("TERM", "xterm-256color")]);
    assert!(pty.launch().cwd.is_none());
}

#[test]
fn platform_default_is_the_last_resort() {
    let pty = Pty::spawn(PtyConfig::default(), &unix_host(None));
    assert_eq!(pty.launch().program, "/bin/sh");
    let pty = Pty::spawn(PtyConfig::default(), &Host { shell: None, windows: true });
    assert_eq!(pty.launch().program, "powershell.exe");
    let pty = Pty::spawn(
        PtyConfig::default(),
        &Host { shell: Some("C:/tools/nu.exe".to_string()), windows: true },
    );
    assert_eq!(pty.launch().program, "C:/tools/nu.exe");
}

#[test]
fn zsh_gets_the_integration_hint() {
    let pty = Pty::spawn(PtyConfig::default(), &unix_host(Some("/bin/zsh")));
    assert_eq!(
        pty.launch().env,
        vec![pair("TERM", "xterm-256color"), pair("ITERM_SHELL_INTEGRATION_INSTALLED", "Yes")]
    );
    let config = PtyConfig {
        cwd: None,
        shell: Some("/opt/homebrew/bin/zsh-5.9".to_string()),
        env: vec![pair("TERM", "dumb")],
        size: Size::default(),
    };
    let pty = Pty::spawn(config, &unix_host(None));
    assert_eq!(
        pty.launch().env,
        vec![
            pair("TERM", "dumb"),
            pair("TERM", "xterm-256color"),
            pair("ITERM_SHELL_INTEGRATION_INSTALLED", "Yes"),
        ]
    );
}

#[test]
fn text_search() {
    assert!(contains_text("/bin/zsh", "zsh"));
    assert!(contains_text("zsh", "zsh"));
    assert!(contains_text("/usr/zsh/bin/sh", "zsh"));
    assert!(!contains_text("/bin/bash", "zsh"));
    assert!(!contains_text("zs", "zsh"));
    assert!(!contains_text("", "zsh"));
    assert!(!contains_text("/bin/zzs", "zsh"));
    assert!(contains_text("/bin/zzsh", "zsh"));
    assert!(contains_text("anything", ""));
    assert!(contains_text("", ""));
    assert!(contains_text("a\u{e9}zsh\u{4e16}", "zsh\u{4e16}"));
}

#[test]
fn output_is_read_in_the_order_of_arrival() {
    let mut pty = Pty::spawn(PtyConfig::default(), &unix_host(None));
    assert!(pty.try_read().is_none());
    pty.deliver(b"first".to_vec());
    pty.deliver(b"second".to_vec());
    pty.deliver(Vec::new());
    assert_eq!(pty.try_read(), Some(b"first".to_vec()));
    pty.deliver(b"third".to_vec());
    assert_eq!(pty.try_read(), Some(b"second".to_vec()));
    assert_eq!(pty.try_read(), Some(Vec::new()));
    assert_eq!(pty.try_read(), Some(b"third".to_vec()));
    assert!(pty.try_read().is_none());
    assert!(pty.try_read().is_none());
}

#[test]
fn written_bytes_wait_for_the_host() {
    let mut pty = Pty::spawn(PtyConfig::default(), &unix_host(None));
    assert!(pty.take_input().is_empty());
    pty.write(b"ls");
    pty.write(b"");
    pty.write(b" -l\n");
    assert_eq!(pty.take_input(), b"ls -l\n".to_vec());
    assert!(pty.take_input().is_empty());
    pty.write(b"x");
    assert_eq!(pty.take_input(), b"x".to_vec());
}

#[test]
fn kill_marks_the_process_dead() {
    let mut pty = Pty::spawn(PtyConfig::default(), &unix_host(None));
    pty.deliver(b"late".to_vec());
    pty.write(b"q");
    assert!(pty.is_alive());
    pty.kill();
    assert!(!pty.is_alive());
    pty.kill();
    assert!(!pty.is_alive());
    // Only the flag moved.
    assert_eq!(pty.try_read(), Some(b"late".to_vec()));
    assert_eq!(pty.take_input(), b"q".to_vec());
}

#[test]
fn resize_records_the_window_size() {
    let mut pty = Pty::spawn(PtyConfig::default(), &unix_host(None));
    pty.resize(132, 43);
    assert_eq!(pty.size(), Size { cols: 132, rows: 43 });
    assert_eq!(pty.launch().size, Size { cols: 80, rows: 24 });
}
