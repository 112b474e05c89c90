use shell::{Color, Shell, ShellOut, Verbosity};

fn take(shell: &mut Shell) -> String {
    std::mem::take(shell.err())
}

#[test]
fn terminal_lines_are_styled_as_the_choice_says() {
    let mut shell = Shell::new();

    shell.set_color_choice(Some("always")).unwrap();
    shell.status("Compiling", "foo v0.1.0").unwrap();
    assert_eq!(take(&mut shell), "\x1b[32m\x1b[1m   Compiling\x1b[0m foo v0.1.0\n");
    shell.status_with_color("Running", "bar", Color::Cyan).unwrap();
    assert_eq!(take(&mut shell), "\x1b[36m\x1b[1m     Running\x1b[0m bar\n");
    shell.warn("careful").unwrap();
    assert_eq!(take(&mut shell), "\x1b[33m\x1b[1mwarning:\x1b[0m careful\n");
    shell.error("broken").unwrap();
    assert_eq!(take(&mut shell), "\x1b[31m\x1b[1merror:\x1b[0m broken\n");

    shell.set_color_choice(Some("never")).unwrap();
    shell.status("Compiling", "foo v0.1.0").unwrap();
    assert_eq!(take(&mut shell), "   Compiling foo v0.1.0\n");
    shell.error("broken").unwrap();
    assert_eq!(take(&mut shell), "error: broken\n");

    shell.set_color_choice(Some("always")).unwrap();
    shell.set_verbosity(Verbosity::Quiet);
    shell.status("Compiling", "foo v0.1.0").unwrap();
    shell.warn("careful").unwrap();
    assert_eq!(take(&mut shell), "");
    shell.error("broken").unwrap();
    assert_eq!(take(&mut shell), "\x1b[31m\x1b[1merror:\x1b[0m broken\n");
    assert!(matches!(&shell.err, ShellOut::Stream(_, _, text) if text.is_empty()));
}
