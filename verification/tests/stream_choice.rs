use shell::{ColorChoice, Shell, ShellError, ShellOut, Verbosity};

#[test]
fn new_is_a_verbose_terminal_with_automatic_colors() {
    let shell = Shell::new();
    assert!(shell.verbosity() == Verbosity::Verbose);
    assert_eq!(shell.color_choice(), ColorChoice::CargoAuto);
    assert!(matches!(&shell.err, ShellOut::Stream(_, ColorChoice::CargoAuto, text) if text.is_empty()));
}

#[test]
fn choice_is_read_back_on_a_terminal() {
    let mut shell = Shell::new();
    shell.set_color_choice(Some("always")).unwrap();
    assert_eq!(shell.color_choice(), ColorChoice::Always);
    shell.set_color_choice(Some("never")).unwrap();
    assert_eq!(shell.color_choice(), ColorChoice::Never);
    shell.set_color_choice(Some("auto")).unwrap();
    assert_eq!(shell.color_choice(), ColorChoice::CargoAuto);
}

#[test]
fn no_word_means_auto() {
    let mut absent = Shell::new();
    absent.set_color_choice(Some("always")).unwrap();
    absent.set_color_choice(None).unwrap();
    let mut auto = Shell::new();
    auto.set_color_choice(Some("always")).unwrap();
    auto.set_color_choice(Some("auto")).unwrap();
    assert_eq!(absent.color_choice(), ColorChoice::CargoAuto);
    assert_eq!(absent.color_choice(), auto.color_choice());
}

#[test]
fn bogus_word_is_refused_and_the_choice_stays() {
    let mut shell = Shell::new();
    shell.set_color_choice(Some("always")).unwrap();
    let refused = shell.set_color_choice(Some("bogus"));
    match refused {
        Err(ShellError::InvalidArgument(text)) => assert_eq!(
            text,
            "argument for --color must be auto, always, or never, but found `bogus`"
        ),
        Ok(()) => panic!("an unknown word was accepted"),
    }
    assert_eq!(shell.color_choice(), ColorChoice::Always);
    assert!(shell.verbosity() == Verbosity::Verbose);
}

#[test]
fn choice_keeps_level_and_pending_text() {
    let mut shell = Shell::new();
    shell.set_verbosity(Verbosity::Quiet);
    shell.err().push_str("pending");
    shell.set_color_choice(Some("never")).unwrap();
    assert!(shell.verbosity() == Verbosity::Quiet);
    assert!(matches!(&shell.err, ShellOut::Stream(_, ColorChoice::Never, text) if text == "pending"));
}
