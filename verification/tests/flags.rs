use gl_cli::flags::{plain_message, Flags, GLanguageSubCommand, Matched};

#[test]
fn default_subcommand_is_the_loop() {
    assert_eq!(GLanguageSubCommand::default(), GLanguageSubCommand::Repl);
}

#[test]
fn default_flags_are_empty() {
    let flags = Flags::default();
    assert!(flags.argv.is_empty());
    assert_eq!(flags.subcommand, GLanguageSubCommand::Repl);
    assert!(!flags.repl);
}

#[test]
fn repl_subcommand_gives_loop_flags() {
    let flags = Flags::from_matches(Matched::Repl);
    assert_eq!(
        flags,
        Flags { argv: vec![], subcommand: GLanguageSubCommand::Repl, repl: true }
    );
}

#[test]
fn no_subcommand_gives_loop_flags() {
    let flags = Flags::from_matches(Matched::Neither);
    assert_eq!(
        flags,
        Flags { argv: vec![], subcommand: GLanguageSubCommand::Repl, repl: true }
    );
}

#[test]
fn eval_subcommand_keeps_its_source() {
    let flags = Flags::from_matches(Matched::Eval { source: "1 + 1".to_string() });
    assert_eq!(
        flags,
        Flags {
            argv: vec![],
            subcommand: GLanguageSubCommand::Eval { source: "1 + 1".to_string() },
            repl: true,
        }
    );
}

#[test]
fn parser_message_loses_its_label() {
    assert_eq!(
        plain_message("error: Found argument '--bogus' which wasn't expected"),
        "Found argument '--bogus' which wasn't expected"
    );
    assert_eq!(plain_message("error: error: twice"), "twice");
    assert_eq!(plain_message("no label"), "no label");
    assert_eq!(plain_message(""), "");
}
