use codex_nano_manager::cli::{classify_args, CliDispatch};

fn argv(words: &[&str]) -> Vec<Option<String>> {
    words.iter().map(|w| Some(w.to_string())).collect()
}

#[test]
fn classify_args_without_extra_tokens_enters_manager_mode() {
    assert!(matches!(
        classify_args(argv(&["codex-nano-manager"])).unwrap(),
        CliDispatch::ManagerEntry
    ));
}

#[test]
fn classify_args_recognizes_manager_help_and_version_tokens() {
    assert!(matches!(
        classify_args(argv(&["codex-nano-manager", "--help"])).unwrap(),
        CliDispatch::ManagerHelp
    ));
    assert!(matches!(
        classify_args(argv(&["codex-nano-manager", "-h"])).unwrap(),
        CliDispatch::ManagerHelp
    ));
    assert!(matches!(
        classify_args(argv(&["codex-nano-manager", "version"])).unwrap(),
        CliDispatch::ManagerVersion
    ));
    assert!(matches!(
        classify_args(argv(&["codex-nano-manager", "-V"])).unwrap(),
        CliDispatch::ManagerVersion
    ));
}

#[test]
fn classify_args_preserves_default_passthrough_and_forced_passthrough() {
    assert_eq!(
        classify_args(argv(&["codex-nano-manager", "exec", "hello"])).unwrap(),
        CliDispatch::Passthrough(vec!["exec".to_string(), "hello".to_string()])
    );
    assert_eq!(
        classify_args(argv(&["codex-nano-manager", "+", "--version"])).unwrap(),
        CliDispatch::Passthrough(vec!["--version".to_string()])
    );
}

#[test]
fn classify_args_rejects_extra_tokens_after_manager_help_or_version() {
    let help_err = classify_args(argv(&["codex-nano-manager", "--help", "exec"])).unwrap_err();
    let version_err =
        classify_args(argv(&["codex-nano-manager", "version", "--json"])).unwrap_err();

    assert_eq!(
        help_err.message(),
        "manager help/version does not accept extra args; use '+' to forward them to codex"
    );
    assert_eq!(
        version_err.message(),
        "manager help/version does not accept extra args; use '+' to forward them to codex"
    );
}

#[test]
fn classify_args_handles_empty_and_plus_only() {
    assert_eq!(classify_args(Vec::new()).unwrap(), CliDispatch::ManagerEntry);
    assert_eq!(
        classify_args(argv(&["codex-nano-manager", "+"])).unwrap(),
        CliDispatch::Passthrough(Vec::new())
    );
    assert_eq!(
        classify_args(argv(&["codex-nano-manager", "+", "help", "x"])).unwrap(),
        CliDispatch::Passthrough(vec!["help".to_string(), "x".to_string()])
    );
}

#[test]
fn classify_args_refuses_arguments_that_are_not_utf8() {
    let mut args = argv(&["codex-nano-manager", "exec"]);
    args.push(None);
    assert_eq!(
        classify_args(args).unwrap_err().message(),
        "arguments must be valid UTF-8"
    );
    let args = vec![Some("codex-nano-manager".to_string()), None];
    assert_eq!(
        classify_args(args).unwrap_err().message(),
        "arguments must be valid UTF-8"
    );
    let args = vec![None, Some("help".to_string())];
    assert_eq!(classify_args(args).unwrap(), CliDispatch::ManagerHelp);
}
