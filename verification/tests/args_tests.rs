use warp_tui::args::{
    environment_assignments, parse_args, should_forward_args, ArgsError, TuiArgs, ValueFlag,
    CONVERSATION_ID_ENV, PROMPT_ENV,
};

#[test]
fn parses_prompt_and_conversation_id() {
    assert_eq!(
        parse_args(
            ["--conversation-id", "conversation-1", "--prompt", "hello",]
                .map(str::to_owned)
                .to_vec(),
        )
        .unwrap(),
        TuiArgs {
            prompt: Some("hello".to_owned()),
            conversation_id: Some("conversation-1".to_owned()),
        }
    );
}

#[test]
fn rejects_missing_argument_value() {
    let error = parse_args(vec!["--prompt".to_owned()]).unwrap_err();
    assert_eq!(error.to_string(), "--prompt requires a value");
}

#[test]
fn rejects_unknown_argument() {
    let error = parse_args(vec!["--unknown".to_owned()]).unwrap_err();
    assert_eq!(error.to_string(), "Unknown argument: --unknown");
}

#[test]
fn empty_command_line_parses_to_defaults() {
    assert_eq!(parse_args(Vec::new()).unwrap(), TuiArgs::default());
}

#[test]
fn rejects_missing_conversation_id_value() {
    let error = parse_args(vec!["--prompt".to_owned(), "hi".to_owned(), "--conversation-id".to_owned()])
        .unwrap_err();
    assert_eq!(error, ArgsError::MissingValue(ValueFlag::ConversationId));
    assert_eq!(error.to_string(), "--conversation-id requires a value");
}

#[test]
fn later_flag_overrides_earlier_value() {
    let parsed = parse_args(
        ["--prompt", "first", "--conversation-id", "c", "--prompt", "second"]
            .map(str::to_owned)
            .to_vec(),
    )
    .unwrap();
    assert_eq!(parsed.prompt.as_deref(), Some("second"));
    assert_eq!(parsed.conversation_id.as_deref(), Some("c"));
}

#[test]
fn flag_value_may_look_like_a_flag() {
    let parsed = parse_args(vec!["--prompt".to_owned(), "--prompt".to_owned()]).unwrap();
    assert_eq!(parsed.prompt.as_deref(), Some("--prompt"));
    assert_eq!(parsed.conversation_id, None);
}

#[test]
fn unknown_argument_after_valid_flags_is_reported() {
    let error = parse_args(["--prompt", "x", "extra"].map(str::to_owned).to_vec()).unwrap_err();
    assert_eq!(error, ArgsError::UnknownArgument("extra".to_owned()));
    assert_eq!(error.to_string(), "Unknown argument: extra");
}

#[test]
fn worker_invocations_are_not_forwarded() {
    assert!(!should_forward_args(Some(true)));
    assert!(should_forward_args(Some(false)));
    assert!(should_forward_args(None));
}

#[test]
fn environment_assignments_follow_parsed_arguments() {
    let args = TuiArgs {
        prompt: Some("hello".to_owned()),
        conversation_id: Some("conversation-1".to_owned()),
    };
    assert_eq!(
        environment_assignments(args),
        vec![
            (PROMPT_ENV.to_owned(), "hello".to_owned()),
            (CONVERSATION_ID_ENV.to_owned(), "conversation-1".to_owned()),
        ]
    );
    assert_eq!(
        environment_assignments(TuiArgs { prompt: None, conversation_id: Some("c".to_owned()) }),
        vec![("WARP_TUI_CONVERSATION_ID".to_owned(), "c".to_owned())]
    );
    assert!(environment_assignments(TuiArgs::default()).is_empty());
}
