use warp_tui::conversation_selection::{AIConversationId, EntityId, PendingQueryState};
use warp_tui::tui::{
    finish_auth_and_run, invalid_conversation_id_message, on_auth_event, plain_text,
    startup_step, user_id_report, AgentTextSection, AuthEvent, AuthStep, AuthenticatedRun,
    ContextEvent, ConversationModelError, ConversationStatus, ConversationStatusUpdate,
    HistoryEvent, PromptFlow, PromptFlowAction, PromptFlowEvent, SnapshotOutcome, StartupStep,
    StreamSnapshot, SurfaceStep, TuiConversationModel, TuiConversationModelEvent,
    TuiConversationSurface,
};

fn id(value: u128) -> AIConversationId {
    AIConversationId { value }
}

fn owner(value: usize) -> EntityId {
    EntityId { value }
}

fn plain(text: &str) -> AgentTextSection {
    AgentTextSection::PlainText { text: text.to_owned() }
}

#[test]
fn startup_logs_in_only_when_signed_out() {
    assert!(matches!(startup_step(true), StartupStep::Run));
    match startup_step(false) {
        StartupStep::Login { welcome } => {
            assert_eq!(welcome, "Welcome to Warp TUI. Let's get you logged in.")
        }
        StartupStep::Run => panic!("signed-out start-up must log in"),
    }
    assert_eq!(invalid_conversation_id_message("bad uuid"), "Invalid conversation ID: bad uuid");
}

#[test]
fn device_code_opens_complete_url_when_given() {
    let step = on_auth_event(AuthEvent::ReceivedDeviceAuthorizationCode {
        verification_url: "https://warp.dev/device".to_owned(),
        verification_url_complete: Some("https://warp.dev/device?code=AB-CD".to_owned()),
        user_code: "AB-CD".to_owned(),
    });
    match step {
        AuthStep::OpenBrowser { url, notice } => {
            assert_eq!(url, "https://warp.dev/device?code=AB-CD");
            assert_eq!(
                notice,
                "Opening your browser to log in.\nIf it doesn't open, visit https://warp.dev/device and enter this code: AB-CD"
            );
        }
        _ => panic!("expected the browser to open"),
    }
    match on_auth_event(AuthEvent::ReceivedDeviceAuthorizationCode {
        verification_url: "u".to_owned(),
        verification_url_complete: None,
        user_code: "c".to_owned(),
    }) {
        AuthStep::OpenBrowser { url, .. } => assert_eq!(url, "u"),
        _ => panic!("expected the browser to open"),
    }
}

#[test]
fn auth_completion_and_failure() {
    assert!(matches!(on_auth_event(AuthEvent::AuthComplete), AuthStep::Run));
    assert!(matches!(on_auth_event(AuthEvent::Other), AuthStep::Nothing));
    match on_auth_event(AuthEvent::AuthFailed { error: "timed out".to_owned() }) {
        AuthStep::Fail { message } => assert_eq!(message, "Authentication failed: timed out"),
        _ => panic!("expected failure"),
    }
}

#[test]
fn authenticated_run_streams_prompt_or_prints_user_id() {
    assert!(matches!(finish_auth_and_run(None, Some(id(1))), AuthenticatedRun::PrintUserId));
    match finish_auth_and_run(Some("hi".to_owned()), Some(id(2))) {
        AuthenticatedRun::StreamPrompt { prompt, conversation_id } => {
            assert_eq!(prompt, "hi");
            assert_eq!(conversation_id, Some(id(2)));
        }
        AuthenticatedRun::PrintUserId => panic!("a prompt must be streamed"),
    }
}

#[test]
fn user_id_report_strips_service_account_prefix() {
    assert_eq!(
        user_id_report(Some("serviceAccount:abc123".to_owned())),
        Ok("Logged in. User ID: abc123".to_owned())
    );
    assert_eq!(user_id_report(Some("user-9".to_owned())), Ok("Logged in. User ID: user-9".to_owned()));
    assert_eq!(
        user_id_report(Some("serviceAccount".to_owned())),
        Ok("Logged in. User ID: serviceAccount".to_owned())
    );
    assert_eq!(
        user_id_report(None),
        Err("Could not determine user ID after login.".to_owned())
    );
}

#[test]
fn history_events_of_other_surfaces_are_dropped() {
    let model = TuiConversationModel::new(owner(1));
    assert_eq!(model.owner_id(), owner(1));
    let foreign = HistoryEvent::UpdatedStreamingExchange {
        owner_id: Some(owner(2)),
        conversation_id: id(7),
    };
    assert!(model.handle_history_event(foreign).is_none());
    let own = HistoryEvent::StartedNewConversation { owner_id: Some(owner(1)), new_conversation_id: id(7) };
    assert!(matches!(
        model.handle_history_event(own),
        Some(TuiConversationModelEvent::ConversationStarted { conversation_id }) if conversation_id == id(7)
    ));
    let unowned = HistoryEvent::UpdatedConversationStatus {
        owner_id: None,
        conversation_id: id(8),
        new_status: ConversationStatus { is_in_progress: false, label: "Success".to_owned() },
        update: ConversationStatusUpdate::Changed,
    };
    match model.handle_history_event(unowned) {
        Some(TuiConversationModelEvent::ConversationStatusChanged { conversation_id, status, update }) => {
            assert_eq!(conversation_id, id(8));
            assert_eq!(status.label, "Success");
            assert_eq!(update, ConversationStatusUpdate::Changed);
        }
        _ => panic!("status change must be passed on"),
    }
    assert!(model.handle_history_event(HistoryEvent::Other { owner_id: Some(owner(1)) }).is_none());
}

#[test]
fn pending_query_updates_announce_the_selection() {
    let model = TuiConversationModel::new(owner(1));
    assert!(matches!(
        model.selection_changed_event(ContextEvent::PendingQueryStateUpdated, Some(id(3))),
        Some(TuiConversationModelEvent::SelectedConversationChanged { conversation_id: Some(c) }) if c == id(3)
    ));
    assert!(model.selection_changed_event(ContextEvent::Other, Some(id(3))).is_none());
}

#[test]
fn selecting_requires_a_live_conversation() {
    let model = TuiConversationModel::new(owner(4));
    assert_eq!(
        model.select_conversation(id(1), &vec![id(1)]).unwrap(),
        PendingQueryState::Existing { conversation_id: id(1) }
    );
    match model.select_conversation(id(2), &vec![id(1)]) {
        Err(ConversationModelError::NotLive { conversation_id, owner_id }) => {
            assert_eq!(conversation_id, id(2));
            assert_eq!(owner_id, owner(4));
        }
        _ => panic!("a conversation that is not live cannot be selected"),
    }
}

#[test]
fn prompt_goes_to_selection_or_new_conversation() {
    let model = TuiConversationModel::new(owner(1));
    match model.send_prompt("hi".to_owned(), Some(id(5))) {
        (PromptFlow::Finished, PromptFlowAction::SendToSelected { prompt, conversation_id }) => {
            assert_eq!(prompt, "hi");
            assert_eq!(conversation_id, id(5));
        }
        _ => panic!("selected conversation must receive the prompt"),
    }
    let (flow, action) = model.send_prompt("hi".to_owned(), None);
    assert!(matches!(action, PromptFlowAction::StartNewConversation));
    match model.advance(flow, PromptFlowEvent::NewConversationStarted { result: Ok(id(6)) }) {
        (PromptFlow::Finished, PromptFlowAction::SendToSelected { prompt, conversation_id }) => {
            assert_eq!(prompt, "hi");
            assert_eq!(conversation_id, id(6));
        }
        _ => panic!("new conversation must receive the prompt"),
    }
    let (flow, _) = model.send_prompt("hi".to_owned(), None);
    match model.advance(flow, PromptFlowEvent::NewConversationStarted { result: Err("no".to_owned()) }) {
        (PromptFlow::Finished, PromptFlowAction::EmitError { error: ConversationModelError::StartFailed { message } }) => {
            assert_eq!(message, "no")
        }
        _ => panic!("failure to start must be reported"),
    }
}

#[test]
fn prompt_to_live_conversation_selects_and_sends() {
    let model = TuiConversationModel::new(owner(1));
    match model.send_prompt_to_conversation("p".to_owned(), id(2), &vec![id(2)], true) {
        (PromptFlow::Finished, PromptFlowAction::SelectAndSend { prompt, conversation_id }) => {
            assert_eq!(prompt, "p");
            assert_eq!(conversation_id, id(2));
        }
        _ => panic!("live conversation must be selected and sent to"),
    }
}

#[test]
fn prompt_to_conversation_in_history_restores_first() {
    let model = TuiConversationModel::new(owner(1));
    let (flow, action) = model.send_prompt_to_conversation("p".to_owned(), id(2), &vec![], true);
    assert!(matches!(action, PromptFlowAction::RestoreFromHistory { conversation_id } if conversation_id == id(2)));
    match model.advance(flow, PromptFlowEvent::Restored { live_conversations: vec![id(2)] }) {
        (PromptFlow::Finished, PromptFlowAction::SelectAndSend { prompt, conversation_id }) => {
            assert_eq!(prompt, "p");
            assert_eq!(conversation_id, id(2));
        }
        _ => panic!("restored conversation must be selected and sent to"),
    }
    let (flow, _) = model.send_prompt_to_conversation("p".to_owned(), id(2), &vec![], true);
    assert!(matches!(
        model.advance(flow, PromptFlowEvent::Restored { live_conversations: vec![id(3)] }),
        (PromptFlow::Finished, PromptFlowAction::EmitError { error: ConversationModelError::NotLive { .. } })
    ));
}

#[test]
fn prompt_to_unknown_conversation_loads_it() {
    let model = TuiConversationModel::new(owner(1));
    let (flow, action) = model.send_prompt_to_conversation("p".to_owned(), id(2), &vec![], false);
    assert!(matches!(action, PromptFlowAction::LoadConversation { conversation_id } if conversation_id == id(2)));
    let (flow, action) = model.advance(flow, PromptFlowEvent::Loaded { found: true });
    assert!(matches!(action, PromptFlowAction::RestoreLoaded { conversation_id } if conversation_id == id(2)));
    match model.advance(flow, PromptFlowEvent::Restored { live_conversations: vec![id(2)] }) {
        (PromptFlow::Finished, PromptFlowAction::SelectAndSend { prompt, conversation_id }) => {
            assert_eq!(prompt, "p");
            assert_eq!(conversation_id, id(2));
        }
        _ => panic!("loaded conversation must be selected and sent to"),
    }
    let (flow, _) = model.send_prompt_to_conversation("p".to_owned(), id(2), &vec![], false);
    assert!(matches!(
        model.advance(flow, PromptFlowEvent::Loaded { found: false }),
        (PromptFlow::Finished, PromptFlowAction::EmitError { error: ConversationModelError::LoadFailed { conversation_id } }) if conversation_id == id(2)
    ));
}

#[test]
fn unexpected_event_leaves_submission_unchanged() {
    let model = TuiConversationModel::new(owner(1));
    let (flow, _) = model.send_prompt_to_conversation("p".to_owned(), id(2), &vec![], false);
    let (flow, action) = model.advance(flow, PromptFlowEvent::Restored { live_conversations: vec![id(2)] });
    assert!(matches!(action, PromptFlowAction::Nothing));
    assert!(matches!(flow, PromptFlow::AwaitingLoad { conversation_id, .. } if conversation_id == id(2)));
}

#[test]
fn plain_text_joins_plain_sections_only() {
    let sections = vec![plain("one"), AgentTextSection::Code, plain("two"), AgentTextSection::Table, plain("")];
    assert_eq!(plain_text(&sections), "one\ntwo\n");
    assert_eq!(plain_text(&vec![AgentTextSection::Image, AgentTextSection::MermaidDiagram]), "");
}

#[test]
fn surface_prints_each_snapshot_once() {
    let mut surface = TuiConversationSurface::new();
    let snapshot = || Some(StreamSnapshot { has_actions: false, sections: vec![plain("hello")] });
    assert!(matches!(surface.print_stream_snapshot(snapshot()), SnapshotOutcome::Print { text } if text == "hello"));
    assert!(matches!(surface.print_stream_snapshot(snapshot()), SnapshotOutcome::Unchanged));
    assert!(matches!(surface.print_stream_snapshot(None), SnapshotOutcome::Unchanged));
    surface.handle_conversation_event(TuiConversationModelEvent::SelectedConversationChanged { conversation_id: None });
    assert!(matches!(surface.print_stream_snapshot(snapshot()), SnapshotOutcome::Print { .. }));
}

#[test]
fn surface_fails_on_tool_actions() {
    let mut surface = TuiConversationSurface::new();
    match surface.print_stream_snapshot(Some(StreamSnapshot { has_actions: true, sections: vec![plain("x")] })) {
        SnapshotOutcome::Fail { message } => {
            assert_eq!(message, "TUI smoke mode does not support tool actions")
        }
        _ => panic!("tool actions are unsupported"),
    }
}

#[test]
fn surface_reacts_to_model_events() {
    let mut surface = TuiConversationSurface::new();
    assert!(matches!(
        surface.handle_conversation_event(TuiConversationModelEvent::ConversationUpdated { conversation_id: id(1) }),
        SurfaceStep::ShowSnapshot { final_report: None, .. }
    ));
    let running = TuiConversationModelEvent::ConversationStatusChanged {
        conversation_id: id(1),
        status: ConversationStatus { is_in_progress: true, label: "InProgress".to_owned() },
        update: ConversationStatusUpdate::Changed,
    };
    assert!(matches!(
        surface.handle_conversation_event(running),
        SurfaceStep::ShowSnapshot { final_report: None, .. }
    ));
    let restored = TuiConversationModelEvent::ConversationStatusChanged {
        conversation_id: id(1),
        status: ConversationStatus { is_in_progress: false, label: "Success".to_owned() },
        update: ConversationStatusUpdate::Restored,
    };
    assert!(matches!(surface.handle_conversation_event(restored), SurfaceStep::Nothing));
    assert!(matches!(
        surface.handle_conversation_event(TuiConversationModelEvent::Error { message: "boom".to_owned() }),
        SurfaceStep::Fail { message } if message == "boom"
    ));
}

#[test]
fn completed_stream_reports_conversation_then_status() {
    let mut surface = TuiConversationSurface::new();
    assert!(matches!(
        surface.handle_conversation_event(TuiConversationModelEvent::ConversationStarted { conversation_id: id(9) }),
        SurfaceStep::Nothing
    ));
    assert!(matches!(
        surface.handle_conversation_event(TuiConversationModelEvent::ConversationUpdated { conversation_id: id(9) }),
        SurfaceStep::ShowSnapshot { final_report: None, .. }
    ));
    let done = TuiConversationModelEvent::ConversationStatusChanged {
        conversation_id: id(9),
        status: ConversationStatus { is_in_progress: false, label: "Success".to_owned() },
        update: ConversationStatusUpdate::Changed,
    };
    match surface.handle_conversation_event(done) {
        SurfaceStep::ShowSnapshot { conversation_id, final_report: Some(report) } => {
            assert_eq!(conversation_id, id(9));
            assert_eq!(report.conversation_id, id(9));
            assert_eq!(report.status_line, "status=Success");
        }
        _ => panic!("a completed stream reports its conversation and status"),
    }
}

#[test]
fn follow_up_stream_reports_the_continued_conversation() {
    let mut surface = TuiConversationSurface::new();
    let done = TuiConversationModelEvent::ConversationStatusChanged {
        conversation_id: id(4),
        status: ConversationStatus { is_in_progress: false, label: "Cancelled".to_owned() },
        update: ConversationStatusUpdate::Changed,
    };
    match surface.handle_conversation_event(done) {
        SurfaceStep::ShowSnapshot { final_report: Some(report), .. } => {
            assert_eq!(report.conversation_id, id(4));
            assert_eq!(report.status_line, "status=Cancelled");
        }
        _ => panic!("a completed stream reports its conversation and status"),
    }
}

#[test]
fn submit_prompt_routes_by_named_conversation() {
    let model = TuiConversationModel::new(owner(1));
    assert!(matches!(
        model.submit_prompt("p".to_owned(), Some(id(2)), Some(id(7)), &vec![id(2)], false),
        (PromptFlow::Finished, PromptFlowAction::SelectAndSend { conversation_id, .. }) if conversation_id == id(2)
    ));
    assert!(matches!(
        model.submit_prompt("p".to_owned(), None, Some(id(7)), &vec![id(2)], false),
        (PromptFlow::Finished, PromptFlowAction::SendToSelected { conversation_id, .. }) if conversation_id == id(7)
    ));
    assert!(matches!(
        model.submit_prompt("p".to_owned(), None, None, &vec![], false),
        (PromptFlow::AwaitingNewConversation { .. }, PromptFlowAction::StartNewConversation)
    ));
}
