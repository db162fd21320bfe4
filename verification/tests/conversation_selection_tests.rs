use warp_tui::conversation_selection::{
    conversation_is_live, selected_conversation, AIConversationAutoexecuteMode, AIConversationId,
    AgentViewIntegration, ConversationSelectionEvent, PendingQueryState,
};

fn id(value: u128) -> AIConversationId {
    AIConversationId { value }
}

#[test]
fn pending_query_defaults_to_new_conversation_with_user_settings() {
    assert_eq!(
        PendingQueryState::default(),
        PendingQueryState::New {
            autoexecute_override: AIConversationAutoexecuteMode::RespectUserSettings,
        }
    );
}

#[test]
fn selected_conversation_is_looked_up_in_history() {
    let history = vec![(id(1), "first"), (id(2), "second"), (id(2), "shadowed")];
    assert_eq!(selected_conversation(Some(id(2)), &history), Some(&"second"));
    assert_eq!(selected_conversation(Some(id(3)), &history), None);
    assert_eq!(selected_conversation(None, &history), None);
}

#[test]
fn liveness_is_membership_in_the_live_list() {
    let live = vec![id(5), id(9)];
    assert!(conversation_is_live(&live, id(9)));
    assert!(!conversation_is_live(&live, id(4)));
    assert!(!conversation_is_live(&Vec::new(), id(5)));
}

#[test]
fn agent_view_integration_exposes_controller_only_for_gui() {
    let gui = AgentViewIntegration::Gui("controller");
    let headless: AgentViewIntegration<&str> = AgentViewIntegration::Headless;
    assert_eq!(gui.controller(), Some(&"controller"));
    assert!(!gui.is_headless());
    assert_eq!(headless.controller(), None);
    assert!(headless.is_headless());
}

#[test]
fn selection_events_carry_their_data() {
    let event: ConversationSelectionEvent<(), ()> = ConversationSelectionEvent::AgentViewExited {
        conversation_id: id(1),
        final_exchange_count: 3,
        is_exit_before_new_entrance: false,
    };
    match event {
        ConversationSelectionEvent::AgentViewExited { final_exchange_count, .. } => {
            assert_eq!(final_exchange_count, 3)
        }
        _ => unreachable!(),
    }
}
