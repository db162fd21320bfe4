//! Next-prompt conversation selection shared by the terminal surfaces.
use vstd::prelude::*;

verus! {

/// Identifier of an AI conversation.
#[derive(Clone, Copy, Debug, PartialEq, Eq, Hash, Structural)]
pub struct AIConversationId {
    pub value: u128,
}

/// Identifier of a UI entity, such as the terminal surface that owns a conversation.
#[derive(Clone, Copy, Debug, PartialEq, Eq, Hash, Structural)]
pub struct EntityId {
    pub value: usize,
}

/// Whether a new conversation runs its actions under the user's settings or
/// to completion.
#[derive(Clone, Copy, Debug, PartialEq, Eq, Structural)]
pub enum AIConversationAutoexecuteMode {
    RespectUserSettings,
    RunToCompletion,
}

impl Default for AIConversationAutoexecuteMode {
    fn default() -> (mode: Self)
        ensures
            mode == AIConversationAutoexecuteMode::RespectUserSettings,
    {
        AIConversationAutoexecuteMode::RespectUserSettings
    }
}

/// The conversation targeted by the next query from a terminal surface.
#[derive(Clone, Copy, Debug, PartialEq, Eq, Structural)]
pub enum PendingQueryState {
    /// The next query will continue an existing conversation.
    Existing { conversation_id: AIConversationId },
    New {
        /// Autoexecute override for the new conversation to be started.
        autoexecute_override: AIConversationAutoexecuteMode,
    },
}

impl Default for PendingQueryState {
    fn default() -> (state: Self)
        ensures
            state == (PendingQueryState::New {
                autoexecute_override: AIConversationAutoexecuteMode::RespectUserSettings,
            }),
    {
        PendingQueryState::New { autoexecute_override: AIConversationAutoexecuteMode::default() }
    }
}

/// Events emitted by a surface's conversation-selection implementation. The
/// display mode and entry origin are the view layer's own types.
#[derive(Clone, Debug)]
pub enum ConversationSelectionEvent<DisplayMode, Origin> {
    Changed,
    AgentViewEntered { display_mode: DisplayMode, origin: Origin },
    AgentViewExited {
        conversation_id: AIConversationId,
        final_exchange_count: usize,
        is_exit_before_new_entrance: bool,
    },
}

/// Returns the selected conversation, if it is loaded: the first entry of
/// `conversations` stored under the selected id.
pub fn selected_conversation<'a, T>(
    selected_conversation_id: Option<AIConversationId>,
    conversations: &'a Vec<(AIConversationId, T)>,
) -> (found: Option<&'a T>)
    ensures
        match selected_conversation_id {
            None => found is None,
            Some(id) => match found {
                Some(c) => exists|i: int|
                    {
                        &&& 0 <= i < conversations@.len()
                        &&& #[trigger] conversations@[i].0 == id
                        &&& *c == conversations@[i].1
                        &&& forall|j: int| 0 <= j < i ==> conversations@[j].0 != id
                    },
                None => forall|i: int| 0 <= i < conversations@.len() ==> conversations@[i].0 != id,
            },
        },
{
    match selected_conversation_id {
        None => None,
        Some(id) => {
            let mut i: usize = 0;
            while i < conversations.len()
                invariant
                    selected_conversation_id == Some(id),
                    i <= conversations@.len(),
                    forall|j: int| 0 <= j < i ==> conversations@[j].0 != id,
                decreases conversations@.len() - i,
            {
                if conversations[i].0 == id {
                    assert(conversations@[i as int].0 == id);
                    return Some(&conversations[i].1);
                }
                i = i + 1;
            }
            None
        },
    }
}

/// Whether `conversation_id` is among the live conversations of a surface.
pub fn conversation_is_live(live_conversations: &Vec<AIConversationId>, conversation_id: AIConversationId) -> (live: bool)
    ensures
        live == live_conversations@.contains(conversation_id),
{
    let mut i: usize = 0;
    while i < live_conversations.len()
        invariant
            i <= live_conversations@.len(),
            forall|j: int| 0 <= j < i ==> live_conversations@[j] != conversation_id,
        decreases live_conversations@.len() - i,
    {
        if live_conversations[i] == conversation_id {
            assert(live_conversations@[i as int] == conversation_id);
            return true;
        }
        i = i + 1;
    }
    false
}

/// Describes whether a surface delegates conversation UI state to Agent View,
/// whose controller handle is `C`.
#[derive(Clone)]
pub enum AgentViewIntegration<C> {
    Gui(C),
    Headless,
}

impl<C> AgentViewIntegration<C> {
    /// Returns the GUI Agent View controller when this is a GUI surface.
    pub fn controller(&self) -> (controller: Option<&C>)
        ensures
            match self {
                AgentViewIntegration::Gui(c) => controller == Some(c),
                AgentViewIntegration::Headless => controller is None,
            },
    {
        match self {
            AgentViewIntegration::Gui(controller) => Some(controller),
            AgentViewIntegration::Headless => None,
        }
    }

    /// Returns whether the surface owns conversation selection without Agent View.
    pub fn is_headless(&self) -> (headless: bool)
        ensures
            headless == (self is Headless),
    {
        match self {
            AgentViewIntegration::Gui(_) => false,
            AgentViewIntegration::Headless => true,
        }
    }
}

} // verus!
