//! Decisions of the headless TUI: start-up and authentication, the
//! conversation model that routes prompts and history events for one terminal
//! surface, and the prompt-streaming surface that turns model events into
//! output and termination.
//!
//! Everything here is a function from plain values to plain values; the
//! caller performs the actions (printing, opening a browser, talking to the AI
//! models) and reports back what happened.
use vstd::prelude::*;
use vstd::string::*;

use crate::conversation_selection::{
    conversation_is_live, AIConversationId, EntityId, PendingQueryState,
};
use crate::text::str_starts_with;

verus! {

// ---------------------------------------------------------------------------
// Start-up and authentication
// ---------------------------------------------------------------------------

/// The message with which start-up refuses a conversation id that does not parse.
pub open spec fn spec_invalid_conversation_id_message(error: Seq<char>) -> Seq<char> {
    "Invalid conversation ID: "@ + error
}

/// Builds the start-up failure for a conversation id that does not parse,
/// from the parser's description of the problem.
pub fn invalid_conversation_id_message(error: &str) -> (message: String)
    ensures
        message@ == spec_invalid_conversation_id_message(error@),
{
    let mut message = String::from_str("Invalid conversation ID: ");
    message.append(error);
    message
}

/// What start-up does once the command line has been read.
pub enum StartupStep {
    /// The user is signed in: run at once.
    Run,
    /// Print the welcome line, then start the device authorization flow.
    Login { welcome: String },
}

/// The line printed before the login flow starts.
pub open spec fn welcome_message() -> Seq<char> {
    "Welcome to Warp TUI. Let's get you logged in."@
}

/// Start-up runs at once when the user is signed in, and logs in first otherwise.
pub fn startup_step(logged_in: bool) -> (step: StartupStep)
    ensures
        logged_in ==> step is Run,
        !logged_in ==> (step matches StartupStep::Login { welcome } && welcome@ == welcome_message()),
{
    if logged_in {
        StartupStep::Run
    } else {
        StartupStep::Login { welcome: String::from_str("Welcome to Warp TUI. Let's get you logged in.") }
    }
}

/// The authentication events that the login flow reacts to.
pub enum AuthEvent {
    ReceivedDeviceAuthorizationCode {
        verification_url: String,
        verification_url_complete: Option<String>,
        user_code: String,
    },
    AuthComplete,
    /// Authentication failed; `error` is the failure's full description.
    AuthFailed { error: String },
    /// Any other event of the authentication manager.
    Other,
}

/// What the login flow does on an authentication event.
pub enum AuthStep {
    Nothing,
    /// Print `notice`, then open `url` in the browser.
    OpenBrowser { url: String, notice: String },
    /// Authentication is done: run.
    Run,
    /// Terminate with this error.
    Fail { message: String },
}

/// The notice printed when the browser is opened for the device code.
pub open spec fn spec_browser_notice(verification_url: Seq<char>, user_code: Seq<char>) -> Seq<char> {
    "Opening your browser to log in.\nIf it doesn't open, visit "@ + verification_url
        + " and enter this code: "@ + user_code
}

/// The message with which the login flow fails.
pub open spec fn spec_auth_failed_message(error: Seq<char>) -> Seq<char> {
    "Authentication failed: "@ + error
}

/// Reacts to one authentication event. The browser opens the complete
/// verification URL when there is one, the plain URL otherwise; the notice
/// always names the plain URL.
pub fn on_auth_event(event: AuthEvent) -> (step: AuthStep)
    ensures
        match event {
            AuthEvent::ReceivedDeviceAuthorizationCode {
                verification_url,
                verification_url_complete,
                user_code,
            } => step matches AuthStep::OpenBrowser { url, notice } && url@ == (
            match verification_url_complete {
                Some(complete) => complete@,
                None => verification_url@,
            }) && notice@ == spec_browser_notice(verification_url@, user_code@),
            AuthEvent::AuthComplete => step is Run,
            AuthEvent::AuthFailed { error } => step matches AuthStep::Fail { message }
                && message@ == spec_auth_failed_message(error@),
            AuthEvent::Other => step is Nothing,
        },
{
    match event {
        AuthEvent::ReceivedDeviceAuthorizationCode {
            verification_url,
            verification_url_complete,
            user_code,
        } => {
            let mut notice = String::from_str(
                "Opening your browser to log in.\nIf it doesn't open, visit ",
            );
            notice.append(verification_url.as_str());
            notice.append(" and enter this code: ");
            notice.append(user_code.as_str());
            let url = match verification_url_complete {
                Some(complete) => complete,
                None => verification_url,
            };
            AuthStep::OpenBrowser { url, notice }
        },
        AuthEvent::AuthComplete => AuthStep::Run,
        AuthEvent::AuthFailed { error } => {
            let mut message = String::from_str("Authentication failed: ");
            message.append(error.as_str());
            AuthStep::Fail { message }
        },
        AuthEvent::Other => AuthStep::Nothing,
    }
}

/// What runs once the user is authenticated.
pub enum AuthenticatedRun {
    /// No prompt was given: print the user's id and exit.
    PrintUserId,
    /// Stream `prompt`, into `conversation_id` when one was given.
    StreamPrompt { prompt: String, conversation_id: Option<AIConversationId> },
}

/// Prints identity for auth-only mode or starts the prompt-streaming path.
pub fn finish_auth_and_run(prompt: Option<String>, conversation_id: Option<AIConversationId>) -> (run: AuthenticatedRun)
    ensures
        match prompt {
            None => run is PrintUserId,
            Some(p) => run == (AuthenticatedRun::StreamPrompt { prompt: p, conversation_id }),
        },
{
    match prompt {
        None => AuthenticatedRun::PrintUserId,
        Some(prompt) => AuthenticatedRun::StreamPrompt { prompt, conversation_id },
    }
}

/// The prefix that service-account user ids carry.
pub open spec fn service_account_prefix() -> Seq<char> {
    "serviceAccount:"@
}

/// A user id without its service-account prefix, if it has one.
pub open spec fn spec_display_user_id(user_id: Seq<char>) -> Seq<char> {
    let p = service_account_prefix();
    if p.len() <= user_id.len() && user_id.subrange(0, p.len() as int) == p {
        user_id.subrange(p.len() as int, user_id.len() as int)
    } else {
        user_id
    }
}

/// The outcome of the auth-only mode: the line to print, or the error to fail with.
pub open spec fn spec_user_id_report(user_id: Option<Seq<char>>) -> Result<Seq<char>, Seq<char>> {
    match user_id {
        Some(uid) => Ok("Logged in. User ID: "@ + spec_display_user_id(uid)),
        None => Err("Could not determine user ID after login."@),
    }
}

/// The auth-only mode's report on the signed-in user: `Ok` with the line to
/// print before exiting, or `Err` with the failure when the id is unknown.
pub fn user_id_report(user_id: Option<String>) -> (report: Result<String, String>)
    ensures
        match report {
            Ok(line) => spec_user_id_report(user_id.deep_view()) == Ok::<Seq<char>, Seq<char>>(line@),
            Err(message) => spec_user_id_report(user_id.deep_view()) == Err::<Seq<char>, Seq<char>>(message@),
        },
{
    match user_id {
        Some(uid) => {
            let prefix = "serviceAccount:";
            let mut line = String::from_str("Logged in. User ID: ");
            if str_starts_with(uid.as_str(), prefix) {
                let start = prefix.unicode_len();
                let end = uid.as_str().unicode_len();
                line.append(uid.as_str().substring_char(start, end));
            } else {
                line.append(uid.as_str());
            }
            Ok(line)
        },
        None => Err(String::from_str("Could not determine user ID after login.")),
    }
}

// ---------------------------------------------------------------------------
// Conversation model
// ---------------------------------------------------------------------------

/// How a conversation's status changed.
#[derive(Clone, Copy, Debug, PartialEq, Eq, Structural)]
pub enum ConversationStatusUpdate {
    Changed,
    Restored,
}

/// What the TUI reads of a conversation's status: whether it is still in
/// progress, and its name for the final report.
#[derive(Clone, Debug)]
pub struct ConversationStatus {
    pub is_in_progress: bool,
    pub label: String,
}

/// Events emitted by a TUI conversation model for presentation layers.
#[derive(Clone, Debug)]
pub enum TuiConversationModelEvent {
    SelectedConversationChanged { conversation_id: Option<AIConversationId> },
    ConversationStarted { conversation_id: AIConversationId },
    ConversationUpdated { conversation_id: AIConversationId },
    ConversationStatusChanged {
        conversation_id: AIConversationId,
        status: ConversationStatus,
        update: ConversationStatusUpdate,
    },
    Error { message: String },
}

/// The conversation-history events that a TUI conversation model reads, each
/// with the terminal surface it concerns (if any).
pub enum HistoryEvent {
    StartedNewConversation { owner_id: Option<EntityId>, new_conversation_id: AIConversationId },
    UpdatedStreamingExchange { owner_id: Option<EntityId>, conversation_id: AIConversationId },
    UpdatedConversationStatus {
        owner_id: Option<EntityId>,
        conversation_id: AIConversationId,
        new_status: ConversationStatus,
        update: ConversationStatusUpdate,
    },
    /// Any other history event.
    Other { owner_id: Option<EntityId> },
}

impl HistoryEvent {
    /// The terminal surface that the event concerns, if any.
    pub open spec fn spec_owner_id(&self) -> Option<EntityId> {
        match self {
            HistoryEvent::StartedNewConversation { owner_id, .. } => *owner_id,
            HistoryEvent::UpdatedStreamingExchange { owner_id, .. } => *owner_id,
            HistoryEvent::UpdatedConversationStatus { owner_id, .. } => *owner_id,
            HistoryEvent::Other { owner_id } => *owner_id,
        }
    }

    /// The terminal surface that the event concerns, if any.
    #[verifier::when_used_as_spec(spec_owner_id)]
    pub fn owner_id(&self) -> (owner: Option<EntityId>)
        ensures
            owner == self.spec_owner_id(),
    {
        match self {
            HistoryEvent::StartedNewConversation { owner_id, .. } => *owner_id,
            HistoryEvent::UpdatedStreamingExchange { owner_id, .. } => *owner_id,
            HistoryEvent::UpdatedConversationStatus { owner_id, .. } => *owner_id,
            HistoryEvent::Other { owner_id } => *owner_id,
        }
    }
}

/// The presentation event for a history event, as seen by the surface `owner_id`.
pub open spec fn spec_handle_history_event(owner_id: EntityId, event: HistoryEvent) -> Option<
    TuiConversationModelEvent,
> {
    if event.spec_owner_id() matches Some(o) && o != owner_id {
        None
    } else {
        match event {
            HistoryEvent::StartedNewConversation { new_conversation_id, .. } => Some(
                TuiConversationModelEvent::ConversationStarted { conversation_id: new_conversation_id },
            ),
            HistoryEvent::UpdatedStreamingExchange { conversation_id, .. } => Some(
                TuiConversationModelEvent::ConversationUpdated { conversation_id },
            ),
            HistoryEvent::UpdatedConversationStatus { conversation_id, new_status, update, .. } => Some(
                TuiConversationModelEvent::ConversationStatusChanged {
                    conversation_id,
                    status: new_status,
                    update,
                },
            ),
            HistoryEvent::Other { .. } => None,
        }
    }
}

/// The context-model events that a TUI conversation model reads.
#[derive(Clone, Copy, Debug, PartialEq, Eq, Structural)]
pub enum ContextEvent {
    PendingQueryStateUpdated,
    Other,
}

/// Why the conversation model could not deliver a prompt.
#[derive(Clone, Debug)]
pub enum ConversationModelError {
    /// The conversation is not live for this surface.
    NotLive { conversation_id: AIConversationId, owner_id: EntityId },
    /// The conversation could not be loaded from local storage.
    LoadFailed { conversation_id: AIConversationId },
    /// No new conversation could be started; the description of the failure.
    StartFailed { message: String },
}

/// Where a prompt submission stands while it waits for outside work.
pub enum PromptFlow {
    /// Nothing is pending.
    Finished,
    /// Waiting for a new conversation to be created and selected.
    AwaitingNewConversation { prompt: String },
    /// Waiting for the conversation to be restored into this surface.
    AwaitingRestore { prompt: String, conversation_id: AIConversationId },
    /// Waiting for the conversation to be loaded from local storage.
    AwaitingLoad { prompt: String, conversation_id: AIConversationId },
}

/// The outside work that a prompt submission asks for next.
pub enum PromptFlowAction {
    Nothing,
    /// Create and select an empty conversation, then report the outcome.
    StartNewConversation,
    /// Send the prompt to the conversation, which is already selected.
    SendToSelected { prompt: String, conversation_id: AIConversationId },
    /// Select the conversation for the next query, then send the prompt to it.
    SelectAndSend { prompt: String, conversation_id: AIConversationId },
    /// Restore the conversation from history into this surface, then report
    /// the surface's live conversations.
    RestoreFromHistory { conversation_id: AIConversationId },
    /// Load the conversation from local storage, then report whether it was found.
    LoadConversation { conversation_id: AIConversationId },
    /// Restore the loaded conversation into this surface, then report the
    /// surface's live conversations.
    RestoreLoaded { conversation_id: AIConversationId },
    /// Report this error.
    EmitError { error: ConversationModelError },
}

/// The outcome of outside work that a prompt submission waited for.
pub enum PromptFlowEvent {
    NewConversationStarted { result: Result<AIConversationId, String> },
    Restored { live_conversations: Vec<AIConversationId> },
    Loaded { found: bool },
}

/// The next state and action of a prompt submission on an event.
pub open spec fn spec_advance(owner_id: EntityId, flow: PromptFlow, event: PromptFlowEvent) -> (
    PromptFlow,
    PromptFlowAction,
) {
    match (flow, event) {
        (
            PromptFlow::AwaitingNewConversation { prompt },
            PromptFlowEvent::NewConversationStarted { result },
        ) => match result {
            Ok(id) => (
                PromptFlow::Finished,
                PromptFlowAction::SendToSelected { prompt, conversation_id: id },
            ),
            Err(message) => (
                PromptFlow::Finished,
                PromptFlowAction::EmitError { error: ConversationModelError::StartFailed { message } },
            ),
        },
        (
            PromptFlow::AwaitingRestore { prompt, conversation_id },
            PromptFlowEvent::Restored { live_conversations },
        ) => if live_conversations@.contains(conversation_id) {
            (PromptFlow::Finished, PromptFlowAction::SelectAndSend { prompt, conversation_id })
        } else {
            (
                PromptFlow::Finished,
                PromptFlowAction::EmitError {
                    error: ConversationModelError::NotLive { conversation_id, owner_id },
                },
            )
        },
        (
            PromptFlow::AwaitingLoad { prompt, conversation_id },
            PromptFlowEvent::Loaded { found },
        ) => if found {
            (
                PromptFlow::AwaitingRestore { prompt, conversation_id },
                PromptFlowAction::RestoreLoaded { conversation_id },
            )
        } else {
            (
                PromptFlow::Finished,
                PromptFlowAction::EmitError {
                    error: ConversationModelError::LoadFailed { conversation_id },
                },
            )
        },
        (flow, _) => (flow, PromptFlowAction::Nothing),
    }
}

/// The first state and action of sending a prompt to the selected conversation.
pub open spec fn spec_send_prompt(prompt: String, selected: Option<AIConversationId>) -> (
    PromptFlow,
    PromptFlowAction,
) {
    match selected {
        Some(id) => (PromptFlow::Finished, PromptFlowAction::SendToSelected { prompt, conversation_id: id }),
        None => (PromptFlow::AwaitingNewConversation { prompt }, PromptFlowAction::StartNewConversation),
    }
}

/// The first state and action of sending a prompt to a given conversation.
pub open spec fn spec_send_prompt_to_conversation(
    prompt: String,
    conversation_id: AIConversationId,
    live_conversations: Seq<AIConversationId>,
    in_history: bool,
) -> (PromptFlow, PromptFlowAction) {
    if live_conversations.contains(conversation_id) {
        (PromptFlow::Finished, PromptFlowAction::SelectAndSend { prompt, conversation_id })
    } else if in_history {
        (
            PromptFlow::AwaitingRestore { prompt, conversation_id },
            PromptFlowAction::RestoreFromHistory { conversation_id },
        )
    } else {
        (
            PromptFlow::AwaitingLoad { prompt, conversation_id },
            PromptFlowAction::LoadConversation { conversation_id },
        )
    }
}

/// Per-surface conversation model: routes prompt submissions and
/// conversation-history events for the terminal surface `owner_id`.
pub struct TuiConversationModel {
    owner_id: EntityId,
}

impl TuiConversationModel {
    /// The terminal surface that this model serves.
    pub closed spec fn spec_owner_id(&self) -> EntityId {
        self.owner_id
    }

    /// Creates the conversation model of a terminal surface.
    pub fn new(owner_id: EntityId) -> (model: Self)
        ensures
            model.spec_owner_id() == owner_id,
    {
        TuiConversationModel { owner_id }
    }

    /// The terminal surface that this model serves.
    #[verifier::when_used_as_spec(spec_owner_id)]
    pub fn owner_id(&self) -> (owner_id: EntityId)
        ensures
            owner_id == self.spec_owner_id(),
    {
        self.owner_id
    }

    /// Announces the newly selected conversation when the pending query
    /// target changes; `selected` is the selection after the change.
    pub fn selection_changed_event(&self, event: ContextEvent, selected: Option<AIConversationId>) -> (emitted: Option<TuiConversationModelEvent>)
        ensures
            emitted == (match event {
                ContextEvent::PendingQueryStateUpdated => Some(
                    TuiConversationModelEvent::SelectedConversationChanged { conversation_id: selected },
                ),
                ContextEvent::Other => None,
            }),
    {
        match event {
            ContextEvent::PendingQueryStateUpdated => Some(
                TuiConversationModelEvent::SelectedConversationChanged { conversation_id: selected },
            ),
            ContextEvent::Other => None,
        }
    }

    /// Converts history events into presentation events. Events that concern
    /// another terminal surface are dropped; new conversations, streaming
    /// updates and status changes are passed on; other events are dropped.
    pub fn handle_history_event(&self, event: HistoryEvent) -> (emitted: Option<TuiConversationModelEvent>)
        ensures
            emitted == spec_handle_history_event(self.spec_owner_id(), event),
            (event.spec_owner_id() matches Some(o) && o != self.spec_owner_id()) ==> emitted is None,
            !(event.spec_owner_id() matches Some(o) && o != self.spec_owner_id()) ==> emitted == (
            match event {
                HistoryEvent::StartedNewConversation { new_conversation_id, .. } => Some(
                    TuiConversationModelEvent::ConversationStarted {
                        conversation_id: new_conversation_id,
                    },
                ),
                HistoryEvent::UpdatedStreamingExchange { conversation_id, .. } => Some(
                    TuiConversationModelEvent::ConversationUpdated { conversation_id },
                ),
                HistoryEvent::UpdatedConversationStatus {
                    conversation_id,
                    new_status,
                    update,
                    ..
                } => Some(
                    TuiConversationModelEvent::ConversationStatusChanged {
                        conversation_id,
                        status: new_status,
                        update,
                    },
                ),
                HistoryEvent::Other { .. } => None,
            }),
    {
        if let Some(owner_id) = event.owner_id() {
            if owner_id != self.owner_id {
                return None;
            }
        }
        match event {
            HistoryEvent::StartedNewConversation { new_conversation_id, .. } => Some(
                TuiConversationModelEvent::ConversationStarted { conversation_id: new_conversation_id },
            ),
            HistoryEvent::UpdatedStreamingExchange { conversation_id, .. } => Some(
                TuiConversationModelEvent::ConversationUpdated { conversation_id },
            ),
            HistoryEvent::UpdatedConversationStatus { conversation_id, new_status, update, .. } => Some(
                TuiConversationModelEvent::ConversationStatusChanged {
                    conversation_id,
                    status: new_status,
                    update,
                },
            ),
            HistoryEvent::Other { .. } => None,
        }
    }

    /// Selects a live conversation as this surface's next-prompt target: on
    /// success, the pending query state to set, which continues that
    /// conversation. A conversation that is not among the surface's live
    /// conversations cannot be selected.
    pub fn select_conversation(&self, conversation_id: AIConversationId, live_conversations: &Vec<AIConversationId>) -> (result: Result<PendingQueryState, ConversationModelError>)
        ensures
            live_conversations@.contains(conversation_id) ==> result == Ok::<
                PendingQueryState,
                ConversationModelError,
            >(PendingQueryState::Existing { conversation_id }),
            !live_conversations@.contains(conversation_id) ==> (result matches Err(e) && e == (
            ConversationModelError::NotLive { conversation_id, owner_id: self.spec_owner_id() })),
    {
        if conversation_is_live(live_conversations, conversation_id) {
            Ok(PendingQueryState::Existing { conversation_id })
        } else {
            Err(ConversationModelError::NotLive { conversation_id, owner_id: self.owner_id })
        }
    }

    /// Sends a prompt to this surface's selected conversation, creating one if needed.
    pub fn send_prompt(&self, prompt: String, selected: Option<AIConversationId>) -> (next: (PromptFlow, PromptFlowAction))
        ensures
            next == spec_send_prompt(prompt, selected),
    {
        match selected {
            Some(id) => (PromptFlow::Finished, PromptFlowAction::SendToSelected { prompt, conversation_id: id }),
            None => (PromptFlow::AwaitingNewConversation { prompt }, PromptFlowAction::StartNewConversation),
        }
    }

    /// Sends a prompt to an existing conversation: at once when it is live for
    /// this surface, after restoring it when the history holds it, and after
    /// loading it from local storage otherwise.
    pub fn send_prompt_to_conversation(
        &self,
        prompt: String,
        conversation_id: AIConversationId,
        live_conversations: &Vec<AIConversationId>,
        in_history: bool,
    ) -> (next: (PromptFlow, PromptFlowAction))
        ensures
            next == spec_send_prompt_to_conversation(
                prompt,
                conversation_id,
                live_conversations@,
                in_history,
            ),
    {
        if conversation_is_live(live_conversations, conversation_id) {
            (PromptFlow::Finished, PromptFlowAction::SelectAndSend { prompt, conversation_id })
        } else if in_history {
            (
                PromptFlow::AwaitingRestore { prompt, conversation_id },
                PromptFlowAction::RestoreFromHistory { conversation_id },
            )
        } else {
            (
                PromptFlow::AwaitingLoad { prompt, conversation_id },
                PromptFlowAction::LoadConversation { conversation_id },
            )
        }
    }

    /// Submits a prompt: into the named conversation when one is given, and
    /// otherwise into the selected one (creating one if none is selected).
    pub fn submit_prompt(
        &self,
        prompt: String,
        conversation_id: Option<AIConversationId>,
        selected: Option<AIConversationId>,
        live_conversations: &Vec<AIConversationId>,
        in_history: bool,
    ) -> (next: (PromptFlow, PromptFlowAction))
        ensures
            next == (match conversation_id {
                Some(id) => spec_send_prompt_to_conversation(
                    prompt,
                    id,
                    live_conversations@,
                    in_history,
                ),
                None => spec_send_prompt(prompt, selected),
            }),
    {
        match conversation_id {
            Some(id) => self.send_prompt_to_conversation(prompt, id, live_conversations, in_history),
            None => self.send_prompt(prompt, selected),
        }
    }

    /// Moves a pending prompt submission on when the outside work it waited
    /// for reports back. An event that the submission is not waiting for
    /// leaves it unchanged.
    pub fn advance(&self, flow: PromptFlow, event: PromptFlowEvent) -> (next: (PromptFlow, PromptFlowAction))
        ensures
            next == spec_advance(self.spec_owner_id(), flow, event),
    {
        match (flow, event) {
            (
                PromptFlow::AwaitingNewConversation { prompt },
                PromptFlowEvent::NewConversationStarted { result },
            ) => match result {
                Ok(id) => (
                    PromptFlow::Finished,
                    PromptFlowAction::SendToSelected { prompt, conversation_id: id },
                ),
                Err(message) => (
                    PromptFlow::Finished,
                    PromptFlowAction::EmitError { error: ConversationModelError::StartFailed { message } },
                ),
            },
            (
                PromptFlow::AwaitingRestore { prompt, conversation_id },
                PromptFlowEvent::Restored { live_conversations },
            ) => if conversation_is_live(&live_conversations, conversation_id) {
                (PromptFlow::Finished, PromptFlowAction::SelectAndSend { prompt, conversation_id })
            } else {
                (
                    PromptFlow::Finished,
                    PromptFlowAction::EmitError {
                        error: ConversationModelError::NotLive {
                            conversation_id,
                            owner_id: self.owner_id,
                        },
                    },
                )
            },
            (PromptFlow::AwaitingLoad { prompt, conversation_id }, PromptFlowEvent::Loaded { found }) => if found {
                (
                    PromptFlow::AwaitingRestore { prompt, conversation_id },
                    PromptFlowAction::RestoreLoaded { conversation_id },
                )
            } else {
                (
                    PromptFlow::Finished,
                    PromptFlowAction::EmitError {
                        error: ConversationModelError::LoadFailed { conversation_id },
                    },
                )
            },
            (flow, _) => (flow, PromptFlowAction::Nothing),
        }
    }
}

// ---------------------------------------------------------------------------
// Prompt-streaming surface
// ---------------------------------------------------------------------------

/// A section of an agent's text output; only plain text is streamed.
pub enum AgentTextSection {
    PlainText { text: String },
    Code,
    Table,
    Image,
    MermaidDiagram,
}

/// The plain-text sections of an output, in order.
pub open spec fn plain_texts(sections: Seq<AgentTextSection>) -> Seq<Seq<char>>
    decreases sections.len(),
{
    if sections.len() == 0 {
        Seq::empty()
    } else {
        let rest = plain_texts(sections.drop_last());
        match sections.last() {
            AgentTextSection::PlainText { text } => rest.push(text@),
            _ => rest,
        }
    }
}

/// Lines joined with a newline between each two.
pub open spec fn join_lines(lines: Seq<Seq<char>>) -> Seq<char>
    decreases lines.len(),
{
    if lines.len() == 0 {
        Seq::empty()
    } else if lines.len() == 1 {
        lines[0]
    } else {
        join_lines(lines.drop_last()) + "\n"@ + lines.last()
    }
}

/// The plain text of an agent's output: its plain-text sections joined by
/// newlines; code, tables, images and diagrams are left out.
pub fn plain_text(sections: &Vec<AgentTextSection>) -> (text: String)
    ensures
        text@ == join_lines(plain_texts(sections@)),
{
    let mut text = String::new();
    let mut count: usize = 0;
    let mut i: usize = 0;
    while i < sections.len()
        invariant
            i <= sections@.len(),
            count == plain_texts(sections@.take(i as int)).len(),
            text@ == join_lines(plain_texts(sections@.take(i as int))),
        decreases sections@.len() - i,
    {
        assert(sections@.take(i + 1).drop_last() =~= sections@.take(i as int));
        assert(sections@.take(i + 1).last() == sections@[i as int]);
        match &sections[i] {
            AgentTextSection::PlainText { text: section } => {
                let ghost before = plain_texts(sections@.take(i as int));
                proof {
                    assert(plain_texts(sections@.take(i + 1)) == before.push(section@));
                    assert(before.push(section@).drop_last() =~= before);
                }
                if count > 0 {
                    text.append("\n");
                }
                text.append(section.as_str());
                proof {
                    if count == 0 {
                        assert(before.push(section@)[0] == section@);
                    }
                }
                assert(count < usize::MAX) by {
                    lemma_plain_texts_len(sections@.take(i as int));
                }
                count = count + 1;
            },
            _ => {},
        }
        i = i + 1;
    }
    assert(sections@.take(sections@.len() as int) =~= sections@);
    text
}

proof fn lemma_plain_texts_len(sections: Seq<AgentTextSection>)
    ensures
        plain_texts(sections).len() <= sections.len(),
    decreases sections.len(),
{
    if sections.len() > 0 {
        lemma_plain_texts_len(sections.drop_last());
    }
}

/// What the TUI reads of the latest exchange of a conversation: whether the
/// agent asked for tool actions, and its text sections.
pub struct StreamSnapshot {
    pub has_actions: bool,
    pub sections: Vec<AgentTextSection>,
}

/// What showing a stream snapshot does.
pub enum SnapshotOutcome {
    /// Nothing new to show.
    Unchanged,
    /// Print this text.
    Print { text: String },
    /// Terminate with this error.
    Fail { message: String },
}

/// The failure for an agent output that asks for tool actions.
pub open spec fn tool_actions_unsupported_message() -> Seq<char> {
    "TUI smoke mode does not support tool actions"@
}

/// The report printed when the stream completes: the conversation's id, then
/// the final status line.
pub struct FinalReport {
    pub conversation_id: AIConversationId,
    pub status_line: String,
}

/// What the surface does on a model event.
pub enum SurfaceStep {
    Nothing,
    /// Show the latest snapshot of the conversation; then, when a final report
    /// is given, print the conversation id and the status line and terminate
    /// successfully.
    ShowSnapshot { conversation_id: AIConversationId, final_report: Option<FinalReport> },
    /// Terminate with this error.
    Fail { message: String },
}

/// The line printed when a conversation reaches a final status.
pub open spec fn spec_status_line(label: Seq<char>) -> Seq<char> {
    "status="@ + label
}

/// The prompt-streaming surface: adapts conversation-model events to output
/// and termination, printing each new plain-text snapshot once, and the
/// conversation's id with its final status when the stream completes.
pub struct TuiConversationSurface {
    last_output: String,
    started_conversation: Option<AIConversationId>,
}

/// What the surface remembers: the text it printed last, and the
/// conversation that was started for its prompt, if any.
pub struct SurfaceModel {
    pub last_output: Seq<char>,
    pub started_conversation: Option<AIConversationId>,
}

impl View for TuiConversationSurface {
    type V = SurfaceModel;

    closed spec fn view(&self) -> SurfaceModel {
        SurfaceModel {
            last_output: self.last_output@,
            started_conversation: self.started_conversation,
        }
    }
}

/// The conversation named in the final report: the one started for the
/// prompt, or else the one whose stream completed.
pub open spec fn reported_conversation(
    started: Option<AIConversationId>,
    completed: AIConversationId,
) -> AIConversationId {
    match started {
        Some(id) => id,
        None => completed,
    }
}

/// The outcome of showing `snapshot` after `last` was printed, and the text
/// printed last afterwards.
pub open spec fn spec_show_snapshot(last: Seq<char>, snapshot: Option<(bool, Seq<char>)>) -> (
    SnapshotOutcomeKind,
    Seq<char>,
) {
    match snapshot {
        None => (SnapshotOutcomeKind::Unchanged, last),
        Some((has_actions, text)) => if has_actions {
            (SnapshotOutcomeKind::Fail(tool_actions_unsupported_message()), last)
        } else if text != last {
            (SnapshotOutcomeKind::Print(text), text)
        } else {
            (SnapshotOutcomeKind::Unchanged, last)
        },
    }
}

/// A snapshot outcome with its text as a character sequence.
pub enum SnapshotOutcomeKind {
    Unchanged,
    Print(Seq<char>),
    Fail(Seq<char>),
}

impl SnapshotOutcome {
    pub open spec fn kind(&self) -> SnapshotOutcomeKind {
        match self {
            SnapshotOutcome::Unchanged => SnapshotOutcomeKind::Unchanged,
            SnapshotOutcome::Print { text } => SnapshotOutcomeKind::Print(text@),
            SnapshotOutcome::Fail { message } => SnapshotOutcomeKind::Fail(message@),
        }
    }
}

/// A snapshot as what the surface reads of it: the tool-action flag and the plain text.
pub open spec fn snapshot_view(snapshot: Option<StreamSnapshot>) -> Option<(bool, Seq<char>)> {
    match snapshot {
        None => None,
        Some(s) => Some((s.has_actions, join_lines(plain_texts(s.sections@)))),
    }
}

impl TuiConversationSurface {
    /// A surface that has printed nothing and seen no conversation start.
    pub fn new() -> (surface: Self)
        ensures
            surface@.last_output == Seq::<char>::empty(),
            surface@.started_conversation is None,
    {
        TuiConversationSurface { last_output: String::new(), started_conversation: None }
    }

    /// Adapts a conversation-model event: a selection change forgets the
    /// printed text, a started conversation is remembered, updates show the
    /// latest snapshot, a status change to a final status also reports the
    /// conversation and that status and ends the run, and a model error ends
    /// the run with it.
    pub fn handle_conversation_event(&mut self, event: TuiConversationModelEvent) -> (step: SurfaceStep)
        ensures
            match event {
                TuiConversationModelEvent::SelectedConversationChanged { .. } => step is Nothing
                    && final(self)@ == (SurfaceModel {
                    last_output: Seq::<char>::empty(),
                    started_conversation: old(self)@.started_conversation,
                }),
                TuiConversationModelEvent::ConversationStarted { conversation_id } => step is Nothing
                    && final(self)@ == (SurfaceModel {
                    last_output: old(self)@.last_output,
                    started_conversation: Some(conversation_id),
                }),
                TuiConversationModelEvent::ConversationUpdated { conversation_id } => step == (
                SurfaceStep::ShowSnapshot { conversation_id, final_report: None })
                    && final(self)@ == old(self)@,
                TuiConversationModelEvent::ConversationStatusChanged {
                    conversation_id,
                    status,
                    update,
                } => final(self)@ == old(self)@ && match update {
                    ConversationStatusUpdate::Restored => step is Nothing,
                    ConversationStatusUpdate::Changed => step matches SurfaceStep::ShowSnapshot {
                        conversation_id: c,
                        final_report,
                    } && c == conversation_id && if status.is_in_progress {
                        final_report is None
                    } else {
                        final_report matches Some(report) && report.conversation_id
                            == reported_conversation(
                            old(self)@.started_conversation,
                            conversation_id,
                        ) && report.status_line@ == spec_status_line(status.label@)
                    },
                },
                TuiConversationModelEvent::Error { message } => step == (SurfaceStep::Fail { message })
                    && final(self)@ == old(self)@,
            },
    {
        match event {
            TuiConversationModelEvent::SelectedConversationChanged { .. } => {
                self.last_output = String::new();
                SurfaceStep::Nothing
            },
            TuiConversationModelEvent::ConversationStarted { conversation_id } => {
                self.started_conversation = Some(conversation_id);
                SurfaceStep::Nothing
            },
            TuiConversationModelEvent::ConversationUpdated { conversation_id } => {
                SurfaceStep::ShowSnapshot { conversation_id, final_report: None }
            },
            TuiConversationModelEvent::ConversationStatusChanged { conversation_id, status, update } => {
                match update {
                    ConversationStatusUpdate::Restored => SurfaceStep::Nothing,
                    ConversationStatusUpdate::Changed => {
                        let final_report = if status.is_in_progress {
                            None
                        } else {
                            let mut status_line = String::from_str("status=");
                            status_line.append(status.label.as_str());
                            let reported = match self.started_conversation {
                                Some(id) => id,
                                None => conversation_id,
                            };
                            Some(FinalReport { conversation_id: reported, status_line })
                        };
                        SurfaceStep::ShowSnapshot { conversation_id, final_report }
                    },
                }
            },
            TuiConversationModelEvent::Error { message } => SurfaceStep::Fail { message },
        }
    }

    /// Shows the latest plain-text output when it changed. An output that asks
    /// for tool actions fails the run; a missing exchange shows nothing.
    pub fn print_stream_snapshot(&mut self, snapshot: Option<StreamSnapshot>) -> (outcome: SnapshotOutcome)
        ensures
            (outcome.kind(), final(self)@.last_output) == spec_show_snapshot(
                old(self)@.last_output,
                snapshot_view(snapshot),
            ),
            final(self)@.started_conversation == old(self)@.started_conversation,
    {
        match snapshot {
            None => SnapshotOutcome::Unchanged,
            Some(snapshot) => {
                if snapshot.has_actions {
                    return SnapshotOutcome::Fail {
                        message: String::from_str("TUI smoke mode does not support tool actions"),
                    };
                }
                let text = plain_text(&snapshot.sections);
                if text != self.last_output {
                    self.last_output = text.clone();
                    SnapshotOutcome::Print { text }
                } else {
                    SnapshotOutcome::Unchanged
                }
            },
        }
    }
}

/// A submission state that can only lead to `prompt` reaching `conversation_id`.
pub open spec fn flow_targets(flow: PromptFlow, prompt: String, conversation_id: AIConversationId) -> bool {
    match flow {
        PromptFlow::Finished => true,
        PromptFlow::AwaitingNewConversation { .. } => false,
        PromptFlow::AwaitingRestore { prompt: p, conversation_id: c } => p == prompt && c
            == conversation_id,
        PromptFlow::AwaitingLoad { prompt: p, conversation_id: c } => p == prompt && c == conversation_id,
    }
}

/// An action that acts on `conversation_id` only, and sends nothing but `prompt`.
pub open spec fn action_targets(action: PromptFlowAction, prompt: String, conversation_id: AIConversationId) -> bool {
    match action {
        PromptFlowAction::Nothing => true,
        PromptFlowAction::StartNewConversation => false,
        PromptFlowAction::SendToSelected { .. } => false,
        PromptFlowAction::SelectAndSend { prompt: p, conversation_id: c } => p == prompt && c
            == conversation_id,
        PromptFlowAction::RestoreFromHistory { conversation_id: c } => c == conversation_id,
        PromptFlowAction::LoadConversation { conversation_id: c } => c == conversation_id,
        PromptFlowAction::RestoreLoaded { conversation_id: c } => c == conversation_id,
        PromptFlowAction::EmitError { error } => match error {
            ConversationModelError::NotLive { conversation_id: c, .. } => c == conversation_id,
            ConversationModelError::LoadFailed { conversation_id: c } => c == conversation_id,
            ConversationModelError::StartFailed { .. } => false,
        },
    }
}

/// Sending a prompt to a given conversation keeps that conversation's id on
/// every path: whether it was live, restored from history or loaded, and
/// whatever the outside work reports, the prompt is only ever selected and
/// sent into that conversation, and every restore, load or error concerns it.
pub proof fn law_prompt_reaches_requested_conversation(
    owner_id: EntityId,
    prompt: String,
    conversation_id: AIConversationId,
    live_conversations: Seq<AIConversationId>,
    in_history: bool,
    flow: PromptFlow,
    event: PromptFlowEvent,
)
    requires
        flow_targets(flow, prompt, conversation_id),
    ensures
        flow_targets(
            spec_send_prompt_to_conversation(prompt, conversation_id, live_conversations, in_history).0,
            prompt,
            conversation_id,
        ),
        action_targets(
            spec_send_prompt_to_conversation(prompt, conversation_id, live_conversations, in_history).1,
            prompt,
            conversation_id,
        ),
        flow_targets(spec_advance(owner_id, flow, event).0, prompt, conversation_id),
        action_targets(spec_advance(owner_id, flow, event).1, prompt, conversation_id),
{
}

/// A prompt sent to the selected conversation goes to the selection when there
/// is one, and otherwise to the conversation that was created for it.
pub proof fn law_prompt_reaches_selected_or_new_conversation(
    owner_id: EntityId,
    prompt: String,
    selected: Option<AIConversationId>,
    created: AIConversationId,
)
    ensures
        selected matches Some(id) ==> spec_send_prompt(prompt, selected).1 == (
        PromptFlowAction::SendToSelected { prompt, conversation_id: id }),
        selected is None ==> spec_advance(
            owner_id,
            spec_send_prompt(prompt, selected).0,
            PromptFlowEvent::NewConversationStarted { result: Ok(created) },
        ) == (PromptFlow::Finished, PromptFlowAction::SendToSelected { prompt, conversation_id: created }),
{
}

/// A prompt is selected and sent into a conversation only when that
/// conversation is live for the surface at that moment.
pub proof fn law_selection_requires_live_conversation(
    owner_id: EntityId,
    prompt: String,
    conversation_id: AIConversationId,
    live_conversations: Vec<AIConversationId>,
)
    ensures
        spec_advance(
            owner_id,
            PromptFlow::AwaitingRestore { prompt, conversation_id },
            PromptFlowEvent::Restored { live_conversations },
        ).1 is SelectAndSend <==> live_conversations@.contains(conversation_id),
{
}

/// Each plain-text snapshot is printed once: showing the same snapshot again
/// right after prints nothing, and what was printed is what the surface
/// remembers.
pub proof fn law_snapshot_printed_once(last: Seq<char>, snapshot: Option<(bool, Seq<char>)>)
    ensures
        spec_show_snapshot(last, snapshot).0 matches SnapshotOutcomeKind::Print(t) ==> spec_show_snapshot(last, snapshot).1 == t,
        snapshot matches Some((has_actions, _)) && !has_actions ==> spec_show_snapshot(
            spec_show_snapshot(last, snapshot).1,
            snapshot,
        ).0 is Unchanged,
{
}

/// After the selection changes (the printed text is forgotten), any
/// non-empty text is printed again.
pub proof fn law_selection_change_reprints(text: Seq<char>)
    requires
        text.len() > 0,
    ensures
        spec_show_snapshot(Seq::empty(), Some((false, text))).0 == SnapshotOutcomeKind::Print(text),
{
}

/// Whether an action sends the prompt.
pub open spec fn is_send(action: PromptFlowAction) -> bool {
    action is SendToSelected || action is SelectAndSend
}

/// How many times the prompt is sent while a submission in state `flow`
/// receives `events` in turn.
pub open spec fn sends_in_run(owner_id: EntityId, flow: PromptFlow, events: Seq<PromptFlowEvent>) -> nat
    decreases events.len(),
{
    if events.len() == 0 {
        0
    } else {
        let (next, action) = spec_advance(owner_id, flow, events[0]);
        (if is_send(action) { 1nat } else { 0nat }) + sends_in_run(owner_id, next, events.drop_first())
    }
}

proof fn lemma_finished_run_sends_nothing(owner_id: EntityId, events: Seq<PromptFlowEvent>)
    ensures
        sends_in_run(owner_id, PromptFlow::Finished, events) == 0,
    decreases events.len(),
{
    if events.len() > 0 {
        lemma_finished_run_sends_nothing(owner_id, events.drop_first());
    }
}

proof fn lemma_run_sends_at_most_once(owner_id: EntityId, flow: PromptFlow, events: Seq<PromptFlowEvent>)
    ensures
        sends_in_run(owner_id, flow, events) <= 1,
    decreases events.len(),
{
    if events.len() > 0 {
        let (next, action) = spec_advance(owner_id, flow, events[0]);
        if is_send(action) {
            assert(next is Finished);
            lemma_finished_run_sends_nothing(owner_id, events.drop_first());
        } else {
            lemma_run_sends_at_most_once(owner_id, next, events.drop_first());
        }
    }
}

/// A submitted prompt is sent at most once: counting the first action and
/// every action taken as outside work reports back, in any order and number,
/// at most one of them sends it.
pub proof fn law_prompt_sent_at_most_once(
    owner_id: EntityId,
    prompt: String,
    conversation_id: Option<AIConversationId>,
    selected: Option<AIConversationId>,
    live_conversations: Seq<AIConversationId>,
    in_history: bool,
    events: Seq<PromptFlowEvent>,
)
    ensures
        ({
            let (flow, action) = match conversation_id {
                Some(id) => spec_send_prompt_to_conversation(prompt, id, live_conversations, in_history),
                None => spec_send_prompt(prompt, selected),
            };
            (if is_send(action) { 1nat } else { 0nat }) + sends_in_run(owner_id, flow, events) <= 1
        }),
{
    let (flow, action) = match conversation_id {
        Some(id) => spec_send_prompt_to_conversation(prompt, id, live_conversations, in_history),
        None => spec_send_prompt(prompt, selected),
    };
    if is_send(action) {
        assert(flow is Finished);
        lemma_finished_run_sends_nothing(owner_id, events);
    } else {
        lemma_run_sends_at_most_once(owner_id, flow, events);
    }
}

/// History events are routed by the terminal surface they carry: an event of
/// any kind whose owner is another surface yields nothing; a new
/// conversation, streaming update or status change that carries this surface,
/// or no surface, is passed on with its own data; other events yield nothing.
pub proof fn law_history_events_routed_by_owner(
    owner_id: EntityId,
    event_owner: Option<EntityId>,
    conversation_id: AIConversationId,
    status: ConversationStatus,
    update: ConversationStatusUpdate,
)
    ensures
        event_owner matches Some(o) && o != owner_id ==> {
            &&& spec_handle_history_event(
                owner_id,
                HistoryEvent::StartedNewConversation { owner_id: event_owner, new_conversation_id: conversation_id },
            ) is None
            &&& spec_handle_history_event(
                owner_id,
                HistoryEvent::UpdatedStreamingExchange { owner_id: event_owner, conversation_id },
            ) is None
            &&& spec_handle_history_event(
                owner_id,
                HistoryEvent::UpdatedConversationStatus {
                    owner_id: event_owner,
                    conversation_id,
                    new_status: status,
                    update,
                },
            ) is None
            &&& spec_handle_history_event(owner_id, HistoryEvent::Other { owner_id: event_owner }) is None
        },
        !(event_owner matches Some(o) && o != owner_id) ==> {
            &&& spec_handle_history_event(
                owner_id,
                HistoryEvent::StartedNewConversation { owner_id: event_owner, new_conversation_id: conversation_id },
            ) == Some(TuiConversationModelEvent::ConversationStarted { conversation_id })
            &&& spec_handle_history_event(
                owner_id,
                HistoryEvent::UpdatedStreamingExchange { owner_id: event_owner, conversation_id },
            ) == Some(TuiConversationModelEvent::ConversationUpdated { conversation_id })
            &&& spec_handle_history_event(
                owner_id,
                HistoryEvent::UpdatedConversationStatus {
                    owner_id: event_owner,
                    conversation_id,
                    new_status: status,
                    update,
                },
            ) == Some(TuiConversationModelEvent::ConversationStatusChanged { conversation_id, status, update })
            &&& spec_handle_history_event(owner_id, HistoryEvent::Other { owner_id: event_owner }) is None
        },
{
}

/// Routing a prompt into a given conversation: it is selected and sent at
/// once exactly when it is among the surface's live conversations; otherwise
/// it is first restored from history when the history holds it, and loaded
/// from storage when it does not. Every path carries that prompt and id.
pub proof fn law_send_to_conversation_routes_by_liveness(
    prompt: String,
    conversation_id: AIConversationId,
    live_conversations: Seq<AIConversationId>,
    in_history: bool,
)
    ensures
        ({
            let (flow, action) = spec_send_prompt_to_conversation(
                prompt,
                conversation_id,
                live_conversations,
                in_history,
            );
            &&& (action is SelectAndSend <==> exists|i: int|
                0 <= i < live_conversations.len() && live_conversations[i] == conversation_id)
            &&& (action is SelectAndSend ==> flow is Finished && action == (PromptFlowAction::SelectAndSend {
                prompt,
                conversation_id,
            }))
            &&& (!(exists|i: int| 0 <= i < live_conversations.len() && live_conversations[i] == conversation_id)
                && in_history ==> flow == (PromptFlow::AwaitingRestore { prompt, conversation_id })
                && action == (PromptFlowAction::RestoreFromHistory { conversation_id }))
            &&& (!(exists|i: int| 0 <= i < live_conversations.len() && live_conversations[i] == conversation_id)
                && !in_history ==> flow == (PromptFlow::AwaitingLoad { prompt, conversation_id })
                && action == (PromptFlowAction::LoadConversation { conversation_id }))
        }),
{
}

/// An output that asks for tool actions fails the run with the
/// unsupported-actions message, whatever its text and whatever was printed
/// before, and leaves the printed text as it was.
pub proof fn law_tool_actions_always_fail(last: Seq<char>, text: Seq<char>)
    ensures
        spec_show_snapshot(last, Some((true, text))) == (
            SnapshotOutcomeKind::Fail("TUI smoke mode does not support tool actions"@),
            last,
        ),
{
}

proof fn lemma_no_plain_text(sections: Seq<AgentTextSection>)
    ensures
        (plain_texts(sections).len() == 0) <==> (forall|j: int|
            0 <= j < sections.len() ==> !(#[trigger] sections[j] is PlainText)),
    decreases sections.len(),
{
    if sections.len() > 0 {
        let rest = sections.drop_last();
        lemma_no_plain_text(rest);
        lemma_plain_texts_len(rest);
        assert forall|j: int| 0 <= j < rest.len() implies rest[j] == sections[j] by {}
        if !(sections.last() is PlainText) && plain_texts(sections).len() == 0 {
            assert forall|j: int| 0 <= j < sections.len() implies !(#[trigger] sections[j] is PlainText) by {
                if j < rest.len() {
                    assert(rest[j] == sections[j]);
                }
            }
        }
    }
}

/// The plain text of an output grows section by section: with no sections
/// it is empty; appending a plain-text section `t` gives `t` when no earlier
/// section was plain text, and the earlier text, a newline and `t` otherwise;
/// appending any other section leaves it unchanged.
pub proof fn law_plain_text_appends_sections(sections: Seq<AgentTextSection>, t: String, other: AgentTextSection)
    requires
        !(other is PlainText),
    ensures
        join_lines(plain_texts(Seq::<AgentTextSection>::empty())) == Seq::<char>::empty(),
        (forall|j: int| 0 <= j < sections.len() ==> !(#[trigger] sections[j] is PlainText)) ==> join_lines(
            plain_texts(sections.push(AgentTextSection::PlainText { text: t })),
        ) == t@,
        !(forall|j: int| 0 <= j < sections.len() ==> !(#[trigger] sections[j] is PlainText)) ==> join_lines(
            plain_texts(sections.push(AgentTextSection::PlainText { text: t })),
        ) == join_lines(plain_texts(sections)) + "\n"@ + t@,
        join_lines(plain_texts(sections.push(other))) == join_lines(plain_texts(sections)),
{
    let with_t = sections.push(AgentTextSection::PlainText { text: t });
    assert(with_t.drop_last() =~= sections);
    assert(sections.push(other).drop_last() =~= sections);
    lemma_no_plain_text(sections);
    let before = plain_texts(sections);
    assert(plain_texts(with_t) == before.push(t@));
    assert(before.push(t@).drop_last() =~= before);
    if before.len() == 0 {
        assert(before.push(t@)[0] == t@);
    }
}

} // verus!
