//! Task states as the server reports them, and conversation statuses as a viewer shows them.
use vstd::prelude::*;

verus! {

/// The state of an ambient agent task.
#[derive(Clone, Copy, Debug, PartialEq, Eq, Structural)]
pub enum AmbientAgentTaskState {
    Queued,
    Pending,
    Claimed,
    InProgress,
    Succeeded,
    Failed,
    Error,
    Blocked,
    Cancelled,
    /// A state that this version does not know.
    Unknown,
}

/// The status of a conversation.
#[derive(Debug, PartialEq, Eq)]
pub enum ConversationStatus {
    InProgress,
    Success,
    Error,
    Cancelled,
    Blocked {
        /// What waits for the user, where it is known.
        blocked_action: String,
    },
}

/// A conversation's status, with its text as a sequence of characters.
pub enum StatusView {
    InProgress,
    Success,
    Error,
    Cancelled,
    Blocked { blocked_action: Seq<char> },
}

impl View for ConversationStatus {
    type V = StatusView;

    open spec fn view(&self) -> StatusView {
        match *self {
            ConversationStatus::InProgress => StatusView::InProgress,
            ConversationStatus::Success => StatusView::Success,
            ConversationStatus::Error => StatusView::Error,
            ConversationStatus::Cancelled => StatusView::Cancelled,
            ConversationStatus::Blocked { blocked_action } => StatusView::Blocked {
                blocked_action: blocked_action@,
            },
        }
    }
}

impl Clone for ConversationStatus {
    fn clone(&self) -> (status: Self)
        ensures
            status@ == self@,
    {
        match self {
            ConversationStatus::InProgress => ConversationStatus::InProgress,
            ConversationStatus::Success => ConversationStatus::Success,
            ConversationStatus::Error => ConversationStatus::Error,
            ConversationStatus::Cancelled => ConversationStatus::Cancelled,
            ConversationStatus::Blocked { blocked_action } => ConversationStatus::Blocked {
                blocked_action: blocked_action.clone(),
            },
        }
    }
}

impl AmbientAgentTaskState {
    /// Whether the task is on its way: waiting for a worker, or with one.
    pub open spec fn is_working(self) -> bool {
        ||| self is Queued
        ||| self is Pending
        ||| self is Claimed
        ||| self is InProgress
    }

    /// Whether the task ended in an error. A state that is not known counts as one.
    pub open spec fn is_error(self) -> bool {
        ||| self is Failed
        ||| self is Error
        ||| self is Unknown
    }
}

/// The status in which a viewer shows a task in state `state`. A task state does not
/// say what a blocked task waits for, so that text is empty.
pub open spec fn status_of_state(state: AmbientAgentTaskState) -> StatusView {
    if state.is_working() {
        StatusView::InProgress
    } else if state.is_error() {
        StatusView::Error
    } else if state is Succeeded {
        StatusView::Success
    } else if state is Cancelled {
        StatusView::Cancelled
    } else {
        StatusView::Blocked { blocked_action: Seq::empty() }
    }
}

/// Maps the state of a task to the status of the conversation that stands for it.
pub fn conversation_status_from_state(state: &AmbientAgentTaskState) -> (status: ConversationStatus)
    ensures
        status@ == status_of_state(*state),
{
    match state {
        AmbientAgentTaskState::Queued => ConversationStatus::InProgress,
        AmbientAgentTaskState::Pending => ConversationStatus::InProgress,
        AmbientAgentTaskState::Claimed => ConversationStatus::InProgress,
        AmbientAgentTaskState::InProgress => ConversationStatus::InProgress,
        AmbientAgentTaskState::Succeeded => ConversationStatus::Success,
        AmbientAgentTaskState::Failed => ConversationStatus::Error,
        AmbientAgentTaskState::Error => ConversationStatus::Error,
        AmbientAgentTaskState::Blocked => ConversationStatus::Blocked {
            blocked_action: String::new(),
        },
        AmbientAgentTaskState::Cancelled => ConversationStatus::Cancelled,
        AmbientAgentTaskState::Unknown => ConversationStatus::Error,
    }
}

/// Which states are shown in which status: those before the end as in progress, and of the
/// ends success, cancellation and blocking each as itself and all others as errors, the one
/// that is not known among them. The text of a blocked task is empty.
pub proof fn law_status_of_each_state(state: AmbientAgentTaskState)
    ensures
        status_of_state(state) is InProgress <==> state == AmbientAgentTaskState::Queued || state
            == AmbientAgentTaskState::Pending || state == AmbientAgentTaskState::Claimed || state
            == AmbientAgentTaskState::InProgress,
        status_of_state(state) is Success <==> state == AmbientAgentTaskState::Succeeded,
        status_of_state(state) is Cancelled <==> state == AmbientAgentTaskState::Cancelled,
        status_of_state(state) is Error <==> state == AmbientAgentTaskState::Failed || state
            == AmbientAgentTaskState::Error || state == AmbientAgentTaskState::Unknown,
        status_of_state(state) is Blocked <==> state == AmbientAgentTaskState::Blocked,
        status_of_state(state) matches StatusView::Blocked { blocked_action }
            ==> blocked_action.len() == 0,
{
}

/// The view of a status is that status, with the same text.
pub proof fn law_status_view(status: ConversationStatus)
    ensures
        status@ is InProgress <==> status is InProgress,
        status@ is Success <==> status is Success,
        status@ is Error <==> status is Error,
        status@ is Cancelled <==> status is Cancelled,
        status@ is Blocked <==> status is Blocked,
        status matches ConversationStatus::Blocked { blocked_action } ==> status@
            == (StatusView::Blocked { blocked_action: blocked_action@ }),
{
}

} // verus!
