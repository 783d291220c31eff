//! Stub values, for tests of the viewer and of what is built on it.
use crate::clock::{utc_now, Timestamp};
use crate::context::{initialize_app_for_terminal_view, ViewerContext};
use crate::ids::{AIConversationId, AmbientAgentTaskId, EntityId};
use crate::status::AmbientAgentTaskState;
use crate::task::{AgentConfigSnapshot, AmbientAgentTask, TaskView};
use crate::viewer::OrchestrationViewerModel;
use vstd::prelude::*;

#[allow(unused_imports)]
use crate::{
    history::blank_conversation,
    ids::task_id_from_text,
    task::text_of,
    uuid_text::{is_uuid_text, law_value_writes_back, uuid_value},
    viewer::empty_viewer,
};

verus! {

/// The run id of the viewed task.
pub const PARENT_TASK_ID: &'static str = "11111111-1111-1111-1111-111111111111";

/// The run id of a child.
pub const CHILD_A_TASK_ID: &'static str = "22222222-2222-2222-2222-222222222222";

/// The run id of another child.
pub const CHILD_B_TASK_ID: &'static str = "33333333-3333-3333-3333-333333333333";

/// The text form of a shared session's identifier.
pub const SESSION_A: &'static str = "44444444-4444-4444-4444-444444444444";

/// An optional text as a sequence of characters.
pub open spec fn str_of(text: Option<&str>) -> Option<Seq<char>> {
    match text {
        Some(s) => Some(s@),
        None => None,
    }
}

/// Whether `task` is the stub task of these values, made at the instant `now`: a child of the
/// viewed task that has started at once and of which nothing else is known.
pub open spec fn is_stub_task(
    task: AmbientAgentTask,
    id: Seq<char>,
    state: AmbientAgentTaskState,
    snapshot_name: Option<Seq<char>>,
    title: Seq<char>,
    session_id: Option<Seq<char>>,
    now: Timestamp,
) -> bool {
    &&& task_id_from_text(id) == Some(task.task_id)
    &&& text_of(task.parent_run_id) == Some(PARENT_TASK_ID@)
    &&& task.title@ == title
    &&& task.state == state
    &&& task.prompt@.len() == 0
    &&& task.created_at == now
    &&& task.started_at == Some(now)
    &&& task.updated_at == now
    &&& task.status_message is None
    &&& task.source is None
    &&& text_of(task.session_id) == session_id
    &&& task.session_link is None
    &&& task.creator is None
    &&& task.executor is None
    &&& task.conversation_id is None
    &&& task.request_usage is None
    &&& !task.is_sandbox_running
    &&& task.agent_config_snapshot is Some <==> snapshot_name is Some
    &&& task.agent_config_snapshot matches Some(snapshot) ==> text_of(snapshot.name)
        == snapshot_name
    &&& task.artifacts@.len() == 0
    &&& task.last_event_sequence is None
    &&& task.children@.len() == 0
}

/// Reads a task identifier that is known to be well-formed.
pub fn task_id(s: &str) -> (id: AmbientAgentTaskId)
    requires
        is_uuid_text(s@),
    ensures
        task_id_from_text(s@) == Some(id),
        id.0 == uuid_value(s@),
{
    AmbientAgentTaskId::parse(s).unwrap()
}

/// Builds a minimal task without a recorded name, as of now.
pub fn make_task(
    id: &str,
    state: AmbientAgentTaskState,
    title: &str,
    session_id: Option<&str>,
) -> (task: AmbientAgentTask)
    requires
        is_uuid_text(id@),
    ensures
        is_stub_task(task, id@, state, None, title@, str_of(session_id), task.created_at),
        task.created_at.nanos < 1_000_000_000,
{
    make_task_with_name(id, state, None, title, session_id)
}

/// Builds a minimal task, as of now.
pub fn make_task_with_name(
    id: &str,
    state: AmbientAgentTaskState,
    snapshot_name: Option<&str>,
    title: &str,
    session_id: Option<&str>,
) -> (task: AmbientAgentTask)
    requires
        is_uuid_text(id@),
    ensures
        is_stub_task(
            task,
            id@,
            state,
            str_of(snapshot_name),
            title@,
            str_of(session_id),
            task.created_at,
        ),
        task.created_at.nanos < 1_000_000_000,
{
    make_task_with_name_at(id, state, snapshot_name, title, session_id, utc_now())
}

/// Builds a minimal task, as of the instant `now`.
pub fn make_task_with_name_at(
    id: &str,
    state: AmbientAgentTaskState,
    snapshot_name: Option<&str>,
    title: &str,
    session_id: Option<&str>,
    now: Timestamp,
) -> (task: AmbientAgentTask)
    requires
        is_uuid_text(id@),
    ensures
        is_stub_task(task, id@, state, str_of(snapshot_name), title@, str_of(session_id), now),
{
    let agent_config_snapshot = match snapshot_name {
        Some(name) => Some(AgentConfigSnapshot { name: Some(name.to_owned()) }),
        None => None,
    };
    let session_id = match session_id {
        Some(session_id) => Some(session_id.to_owned()),
        None => None,
    };
    AmbientAgentTask {
        task_id: task_id(id),
        parent_run_id: Some(PARENT_TASK_ID.to_owned()),
        title: title.to_owned(),
        state,
        prompt: String::new(),
        created_at: now,
        started_at: Some(now),
        updated_at: now,
        status_message: None,
        source: None,
        session_id,
        session_link: None,
        creator: None,
        executor: None,
        conversation_id: None,
        request_usage: None,
        is_sandbox_running: false,
        agent_config_snapshot,
        artifacts: Vec::new(),
        last_event_sequence: None,
        children: Vec::new(),
    }
}

/// Starts the application afresh, with one conversation that is active in the terminal view,
/// and builds the model of a pane of that view. The model is not set going: nothing is
/// fetched, and nothing is registered with the streamer.
pub fn setup_model(
    ctx: &mut ViewerContext,
    terminal_view_id: EntityId,
    parent_task_id: AmbientAgentTaskId,
) -> (setup: (EntityId, AIConversationId, OrchestrationViewerModel))
    ensures
        setup.0 == terminal_view_id,
        setup.1 == AIConversationId(0),
        setup.2@ == empty_viewer(parent_task_id, terminal_view_id),
        !setup.2.polling,
        setup.2.fetch_generation == 0,
        final(ctx)@.flags == old(ctx)@.flags,
        final(ctx)@.history.conversations == seq![
            blank_conversation(terminal_view_id, false),
        ],
        final(ctx)@.history.active == Map::<u64, AIConversationId>::empty().insert(
            terminal_view_id.0,
            AIConversationId(0),
        ),
        final(ctx)@.consumers == if old(ctx)@.flags.orchestration_v2 {
            Some(Set::<(AmbientAgentTaskId, EntityId)>::empty())
        } else {
            None
        },
{
    *ctx = initialize_app_for_terminal_view(ctx.flags);
    let parent_conversation_id = ctx.history.start_new_conversation(terminal_view_id, false);
    let _ = ctx.history.set_active_conversation_id(parent_conversation_id, terminal_view_id);
    (
        terminal_view_id,
        parent_conversation_id,
        OrchestrationViewerModel::empty(parent_task_id, terminal_view_id),
    )
}

/// What a stub task is, field by field.
pub proof fn law_stub_task(
    task: AmbientAgentTask,
    id: Seq<char>,
    state: AmbientAgentTaskState,
    snapshot_name: Option<Seq<char>>,
    title: Seq<char>,
    session_id: Option<Seq<char>>,
    now: Timestamp,
)
    requires
        is_stub_task(task, id, state, snapshot_name, title, session_id, now),
    ensures
        is_uuid_text(id) && task.task_id.0 == uuid_value(id),
        task.parent_run_id matches Some(run_id) && run_id@ == PARENT_TASK_ID@,
        task.title@ == title,
        task.state == state,
        task.prompt@.len() == 0,
        task.created_at == now && task.updated_at == now && task.started_at == Some(now),
        match task.session_id {
            Some(text) => session_id == Some(text@),
            None => session_id is None,
        },
        match task.agent_config_snapshot {
            Some(snapshot) => match snapshot.name {
                Some(name) => snapshot_name == Some(name@),
                None => false,
            },
            None => snapshot_name is None,
        },
        !task.is_sandbox_running,
        task.status_message is None && task.source is None && task.session_link is None,
        task.creator is None && task.executor is None && task.conversation_id is None,
        task.request_usage is None && task.last_event_sequence is None,
        task.artifacts@.len() == 0 && task.children@.len() == 0,
        task@ == (TaskView { task_id: task.task_id, state, title, snapshot_name, session_id }),
{
    law_value_writes_back(id);
}

} // verus!
