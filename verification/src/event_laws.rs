//! What comes of the events that a pane hears of, and of its registration with the streamer.
use crate::context::{ContextView, ViewerContext};
use crate::history::{BlocklistAIHistoryEvent, ConversationView, HistoryView};
use crate::ids::{AIConversationId, AmbientAgentTaskId, EntityId};
use crate::status::ConversationStatus;
use crate::streamer::OrchestrationEventStreamerEvent;
use crate::viewer::{OrchestrationViewerModel, ViewerAction, ViewerView};
use vstd::prelude::*;

#[allow(unused_imports)]
use crate::{
    laws::law_status_event_reaches_child,
    uuid_text::{is_uuid_text, uuid_value},
    viewer::empty_viewer,
};

verus! {

/// The event that a child of the viewed task is in some status, whichever it is, sets that
/// status on the child's placeholder. Every other conversation stays as it was, and nothing
/// is asked for.
pub proof fn law_status_event_sets_status(
    viewer: ViewerView,
    history: HistoryView,
    id: AmbientAgentTaskId,
    run_id: String,
    status: ConversationStatus,
)
    requires
        viewer.wf(),
        viewer.linked(history),
        viewer.children.contains_key(id.0),
        run_id@ == id.spec_run_id(),
    ensures
        ({
            let event = OrchestrationEventStreamerEvent::ChildStatusChanged {
                parent_task_id: viewer.parent_task_id,
                run_id,
                status,
            };
            let place = viewer.children[id.0].conversation_id.0 as int;
            let h = viewer.history_after_event(history, event);
            &&& viewer.action_after_event(event) is None
            &&& h.active == history.active
            &&& h.conversations.len() == history.conversations.len()
            &&& 0 <= place < history.conversations.len()
            &&& h.conversations[place] == (ConversationView {
                status: status@,
                ..history.conversations[place]
            })
            &&& forall|i: int|
                0 <= i < history.conversations.len() && i != place ==> (
                #[trigger] h.conversations[i]) == history.conversations[i]
        }),
{
    assert(viewer.child_linked(history, id.0));
    law_status_event_reaches_child(viewer, history, id, status@);
}

/// A status told of a run id that is written otherwise than that of any child is dropped, be
/// it told directly or by an event.
pub proof fn law_strange_run_is_dropped(
    viewer: ViewerView,
    history: HistoryView,
    run_id: String,
    status: ConversationStatus,
)
    requires
        viewer.wf(),
        forall|n: u128| #[trigger]
            viewer.children.contains_key(n) ==> AmbientAgentTaskId(n).spec_run_id() != run_id@,
    ensures
        viewer.history_after_status(history, run_id@, status@) == history,
        viewer.history_after_event(
            history,
            OrchestrationEventStreamerEvent::ChildStatusChanged {
                parent_task_id: viewer.parent_task_id,
                run_id,
                status,
            },
        ) == history,
{
    if viewer.children_by_run_id.contains_key(run_id@) {
        let id = viewer.children_by_run_id[run_id@];
        assert(viewer.children.contains_key(id.0));
        assert(AmbientAgentTaskId(id.0) == id);
    }
}

/// The event that a child of the viewed task has come into being leaves the history alone,
/// and asks for the task that the run id names; where the run id is malformed, for nothing.
pub proof fn law_spawn_asks_for_the_task(viewer: ViewerView, history: HistoryView, run_id: String)
    ensures
        ({
            let event = OrchestrationEventStreamerEvent::ChildSpawned {
                parent_task_id: viewer.parent_task_id,
                run_id,
            };
            &&& viewer.history_after_event(history, event) == history
            &&& viewer.action_after_event(event) == viewer.action_after_spawn(run_id@)
            &&& viewer.action_after_spawn(run_id@) == if is_uuid_text(run_id@) {
                Some(ViewerAction::FetchTask(AmbientAgentTaskId(uuid_value(run_id@) as u128)))
            } else {
                None
            }
        }),
{
}

/// Events about the children of another task change nothing and ask for nothing.
pub proof fn law_events_of_another_task(
    viewer: ViewerView,
    history: HistoryView,
    parent_task_id: AmbientAgentTaskId,
    run_id: String,
    status: ConversationStatus,
)
    requires
        parent_task_id != viewer.parent_task_id,
    ensures
        ({
            let spawned = OrchestrationEventStreamerEvent::ChildSpawned { parent_task_id, run_id };
            let changed = OrchestrationEventStreamerEvent::ChildStatusChanged {
                parent_task_id,
                run_id,
                status,
            };
            &&& spawned.spec_parent_task_id() == parent_task_id
            &&& changed.spec_parent_task_id() == parent_task_id
            &&& viewer.history_after_event(history, spawned) == history
            &&& viewer.history_after_event(history, changed) == history
            &&& viewer.action_after_event(spawned) is None
            &&& viewer.action_after_event(changed) is None
        }),
{
}

/// A pane is registered where the streamed path is switched on, there is a streamer, and a
/// conversation is active in the pane's terminal view, and nowhere else: the streamer has it
/// as a consumer for the viewed task from then on, and the children so far are asked for
/// where it was none before. The flags, the history and the other consumers stay.
pub proof fn law_registration(viewer: ViewerView, ctx: ContextView)
    ensures
        ({
            let consumer = (viewer.parent_task_id, viewer.terminal_view_id);
            let after = viewer.context_after_registration(ctx);
            let action = viewer.action_after_registration(ctx);
            &&& after.flags == ctx.flags
            &&& after.history == ctx.history
            &&& match ctx.consumers {
                Some(consumers) => if ctx.flags.orchestration_viewer_streamer
                    && ctx.history.active.contains_key(viewer.terminal_view_id.0) {
                    &&& after.consumers == Some(consumers.insert(consumer))
                    &&& action == if consumers.contains(consumer) {
                        None
                    } else {
                        Some(ViewerAction::SeedChildren)
                    }
                } else {
                    &&& after.consumers == ctx.consumers
                    &&& action is None
                },
                None => after.consumers is None && action is None,
            }
        }),
{
}

/// A pane that is set going fetches its children where the streamed path is switched off. On
/// the streamed path it asks for the children so far where it is registered and was not
/// before, and for nothing elsewhere.
pub proof fn law_start(viewer: ViewerView, ctx: ContextView)
    ensures
        ({
            let consumer = (viewer.parent_task_id, viewer.terminal_view_id);
            let action = viewer.action_at_start(ctx);
            &&& !ctx.flags.orchestration_viewer_streamer ==> action == Some(
                ViewerAction::FetchChildren,
            )
            &&& ctx.flags.orchestration_viewer_streamer ==> action == if ctx.consumers is Some
                && !ctx.consumers->0.contains(consumer) && ctx.history.active.contains_key(
                viewer.terminal_view_id.0,
            ) {
                Some(ViewerAction::SeedChildren)
            } else {
                None
            }
        }),
{
}

/// When a conversation becomes the active one of a terminal view, the pane of that view tries
/// its registration again, whichever conversation it is; the panes of the other views do
/// nothing.
pub proof fn law_active_conversation_retries(
    viewer: ViewerView,
    ctx: ContextView,
    conversation_id: AIConversationId,
    view: EntityId,
)
    ensures
        ({
            let event = BlocklistAIHistoryEvent::SetActiveConversation {
                conversation_id,
                terminal_view_id: view,
            };
            let after = viewer.context_after_history_event(ctx, event);
            let action = viewer.action_after_history_event(ctx, event);
            &&& view == viewer.terminal_view_id ==> after == viewer.context_after_registration(ctx)
                && action == viewer.action_after_registration(ctx)
            &&& view != viewer.terminal_view_id ==> after == ctx && action is None
        }),
{
}

/// A fresh pane is about the task and the terminal view that it is made for, knows no child,
/// has no poll scheduled and has started no fetch.
pub proof fn law_fresh_pane(parent: AmbientAgentTaskId, view: EntityId)
    ensures
        empty_viewer(parent, view).parent_task_id == parent,
        empty_viewer(parent, view).terminal_view_id == view,
        forall|n: u128| !(#[trigger] empty_viewer(parent, view).children.contains_key(n)),
        forall|r: Seq<char>|
            !(#[trigger] empty_viewer(parent, view).children_by_run_id.contains_key(r)),
        !empty_viewer(parent, view).polling,
        empty_viewer(parent, view).fetch_generation == 0,
{
}

/// The views of a pane and of a context leave nothing out.
pub proof fn law_views_are_whole(model: OrchestrationViewerModel, ctx: ViewerContext)
    ensures
        model@.parent_task_id == model.parent_task_id,
        model@.terminal_view_id == model.terminal_view_id,
        model@.children == model.children@,
        model@.children_by_run_id == model.children_by_run_id@,
        model@.polling == model.polling,
        model@.fetch_generation == model.fetch_generation,
        ctx@.flags == ctx.flags,
        ctx@.history == ctx.history@,
        match ctx.streamer {
            Some(streamer) => ctx@.consumers == Some(streamer@),
            None => ctx@.consumers is None,
        },
{
}

/// What a consistent pane is: the viewed task is no child; each child has its run id, which
/// leads to it; each run id leads to a child and is its run id; and the pane of a child
/// counts as asked for where its session is known, and only there.
pub proof fn law_consistent_pane(viewer: ViewerView, n: u128, run_id: Seq<char>)
    requires
        viewer.wf(),
    ensures
        !viewer.children.contains_key(viewer.parent_task_id.0),
        viewer.children.contains_key(n) ==> viewer.children_by_run_id.contains_key(
            AmbientAgentTaskId(n).spec_run_id(),
        ) && viewer.children_by_run_id[AmbientAgentTaskId(n).spec_run_id()].0 == n
            && viewer.children[n].pane_materialization_requested
            == viewer.children[n].session_id is Some,
        viewer.children_by_run_id.contains_key(run_id) ==> viewer.children.contains_key(
            viewer.children_by_run_id[run_id].0,
        ) && viewer.children_by_run_id[run_id].spec_run_id() == run_id,
{
}

/// What a linked pane is: the placeholder of each child is a conversation of the history, in
/// the pane's terminal view, under another one, with the child's task and a shared session.
pub proof fn law_linked_pane(viewer: ViewerView, history: HistoryView, n: u128)
    requires
        viewer.linked(history),
        viewer.children.contains_key(n),
    ensures
        ({
            let place = viewer.children[n].conversation_id.0 as int;
            &&& 0 <= place < history.conversations.len()
            &&& history.conversations[place].terminal_view_id == viewer.terminal_view_id
            &&& history.conversations[place].task_id == Some(AmbientAgentTaskId(n))
            &&& history.conversations[place].viewing_shared_session
            &&& history.conversations[place].parent_conversation_id is Some
        }),
{
    assert(viewer.child_linked(history, n));
}

} // verus!
