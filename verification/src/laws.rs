//! What holds of a pane over all its operations.
use crate::context::ContextView;
use crate::history::{ConversationView, HistoryView};
use crate::ids::{AIConversationId, AmbientAgentTaskId, EntityId};
use crate::status::StatusView;
use crate::streamer::OrchestrationEventStreamerEvent;
use crate::task::TaskView;
use crate::viewer::{PaneMaterialization, ViewerAction, ViewerView};
use vstd::prelude::*;

#[allow(unused_imports)]
use crate::{
    history::{blank_conversation, ids_where},
    ids::task_id_from_text,
    status::status_of_state,
    uuid_text::{law_text_is_injective, law_text_reads_back},
    viewer::{after_tasks, empty_viewer},
};

verus! {

/// A pane that knows no child is consistent, and linked to any history.
pub proof fn law_empty_viewer(parent: AmbientAgentTaskId, view: EntityId, history: HistoryView)
    ensures
        empty_viewer(parent, view).wf(),
        empty_viewer(parent, view).linked(history),
{
}

/// Taking in a task keeps the model consistent. In particular the viewed task never becomes
/// a child of its own, and the run ids go on leading to the children.
pub proof fn law_task_keeps_consistency(viewer: ViewerView, history: HistoryView, task: TaskView)
    requires
        viewer.wf(),
    ensures
        viewer.after_task(history, task).wf(),
{
    let after = viewer.after_task(history, task);
    if viewer.takes(history, task) {
        let n = task.task_id.0;
        let run_id = task.task_id.spec_run_id();
        assert forall|m: u128| #[trigger] after.children.contains_key(m) implies ({
            let r = AmbientAgentTaskId(m).spec_run_id();
            &&& after.children_by_run_id.contains_key(r)
            &&& after.children_by_run_id[r] == AmbientAgentTaskId(m)
            &&& after.children[m].pane_materialization_requested
                == after.children[m].session_id is Some
        }) by {
            assert(AmbientAgentTaskId(n) == task.task_id);
            if m == n {
                if viewer.children.contains_key(n) {
                    assert(viewer.children_by_run_id.contains_key(run_id));
                }
            } else {
                assert(viewer.children.contains_key(m));
                let r = AmbientAgentTaskId(m).spec_run_id();
                if r == run_id {
                    law_text_is_injective(m, n);
                }
            }
        }
        assert forall|r: Seq<char>| #[trigger] after.children_by_run_id.contains_key(r) implies ({
            let id = after.children_by_run_id[r];
            &&& after.children.contains_key(id.0)
            &&& r == id.spec_run_id()
        }) by {
            if !(r == run_id && !viewer.children.contains_key(n)) {
                assert(viewer.children_by_run_id.contains_key(r));
            }
        }
    }
}

/// Taking in a task keeps each child linked to its placeholder. The children of every other
/// pane that shares the history stay linked too, whatever the state of the pane that takes
/// the task in.
pub proof fn law_task_keeps_links(
    viewer: ViewerView,
    history: HistoryView,
    task: TaskView,
    other: ViewerView,
)
    requires
        history.conversations.len() <= usize::MAX,
        other.linked(history),
    ensures
        viewer.linked(history) ==> viewer.after_task(history, task).linked(
            viewer.history_after_task(history, task),
        ),
        other.linked(viewer.history_after_task(history, task)),
{
    let after = viewer.after_task(history, task);
    let h = viewer.history_after_task(history, task);
    law_task_changes_little(viewer, history, task);
    if viewer.linked(history) {
        assert forall|m: u128| #[trigger] after.children.contains_key(m) implies after.child_linked(
            h,
            m,
        ) by {
            if viewer.children.contains_key(m) {
                let id = viewer.children[m].conversation_id;
                assert(history.has(id));
                assert(after.children[m].conversation_id == id);
            } else {
                assert(m == task.task_id.0);
                assert(AmbientAgentTaskId(m) == task.task_id);
            }
        }
    }
    assert forall|m: u128| #[trigger] other.children.contains_key(m) implies other.child_linked(
        h,
        m,
    ) by {
        assert(history.has(other.children[m].conversation_id));
    }
}

/// Taking in a task adds at most one conversation, leaves the active conversations alone,
/// and changes nothing of an older conversation but its status, and that only of the task's
/// own placeholder.
pub proof fn law_task_changes_little(viewer: ViewerView, history: HistoryView, task: TaskView)
    ensures
        ({
            let h = viewer.history_after_task(history, task);
            &&& h.active == history.active
            &&& history.conversations.len() <= h.conversations.len()
            &&& h.conversations.len() == history.conversations.len() + (if task.task_id
                != viewer.parent_task_id && !viewer.children.contains_key(task.task_id.0)
                && history.active.contains_key(viewer.terminal_view_id.0) {
                1int
            } else {
                0
            })
            &&& forall|i: int|
                0 <= i < history.conversations.len() ==> (#[trigger] h.conversations[i]) == (
                ConversationView {
                    status: h.conversations[i].status,
                    ..history.conversations[i]
                })
            &&& forall|i: int|
                0 <= i < history.conversations.len() && !(viewer.children.contains_key(
                    task.task_id.0,
                ) && viewer.children[task.task_id.0].conversation_id.0 == i)
                    ==> (#[trigger] h.conversations[i]) == history.conversations[i]
        }),
{
}

/// What happens in one terminal view leaves the conversations of the other views as they
/// were: panes do not disturb each other.
pub proof fn law_panes_are_apart(
    viewer: ViewerView,
    history: HistoryView,
    task: TaskView,
    run_id: Seq<char>,
    status: StatusView,
    i: int,
)
    requires
        viewer.linked(history),
        0 <= i < history.conversations.len(),
        history.conversations[i].terminal_view_id != viewer.terminal_view_id,
    ensures
        viewer.history_after_task(history, task).conversations[i] == history.conversations[i],
        viewer.history_after_status(history, run_id, status).conversations[i]
            == history.conversations[i],
{
    law_task_changes_little(viewer, history, task);
    if viewer.children.contains_key(task.task_id.0) {
        assert(history.has(viewer.children[task.task_id.0].conversation_id));
    }
    if let Some(id) = viewer.conversation_of_run(run_id) {
        let n = viewer.children_by_run_id[run_id].0;
        assert(viewer.children.contains_key(n));
    }
}

/// The viewed task itself is passed over when it arrives as a child.
pub proof fn law_parent_is_skipped(viewer: ViewerView, history: HistoryView, task: TaskView)
    requires
        task.task_id == viewer.parent_task_id,
    ensures
        viewer.after_task(history, task) == viewer,
        viewer.history_after_task(history, task) == history,
        viewer.pane_after_task(history, task) is None,
{
}

/// A new child that arrives while its terminal view has no active conversation is passed
/// over, and taken in when it arrives again once there is one.
pub proof fn law_child_is_deferred(
    viewer: ViewerView,
    history: HistoryView,
    later: HistoryView,
    task: TaskView,
)
    requires
        task.task_id != viewer.parent_task_id,
        !viewer.children.contains_key(task.task_id.0),
        !history.active.contains_key(viewer.terminal_view_id.0),
        later.active.contains_key(viewer.terminal_view_id.0),
    ensures
        viewer.after_task(history, task) == viewer,
        viewer.history_after_task(history, task) == history,
        viewer.pane_after_task(history, task) is None,
        viewer.after_task(later, task).children.contains_key(task.task_id.0),
        viewer.history_after_task(later, task).conversations.len() == later.conversations.len() + 1,
{
}

/// A task that arrives again unchanged changes nothing, and asks for nothing.
pub proof fn law_same_task_again(viewer: ViewerView, history: HistoryView, task: TaskView)
    ensures
        ({
            let v = viewer.after_task(history, task);
            let h = viewer.history_after_task(history, task);
            &&& v.after_task(h, task) == v
            &&& v.history_after_task(h, task) == h
            &&& v.pane_after_task(h, task) is None
        }),
{
    let v = viewer.after_task(history, task);
    let h = viewer.history_after_task(history, task);
    if viewer.takes(history, task) {
        assert(v.after_task(h, task).children =~= v.children);
    }
}

/// A child gets one placeholder, under the conversation that is active when the child is
/// taken in. No arrival of a known child adds another.
pub proof fn law_one_placeholder_per_child(
    viewer: ViewerView,
    history: HistoryView,
    task: TaskView,
    parent: AIConversationId,
)
    requires
        viewer.linked(history),
    ensures
        viewer.history_after_task(history, task).children_of(parent) == if task.task_id
            != viewer.parent_task_id && !viewer.children.contains_key(task.task_id.0)
            && history.active.contains_key(viewer.terminal_view_id.0)
            && history.active[viewer.terminal_view_id.0] == parent {
            history.children_of(parent).push(
                AIConversationId(history.conversations.len() as usize),
            )
        } else {
            history.children_of(parent)
        },
{
    let h = viewer.history_after_task(history, task);
    let pred = |c: ConversationView| c.parent_conversation_id == Some(parent);
    law_task_changes_little(viewer, history, task);
    if h.conversations.len() > history.conversations.len() {
        assert(h.conversations.drop_last() =~= history.conversations);
    } else {
        lemma_ids_where_agree(h.conversations, history.conversations, pred);
    }
}

proof fn lemma_ids_where_agree(
    a: Seq<ConversationView>,
    b: Seq<ConversationView>,
    pred: spec_fn(ConversationView) -> bool,
)
    requires
        a.len() == b.len(),
        forall|i: int| 0 <= i < a.len() ==> #[trigger] pred(a[i]) == pred(b[i]),
    ensures
        ids_where(a, pred) == ids_where(b, pred),
    decreases a.len(),
{
    if a.len() > 0 {
        let x = a.drop_last();
        let y = b.drop_last();
        assert forall|i: int| 0 <= i < x.len() implies #[trigger] pred(x[i]) == pred(y[i]) by {
            assert(x[i] == a[i]);
            assert(pred(a[i]) == pred(b[i]));
        }
        lemma_ids_where_agree(x, y, pred);
        assert(pred(a[a.len() - 1]) == pred(b[a.len() - 1]));
    }
}

/// A child that is taken in, new or in a changed state, is shown in the status of its state.
pub proof fn law_status_follows_state(viewer: ViewerView, history: HistoryView, task: TaskView)
    requires
        history.conversations.len() <= usize::MAX,
        viewer.linked(history),
        task.task_id != viewer.parent_task_id,
        viewer.children.contains_key(task.task_id.0) || history.active.contains_key(
            viewer.terminal_view_id.0,
        ),
        viewer.children.contains_key(task.task_id.0) ==> viewer.children[task.task_id.0].last_state
            != task.state,
    ensures
        ({
            let v = viewer.after_task(history, task);
            let h = viewer.history_after_task(history, task);
            let id = v.children[task.task_id.0].conversation_id;
            &&& v.children[task.task_id.0].last_state == task.state
            &&& h.has(id)
            &&& h.conversations[id.0 as int].status == status_of_state(task.state)
        }),
{
    if viewer.children.contains_key(task.task_id.0) {
        assert(history.has(viewer.children[task.task_id.0].conversation_id));
    }
}

/// The status that an event tells of a child is the status of its placeholder from then on,
/// and every other conversation stays as it was.
pub proof fn law_status_event_reaches_child(
    viewer: ViewerView,
    history: HistoryView,
    id: AmbientAgentTaskId,
    status: StatusView,
)
    requires
        viewer.wf(),
        viewer.linked(history),
        viewer.children.contains_key(id.0),
    ensures
        ({
            let place = viewer.children[id.0].conversation_id.0 as int;
            let h = viewer.history_after_status(history, id.spec_run_id(), status);
            &&& h.active == history.active
            &&& h.conversations.len() == history.conversations.len()
            &&& h.conversations[place] == (ConversationView {
                status,
                ..history.conversations[place]
            })
            &&& forall|i: int|
                0 <= i < history.conversations.len() && i != place ==> (
                #[trigger] h.conversations[i]) == history.conversations[i]
            &&& viewer.linked(h)
        }),
{
    assert(AmbientAgentTaskId(id.0) == id);
    assert(viewer.children_by_run_id.contains_key(id.spec_run_id()));
    law_status_keeps_links(viewer, history, id.spec_run_id(), status, viewer);
}

/// A status told of any run id keeps the children of every pane linked to their
/// placeholders.
pub proof fn law_status_keeps_links(
    viewer: ViewerView,
    history: HistoryView,
    run_id: Seq<char>,
    status: StatusView,
    other: ViewerView,
)
    requires
        other.linked(history),
    ensures
        other.linked(viewer.history_after_status(history, run_id, status)),
{
    let h = viewer.history_after_status(history, run_id, status);
    assert forall|m: u128| #[trigger] other.children.contains_key(m) implies other.child_linked(
        h,
        m,
    ) by {
        assert(history.has(other.children[m].conversation_id));
    }
}

/// A new conversation, or another choice of the active ones, keeps the children of every
/// pane linked to their placeholders.
pub proof fn law_history_keeps_links(
    viewer: ViewerView,
    history: HistoryView,
    conversation: ConversationView,
    active: Map<u64, AIConversationId>,
)
    requires
        viewer.linked(history),
    ensures
        viewer.linked(history.with_conversation(conversation)),
        viewer.linked(HistoryView { active, ..history }),
{
    let h = history.with_conversation(conversation);
    assert forall|m: u128| #[trigger] viewer.children.contains_key(m) implies viewer.child_linked(
        h,
        m,
    ) by {
        assert(history.has(viewer.children[m].conversation_id));
    }
}

/// A direct change of a conversation keeps the children of a pane linked to their
/// placeholders, where the conversation is none of those.
pub proof fn law_direct_change_keeps_links(
    viewer: ViewerView,
    history: HistoryView,
    id: AIConversationId,
    conversation: ConversationView,
)
    requires
        viewer.linked(history),
        forall|n: u128| #[trigger]
            viewer.children.contains_key(n) ==> viewer.children[n].conversation_id != id,
    ensures
        viewer.linked(history.with_replaced(id, conversation)),
{
    let h = history.with_replaced(id, conversation);
    assert forall|m: u128| #[trigger] viewer.children.contains_key(m) implies viewer.child_linked(
        h,
        m,
    ) by {
        assert(viewer.child_linked(history, m));
    }
}

/// One thing that happens to a pane or to its history.
pub enum Step {
    /// A task arrives.
    Task(TaskView),
    /// A status is told of a run id.
    Status { run_id: Seq<char>, status: StatusView },
    /// A task arrives at another pane on the same history, whose model is `pane`.
    TaskElsewhere { pane: ViewerView, task: TaskView },
    /// A status is told of a run id to another pane on the same history.
    StatusElsewhere { pane: ViewerView, run_id: Seq<char>, status: StatusView },
    /// A conversation is added.
    Conversation(ConversationView),
    /// A conversation becomes the active one of a terminal view.
    Active { view: EntityId, id: AIConversationId },
}

/// A pane and its history after one step.
pub open spec fn after_step(viewer: ViewerView, history: HistoryView, step: Step) -> (
    ViewerView,
    HistoryView,
) {
    match step {
        Step::Task(task) => (
            viewer.after_task(history, task),
            viewer.history_after_task(history, task),
        ),
        Step::Status { run_id, status } => (
            viewer,
            viewer.history_after_status(history, run_id, status),
        ),
        Step::TaskElsewhere { pane, task } => (viewer, pane.history_after_task(history, task)),
        Step::StatusElsewhere { pane, run_id, status } => (
            viewer,
            pane.history_after_status(history, run_id, status),
        ),
        Step::Conversation(conversation) => (viewer, history.with_conversation(conversation)),
        Step::Active { view, id } => (
            viewer,
            HistoryView { active: history.active.insert(view.0, id), ..history },
        ),
    }
}

/// A pane and its history after a run of steps.
pub open spec fn after_steps(viewer: ViewerView, history: HistoryView, steps: Seq<Step>) -> (
    ViewerView,
    HistoryView,
)
    decreases steps.len(),
{
    if steps.len() == 0 {
        (viewer, history)
    } else {
        let (v, h) = after_steps(viewer, history, steps.drop_last());
        after_step(v, h, steps.last())
    }
}

/// In every state that a pane can get to from its start by steps in any order, its own and
/// those of other panes on the same history, the model is consistent and each child has its
/// own placeholder, in the pane's terminal view and with the child's task. Direct changes of
/// a conversation are no steps here: one that takes the shared session or the task off a
/// placeholder undoes its link. See `law_direct_change_keeps_links` for those that do not.
pub proof fn law_every_state(
    parent: AmbientAgentTaskId,
    view: EntityId,
    history: HistoryView,
    steps: Seq<Step>,
)
    requires
        history.conversations.len() + steps.len() <= usize::MAX,
    ensures
        ({
            let start = empty_viewer(parent, view);
            let (v, h) = after_steps(start, history, steps);
            &&& v.wf()
            &&& v.linked(h)
            &&& v.parent_task_id == parent
            &&& v.terminal_view_id == view
            &&& history.conversations.len() <= h.conversations.len()
            &&& h.conversations.len() <= history.conversations.len() + steps.len()
        }),
    decreases steps.len(),
{
    let start = empty_viewer(parent, view);
    if steps.len() > 0 {
        law_every_state(parent, view, history, steps.drop_last());
        let (v, h) = after_steps(start, history, steps.drop_last());
        match steps.last() {
            Step::Task(task) => {
                law_task_keeps_consistency(v, h, task);
                law_task_keeps_links(v, h, task, v);
                law_task_changes_little(v, h, task);
            },
            Step::Status { run_id, status } => {
                law_status_keeps_links(v, h, run_id, status, v);
            },
            Step::TaskElsewhere { pane, task } => {
                law_task_keeps_links(pane, h, task, v);
                law_task_changes_little(pane, h, task);
            },
            Step::StatusElsewhere { pane, run_id, status } => {
                law_status_keeps_links(pane, h, run_id, status, v);
            },
            Step::Conversation(conversation) => {
                law_history_keeps_links(v, h, conversation, h.active);
            },
            Step::Active { view, id } => {
                law_history_keeps_links(
                    v,
                    h,
                    blank_conversation(view, false),
                    h.active.insert(view.0, id),
                );
            },
        }
    } else {
        law_empty_viewer(parent, view, history);
    }
}

/// No two children share a placeholder, so a status told of one is never shown for another.
pub proof fn law_placeholders_are_distinct(
    viewer: ViewerView,
    history: HistoryView,
    a: AmbientAgentTaskId,
    b: AmbientAgentTaskId,
)
    requires
        viewer.linked(history),
        viewer.children.contains_key(a.0),
        viewer.children.contains_key(b.0),
        a != b,
    ensures
        viewer.children[a.0].conversation_id != viewer.children[b.0].conversation_id,
{
    assert(AmbientAgentTaskId(a.0) == a);
    assert(AmbientAgentTaskId(b.0) == b);
}

/// A status told of a run id that is malformed, or not that of a child, is dropped.
pub proof fn law_unknown_run_is_dropped(
    viewer: ViewerView,
    history: HistoryView,
    run_id: Seq<char>,
    status: StatusView,
)
    requires
        viewer.wf(),
        match task_id_from_text(run_id) {
            Some(id) => !viewer.children.contains_key(id.0),
            None => true,
        },
    ensures
        viewer.history_after_status(history, run_id, status) == history,
{
    if viewer.children_by_run_id.contains_key(run_id) {
        let id = viewer.children_by_run_id[run_id];
        law_text_reads_back(id.0);
    }
}

/// An event about the children of another task changes nothing and asks for nothing.
pub proof fn law_foreign_event_is_ignored(
    viewer: ViewerView,
    history: HistoryView,
    event: OrchestrationEventStreamerEvent,
)
    requires
        event.spec_parent_task_id() != viewer.parent_task_id,
    ensures
        viewer.history_after_event(history, event) == history,
        viewer.action_after_event(event) is None,
{
}

/// The run id of a spawned child leads to a fetch of that very task, and once the task has
/// been taken in, the same run id leads to its placeholder.
pub proof fn law_spawned_child_is_reachable(
    viewer: ViewerView,
    history: HistoryView,
    task: TaskView,
)
    requires
        viewer.wf(),
        task.task_id != viewer.parent_task_id,
        viewer.children.contains_key(task.task_id.0) || history.active.contains_key(
            viewer.terminal_view_id.0,
        ),
    ensures
        viewer.action_after_spawn(task.task_id.spec_run_id()) == Some(
            ViewerAction::FetchTask(task.task_id),
        ),
        viewer.after_task(history, task).conversation_of_run(task.task_id.spec_run_id()) == Some(
            viewer.after_task(history, task).children[task.task_id.0].conversation_id,
        ),
{
    law_text_reads_back(task.task_id.0);
    assert(AmbientAgentTaskId(task.task_id.0) == task.task_id);
    if viewer.children.contains_key(task.task_id.0) {
        assert(viewer.children_by_run_id.contains_key(task.task_id.spec_run_id()));
    }
}

/// A pane is asked for only for a child for which none was asked for before, and it counts
/// as asked for from then on. No arrival takes that back.
pub proof fn law_pane_request_stands(
    viewer: ViewerView,
    history: HistoryView,
    task: TaskView,
    id: AmbientAgentTaskId,
)
    ensures
        viewer.pane_requested(id) ==> viewer.after_task(history, task).pane_requested(id),
        viewer.after_task(history, task).pane_requested(id) && !viewer.pane_requested(id) <==> (
        viewer.pane_after_task(history, task) matches Some(pane) && pane.task_id == id),
{
    assert(AmbientAgentTaskId(id.0) == id);
}

/// What comes of tasks that arrive one after the other, each with the history as it then is.
pub open spec fn after_arrivals(
    viewer: ViewerView,
    arrivals: Seq<(HistoryView, TaskView)>,
) -> (ViewerView, Seq<PaneMaterialization>)
    decreases arrivals.len(),
{
    if arrivals.len() == 0 {
        (viewer, Seq::empty())
    } else {
        let (before, panes) = after_arrivals(viewer, arrivals.drop_last());
        let (history, task) = arrivals.last();
        (
            before.after_task(history, task),
            match before.pane_after_task(history, task) {
                Some(pane) => panes.push(pane),
                None => panes,
            },
        )
    }
}

/// Whether the pane for the task `id` is among `panes`.
pub open spec fn asks_for(panes: Seq<PaneMaterialization>, id: AmbientAgentTaskId) -> bool {
    exists|k: int| 0 <= k < panes.len() && (#[trigger] panes[k]).task_id == id
}

/// Over any run of arrivals, with whatever else happens to the history in between, at most
/// one pane is asked for per child: one for each child for which a pane counts as asked for
/// at the end and did not at the start. The model stays consistent throughout.
pub proof fn law_one_pane_per_child(
    viewer: ViewerView,
    arrivals: Seq<(HistoryView, TaskView)>,
)
    ensures
        ({
            let (v, panes) = after_arrivals(viewer, arrivals);
            &&& viewer.wf() ==> v.wf()
            &&& forall|i: int, j: int|
                0 <= i < j < panes.len() ==> (#[trigger] panes[i]).task_id != (
                #[trigger] panes[j]).task_id
            &&& forall|id: AmbientAgentTaskId|
                #![trigger asks_for(panes, id)]
                #![trigger v.pane_requested(id)]
                asks_for(panes, id) <==> v.pane_requested(id) && !viewer.pane_requested(id)
            &&& forall|id: AmbientAgentTaskId|
                #![trigger viewer.pane_requested(id)]
                viewer.pane_requested(id) ==> v.pane_requested(id)
        }),
    decreases arrivals.len(),
{
    if arrivals.len() > 0 {
        law_one_pane_per_child(viewer, arrivals.drop_last());
        let (before, earlier) = after_arrivals(viewer, arrivals.drop_last());
        let (history, task) = arrivals.last();
        let (v, panes) = after_arrivals(viewer, arrivals);
        if viewer.wf() {
            law_task_keeps_consistency(before, history, task);
        }
        lemma_one_more_pane(viewer, before, earlier, history, task, panes);
    }
}

proof fn lemma_one_more_pane(
    viewer: ViewerView,
    before: ViewerView,
    earlier: Seq<PaneMaterialization>,
    history: HistoryView,
    task: TaskView,
    panes: Seq<PaneMaterialization>,
)
    requires
        forall|i: int, j: int|
            0 <= i < j < earlier.len() ==> (#[trigger] earlier[i]).task_id != (
            #[trigger] earlier[j]).task_id,
        forall|id: AmbientAgentTaskId|
            #![trigger asks_for(earlier, id)]
            #![trigger before.pane_requested(id)]
            asks_for(earlier, id) <==> before.pane_requested(id) && !viewer.pane_requested(id),
        forall|id: AmbientAgentTaskId|
            #![trigger viewer.pane_requested(id)]
            viewer.pane_requested(id) ==> before.pane_requested(id),
        panes == match before.pane_after_task(history, task) {
            Some(pane) => earlier.push(pane),
            None => earlier,
        },
    ensures
        ({
            let v = before.after_task(history, task);
            &&& forall|i: int, j: int|
                0 <= i < j < panes.len() ==> (#[trigger] panes[i]).task_id != (
                #[trigger] panes[j]).task_id
            &&& forall|id: AmbientAgentTaskId|
                #![trigger asks_for(panes, id)]
                #![trigger v.pane_requested(id)]
                asks_for(panes, id) <==> v.pane_requested(id) && !viewer.pane_requested(id)
            &&& forall|id: AmbientAgentTaskId|
                #![trigger viewer.pane_requested(id)]
                viewer.pane_requested(id) ==> v.pane_requested(id)
        }),
{
    let v = before.after_task(history, task);
    let asked = before.pane_after_task(history, task);
    assert forall|id: AmbientAgentTaskId| asks_for(panes, id) <==> asks_for(earlier, id) || (
    asked matches Some(pane) && pane.task_id == id) by {
        if asks_for(earlier, id) {
            let k = choose|k: int| 0 <= k < earlier.len() && (#[trigger] earlier[k]).task_id == id;
            assert(panes[k].task_id == id);
        }
        if asked is Some {
            assert(panes[earlier.len() as int] == asked->0);
        }
        if asks_for(panes, id) {
            let k = choose|k: int| 0 <= k < panes.len() && (#[trigger] panes[k]).task_id == id;
            if k < earlier.len() {
                assert(earlier[k].task_id == id);
            }
        }
    }
    assert forall|id: AmbientAgentTaskId|
        #![trigger asks_for(panes, id)]
        #![trigger v.pane_requested(id)]
        asks_for(panes, id) <==> v.pane_requested(id) && !viewer.pane_requested(id) by {
        law_pane_request_stands(before, history, task, id);
        assert(asks_for(earlier, id) <==> before.pane_requested(id) && !viewer.pane_requested(id));
    }
    assert forall|id: AmbientAgentTaskId| #[trigger] viewer.pane_requested(id) implies
        v.pane_requested(id) by {
        law_pane_request_stands(before, history, task, id);
    }
    assert forall|i: int, j: int| 0 <= i < j < panes.len() implies (#[trigger] panes[i]).task_id != (
    #[trigger] panes[j]).task_id by {
        if j == earlier.len() {
            let id = panes[j].task_id;
            assert(!before.pane_requested(id));
            assert(!asks_for(earlier, id));
            assert(panes[i] == earlier[i]);
        } else {
            assert(panes[i] == earlier[i]);
            assert(panes[j] == earlier[j]);
        }
    }
}

/// The reply to a fetch of children is taken in whole: where the terminal view has an active
/// conversation, the children are afterwards those from before and the tasks of the reply,
/// without the viewed task. The panes asked for are as over any run of arrivals, and the
/// active conversations stay as they were.
pub proof fn law_fetch_takes_all(
    viewer: ViewerView,
    history: HistoryView,
    tasks: Seq<TaskView>,
)
    requires
        viewer.wf(),
        history.active.contains_key(viewer.terminal_view_id.0),
    ensures
        ({
            let outcome = after_tasks(viewer, history, tasks);
            &&& outcome.viewer.wf()
            &&& outcome.viewer.parent_task_id == viewer.parent_task_id
            &&& outcome.viewer.terminal_view_id == viewer.terminal_view_id
            &&& outcome.history.active == history.active
            &&& forall|n: u128|
                #![trigger outcome.viewer.children.contains_key(n)]
                outcome.viewer.children.contains_key(n) <==> viewer.children.contains_key(n) || (n
                    != viewer.parent_task_id.0 && exists|k: int|
                    0 <= k < tasks.len() && (#[trigger] tasks[k]).task_id.0 == n)
            &&& forall|i: int, j: int|
                0 <= i < j < outcome.panes.len() ==> (#[trigger] outcome.panes[i]).task_id != (
                #[trigger] outcome.panes[j]).task_id
            &&& forall|id: AmbientAgentTaskId|
                #![trigger asks_for(outcome.panes, id)]
                #![trigger outcome.viewer.pane_requested(id)]
                asks_for(outcome.panes, id) <==> outcome.viewer.pane_requested(id)
                    && !viewer.pane_requested(id)
            &&& forall|id: AmbientAgentTaskId|
                #![trigger viewer.pane_requested(id)]
                viewer.pane_requested(id) ==> outcome.viewer.pane_requested(id)
        }),
    decreases tasks.len(),
{
    if tasks.len() > 0 {
        let rest = tasks.drop_last();
        let task = tasks.last();
        law_fetch_takes_all(viewer, history, rest);
        let before = after_tasks(viewer, history, rest);
        let outcome = after_tasks(viewer, history, tasks);
        law_task_keeps_consistency(before.viewer, before.history, task);
        law_task_changes_little(before.viewer, before.history, task);
        lemma_one_more_pane(
            viewer,
            before.viewer,
            before.panes,
            before.history,
            task,
            outcome.panes,
        );
        assert forall|n: u128|
            #![trigger outcome.viewer.children.contains_key(n)]
            outcome.viewer.children.contains_key(n) <==> viewer.children.contains_key(n) || (n
                != viewer.parent_task_id.0 && exists|k: int|
                0 <= k < tasks.len() && (#[trigger] tasks[k]).task_id.0 == n) by {
            assert(before.viewer.children.contains_key(n) <==> viewer.children.contains_key(n) || (n
                != viewer.parent_task_id.0 && exists|k: int|
                0 <= k < rest.len() && (#[trigger] rest[k]).task_id.0 == n));
            if exists|k: int| 0 <= k < rest.len() && (#[trigger] rest[k]).task_id.0 == n {
                let k = choose|k: int| 0 <= k < rest.len() && (#[trigger] rest[k]).task_id.0 == n;
                assert(tasks[k].task_id.0 == n);
            }
            if exists|k: int| 0 <= k < tasks.len() && (#[trigger] tasks[k]).task_id.0 == n {
                let k = choose|k: int| 0 <= k < tasks.len() && (#[trigger] tasks[k]).task_id.0 == n;
                if k < rest.len() {
                    assert(rest[k].task_id.0 == n);
                }
            }
            assert(tasks[tasks.len() - 1] == task);
            if task.task_id.0 == viewer.parent_task_id.0 {
                assert(task.task_id == viewer.parent_task_id);
            }
        }
    }
}

/// A registration that comes too early is made up for: while the terminal view has no active
/// conversation nothing is registered, and once it has one, trying again registers the pane
/// and asks for the children so far, once.
pub proof fn law_registration_is_retried(viewer: ViewerView, early: ContextView, later: ContextView)
    requires
        !early.history.active.contains_key(viewer.terminal_view_id.0),
        later.flags.orchestration_viewer_streamer,
        later.consumers is Some,
        later.history.active.contains_key(viewer.terminal_view_id.0),
        !later.consumers->0.contains((viewer.parent_task_id, viewer.terminal_view_id)),
    ensures
        viewer.context_after_registration(early) == early,
        viewer.action_after_registration(early) is None,
        viewer.context_after_registration(later).consumers == Some(
            later.consumers->0.insert((viewer.parent_task_id, viewer.terminal_view_id)),
        ),
        viewer.action_after_registration(later) == Some(ViewerAction::SeedChildren),
        viewer.context_after_registration(viewer.context_after_registration(later))
            == viewer.context_after_registration(later),
        viewer.action_after_registration(viewer.context_after_registration(later)) is None,
{
    let once = viewer.context_after_registration(later);
    assert(viewer.context_after_registration(once).consumers->0 =~= once.consumers->0);
}

} // verus!
