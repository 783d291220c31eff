//! What comes of a task that arrives at a pane, and of the reply to a fetch.
//!
//! The laws here are stated over the maps and sequences of the pane and of its history, and
//! over the texts of the task.
use crate::history::{ConversationView, HistoryView};
use crate::ids::{AmbientAgentTaskId, SessionId};
use crate::task::TaskView;
use crate::viewer::{PaneMaterialization, ViewerView};
use vstd::prelude::*;

#[allow(unused_imports)]
use crate::{
    laws::{law_placeholders_are_distinct, law_task_changes_little, law_task_keeps_links},
    status::status_of_state,
    uuid_text::{is_uuid_text, uuid_value},
    viewer::after_tasks,
};

verus! {

/// A task whose child is known is taken in, whatever its state and whether or not any
/// conversation is active: the child's last state is the state of the task from then on, and
/// where that state differs from the one before, its placeholder gets the status of the
/// state. Everything else of the placeholder, every other conversation, every other child,
/// and what the pane is about stay as they were.
pub proof fn law_known_child_is_brought_up_to_date(
    viewer: ViewerView,
    history: HistoryView,
    task: TaskView,
)
    requires
        task.task_id != viewer.parent_task_id,
        viewer.children.contains_key(task.task_id.0),
    ensures
        ({
            let n = task.task_id.0;
            let before = viewer.children[n];
            let place = before.conversation_id.0 as int;
            let v = viewer.after_task(history, task);
            let h = viewer.history_after_task(history, task);
            &&& v.children[n].last_state == task.state
            &&& v.children[n].conversation_id == before.conversation_id
            &&& v.children.dom() == viewer.children.dom()
            &&& forall|m: u128|
                m != n && viewer.children.contains_key(m) ==> (#[trigger] v.children[m])
                    == viewer.children[m]
            &&& v.children_by_run_id == viewer.children_by_run_id
            &&& v.parent_task_id == viewer.parent_task_id
            &&& v.terminal_view_id == viewer.terminal_view_id
            &&& v.polling == viewer.polling
            &&& v.fetch_generation == viewer.fetch_generation
            &&& h.active == history.active
            &&& h.conversations.len() == history.conversations.len()
            &&& forall|i: int|
                0 <= i < history.conversations.len() && i != place ==> (
                #[trigger] h.conversations[i]) == history.conversations[i]
            &&& place < history.conversations.len() ==> h.conversations[place] == (
            ConversationView {
                status: if before.last_state != task.state {
                    status_of_state(task.state)
                } else {
                    history.conversations[place].status
                },
                ..history.conversations[place]
            })
        }),
{
    let v = viewer.after_task(history, task);
    assert(v.children.dom() =~= viewer.children.dom());
}

/// A new task that is not the viewed one, arriving while a conversation is active in the
/// pane's terminal view, becomes a child: one conversation is added, at the end of the
/// history and under the active one, which shows the task's label, title and status in a
/// shared session, and both the task and its run id lead to it. Nothing else changes.
pub proof fn law_new_child_is_taken_in(viewer: ViewerView, history: HistoryView, task: TaskView)
    requires
        history.conversations.len() <= usize::MAX,
        task.task_id != viewer.parent_task_id,
        !viewer.children.contains_key(task.task_id.0),
        history.active.contains_key(viewer.terminal_view_id.0),
    ensures
        ({
            let n = task.task_id.0;
            let v = viewer.after_task(history, task);
            let h = viewer.history_after_task(history, task);
            let len = history.conversations.len();
            &&& v.children.dom() == viewer.children.dom().insert(n)
            &&& v.children[n].conversation_id.0 == len
            &&& v.children[n].last_state == task.state
            &&& forall|m: u128|
                viewer.children.contains_key(m) ==> (#[trigger] v.children[m])
                    == viewer.children[m]
            &&& v.children_by_run_id == viewer.children_by_run_id.insert(
                task.task_id.spec_run_id(),
                task.task_id,
            )
            &&& v.parent_task_id == viewer.parent_task_id
            &&& v.terminal_view_id == viewer.terminal_view_id
            &&& v.polling == viewer.polling
            &&& v.fetch_generation == viewer.fetch_generation
            &&& h.active == history.active
            &&& h.conversations.len() == len + 1
            &&& forall|i: int|
                0 <= i < len ==> (#[trigger] h.conversations[i]) == history.conversations[i]
            &&& h.conversations[len as int].terminal_view_id == viewer.terminal_view_id
            &&& h.conversations[len as int].parent_conversation_id == Some(
                history.active[viewer.terminal_view_id.0],
            )
            &&& h.conversations[len as int].task_id == Some(task.task_id)
            &&& h.conversations[len as int].agent_name == Some(task.display_name())
            &&& h.conversations[len as int].title == task.fallback_title()
            &&& h.conversations[len as int].viewing_shared_session
            &&& h.conversations[len as int].status == status_of_state(task.state)
        }),
{
    let v = viewer.after_task(history, task);
    assert(v.children.dom() =~= viewer.children.dom().insert(task.task_id.0));
}

/// A task that arrives, in whatever state, with a well-formed session: the child is in that
/// session from then on and its pane counts as asked for. The pane is asked for, for that
/// task, placeholder and session, exactly where it was not before.
pub proof fn law_session_asks_for_the_pane(
    viewer: ViewerView,
    history: HistoryView,
    task: TaskView,
    text: Seq<char>,
)
    requires
        history.conversations.len() <= usize::MAX,
        task.task_id != viewer.parent_task_id,
        viewer.children.contains_key(task.task_id.0) || history.active.contains_key(
            viewer.terminal_view_id.0,
        ),
        task.session_id == Some(text),
        is_uuid_text(text),
    ensures
        ({
            let n = task.task_id.0;
            let session = SessionId(uuid_value(text) as u128);
            let v = viewer.after_task(history, task);
            let asked_before = viewer.children.contains_key(n)
                && viewer.children[n].pane_materialization_requested;
            &&& v.children.contains_key(n)
            &&& v.children[n].session_id == Some(session)
            &&& v.children[n].pane_materialization_requested
            &&& v.children[n].conversation_id.0 == if viewer.children.contains_key(n) {
                viewer.children[n].conversation_id.0 as int
            } else {
                history.conversations.len() as int
            }
            &&& asked_before ==> viewer.pane_after_task(history, task) is None
            &&& !asked_before ==> viewer.pane_after_task(history, task) == Some(
                PaneMaterialization {
                    task_id: task.task_id,
                    conversation_id: v.children[n].conversation_id,
                    session_id: session,
                },
            )
        }),
{
}

/// A task that arrives without a session, or with a malformed one, asks for no pane. A known
/// child keeps its session and its request; a new one has neither.
pub proof fn law_no_session_asks_for_nothing(
    viewer: ViewerView,
    history: HistoryView,
    task: TaskView,
)
    requires
        viewer.wf(),
        task.session_id matches Some(text) ==> !is_uuid_text(text),
    ensures
        ({
            let n = task.task_id.0;
            let v = viewer.after_task(history, task);
            &&& viewer.pane_after_task(history, task) is None
            &&& viewer.children.contains_key(n) ==> v.children.contains_key(n)
                && v.children[n].session_id == viewer.children[n].session_id
                && v.children[n].pane_materialization_requested
                == viewer.children[n].pane_materialization_requested
            &&& v.children.contains_key(n) && !viewer.children.contains_key(n) ==> v.children[n].session_id
                is None && !v.children[n].pane_materialization_requested
        }),
{
}

/// A task whose child is not known, arriving while no conversation is active in the pane's
/// terminal view, changes nothing and asks for nothing.
pub proof fn law_no_conversation_no_child(
    viewer: ViewerView,
    history: HistoryView,
    task: TaskView,
)
    requires
        !viewer.children.contains_key(task.task_id.0),
        !history.active.contains_key(viewer.terminal_view_id.0),
    ensures
        viewer.after_task(history, task) == viewer,
        viewer.history_after_task(history, task) == history,
        viewer.pane_after_task(history, task) is None,
{
}

/// The reply to a fetch is the arrival of its tasks in turn: an empty reply changes nothing,
/// a reply of one task is the arrival of that task, and a reply may be cut in two anywhere.
pub proof fn law_fetch_is_arrival_in_turn(
    viewer: ViewerView,
    history: HistoryView,
    task: TaskView,
    first: Seq<TaskView>,
    second: Seq<TaskView>,
)
    ensures
        after_tasks(viewer, history, Seq::empty()).viewer == viewer,
        after_tasks(viewer, history, Seq::empty()).history == history,
        after_tasks(viewer, history, Seq::empty()).panes.len() == 0,
        after_tasks(viewer, history, seq![task]).viewer == viewer.after_task(history, task),
        after_tasks(viewer, history, seq![task]).history == viewer.history_after_task(
            history,
            task,
        ),
        match viewer.pane_after_task(history, task) {
            Some(pane) => after_tasks(viewer, history, seq![task]).panes == seq![pane],
            None => after_tasks(viewer, history, seq![task]).panes.len() == 0,
        },
        ({
            let x = after_tasks(viewer, history, first);
            let y = after_tasks(x.viewer, x.history, second);
            let all = after_tasks(viewer, history, first + second);
            &&& all.viewer == y.viewer
            &&& all.history == y.history
            &&& all.panes == x.panes + y.panes
        }),
    decreases second.len(),
{
    let none = Seq::<TaskView>::empty();
    assert(seq![task].drop_last() =~= none);
    assert(after_tasks(viewer, history, none).viewer == viewer);
    assert(seq![task].last() == task);
    if let Some(pane) = viewer.pane_after_task(history, task) {
        assert(after_tasks(viewer, history, seq![task]).panes =~= seq![pane]);
    }
    let x = after_tasks(viewer, history, first);
    let y = after_tasks(x.viewer, x.history, second);
    let all = after_tasks(viewer, history, first + second);
    if second.len() == 0 {
        assert(first + second =~= first);
        assert(all.panes =~= x.panes + y.panes);
    } else {
        law_fetch_is_arrival_in_turn(viewer, history, task, first, second.drop_last());
        assert((first + second).drop_last() =~= first + second.drop_last());
        assert((first + second).last() == second.last());
        assert(all.panes =~= x.panes + y.panes);
    }
}

/// Tasks of other children leave a child and its placeholder as they were, and every child
/// linked.
proof fn lemma_other_tasks_leave_child(
    viewer: ViewerView,
    history: HistoryView,
    tasks: Seq<TaskView>,
    n: u128,
)
    requires
        viewer.linked(history),
        history.conversations.len() + tasks.len() <= usize::MAX,
        forall|j: int| 0 <= j < tasks.len() ==> (#[trigger] tasks[j]).task_id.0 != n,
    ensures
        ({
            let outcome = after_tasks(viewer, history, tasks);
            let place = viewer.children[n].conversation_id.0 as int;
            &&& outcome.viewer.parent_task_id == viewer.parent_task_id
            &&& outcome.viewer.terminal_view_id == viewer.terminal_view_id
            &&& outcome.history.active == history.active
            &&& outcome.viewer.linked(outcome.history)
            &&& outcome.history.conversations.len() <= history.conversations.len() + tasks.len()
            &&& outcome.viewer.children.contains_key(n) == viewer.children.contains_key(n)
            &&& viewer.children.contains_key(n) ==> outcome.viewer.children[n]
                == viewer.children[n] && outcome.history.conversations[place]
                == history.conversations[place]
        }),
    decreases tasks.len(),
{
    if tasks.len() > 0 {
        let rest = tasks.drop_last();
        let task = tasks.last();
        assert forall|j: int| 0 <= j < rest.len() implies (#[trigger] rest[j]).task_id.0 != n by {
            assert(rest[j] == tasks[j]);
        }
        lemma_other_tasks_leave_child(viewer, history, rest, n);
        let before = after_tasks(viewer, history, rest);
        let (v, h) = (before.viewer, before.history);
        assert(tasks[tasks.len() - 1].task_id.0 != n);
        law_task_changes_little(v, h, task);
        law_task_keeps_links(v, h, task, v);
        if v.children.contains_key(n) {
            assert(v.child_linked(h, n));
            if v.children.contains_key(task.task_id.0) {
                law_placeholders_are_distinct(v, h, AmbientAgentTaskId(n), task.task_id);
            }
        }
    }
}

/// After the reply to a fetch, each child named in it is known, in the state of the last of
/// its tasks. Where the reply names it once, and it is new or its state has changed, its
/// placeholder has the status of that state.
pub proof fn law_fetch_brings_children_up_to_date(
    viewer: ViewerView,
    history: HistoryView,
    tasks: Seq<TaskView>,
    k: int,
)
    requires
        viewer.linked(history),
        history.conversations.len() + tasks.len() <= usize::MAX,
        0 <= k < tasks.len(),
        tasks[k].task_id != viewer.parent_task_id,
        viewer.children.contains_key(tasks[k].task_id.0) || history.active.contains_key(
            viewer.terminal_view_id.0,
        ),
        forall|j: int|
            k < j < tasks.len() ==> (#[trigger] tasks[j]).task_id.0 != tasks[k].task_id.0,
    ensures
        ({
            let n = tasks[k].task_id.0;
            let outcome = after_tasks(viewer, history, tasks);
            let place = outcome.viewer.children[n].conversation_id.0 as int;
            &&& outcome.viewer.children.contains_key(n)
            &&& outcome.viewer.children[n].last_state == tasks[k].state
            &&& outcome.viewer.linked(outcome.history)
            &&& place < outcome.history.conversations.len()
            &&& (forall|j: int| 0 <= j < k ==> (#[trigger] tasks[j]).task_id.0 != n) && (
            viewer.children.contains_key(n) ==> viewer.children[n].last_state != tasks[k].state)
                ==> outcome.history.conversations[place].status == status_of_state(tasks[k].state)
        }),
{
    let n = tasks[k].task_id.0;
    let task = tasks[k];
    let a = tasks.take(k);
    let b = tasks.skip(k + 1);
    assert(tasks =~= a + (seq![task] + b));
    assert(AmbientAgentTaskId(n) == task.task_id);
    let x = after_tasks(viewer, history, a);
    let y = after_tasks(x.viewer, x.history, seq![task]);
    law_fetch_is_arrival_in_turn(viewer, history, task, a, seq![task] + b);
    law_fetch_is_arrival_in_turn(x.viewer, x.history, task, seq![task], b);
    lemma_fetch_keeps_links(viewer, history, a);
    assert(x.viewer.parent_task_id == viewer.parent_task_id);
    if x.viewer.children.contains_key(n) {
        assert(x.viewer.child_linked(x.history, n));
        law_known_child_is_brought_up_to_date(x.viewer, x.history, task);
    } else {
        law_new_child_is_taken_in(x.viewer, x.history, task);
    }
    law_task_keeps_links(x.viewer, x.history, task, x.viewer);
    law_task_changes_little(x.viewer, x.history, task);
    assert forall|j: int| 0 <= j < b.len() implies (#[trigger] b[j]).task_id.0 != n by {
        assert(b[j] == tasks[k + 1 + j]);
    }
    assert(y.viewer.children.contains_key(n));
    assert(y.viewer.child_linked(y.history, n));
    lemma_other_tasks_leave_child(y.viewer, y.history, b, n);
    let z = after_tasks(y.viewer, y.history, b);
    assert(z.viewer.child_linked(z.history, n));
    if forall|j: int| 0 <= j < k ==> (#[trigger] tasks[j]).task_id.0 != n {
        assert forall|j: int| 0 <= j < a.len() implies (#[trigger] a[j]).task_id.0 != n by {
            assert(a[j] == tasks[j]);
        }
        lemma_other_tasks_leave_child(viewer, history, a, n);
    }
}

/// A fetch keeps every child linked and known, and the active conversations as they were.
proof fn lemma_fetch_keeps_links(viewer: ViewerView, history: HistoryView, tasks: Seq<TaskView>)
    requires
        viewer.linked(history),
        history.conversations.len() + tasks.len() <= usize::MAX,
    ensures
        ({
            let outcome = after_tasks(viewer, history, tasks);
            &&& outcome.viewer.linked(outcome.history)
            &&& outcome.viewer.parent_task_id == viewer.parent_task_id
            &&& outcome.viewer.terminal_view_id == viewer.terminal_view_id
            &&& outcome.history.active == history.active
            &&& outcome.history.conversations.len() <= history.conversations.len() + tasks.len()
            &&& forall|m: u128| #[trigger]
                viewer.children.contains_key(m) ==> outcome.viewer.children.contains_key(m)
        }),
    decreases tasks.len(),
{
    if tasks.len() > 0 {
        lemma_fetch_keeps_links(viewer, history, tasks.drop_last());
        let before = after_tasks(viewer, history, tasks.drop_last());
        law_task_keeps_links(before.viewer, before.history, tasks.last(), before.viewer);
        law_task_changes_little(before.viewer, before.history, tasks.last());
    }
}

} // verus!
