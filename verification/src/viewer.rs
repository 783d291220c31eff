//! The model of one viewer pane: which children of the viewed task it shows, and what it
//! asks for when tasks, events and conversations arrive.
use crate::context::{ContextView, ViewerContext};
use crate::history::{
    AIConversation, BlocklistAIHistoryEvent, BlocklistAIHistoryModel, ConversationView, HistoryView,
};
use crate::ids::{AIConversationId, AmbientAgentTaskId, EntityId, SessionId};
use crate::status::{
    conversation_status_from_state, AmbientAgentTaskState, ConversationStatus, StatusView,
};
use crate::streamer::OrchestrationEventStreamerEvent;
use crate::task::{AmbientAgentTask, TaskView};
use std::collections::HashMap;
use vstd::hash_map::StringHashMap;
use vstd::prelude::*;

#[allow(unused_imports)]
use crate::{
    ids::task_id_from_text,
    laws::{law_status_keeps_links, law_task_keeps_consistency, law_task_keeps_links},
    status::status_of_state,
};

verus! {

/// What a pane knows of one child.
#[derive(Clone, Copy, Debug, PartialEq, Eq)]
pub struct ChildEntry {
    /// The placeholder conversation that stands for the child.
    pub conversation_id: AIConversationId,
    /// The shared session in which the child runs, once it is known.
    pub session_id: Option<SessionId>,
    /// Whether a pane for the child has been asked for. It is asked for once.
    pub pane_materialization_requested: bool,
    /// The state in which the child was last registered.
    pub last_state: AmbientAgentTaskState,
}

/// The request to show a child's shared session in a pane.
#[derive(Clone, Copy, Debug, PartialEq, Eq, Structural)]
pub struct PaneMaterialization {
    pub task_id: AmbientAgentTaskId,
    pub conversation_id: AIConversationId,
    pub session_id: SessionId,
}

/// What a pane wants done. The reply to each is a task, or a list of tasks.
#[derive(Clone, Copy, Debug, PartialEq, Eq, Structural)]
pub enum ViewerAction {
    /// Fetch the children of the viewed task from the server.
    FetchChildren,
    /// Fetch the children that came into being before the pane began to consume events.
    SeedChildren,
    /// Fetch one task.
    FetchTask(AmbientAgentTaskId),
}

/// The model of a pane that views the children of the task `parent_task_id`.
pub struct OrchestrationViewerModel {
    pub parent_task_id: AmbientAgentTaskId,
    pub terminal_view_id: EntityId,
    /// The children, by the number of their task.
    pub children: HashMap<u128, ChildEntry>,
    /// The children, by their run id.
    pub children_by_run_id: StringHashMap<AmbientAgentTaskId>,
    /// Whether a poll for the children is scheduled. Whoever runs the timer keeps it.
    pub polling: bool,
    /// How many fetches of the children have been started. Whoever fetches keeps it.
    pub fetch_generation: u64,
}

/// The model of a pane, with its collections as maps.
pub struct ViewerView {
    pub parent_task_id: AmbientAgentTaskId,
    pub terminal_view_id: EntityId,
    pub children: Map<u128, ChildEntry>,
    pub children_by_run_id: Map<Seq<char>, AmbientAgentTaskId>,
    pub polling: bool,
    pub fetch_generation: u64,
}

impl View for OrchestrationViewerModel {
    type V = ViewerView;

    open spec fn view(&self) -> ViewerView {
        ViewerView {
            parent_task_id: self.parent_task_id,
            terminal_view_id: self.terminal_view_id,
            children: self.children@,
            children_by_run_id: self.children_by_run_id@,
            polling: self.polling,
            fetch_generation: self.fetch_generation,
        }
    }
}

/// The model of a pane that knows no child yet, with no poll scheduled and no fetch started.
pub open spec fn empty_viewer(parent: AmbientAgentTaskId, view: EntityId) -> ViewerView {
    ViewerView {
        parent_task_id: parent,
        terminal_view_id: view,
        children: Map::empty(),
        children_by_run_id: Map::empty(),
        polling: false,
        fetch_generation: 0,
    }
}

/// The placeholder of the task `task`, in the terminal view `view`, under `parent`.
pub open spec fn placeholder_of(
    view: EntityId,
    parent: AIConversationId,
    task: TaskView,
) -> ConversationView {
    ConversationView {
        terminal_view_id: view,
        parent_conversation_id: Some(parent),
        task_id: Some(task.task_id),
        agent_name: Some(task.display_name()),
        title: task.fallback_title(),
        viewing_shared_session: true,
        status: status_of_state(task.state),
    }
}

impl ViewerView {
    /// Whether the model is consistent: the viewed task is not a child of its own; the run
    /// ids lead to the children and to nothing else; and a pane has been asked for exactly
    /// for those children whose session is known.
    pub open spec fn wf(self) -> bool {
        &&& !self.children.contains_key(self.parent_task_id.0)
        &&& forall|n: u128|
            #![trigger self.children.contains_key(n)]
            self.children.contains_key(n) ==> {
                let run_id = AmbientAgentTaskId(n).spec_run_id();
                &&& self.children_by_run_id.contains_key(run_id)
                &&& self.children_by_run_id[run_id] == AmbientAgentTaskId(n)
                &&& self.children[n].pane_materialization_requested
                    == self.children[n].session_id is Some
            }
        &&& forall|run_id: Seq<char>|
            #![trigger self.children_by_run_id.contains_key(run_id)]
            self.children_by_run_id.contains_key(run_id) ==> {
                let id = self.children_by_run_id[run_id];
                &&& self.children.contains_key(id.0)
                &&& run_id == id.spec_run_id()
            }
    }

    /// Whether the child of task number `n` has a placeholder in the history `history`: a
    /// conversation of the pane's terminal view, under another one, that shows the child's
    /// task in a shared session.
    pub open spec fn child_linked(self, history: HistoryView, n: u128) -> bool {
        let id = self.children[n].conversation_id;
        let c = history.conversations[id.0 as int];
        &&& history.has(id)
        &&& c.terminal_view_id == self.terminal_view_id
        &&& c.task_id == Some(AmbientAgentTaskId(n))
        &&& c.viewing_shared_session
        &&& c.parent_conversation_id is Some
    }

    /// Whether each child has its own placeholder in the history `history`.
    pub open spec fn linked(self, history: HistoryView) -> bool {
        forall|n: u128|
            #![trigger self.children.contains_key(n)]
            self.children.contains_key(n) ==> self.child_linked(history, n)
    }

    /// Whether the task `task` is taken in: it is not the viewed task itself, and it is known
    /// already or there is an active conversation for its placeholder to hang under.
    pub open spec fn takes(
        self,
        history: HistoryView,
        task: TaskView,
    ) -> bool {
        &&& task.task_id != self.parent_task_id
        &&& self.children.contains_key(task.task_id.0) || history.active_in(
            self.terminal_view_id,
        ) is Some
    }

    /// The session of the task, as far as it is known once `task` has been seen. A task that
    /// names no session does not make the pane forget one.
    pub open spec fn session_after(self, task: TaskView) -> Option<SessionId> {
        match task.session() {
            Some(session) => Some(session),
            None => if self.children.contains_key(task.task_id.0) {
                self.children[task.task_id.0].session_id
            } else {
                None
            },
        }
    }

    /// Whether a pane for the task `id` has been asked for.
    pub open spec fn pane_requested(self, id: AmbientAgentTaskId) -> bool {
        self.children.contains_key(id.0) && self.children[id.0].pane_materialization_requested
    }

    /// What the pane knows of the task `task` once it has been taken in.
    pub open spec fn entry_after(
        self,
        history: HistoryView,
        task: TaskView,
    ) -> ChildEntry {
        ChildEntry {
            conversation_id: if self.children.contains_key(task.task_id.0) {
                self.children[task.task_id.0].conversation_id
            } else {
                history.next_id()
            },
            session_id: self.session_after(task),
            pane_materialization_requested: self.session_after(task) is Some
                || self.pane_requested(task.task_id),
            last_state: task.state,
        }
    }

    /// The model once the task `task` has arrived.
    pub open spec fn after_task(
        self,
        history: HistoryView,
        task: TaskView,
    ) -> ViewerView {
        if self.takes(history, task) {
            ViewerView {
                children: self.children.insert(task.task_id.0, self.entry_after(history, task)),
                children_by_run_id: if self.children.contains_key(task.task_id.0) {
                    self.children_by_run_id
                } else {
                    self.children_by_run_id.insert(task.task_id.spec_run_id(), task.task_id)
                },
                ..self
            }
        } else {
            self
        }
    }

    /// The history once the task `task` has arrived: a child that is new gets a placeholder
    /// under the active conversation, and one whose state has changed gets a new status.
    pub open spec fn history_after_task(
        self,
        history: HistoryView,
        task: TaskView,
    ) -> HistoryView {
        if !self.takes(history, task) {
            history
        } else if !self.children.contains_key(task.task_id.0) {
            history.with_conversation(
                placeholder_of(
                    self.terminal_view_id,
                    history.active_in(self.terminal_view_id)->0,
                    task,
                ),
            )
        } else if self.children[task.task_id.0].last_state != task.state {
            history.with_status(
                self.children[task.task_id.0].conversation_id,
                status_of_state(task.state),
            )
        } else {
            history
        }
    }

    /// The pane that is asked for when the task `task` arrives: the first time that the
    /// session of a child is known.
    pub open spec fn pane_after_task(
        self,
        history: HistoryView,
        task: TaskView,
    ) -> Option<PaneMaterialization> {
        if self.takes(history, task) && self.session_after(task) is Some && !self.pane_requested(
            task.task_id,
        ) {
            Some(
                PaneMaterialization {
                    task_id: task.task_id,
                    conversation_id: self.entry_after(history, task).conversation_id,
                    session_id: self.session_after(task)->0,
                },
            )
        } else {
            None
        }
    }

    /// The placeholder to which the run id `run_id` leads.
    pub open spec fn conversation_of_run(self, run_id: Seq<char>) -> Option<AIConversationId> {
        if self.children_by_run_id.contains_key(run_id) && self.children.contains_key(
            self.children_by_run_id[run_id].0,
        ) {
            Some(self.children[self.children_by_run_id[run_id].0].conversation_id)
        } else {
            None
        }
    }

    /// The history once the child of run id `run_id` is said to be in the status `status`. A
    /// run id that leads nowhere is passed over.
    pub open spec fn history_after_status(
        self,
        history: HistoryView,
        run_id: Seq<char>,
        status: StatusView,
    ) -> HistoryView {
        match self.conversation_of_run(run_id) {
            Some(id) => history.with_status(id, status),
            None => history,
        }
    }

    /// What is wanted when a child of run id `run_id` has come into being: its task, unless
    /// the run id is malformed.
    pub open spec fn action_after_spawn(self, run_id: Seq<char>) -> Option<ViewerAction> {
        match task_id_from_text(run_id) {
            Some(id) => Some(ViewerAction::FetchTask(id)),
            None => None,
        }
    }

    /// The history once the event `event` has arrived. Only events about the children of the
    /// viewed task count.
    pub open spec fn history_after_event(
        self,
        history: HistoryView,
        event: OrchestrationEventStreamerEvent,
    ) -> HistoryView {
        match event {
            OrchestrationEventStreamerEvent::ChildStatusChanged {
                parent_task_id,
                run_id,
                status,
            } => if parent_task_id == self.parent_task_id {
                self.history_after_status(history, run_id@, status@)
            } else {
                history
            },
            OrchestrationEventStreamerEvent::ChildSpawned { .. } => history,
        }
    }

    /// What is wanted when the event `event` has arrived.
    pub open spec fn action_after_event(
        self,
        event: OrchestrationEventStreamerEvent,
    ) -> Option<ViewerAction> {
        match event {
            OrchestrationEventStreamerEvent::ChildSpawned {
                parent_task_id,
                run_id,
            } => if parent_task_id == self.parent_task_id {
                self.action_after_spawn(run_id@)
            } else {
                None
            },
            OrchestrationEventStreamerEvent::ChildStatusChanged { .. } => None,
        }
    }

    /// Whether the pane can be registered with the streamer: the streamed path is switched
    /// on, there is a streamer, and the terminal view has an active conversation.
    pub open spec fn can_register(self, ctx: ContextView) -> bool {
        &&& ctx.flags.orchestration_viewer_streamer
        &&& ctx.consumers is Some
        &&& ctx.history.active_in(self.terminal_view_id) is Some
    }

    /// Whether the pane is registered with the streamer.
    pub open spec fn is_registered(self, ctx: ContextView) -> bool {
        match ctx.consumers {
            Some(consumers) => consumers.contains((self.parent_task_id, self.terminal_view_id)),
            None => false,
        }
    }

    /// The context once the pane has been registered, where it can be.
    pub open spec fn context_after_registration(
        self,
        ctx: ContextView,
    ) -> ContextView {
        if self.can_register(ctx) {
            ContextView {
                consumers: Some(
                    ctx.consumers->0.insert((self.parent_task_id, self.terminal_view_id)),
                ),
                ..ctx
            }
        } else {
            ctx
        }
    }

    /// What is wanted when the pane is registered: the children so far, the first time.
    pub open spec fn action_after_registration(
        self,
        ctx: ContextView,
    ) -> Option<ViewerAction> {
        if self.can_register(ctx) && !self.is_registered(ctx) {
            Some(ViewerAction::SeedChildren)
        } else {
            None
        }
    }
}

impl ViewerView {
    /// What is wanted when the pane is set going.
    pub open spec fn action_at_start(self, ctx: ContextView) -> Option<ViewerAction> {
        if ctx.flags.orchestration_viewer_streamer {
            self.action_after_registration(ctx)
        } else {
            Some(ViewerAction::FetchChildren)
        }
    }

    /// The context once the history has told the event `event`.
    pub open spec fn context_after_history_event(
        self,
        ctx: ContextView,
        event: BlocklistAIHistoryEvent,
    ) -> ContextView {
        match event {
            BlocklistAIHistoryEvent::SetActiveConversation { terminal_view_id, .. } =>
                if terminal_view_id == self.terminal_view_id {
                    self.context_after_registration(ctx)
                } else {
                    ctx
                },
        }
    }

    /// What is wanted when the history has told the event `event`.
    pub open spec fn action_after_history_event(
        self,
        ctx: ContextView,
        event: BlocklistAIHistoryEvent,
    ) -> Option<ViewerAction> {
        match event {
            BlocklistAIHistoryEvent::SetActiveConversation { terminal_view_id, .. } =>
                if terminal_view_id == self.terminal_view_id {
                    self.action_after_registration(ctx)
                } else {
                    None
                },
        }
    }
}

/// A pane, the history and the panes asked for, after a list of tasks.
pub struct FetchOutcome {
    pub viewer: ViewerView,
    pub history: HistoryView,
    pub panes: Seq<PaneMaterialization>,
}

/// What comes of the tasks `tasks`, arriving one after the other.
pub open spec fn after_tasks(
    viewer: ViewerView,
    history: HistoryView,
    tasks: Seq<TaskView>,
) -> FetchOutcome
    decreases tasks.len(),
{
    if tasks.len() == 0 {
        FetchOutcome { viewer, history, panes: Seq::empty() }
    } else {
        let before = after_tasks(viewer, history, tasks.drop_last());
        let task = tasks.last();
        FetchOutcome {
            viewer: before.viewer.after_task(before.history, task),
            history: before.viewer.history_after_task(before.history, task),
            panes: match before.viewer.pane_after_task(before.history, task) {
                Some(pane) => before.panes.push(pane),
                None => before.panes,
            },
        }
    }
}

impl OrchestrationViewerModel {
    /// Makes the model of a pane that knows no child yet.
    pub fn empty(parent_task_id: AmbientAgentTaskId, terminal_view_id: EntityId) -> (model: Self)
        ensures
            model@ == empty_viewer(parent_task_id, terminal_view_id),
            model@.wf(),
    {
        OrchestrationViewerModel {
            parent_task_id,
            terminal_view_id,
            children: HashMap::new(),
            children_by_run_id: StringHashMap::new(),
            polling: false,
            fetch_generation: 0,
        }
    }

    /// Makes the model of a pane and sets it going. On the streamed path the pane is
    /// registered with the streamer, where that is possible yet; else its children are
    /// fetched.
    pub fn new(
        parent_task_id: AmbientAgentTaskId,
        terminal_view_id: EntityId,
        ctx: &mut ViewerContext,
    ) -> (started: (OrchestrationViewerModel, Option<ViewerAction>))
        ensures
            started.0@ == empty_viewer(parent_task_id, terminal_view_id),
            started.0@.wf(),
            final(ctx)@ == started.0@.context_after_registration(old(ctx)@),
            started.1 == if old(ctx)@.flags.orchestration_viewer_streamer {
                started.0@.action_after_registration(old(ctx)@)
            } else {
                Some(ViewerAction::FetchChildren)
            },
            started.1 == started.0@.action_at_start(old(ctx)@),
    {
        let model = OrchestrationViewerModel::empty(parent_task_id, terminal_view_id);
        if ctx.flags.orchestration_viewer_streamer {
            let action = model.register_viewer_mode_consumer_if_possible(ctx);
            (model, action)
        } else {
            (model, Some(ViewerAction::FetchChildren))
        }
    }

    /// Registers the pane with the streamer, where that is possible. Asks for the children so
    /// far when the pane was not registered before.
    pub fn register_viewer_mode_consumer_if_possible(&self, ctx: &mut ViewerContext) -> (action:
        Option<ViewerAction>)
        ensures
            final(ctx)@ == self@.context_after_registration(old(ctx)@),
            action == self@.action_after_registration(old(ctx)@),
    {
        if !ctx.flags.orchestration_viewer_streamer {
            return None;
        }
        if self.find_parent_conversation_id(&ctx.history).is_none() {
            return None;
        }
        match &mut ctx.streamer {
            Some(streamer) => {
                if streamer.register_viewer_mode_consumer(
                    self.parent_task_id,
                    self.terminal_view_id,
                ) {
                    Some(ViewerAction::SeedChildren)
                } else {
                    None
                }
            },
            None => None,
        }
    }

    /// Takes note of an event of the history. When a conversation becomes the active one of
    /// the pane's terminal view, the registration with the streamer is tried again.
    pub fn handle_history_event(
        &self,
        event: &BlocklistAIHistoryEvent,
        ctx: &mut ViewerContext,
    ) -> (action: Option<ViewerAction>)
        ensures
            final(ctx)@ == self@.context_after_history_event(old(ctx)@, *event),
            action == self@.action_after_history_event(old(ctx)@, *event),
            match *event {
                BlocklistAIHistoryEvent::SetActiveConversation { terminal_view_id, .. } =>
                    if terminal_view_id == self@.terminal_view_id {
                        &&& final(ctx)@ == self@.context_after_registration(old(ctx)@)
                        &&& action == self@.action_after_registration(old(ctx)@)
                    } else {
                        &&& final(ctx)@ == old(ctx)@
                        &&& action is None
                    },
            },
    {
        match event {
            BlocklistAIHistoryEvent::SetActiveConversation { terminal_view_id, .. } => {
                if *terminal_view_id == self.terminal_view_id {
                    self.register_viewer_mode_consumer_if_possible(ctx)
                } else {
                    None
                }
            },
        }
    }

    /// The conversation under which the placeholders of new children hang: the active one of
    /// the pane's terminal view.
    pub fn find_parent_conversation_id(&self, history: &BlocklistAIHistoryModel) -> (id: Option<
        AIConversationId,
    >)
        ensures
            id == history@.active_in(self@.terminal_view_id),
    {
        history.active_conversation_id(self.terminal_view_id)
    }

    /// Takes in a task, or what has become of it, and returns the pane to ask for.
    pub fn register_child(
        &mut self,
        task: AmbientAgentTask,
        history: &mut BlocklistAIHistoryModel,
    ) -> (pane: Option<PaneMaterialization>)
        ensures
            final(self)@ == old(self)@.after_task(old(history)@, task@),
            final(history)@ == old(self)@.history_after_task(old(history)@, task@),
            pane == old(self)@.pane_after_task(old(history)@, task@),
            old(self)@.wf() ==> final(self)@.wf(),
            old(self)@.linked(old(history)@) ==> final(self)@.linked(final(history)@),
    {
        self.register_task(&task, history)
    }

    fn register_task(
        &mut self,
        task: &AmbientAgentTask,
        history: &mut BlocklistAIHistoryModel,
    ) -> (pane: Option<PaneMaterialization>)
        ensures
            final(self)@ == old(self)@.after_task(old(history)@, task@),
            final(history)@ == old(self)@.history_after_task(old(history)@, task@),
            pane == old(self)@.pane_after_task(old(history)@, task@),
            old(self)@.wf() ==> final(self)@.wf(),
            old(self)@.linked(old(history)@) ==> final(self)@.linked(final(history)@),
    {
        proof {
            if self@.wf() {
                law_task_keeps_consistency(self@, history@, task@);
            }
        }
        let task_id = task.task_id;
        // The server may list the viewed task among its children.
        if task_id == self.parent_task_id {
            return None;
        }
        let known: Option<ChildEntry> = match self.children.get(&task_id.0) {
            Some(entry) => Some(*entry),
            None => None,
        };
        let named_session = task.session();
        let (conversation_id, session_id, requested) = match known {
            Some(entry) => {
                if entry.last_state != task.state {
                    history.update_conversation_status(
                        entry.conversation_id,
                        conversation_status_from_state(&task.state),
                    );
                }
                let session_id = match named_session {
                    Some(session_id) => Some(session_id),
                    None => entry.session_id,
                };
                (entry.conversation_id, session_id, entry.pane_materialization_requested)
            },
            None => {
                let parent = match self.find_parent_conversation_id(history) {
                    Some(parent) => parent,
                    None => {
                        return None;
                    },
                };
                let conversation_id = history.add_conversation(
                    AIConversation::placeholder(
                        self.terminal_view_id,
                        parent,
                        task_id,
                        task.display_name(),
                        task.fallback_title(),
                        conversation_status_from_state(&task.state),
                    ),
                );
                self.children_by_run_id.insert(task_id.run_id(), task_id);
                (conversation_id, named_session, false)
            },
        };
        self.children.insert(
            task_id.0,
            ChildEntry {
                conversation_id,
                session_id,
                pane_materialization_requested: session_id.is_some() || requested,
                last_state: task.state,
            },
        );
        proof {
            let (v, h) = (old(self)@, old(history)@);
            if v.linked(h) && h.conversations.len() <= usize::MAX {
                law_task_keeps_links(v, h, task@, v);
            }
        }
        match session_id {
            Some(session_id) => if requested {
                None
            } else {
                Some(PaneMaterialization { task_id, conversation_id, session_id })
            },
            None => None,
        }
    }

    /// Takes in the reply to a fetch of children, task by task, and returns the panes to ask
    /// for.
    pub fn apply_children_fetch(
        &mut self,
        tasks: Vec<AmbientAgentTask>,
        history: &mut BlocklistAIHistoryModel,
    ) -> (panes: Vec<PaneMaterialization>)
        ensures
            ({
                let outcome = after_tasks(
                    old(self)@,
                    old(history)@,
                    tasks@.map_values(|t: AmbientAgentTask| t@),
                );
                &&& final(self)@ == outcome.viewer
                &&& final(history)@ == outcome.history
                &&& panes@ == outcome.panes
            }),
            old(self)@.wf() ==> final(self)@.wf(),
            old(self)@.linked(old(history)@) ==> final(self)@.linked(final(history)@),
    {
        let ghost views = tasks@.map_values(|t: AmbientAgentTask| t@);
        let mut panes: Vec<PaneMaterialization> = Vec::new();
        let mut i: usize = 0;
        while i < tasks.len()
            invariant
                i <= tasks@.len(),
                views == tasks@.map_values(|t: AmbientAgentTask| t@),
                self@ == after_tasks(old(self)@, old(history)@, views.take(i as int)).viewer,
                history@ == after_tasks(old(self)@, old(history)@, views.take(i as int)).history,
                panes@ == after_tasks(old(self)@, old(history)@, views.take(i as int)).panes,
                old(self)@.wf() ==> self@.wf(),
                old(self)@.linked(old(history)@) ==> self@.linked(history@),
            decreases tasks@.len() - i,
        {
            let ghost seen = views.take(i + 1);
            assert(seen.drop_last() =~= views.take(i as int));
            assert(seen.last() == tasks@[i as int]@);
            match self.register_task(&tasks[i], history) {
                Some(pane) => {
                    panes.push(pane);
                },
                None => {},
            }
            i = i + 1;
        }
        assert(views.take(i as int) =~= views);
        panes
    }

    /// Takes note of an event of the streamer.
    pub fn handle_streamer_event(
        &self,
        event: &OrchestrationEventStreamerEvent,
        history: &mut BlocklistAIHistoryModel,
    ) -> (action: Option<ViewerAction>)
        ensures
            final(history)@ == self@.history_after_event(old(history)@, *event),
            action == self@.action_after_event(*event),
            self@.linked(old(history)@) ==> self@.linked(final(history)@),
    {
        if event.parent_task_id() != self.parent_task_id {
            return None;
        }
        match event {
            OrchestrationEventStreamerEvent::ChildSpawned { run_id, .. } => {
                self.handle_child_spawned(run_id.clone())
            },
            OrchestrationEventStreamerEvent::ChildStatusChanged { run_id, status, .. } => {
                self.handle_child_status_changed(run_id.as_str(), status.clone(), history);
                None
            },
        }
    }

    /// Asks for the task of a child that has come into being. A malformed run id is dropped.
    pub fn handle_child_spawned(&self, run_id: String) -> (action: Option<ViewerAction>)
        ensures
            action == self@.action_after_spawn(run_id@),
    {
        match AmbientAgentTaskId::parse(run_id.as_str()) {
            Ok(id) => Some(ViewerAction::FetchTask(id)),
            Err(_) => None,
        }
    }

    /// Sets the status of a child's placeholder. A run id that is not known is dropped.
    pub fn handle_child_status_changed(
        &self,
        run_id: &str,
        status: ConversationStatus,
        history: &mut BlocklistAIHistoryModel,
    )
        ensures
            final(history)@ == self@.history_after_status(old(history)@, run_id@, status@),
            self@.linked(old(history)@) ==> self@.linked(final(history)@),
    {
        proof {
            if self@.linked(history@) {
                law_status_keeps_links(self@, history@, run_id@, status@, self@);
            }
        }
        match self.children_by_run_id.get(run_id) {
            Some(task_id) => {
                match self.children.get(&task_id.0) {
                    Some(entry) => {
                        history.update_conversation_status(entry.conversation_id, status);
                    },
                    None => {},
                }
            },
            None => {},
        }
    }
}

} // verus!
