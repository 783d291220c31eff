//! The history of conversations, and which of them each terminal view shows.
use crate::ids::{AIConversationId, AmbientAgentTaskId, EntityId};
use crate::status::{ConversationStatus, StatusView};
use std::collections::HashMap;
use vstd::prelude::*;

#[allow(unused_imports)]
use crate::task::text_of;

verus! {

/// A conversation of the history.
#[derive(Debug)]
pub struct AIConversation {
    terminal_view_id: EntityId,
    parent_conversation_id: Option<AIConversationId>,
    task_id: Option<AmbientAgentTaskId>,
    agent_name: Option<String>,
    fallback_title: Option<String>,
    viewing_shared_session: bool,
    status: ConversationStatus,
}

/// A conversation, with its texts as sequences of characters.
pub struct ConversationView {
    pub terminal_view_id: EntityId,
    pub parent_conversation_id: Option<AIConversationId>,
    pub task_id: Option<AmbientAgentTaskId>,
    pub agent_name: Option<Seq<char>>,
    pub title: Option<Seq<char>>,
    pub viewing_shared_session: bool,
    pub status: StatusView,
}

impl View for AIConversation {
    type V = ConversationView;

    closed spec fn view(&self) -> ConversationView {
        ConversationView {
            terminal_view_id: self.terminal_view_id,
            parent_conversation_id: self.parent_conversation_id,
            task_id: self.task_id,
            agent_name: text_of(self.agent_name),
            title: text_of(self.fallback_title),
            viewing_shared_session: self.viewing_shared_session,
            status: self.status@,
        }
    }
}

/// The conversation that a new one in the terminal view `view` starts as.
pub open spec fn blank_conversation(view: EntityId, viewing_shared_session: bool) -> ConversationView {
    ConversationView {
        terminal_view_id: view,
        parent_conversation_id: None,
        task_id: None,
        agent_name: None,
        title: None,
        viewing_shared_session,
        status: StatusView::InProgress,
    }
}

impl AIConversation {
    /// Makes the placeholder of a task that runs elsewhere, under the conversation `parent`.
    pub fn placeholder(
        terminal_view_id: EntityId,
        parent: AIConversationId,
        task_id: AmbientAgentTaskId,
        agent_name: String,
        fallback_title: Option<String>,
        status: ConversationStatus,
    ) -> (conversation: AIConversation)
        ensures
            conversation@ == (ConversationView {
                terminal_view_id,
                parent_conversation_id: Some(parent),
                task_id: Some(task_id),
                agent_name: Some(agent_name@),
                title: text_of(fallback_title),
                viewing_shared_session: true,
                status: status@,
            }),
    {
        AIConversation {
            terminal_view_id,
            parent_conversation_id: Some(parent),
            task_id: Some(task_id),
            agent_name: Some(agent_name),
            fallback_title,
            viewing_shared_session: true,
            status,
        }
    }

    /// The terminal view that the conversation belongs to.
    pub fn terminal_view_id(&self) -> (view: EntityId)
        ensures
            view == self@.terminal_view_id,
    {
        self.terminal_view_id
    }

    /// The conversation that this one is a child of.
    pub fn parent_conversation_id(&self) -> (parent: Option<AIConversationId>)
        ensures
            parent == self@.parent_conversation_id,
    {
        self.parent_conversation_id
    }

    /// The task that the conversation stands for.
    pub fn task_id(&self) -> (task: Option<AmbientAgentTaskId>)
        ensures
            task == self@.task_id,
    {
        self.task_id
    }

    /// The name of the agent.
    pub fn agent_name(&self) -> (name: Option<&str>)
        ensures
            match name {
                Some(name) => self@.agent_name == Some(name@),
                None => self@.agent_name is None,
            },
    {
        match &self.agent_name {
            Some(name) => Some(name.as_str()),
            None => None,
        }
    }

    /// The title.
    pub fn title(&self) -> (title: Option<String>)
        ensures
            text_of(title) == self@.title,
    {
        match &self.fallback_title {
            Some(title) => Some(title.clone()),
            None => None,
        }
    }

    /// Whether the conversation shows what runs in a session shared by someone else.
    pub fn is_viewing_shared_session(&self) -> (viewing: bool)
        ensures
            viewing == self@.viewing_shared_session,
    {
        self.viewing_shared_session
    }

    /// The status.
    pub fn status(&self) -> (status: &ConversationStatus)
        ensures
            status@ == self@.status,
    {
        &self.status
    }

    /// Records the task that the conversation stands for.
    pub fn set_task_id(&mut self, task_id: AmbientAgentTaskId)
        ensures
            final(self)@ == (ConversationView { task_id: Some(task_id), ..old(self)@ }),
    {
        self.task_id = Some(task_id);
    }
}

/// What the history tells those who listen to it.
#[derive(Clone, Copy, Debug, PartialEq, Eq, Structural)]
pub enum BlocklistAIHistoryEvent {
    SetActiveConversation { conversation_id: AIConversationId, terminal_view_id: EntityId },
}

/// The conversations of all terminal views, and which one is active in each view.
pub struct BlocklistAIHistoryModel {
    conversations: Vec<AIConversation>,
    active: HashMap<u64, AIConversationId>,
}

/// The history as a sequence of conversations and a map from terminal views.
pub struct HistoryView {
    pub conversations: Seq<ConversationView>,
    pub active: Map<u64, AIConversationId>,
}

impl View for BlocklistAIHistoryModel {
    type V = HistoryView;

    closed spec fn view(&self) -> HistoryView {
        HistoryView {
            conversations: self.conversations@.map_values(|c: AIConversation| c@),
            active: self.active@,
        }
    }
}

/// The identifiers of those of the conversations `cs` that `pred` holds of, oldest first.
pub open spec fn ids_where(
    cs: Seq<ConversationView>,
    pred: spec_fn(ConversationView) -> bool,
) -> Seq<AIConversationId>
    decreases cs.len(),
{
    if cs.len() == 0 {
        Seq::empty()
    } else {
        let before = ids_where(cs.drop_last(), pred);
        if pred(cs.last()) {
            before.push(AIConversationId((cs.len() - 1) as usize))
        } else {
            before
        }
    }
}

/// `ids_where` lists each conversation that the predicate holds of, once, and no other.
pub proof fn law_ids_where(cs: Seq<ConversationView>, pred: spec_fn(ConversationView) -> bool)
    requires
        cs.len() <= usize::MAX,
    ensures
        forall|i: int|
            0 <= i < cs.len() ==> (#[trigger] pred(cs[i]) <==> ids_where(cs, pred).contains(
                AIConversationId(i as usize),
            )),
        forall|k: int|
            0 <= k < ids_where(cs, pred).len() ==> (#[trigger] ids_where(cs, pred)[k]).0 < cs.len(),
        ids_where(cs, pred).no_duplicates(),
    decreases cs.len(),
{
    if cs.len() > 0 {
        let rest = cs.drop_last();
        let before = ids_where(rest, pred);
        let all = ids_where(cs, pred);
        law_ids_where(rest, pred);
        let last = AIConversationId((cs.len() - 1) as usize);
        assert forall|i: int| 0 <= i < cs.len() implies (#[trigger] pred(cs[i]) <==> all.contains(
            AIConversationId(i as usize),
        )) by {
            let id = AIConversationId(i as usize);
            if i < rest.len() {
                assert(rest[i] == cs[i]);
                assert(pred(rest[i]) <==> before.contains(id));
                if before.contains(id) {
                    let k = choose|k: int| 0 <= k < before.len() && before[k] == id;
                    assert(all[k] == id);
                }
                if all.contains(id) {
                    let k = choose|k: int| 0 <= k < all.len() && all[k] == id;
                    assert(all[k].0 != last.0);
                    assert(before[k] == id);
                }
            } else {
                if pred(cs.last()) {
                    assert(all[all.len() - 1] == last);
                } else if all.contains(id) {
                    let k = choose|k: int| 0 <= k < all.len() && all[k] == id;
                    assert(before[k].0 < rest.len());
                }
            }
        }
    }
}

impl HistoryView {
    /// The conversation that is active in the terminal view `view`.
    pub open spec fn active_in(self, view: EntityId) -> Option<AIConversationId> {
        if self.active.contains_key(view.0) {
            Some(self.active[view.0])
        } else {
            None
        }
    }

    /// Whether `id` is the identifier of a conversation of this history.
    pub open spec fn has(self, id: AIConversationId) -> bool {
        id.0 < self.conversations.len()
    }

    /// The identifier that the next conversation gets.
    pub open spec fn next_id(self) -> AIConversationId {
        AIConversationId(self.conversations.len() as usize)
    }

    /// This history with `conversation` added at its end.
    pub open spec fn with_conversation(self, conversation: ConversationView) -> HistoryView {
        HistoryView { conversations: self.conversations.push(conversation), ..self }
    }

    /// This history with the conversation `id` replaced, where there is one.
    pub open spec fn with_replaced(
        self,
        id: AIConversationId,
        conversation: ConversationView,
    ) -> HistoryView {
        if self.has(id) {
            HistoryView {
                conversations: self.conversations.update(id.0 as int, conversation),
                ..self
            }
        } else {
            self
        }
    }

    /// This history with the status of the conversation `id` set, where there is one.
    pub open spec fn with_status(
        self,
        id: AIConversationId,
        status: StatusView,
    ) -> HistoryView {
        self.with_replaced(
            id,
            ConversationView { status, ..self.conversations[id.0 as int] },
        )
    }

    /// The children of the conversation `parent`, oldest first.
    pub open spec fn children_of(self, parent: AIConversationId) -> Seq<AIConversationId> {
        ids_where(
            self.conversations,
            |c: ConversationView| c.parent_conversation_id == Some(parent),
        )
    }

    /// The conversations of the terminal view `view`, oldest first.
    pub open spec fn of_view(self, view: EntityId) -> Seq<AIConversationId> {
        ids_where(self.conversations, |c: ConversationView| c.terminal_view_id == view)
    }
}

impl BlocklistAIHistoryModel {
    /// Makes an empty history.
    pub fn new() -> (history: BlocklistAIHistoryModel)
        ensures
            history@.conversations == Seq::<ConversationView>::empty(),
            history@.active == Map::<u64, AIConversationId>::empty(),
    {
        let history = BlocklistAIHistoryModel { conversations: Vec::new(), active: HashMap::new() };
        assert(history@.conversations =~= Seq::<ConversationView>::empty());
        history
    }

    /// The conversation `id`.
    pub fn conversation(&self, id: &AIConversationId) -> (conversation: Option<&AIConversation>)
        ensures
            match conversation {
                Some(c) => self@.has(*id) && c@ == self@.conversations[id.0 as int],
                None => !self@.has(*id),
            },
    {
        if id.0 < self.conversations.len() {
            Some(&self.conversations[id.0])
        } else {
            None
        }
    }

    /// The conversation `id`, to be changed.
    pub fn conversation_mut(&mut self, id: &AIConversationId) -> (conversation: Option<
        &mut AIConversation,
    >)
        ensures
            match conversation {
                Some(c) => {
                    &&& old(self)@.has(*id)
                    &&& c@ == old(self)@.conversations[id.0 as int]
                    &&& final(self)@ == old(self)@.with_replaced(*id, final(c)@)
                },
                None => !old(self)@.has(*id) && final(self)@ == old(self)@,
            },
    {
        if id.0 < self.conversations.len() {
            proof {
                let cs = self.conversations@;
                let i = id.0 as int;
                assert forall|c: AIConversation|
                    (#[trigger] cs.update(i, c)).map_values(|c: AIConversation| c@)
                        == cs.map_values(|c: AIConversation| c@).update(i, c@) by {
                    assert(cs.update(i, c).map_values(|c: AIConversation| c@) =~= cs.map_values(
                        |c: AIConversation| c@,
                    ).update(i, c@));
                }
            }
            Some(&mut self.conversations[id.0])
        } else {
            None
        }
    }

    /// Adds a conversation.
    pub fn add_conversation(&mut self, conversation: AIConversation) -> (id: AIConversationId)
        ensures
            id == old(self)@.next_id(),
            id.0 == old(self)@.conversations.len(),
            final(self)@ == old(self)@.with_conversation(conversation@),
    {
        let id = AIConversationId(self.conversations.len());
        self.conversations.push(conversation);
        assert(self@.conversations =~= old(self)@.conversations.push(conversation@));
        id
    }

    /// Starts a conversation in a terminal view, without making it the active one.
    pub fn start_new_conversation(
        &mut self,
        terminal_view_id: EntityId,
        is_viewing_shared_session: bool,
    ) -> (id: AIConversationId)
        ensures
            id == old(self)@.next_id(),
            id.0 == old(self)@.conversations.len(),
            final(self)@ == old(self)@.with_conversation(
                blank_conversation(terminal_view_id, is_viewing_shared_session),
            ),
    {
        self.add_conversation(
            AIConversation {
                terminal_view_id,
                parent_conversation_id: None,
                task_id: None,
                agent_name: None,
                fallback_title: None,
                viewing_shared_session: is_viewing_shared_session,
                status: ConversationStatus::InProgress,
            },
        )
    }

    /// Makes a conversation the active one of a terminal view, and returns the event that
    /// tells so.
    pub fn set_active_conversation_id(
        &mut self,
        id: AIConversationId,
        terminal_view_id: EntityId,
    ) -> (event: BlocklistAIHistoryEvent)
        ensures
            final(self)@ == (HistoryView {
                active: old(self)@.active.insert(terminal_view_id.0, id),
                ..old(self)@
            }),
            event == (BlocklistAIHistoryEvent::SetActiveConversation {
                conversation_id: id,
                terminal_view_id,
            }),
    {
        self.active.insert(terminal_view_id.0, id);
        BlocklistAIHistoryEvent::SetActiveConversation { conversation_id: id, terminal_view_id }
    }

    /// The active conversation of a terminal view.
    pub fn active_conversation_id(&self, terminal_view_id: EntityId) -> (id: Option<
        AIConversationId,
    >)
        ensures
            id == self@.active_in(terminal_view_id),
    {
        match self.active.get(&terminal_view_id.0) {
            Some(id) => Some(*id),
            None => None,
        }
    }

    /// Records whether a conversation shows a session shared by someone else. Does nothing
    /// where there is no such conversation.
    pub fn set_viewing_shared_session_for_conversation(
        &mut self,
        id: AIConversationId,
        viewing: bool,
    )
        ensures
            final(self)@ == old(self)@.with_replaced(
                id,
                ConversationView {
                    viewing_shared_session: viewing,
                    ..old(self)@.conversations[id.0 as int]
                },
            ),
    {
        match self.conversation_mut(&id) {
            Some(conversation) => {
                conversation.viewing_shared_session = viewing;
            },
            None => {},
        }
    }

    /// Sets the status of a conversation. Does nothing where there is no such conversation.
    pub fn update_conversation_status(&mut self, id: AIConversationId, status: ConversationStatus)
        ensures
            final(self)@ == old(self)@.with_status(id, status@),
    {
        match self.conversation_mut(&id) {
            Some(conversation) => {
                conversation.status = status;
            },
            None => {},
        }
    }

    /// Lists the children of a conversation, oldest first.
    pub fn child_conversation_ids_of(&self, parent: &AIConversationId) -> (ids: Vec<
        AIConversationId,
    >)
        ensures
            ids@ == self@.children_of(*parent),
    {
        let ghost pred = |c: ConversationView| c.parent_conversation_id == Some(*parent);
        let mut ids: Vec<AIConversationId> = Vec::new();
        let mut i: usize = 0;
        while i < self.conversations.len()
            invariant
                i <= self.conversations@.len(),
                pred == (|c: ConversationView| c.parent_conversation_id == Some(*parent)),
                ids@ == ids_where(self@.conversations.take(i as int), pred),
            decreases self.conversations@.len() - i,
        {
            let ghost prefix = self@.conversations.take(i + 1);
            assert(prefix.drop_last() =~= self@.conversations.take(i as int));
            assert(prefix.last() == self.conversations@[i as int]@);
            match self.conversations[i].parent_conversation_id {
                Some(p) => {
                    if p == *parent {
                        ids.push(AIConversationId(i));
                    }
                },
                None => {},
            }
            i = i + 1;
        }
        assert(self@.conversations.take(i as int) =~= self@.conversations);
        ids
    }

    /// Lists the conversations of a terminal view, oldest first.
    pub fn all_live_conversations_for_terminal_view(&self, terminal_view_id: EntityId) -> (ids: Vec<
        AIConversationId,
    >)
        ensures
            ids@ == self@.of_view(terminal_view_id),
    {
        let ghost pred = |c: ConversationView| c.terminal_view_id == terminal_view_id;
        let mut ids: Vec<AIConversationId> = Vec::new();
        let mut i: usize = 0;
        while i < self.conversations.len()
            invariant
                i <= self.conversations@.len(),
                pred == (|c: ConversationView| c.terminal_view_id == terminal_view_id),
                ids@ == ids_where(self@.conversations.take(i as int), pred),
            decreases self.conversations@.len() - i,
        {
            let ghost prefix = self@.conversations.take(i + 1);
            assert(prefix.drop_last() =~= self@.conversations.take(i as int));
            assert(prefix.last() == self.conversations@[i as int]@);
            if self.conversations[i].terminal_view_id == terminal_view_id {
                ids.push(AIConversationId(i));
            }
            i = i + 1;
        }
        assert(self@.conversations.take(i as int) =~= self@.conversations);
        ids
    }
}

/// The conversations that `ids_where` lists come oldest first.
pub proof fn law_ids_in_order(
    cs: Seq<ConversationView>,
    pred: spec_fn(ConversationView) -> bool,
    j: int,
    k: int,
)
    requires
        cs.len() <= usize::MAX,
        0 <= j < k < ids_where(cs, pred).len(),
    ensures
        ids_where(cs, pred)[j].0 < ids_where(cs, pred)[k].0,
    decreases cs.len(),
{
    if cs.len() > 0 {
        let before = ids_where(cs.drop_last(), pred);
        law_ids_where(cs.drop_last(), pred);
        if k < before.len() {
            law_ids_in_order(cs.drop_last(), pred, j, k);
        } else {
            assert(before[j].0 < cs.len() - 1);
        }
    }
}

/// The children of a conversation are those that have it as their parent, each once and
/// oldest first; the conversations of a terminal view are those that belong to it, likewise.
pub proof fn law_listings(history: HistoryView, parent: AIConversationId, view: EntityId, i: int)
    requires
        history.conversations.len() <= usize::MAX,
        0 <= i < history.conversations.len(),
    ensures
        history.children_of(parent).contains(AIConversationId(i as usize))
            <==> history.conversations[i].parent_conversation_id == Some(parent),
        history.of_view(view).contains(AIConversationId(i as usize))
            <==> history.conversations[i].terminal_view_id == view,
        forall|k: int|
            0 <= k < history.children_of(parent).len() ==> (#[trigger] history.children_of(
                parent,
            )[k]).0 < history.conversations.len(),
        forall|k: int|
            0 <= k < history.of_view(view).len() ==> (#[trigger] history.of_view(view)[k]).0
                < history.conversations.len(),
        forall|j: int, k: int|
            0 <= j < k < history.children_of(parent).len() ==> (#[trigger] history.children_of(
                parent,
            )[j]).0 < (#[trigger] history.children_of(parent)[k]).0,
        forall|j: int, k: int|
            0 <= j < k < history.of_view(view).len() ==> (#[trigger] history.of_view(view)[j]).0 < (
            #[trigger] history.of_view(view)[k]).0,
{
    let cs = history.conversations;
    let child = |c: ConversationView| c.parent_conversation_id == Some(parent);
    let here = |c: ConversationView| c.terminal_view_id == view;
    law_ids_where(cs, child);
    law_ids_where(cs, here);
    assert(child(cs[i]) <==> cs[i].parent_conversation_id == Some(parent));
    assert(here(cs[i]) <==> cs[i].terminal_view_id == view);
    assert forall|j: int, k: int| 0 <= j < k < history.children_of(parent).len() implies (
    #[trigger] history.children_of(parent)[j]).0 < (#[trigger] history.children_of(
        parent,
    )[k]).0 by {
        law_ids_in_order(cs, child, j, k);
    }
    assert forall|j: int, k: int| 0 <= j < k < history.of_view(view).len() implies (
    #[trigger] history.of_view(view)[j]).0 < (#[trigger] history.of_view(view)[k]).0 by {
        law_ids_in_order(cs, here, j, k);
    }
}

/// A conversation that is added comes last, under the next number, and one that is changed
/// changes alone. Where there is no conversation of that number, nothing changes. Neither
/// touches what is active.
pub proof fn law_history_changes(
    history: HistoryView,
    id: AIConversationId,
    conversation: ConversationView,
    status: StatusView,
    view: EntityId,
)
    requires
        history.conversations.len() <= usize::MAX,
    ensures
        history.next_id().0 == history.conversations.len(),
        history.with_conversation(conversation).active == history.active,
        history.with_conversation(conversation).conversations == history.conversations.push(
            conversation,
        ),
        history.has(id) <==> id.0 < history.conversations.len(),
        history.with_replaced(id, conversation).active == history.active,
        history.with_status(id, status).active == history.active,
        id.0 < history.conversations.len() ==> history.with_replaced(id, conversation).conversations
            == history.conversations.update(id.0 as int, conversation),
        id.0 < history.conversations.len() ==> history.with_status(id, status).conversations
            == history.conversations.update(
            id.0 as int,
            ConversationView { status, ..history.conversations[id.0 as int] },
        ),
        id.0 >= history.conversations.len() ==> history.with_replaced(id, conversation) == history,
        id.0 >= history.conversations.len() ==> history.with_status(id, status) == history,
        match history.active_in(view) {
            Some(active) => history.active.contains_key(view.0) && history.active[view.0] == active,
            None => !history.active.contains_key(view.0),
        },
{
}

/// A new conversation belongs to its terminal view, is in progress, and has neither a parent,
/// a task, a name nor a title.
pub proof fn law_new_conversation(view: EntityId, viewing_shared_session: bool)
    ensures
        ({
            let c = blank_conversation(view, viewing_shared_session);
            &&& c.terminal_view_id == view
            &&& c.viewing_shared_session == viewing_shared_session
            &&& c.status is InProgress
            &&& c.parent_conversation_id is None
            &&& c.task_id is None
            &&& c.agent_name is None
            &&& c.title is None
        }),
{
}

} // verus!
