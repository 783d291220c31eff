//! The stream of orchestration events, and the panes that consume it.
use crate::ids::{AmbientAgentTaskId, EntityId};
use crate::status::ConversationStatus;
use vstd::prelude::*;

verus! {

/// An event about the children of a task.
#[derive(Debug)]
pub enum OrchestrationEventStreamerEvent {
    /// A child of the task has come into being.
    ChildSpawned { parent_task_id: AmbientAgentTaskId, run_id: String },
    /// The status of a child of the task has changed.
    ChildStatusChanged {
        parent_task_id: AmbientAgentTaskId,
        run_id: String,
        status: ConversationStatus,
    },
}

impl OrchestrationEventStreamerEvent {
    /// The task whose child the event is about.
    pub open spec fn spec_parent_task_id(self) -> AmbientAgentTaskId {
        match self {
            OrchestrationEventStreamerEvent::ChildSpawned { parent_task_id, .. } => parent_task_id,
            OrchestrationEventStreamerEvent::ChildStatusChanged {
                parent_task_id,
                ..
            } => parent_task_id,
        }
    }

    /// The task whose child the event is about.
    pub fn parent_task_id(&self) -> (id: AmbientAgentTaskId)
        ensures
            id == self.spec_parent_task_id(),
    {
        match self {
            OrchestrationEventStreamerEvent::ChildSpawned { parent_task_id, .. } => *parent_task_id,
            OrchestrationEventStreamerEvent::ChildStatusChanged {
                parent_task_id,
                ..
            } => *parent_task_id,
        }
    }
}

/// The panes that view the children of some task, each registered with that task.
pub struct OrchestrationEventStreamer {
    consumers: Vec<(AmbientAgentTaskId, EntityId)>,
}

impl View for OrchestrationEventStreamer {
    type V = Set<(AmbientAgentTaskId, EntityId)>;

    closed spec fn view(&self) -> Set<(AmbientAgentTaskId, EntityId)> {
        self.consumers@.to_set()
    }
}

/// Those of the registrations `consumers` that are for the task `parent`.
pub open spec fn consumers_of(
    consumers: Set<(AmbientAgentTaskId, EntityId)>,
    parent: AmbientAgentTaskId,
) -> Set<(AmbientAgentTaskId, EntityId)> {
    consumers.filter(|c: (AmbientAgentTaskId, EntityId)| c.0 == parent)
}

impl OrchestrationEventStreamer {
    #[verifier::type_invariant]
    spec fn no_pane_twice(self) -> bool {
        self.consumers@.no_duplicates()
    }

    /// Makes a streamer without consumers.
    pub fn new() -> (streamer: OrchestrationEventStreamer)
        ensures
            streamer@ == Set::<(AmbientAgentTaskId, EntityId)>::empty(),
    {
        let streamer = OrchestrationEventStreamer { consumers: Vec::new() };
        assert(streamer@ =~= Set::<(AmbientAgentTaskId, EntityId)>::empty());
        streamer
    }

    /// The place of a registration.
    fn position(&self, parent: AmbientAgentTaskId, pane: EntityId) -> (place: Option<usize>)
        ensures
            match place {
                Some(i) => i < self.consumers@.len() && self.consumers@[i as int] == (parent, pane),
                None => !self.consumers@.contains((parent, pane)),
            },
    {
        let mut i: usize = 0;
        while i < self.consumers.len()
            invariant
                i <= self.consumers@.len(),
                forall|j: int| 0 <= j < i ==> #[trigger] self.consumers@[j] != (parent, pane),
            decreases self.consumers@.len() - i,
        {
            let consumer = self.consumers[i];
            if consumer.0 == parent && consumer.1 == pane {
                return Some(i);
            }
            i = i + 1;
        }
        None
    }

    /// Registers a pane as a viewer of the children of `parent`. Returns whether it was not
    /// registered before.
    pub fn register_viewer_mode_consumer(
        &mut self,
        parent: AmbientAgentTaskId,
        pane: EntityId,
    ) -> (is_new: bool)
        ensures
            final(self)@ == old(self)@.insert((parent, pane)),
            is_new == !old(self)@.contains((parent, pane)),
    {
        proof {
            use_type_invariant(&*self);
        }
        match self.position(parent, pane) {
            Some(i) => {
                assert(self@ =~= self@.insert((parent, pane)));
                false
            },
            None => {
                let mut consumers: Vec<(AmbientAgentTaskId, EntityId)> = Vec::new();
                std::mem::swap(&mut consumers, &mut self.consumers);
                let ghost before = consumers@;
                consumers.push((parent, pane));
                proof {
                    let after = consumers@;
                    assert(after.to_set() =~= before.to_set().insert((parent, pane))) by {
                        assert(after[before.len() as int] == (parent, pane));
                        assert forall|c: (AmbientAgentTaskId, EntityId)|
                            before.contains(c) implies after.contains(c) by {
                            let k = choose|k: int| 0 <= k < before.len() && before[k] == c;
                            assert(after[k] == c);
                        }
                    }
                }
                self.consumers = consumers;
                true
            },
        }
    }

    /// Takes back the registration of a pane. Does nothing where it is not registered.
    pub fn unregister_viewer_mode_consumer(&mut self, parent: AmbientAgentTaskId, pane: EntityId)
        ensures
            final(self)@ == old(self)@.remove((parent, pane)),
    {
        proof {
            use_type_invariant(&*self);
        }
        match self.position(parent, pane) {
            Some(i) => {
                let mut consumers: Vec<(AmbientAgentTaskId, EntityId)> = Vec::new();
                std::mem::swap(&mut consumers, &mut self.consumers);
                let ghost before = consumers@;
                let _ = consumers.remove(i);
                proof {
                    let after = consumers@;
                    assert(after =~= before.remove(i as int));
                    assert forall|c: (AmbientAgentTaskId, EntityId)|
                        c != (parent, pane) && before.contains(c) implies after.contains(c) by {
                        let k = choose|k: int| 0 <= k < before.len() && before[k] == c;
                        if k < i {
                            assert(after[k] == c);
                        } else {
                            assert(after[k - 1] == c);
                        }
                    }
                    assert(after.to_set() =~= before.to_set().remove((parent, pane)));
                }
                self.consumers = consumers;
            },
            None => {
                assert(self@ =~= self@.remove((parent, pane)));
            },
        }
    }

    /// Counts the panes that are registered as viewers of the children of `parent`.
    pub fn viewer_mode_consumer_count_for_test(&self, parent: AmbientAgentTaskId) -> (count: usize)
        ensures
            self@.finite(),
            count == consumers_of(self@, parent).len(),
    {
        proof {
            use_type_invariant(self);
        }
        let ghost cs = self.consumers@;
        let mut count: usize = 0;
        let mut i: usize = 0;
        proof {
            assert(consumers_of(cs.take(0).to_set(), parent) =~= Set::empty());
        }
        while i < self.consumers.len()
            invariant
                i <= self.consumers@.len(),
                cs == self.consumers@,
                cs.no_duplicates(),
                count <= i,
                consumers_of(cs.take(i as int).to_set(), parent).finite(),
                count == consumers_of(cs.take(i as int).to_set(), parent).len(),
            decreases self.consumers@.len() - i,
        {
            let consumer = self.consumers[i];
            proof {
                let before = cs.take(i as int);
                let after = cs.take(i + 1);
                assert(after =~= before.push(consumer));
                assert(!before.contains(consumer));
                assert(after.to_set() =~= before.to_set().insert(consumer)) by {
                    assert(after[i as int] == consumer);
                    assert forall|c: (AmbientAgentTaskId, EntityId)|
                        before.contains(c) implies after.contains(c) by {
                        let k = choose|k: int| 0 <= k < before.len() && before[k] == c;
                        assert(after[k] == c);
                    }
                }
                if consumer.0 == parent {
                    assert(consumers_of(after.to_set(), parent) =~= consumers_of(
                        before.to_set(),
                        parent,
                    ).insert(consumer));
                } else {
                    assert(consumers_of(after.to_set(), parent) =~= consumers_of(
                        before.to_set(),
                        parent,
                    ));
                }
            }
            if consumer.0 == parent {
                count = count + 1;
            }
            i = i + 1;
        }
        assert(cs.take(i as int) =~= cs);
        proof {
            vstd::seq_lib::seq_to_set_is_finite(cs);
        }
        count
    }
}

/// Registering a pane again, or taking its registration back again, changes nothing; a
/// registration that is taken back leaves those of the other panes and of the other
/// tasks as they were; and each pane counts once.
pub proof fn law_consumers(
    consumers: Set<(AmbientAgentTaskId, EntityId)>,
    parent: AmbientAgentTaskId,
    pane: EntityId,
    other: AmbientAgentTaskId,
)
    requires
        consumers.finite(),
        other != parent,
    ensures
        consumers.insert((parent, pane)).insert((parent, pane)) == consumers.insert((parent, pane)),
        consumers.remove((parent, pane)).remove((parent, pane)) == consumers.remove((parent, pane)),
        !consumers.contains((parent, pane)) ==> consumers.insert((parent, pane)).remove(
            (parent, pane),
        ) == consumers,
        consumers_of(consumers.insert((parent, pane)), parent).len() == consumers_of(
            consumers,
            parent,
        ).len() + (if consumers.contains((parent, pane)) {
            0int
        } else {
            1
        }),
        consumers_of(consumers.remove((parent, pane)), parent).len() == consumers_of(
            consumers,
            parent,
        ).len() - (if consumers.contains((parent, pane)) {
            1int
        } else {
            0
        }),
        consumers_of(consumers.insert((parent, pane)), other) == consumers_of(consumers, other),
        consumers_of(consumers.remove((parent, pane)), other) == consumers_of(consumers, other),
{
    let c = (parent, pane);
    assert(consumers.insert(c).insert(c) =~= consumers.insert(c));
    assert(consumers.remove(c).remove(c) =~= consumers.remove(c));
    if !consumers.contains(c) {
        assert(consumers.insert(c).remove(c) =~= consumers);
    }
    assert(consumers_of(consumers.insert(c), parent) =~= consumers_of(consumers, parent).insert(c));
    assert(consumers_of(consumers.remove(c), parent) =~= consumers_of(consumers, parent).remove(c));
    assert(consumers_of(consumers.insert(c), other) =~= consumers_of(consumers, other));
    assert(consumers_of(consumers.remove(c), other) =~= consumers_of(consumers, other));
}

/// The consumers of a task are the registrations that are for it, whatever the pane.
pub proof fn law_consumers_of(
    consumers: Set<(AmbientAgentTaskId, EntityId)>,
    parent: AmbientAgentTaskId,
    other: AmbientAgentTaskId,
    pane: EntityId,
)
    ensures
        consumers_of(consumers, parent).contains((other, pane)) <==> consumers.contains(
            (other, pane),
        ) && other == parent,
{
}

} // verus!
