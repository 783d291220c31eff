//! Identifiers of tasks, shared sessions, conversations and terminal views.
use crate::uuid_text::{format_uuid, parse_uuid};
use vstd::prelude::*;

#[allow(unused_imports)]
use crate::uuid_text::{
    is_uuid_text, law_text_is_lower_case, law_text_reads_back, law_value_writes_back, uuid_text,
    uuid_value,
};

verus! {

/// The error of reading an identifier from text that is not in the hyphenated form.
#[derive(Clone, Copy, Debug, PartialEq, Eq, Structural)]
pub struct InvalidIdText;

/// The identifier of an ambient agent task.
#[derive(Clone, Copy, Debug, PartialEq, Eq, Hash, Structural)]
pub struct AmbientAgentTaskId(pub u128);

/// The identifier of a shared session.
#[derive(Clone, Copy, Debug, PartialEq, Eq, Hash, Structural)]
pub struct SessionId(pub u128);

/// The identifier of a conversation: its place in the history that made it.
#[derive(Clone, Copy, Debug, PartialEq, Eq, Hash, Structural)]
pub struct AIConversationId(pub usize);

/// The identifier of a terminal view.
#[derive(Clone, Copy, Debug, PartialEq, Eq, Hash, Structural)]
pub struct EntityId(pub u64);

/// The task identifier that `s` stands for, where it stands for one.
pub open spec fn task_id_from_text(s: Seq<char>) -> Option<AmbientAgentTaskId> {
    if is_uuid_text(s) {
        Some(AmbientAgentTaskId(uuid_value(s) as u128))
    } else {
        None
    }
}

/// The session identifier that `s` stands for, where it stands for one.
pub open spec fn session_id_from_text(s: Seq<char>) -> Option<SessionId> {
    if is_uuid_text(s) {
        Some(SessionId(uuid_value(s) as u128))
    } else {
        None
    }
}

impl AmbientAgentTaskId {
    /// The run id under which events name the task.
    pub open spec fn spec_run_id(self) -> Seq<char> {
        uuid_text(self.0 as int)
    }

    /// Reads a task identifier from its text form.
    pub fn parse(s: &str) -> (id: Result<AmbientAgentTaskId, InvalidIdText>)
        ensures
            match id {
                Ok(id) => task_id_from_text(s@) == Some(id) && id.0 == uuid_value(s@),
                Err(_) => task_id_from_text(s@) is None,
            },
    {
        match parse_uuid(s) {
            Some(value) => Ok(AmbientAgentTaskId(value)),
            None => Err(InvalidIdText),
        }
    }

    /// Writes the run id of the task: its identifier in text form.
    pub fn run_id(&self) -> (text: String)
        ensures
            text@ == self.spec_run_id(),
    {
        format_uuid(self.0)
    }
}

impl SessionId {
    /// Reads a session identifier from its text form.
    pub fn parse(s: &str) -> (id: Result<SessionId, InvalidIdText>)
        ensures
            match id {
                Ok(id) => session_id_from_text(s@) == Some(id) && id.0 == uuid_value(s@),
                Err(_) => session_id_from_text(s@) is None,
            },
    {
        match parse_uuid(s) {
            Some(value) => Ok(SessionId(value)),
            None => Err(InvalidIdText),
        }
    }
}

/// A text stands for a task, and for a session, exactly where it is well-formed, and for the
/// one with the number that it writes. The run id of a task stands for that task, and is
/// written in lower case.
pub proof fn law_id_texts(s: Seq<char>, id: AmbientAgentTaskId, i: int)
    requires
        0 <= i < 36,
    ensures
        task_id_from_text(s) is Some <==> is_uuid_text(s),
        task_id_from_text(s) matches Some(id) ==> id.0 == uuid_value(s),
        session_id_from_text(s) is Some <==> is_uuid_text(s),
        session_id_from_text(s) matches Some(session) ==> session.0 == uuid_value(s),
        task_id_from_text(id.spec_run_id()) == Some(id),
        id.spec_run_id().len() == 36,
        !('A' <= id.spec_run_id()[i] <= 'F'),
{
    if is_uuid_text(s) {
        law_value_writes_back(s);
    }
    law_text_reads_back(id.0);
    law_text_is_lower_case(id.0, i);
}

} // verus!
