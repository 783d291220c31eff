//! Ambient agent tasks, and the labels under which a viewer shows them.
use crate::clock::Timestamp;
use crate::ids::{AmbientAgentTaskId, SessionId};
use crate::status::AmbientAgentTaskState;
use crate::text::trim;
use vstd::prelude::*;

#[allow(unused_imports)]
use crate::{
    ids::session_id_from_text,
    text::{is_blank, is_white_space, law_trimming, trimmed},
    uuid_text::{is_uuid_text, uuid_value},
};

verus! {

/// The part of an agent's configuration that was recorded when the task was made.
#[derive(Clone, Debug)]
pub struct AgentConfigSnapshot {
    /// The short name that the orchestrator gave the agent.
    pub name: Option<String>,
}

/// An ambient agent task, as the server describes it.
#[derive(Clone, Debug)]
pub struct AmbientAgentTask {
    pub task_id: AmbientAgentTaskId,
    pub parent_run_id: Option<String>,
    pub title: String,
    pub state: AmbientAgentTaskState,
    pub prompt: String,
    pub created_at: Timestamp,
    pub started_at: Option<Timestamp>,
    pub updated_at: Timestamp,
    pub status_message: Option<String>,
    pub source: Option<String>,
    pub session_id: Option<String>,
    pub session_link: Option<String>,
    pub creator: Option<String>,
    pub executor: Option<String>,
    pub conversation_id: Option<String>,
    pub request_usage: Option<u64>,
    pub is_sandbox_running: bool,
    pub agent_config_snapshot: Option<AgentConfigSnapshot>,
    pub artifacts: Vec<String>,
    pub last_event_sequence: Option<i64>,
    pub children: Vec<String>,
}

/// What a viewer reads of a task, with its texts as sequences of characters.
pub struct TaskView {
    pub task_id: AmbientAgentTaskId,
    pub state: AmbientAgentTaskState,
    pub title: Seq<char>,
    pub snapshot_name: Option<Seq<char>>,
    pub session_id: Option<Seq<char>>,
}

/// An optional text as a sequence of characters.
pub open spec fn text_of(text: Option<String>) -> Option<Seq<char>> {
    match text {
        Some(s) => Some(s@),
        None => None,
    }
}

/// The label of a task that has neither a name nor a title.
pub open spec fn default_agent_name() -> Seq<char> {
    "Agent"@
}

impl View for AmbientAgentTask {
    type V = TaskView;

    open spec fn view(&self) -> TaskView {
        TaskView {
            task_id: self.task_id,
            state: self.state,
            title: self.title@,
            snapshot_name: match self.agent_config_snapshot {
                Some(snapshot) => text_of(snapshot.name),
                None => None,
            },
            session_id: text_of(self.session_id),
        }
    }
}

impl TaskView {
    /// The recorded name without white space at its ends; empty where there is none.
    pub open spec fn short_name(self) -> Seq<char> {
        match self.snapshot_name {
            Some(name) => trimmed(name),
            None => Seq::empty(),
        }
    }

    /// The title to fall back on: the task's title without white space at its ends,
    /// unless nothing is left of it.
    pub open spec fn fallback_title(self) -> Option<Seq<char>> {
        let title = trimmed(self.title);
        if title.len() > 0 {
            Some(title)
        } else {
            None
        }
    }

    /// The label: the short name where there is one, else the title, else `Agent`.
    pub open spec fn display_name(self) -> Seq<char> {
        if self.short_name().len() > 0 {
            self.short_name()
        } else {
            match self.fallback_title() {
                Some(title) => title,
                None => default_agent_name(),
            }
        }
    }

    /// The shared session that the task names, where it names one.
    pub open spec fn session(self) -> Option<SessionId> {
        match self.session_id {
            Some(text) => session_id_from_text(text),
            None => None,
        }
    }
}

impl AmbientAgentTask {
    /// The title to fall back on, where the task's title is not blank.
    pub fn fallback_title(&self) -> (title: Option<String>)
        ensures
            text_of(title) == self@.fallback_title(),
    {
        let title = trim(self.title.as_str());
        if title.is_empty() {
            None
        } else {
            Some(title.to_owned())
        }
    }

    /// The label under which a viewer shows the task.
    pub fn display_name(&self) -> (name: String)
        ensures
            name@ == self@.display_name(),
    {
        if let Some(snapshot) = &self.agent_config_snapshot {
            if let Some(name) = &snapshot.name {
                let name = trim(name.as_str());
                if !name.is_empty() {
                    return name.to_owned();
                }
            }
        }
        match self.fallback_title() {
            Some(title) => title,
            None => "Agent".to_owned(),
        }
    }

    /// The shared session that the task names; `None` where it names none, or where
    /// the name is not the text form of a session identifier.
    pub fn session(&self) -> (session: Option<SessionId>)
        ensures
            session == self@.session(),
    {
        match &self.session_id {
            Some(text) => match SessionId::parse(text.as_str()) {
                Ok(id) => Some(id),
                Err(_) => None,
            },
            None => None,
        }
    }
}

/// A label is never empty and has no white space at its ends, and a blank title is
/// never fallen back on.
pub proof fn law_labels(task: TaskView)
    ensures
        task.display_name().len() > 0,
        trimmed(task.display_name()) == task.display_name(),
        task.fallback_title() is None <==> is_blank(task.title),
{
    reveal_strlit("Agent");
    law_trimming(task.title);
    if let Some(name) = task.snapshot_name {
        law_trimming(name);
    }
}

/// Which label a task gets. A recorded name that is not blank is the label, trimmed, whatever
/// the title. Without one, a title that is not blank is, trimmed. Without either it is
/// `Agent`.
pub proof fn law_label_precedence(task: TaskView)
    ensures
        ({
            let has_name = task.snapshot_name matches Some(name) && exists|i: int|
                0 <= i < name.len() && !is_white_space(#[trigger] name[i]);
            let has_title = exists|i: int|
                0 <= i < task.title.len() && !is_white_space(#[trigger] task.title[i]);
            &&& has_name ==> task.display_name() == trimmed(task.snapshot_name->0)
            &&& !has_name && has_title ==> task.display_name() == trimmed(task.title)
            &&& !has_name && !has_title ==> task.display_name() == seq!['A', 'g', 'e', 'n', 't']
        }),
{
    law_trimming(task.title);
    if let Some(name) = task.snapshot_name {
        law_trimming(name);
    }
    reveal_strlit("Agent");
    assert("Agent"@ =~= seq!['A', 'g', 'e', 'n', 't']);
}

/// The title to fall back on is the trimmed title wherever the title is not blank, whatever
/// else the task holds, and there is none elsewhere.
pub proof fn law_fallback_title(task: TaskView)
    ensures
        ({
            let has_title = exists|i: int|
                0 <= i < task.title.len() && !is_white_space(#[trigger] task.title[i]);
            task.fallback_title() == if has_title {
                Some(trimmed(task.title))
            } else {
                None
            }
        }),
{
    law_trimming(task.title);
}

/// The session of a task is the one that its text stands for, in whatever state the task is;
/// there is none where the text is missing or malformed.
pub proof fn law_session_of_task(task: TaskView)
    ensures
        match task.session_id {
            Some(text) => if is_uuid_text(text) {
                task.session() == Some(SessionId(uuid_value(text) as u128))
            } else {
                task.session() is None
            },
            None => task.session() is None,
        },
{
}

/// What a viewer reads of a task is what the task holds.
pub proof fn law_task_view(task: AmbientAgentTask)
    ensures
        task@.task_id == task.task_id,
        task@.state == task.state,
        task@.title == task.title@,
        match task.agent_config_snapshot {
            Some(snapshot) => match snapshot.name {
                Some(name) => task@.snapshot_name == Some(name@),
                None => task@.snapshot_name is None,
            },
            None => task@.snapshot_name is None,
        },
        match task.session_id {
            Some(text) => task@.session_id == Some(text@),
            None => task@.session_id is None,
        },
{
}

/// An optional text is there exactly where its characters are.
pub proof fn law_text_of(text: Option<String>)
    ensures
        match text {
            Some(s) => text_of(text) == Some(s@),
            None => text_of(text) is None,
        },
{
}

} // verus!
