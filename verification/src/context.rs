//! What the panes of one application share.
use crate::history::{BlocklistAIHistoryModel, HistoryView};
use crate::ids::{AIConversationId, AmbientAgentTaskId, EntityId};
use crate::streamer::OrchestrationEventStreamer;
use vstd::prelude::*;

verus! {

/// The feature flags that the panes and what they share depend on.
#[derive(Clone, Copy, Debug, PartialEq, Eq, Structural)]
pub struct FeatureFlags {
    /// Whether the application has a streamer of orchestration events.
    pub orchestration_v2: bool,
    /// Whether panes consume the streamer's events in place of fetching their children.
    pub orchestration_viewer_streamer: bool,
}

/// The history, the streamer where there is one, and the feature flags.
pub struct ViewerContext {
    pub flags: FeatureFlags,
    pub history: BlocklistAIHistoryModel,
    pub streamer: Option<OrchestrationEventStreamer>,
}

/// The context, with the streamer as the set of its consumers.
pub struct ContextView {
    pub flags: FeatureFlags,
    pub history: HistoryView,
    pub consumers: Option<Set<(AmbientAgentTaskId, EntityId)>>,
}

impl View for ViewerContext {
    type V = ContextView;

    open spec fn view(&self) -> ContextView {
        ContextView {
            flags: self.flags,
            history: self.history@,
            consumers: match self.streamer {
                Some(streamer) => Some(streamer@),
                None => None,
            },
        }
    }
}

/// Makes what an application starts with: an empty history, and a streamer without
/// consumers where the flags ask for one.
pub fn initialize_app_for_terminal_view(flags: FeatureFlags) -> (ctx: ViewerContext)
    ensures
        ctx@.flags == flags,
        ctx@.history.conversations.len() == 0,
        ctx@.history.active == Map::<u64, AIConversationId>::empty(),
        ctx@.consumers == if flags.orchestration_v2 {
            Some(Set::<(AmbientAgentTaskId, EntityId)>::empty())
        } else {
            None
        },
{
    ViewerContext {
        flags,
        history: BlocklistAIHistoryModel::new(),
        streamer: if flags.orchestration_v2 {
            Some(OrchestrationEventStreamer::new())
        } else {
            None
        },
    }
}

} // verus!
