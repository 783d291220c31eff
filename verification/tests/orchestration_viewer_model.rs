use orchestration_viewer::context::{
    initialize_app_for_terminal_view, FeatureFlags, ViewerContext,
};
use orchestration_viewer::fixtures::{
    make_task, make_task_with_name, setup_model, task_id, CHILD_A_TASK_ID, CHILD_B_TASK_ID,
    PARENT_TASK_ID, SESSION_A,
};
use orchestration_viewer::ids::{EntityId, SessionId};
use orchestration_viewer::status::{
    conversation_status_from_state, AmbientAgentTaskState, ConversationStatus,
};
use orchestration_viewer::streamer::OrchestrationEventStreamerEvent;
use orchestration_viewer::viewer::OrchestrationViewerModel;

const VIEW: EntityId = EntityId(1);

fn app() -> ViewerContext {
    initialize_app_for_terminal_view(FeatureFlags {
        orchestration_v2: false,
        orchestration_viewer_streamer: false,
    })
}

fn app_under_flags() -> ViewerContext {
    initialize_app_for_terminal_view(FeatureFlags {
        orchestration_v2: true,
        orchestration_viewer_streamer: true,
    })
}

// ---- Statuses ---------------------------------------------------------------

#[test]
fn maps_working_states_to_in_progress() {
    for state in [
        AmbientAgentTaskState::Queued,
        AmbientAgentTaskState::Pending,
        AmbientAgentTaskState::Claimed,
        AmbientAgentTaskState::InProgress,
    ] {
        assert!(
            matches!(
                conversation_status_from_state(&state),
                ConversationStatus::InProgress
            ),
            "expected InProgress for {state:?}",
        );
    }
}

#[test]
fn maps_succeeded_to_success() {
    assert!(matches!(
        conversation_status_from_state(&AmbientAgentTaskState::Succeeded),
        ConversationStatus::Success
    ));
}

#[test]
fn maps_failed_and_error_to_error() {
    assert!(matches!(
        conversation_status_from_state(&AmbientAgentTaskState::Failed),
        ConversationStatus::Error
    ));
    assert!(matches!(
        conversation_status_from_state(&AmbientAgentTaskState::Error),
        ConversationStatus::Error
    ));
}

#[test]
fn maps_blocked_to_blocked() {
    let status = conversation_status_from_state(&AmbientAgentTaskState::Blocked);
    assert!(matches!(status, ConversationStatus::Blocked { .. }));
}

#[test]
fn maps_cancelled_to_cancelled() {
    assert!(matches!(
        conversation_status_from_state(&AmbientAgentTaskState::Cancelled),
        ConversationStatus::Cancelled
    ));
}

#[test]
fn unknown_state_maps_to_error() {
    assert!(matches!(
        conversation_status_from_state(&AmbientAgentTaskState::Unknown),
        ConversationStatus::Error
    ));
}

// ---- Registration -----------------------------------------------------------

#[test]
fn registers_new_child_conversation() {
    let mut app = app();
    let parent = task_id(PARENT_TASK_ID);
    let (_, parent_conv_id, mut model) = setup_model(&mut app, VIEW, parent);

    model.register_child(
        make_task(
            CHILD_A_TASK_ID,
            AmbientAgentTaskState::InProgress,
            "Worker",
            None,
        ),
        &mut app.history,
    );

    // The child is in the model's index.
    let entry = model
        .children
        .get(&task_id(CHILD_A_TASK_ID).0)
        .expect("child registered");
    assert!(entry.session_id.is_none());
    assert!(!entry.pane_materialization_requested);
    assert!(matches!(
        entry.last_state,
        AmbientAgentTaskState::InProgress
    ));
    // So it is under its run id.
    assert_eq!(
        model.children_by_run_id.get(CHILD_A_TASK_ID),
        Some(&task_id(CHILD_A_TASK_ID))
    );

    // The child's conversation is in the history, linked to its parent.
    let child_ids = app.history.child_conversation_ids_of(&parent_conv_id);
    assert_eq!(child_ids.len(), 1, "expected one child conversation");
    let child = app
        .history
        .conversation(&child_ids[0])
        .expect("child conversation exists");
    assert_eq!(child.agent_name(), Some("Worker"));
    assert_eq!(
        child.parent_conversation_id(),
        Some(parent_conv_id),
        "child linked to parent conversation"
    );
    assert!(child.is_viewing_shared_session());
    assert!(matches!(child.status(), ConversationStatus::InProgress));
}

#[test]
fn skips_parent_task_id_as_child() {
    let mut app = app();
    let parent = task_id(PARENT_TASK_ID);
    let (_, parent_conv_id, mut model) = setup_model(&mut app, VIEW, parent);

    model.register_child(
        make_task(
            PARENT_TASK_ID,
            AmbientAgentTaskState::Succeeded,
            "Self",
            None,
        ),
        &mut app.history,
    );

    assert!(
        model.children.is_empty(),
        "parent task should not register itself as a child"
    );
    assert!(
        app.history
            .child_conversation_ids_of(&parent_conv_id)
            .is_empty(),
        "no child conversations should have been created"
    );
}

#[test]
fn skips_child_when_no_active_parent_conversation() {
    let mut app = app();
    let mut model = OrchestrationViewerModel::empty(task_id(PARENT_TASK_ID), VIEW);

    model.register_child(
        make_task(
            CHILD_A_TASK_ID,
            AmbientAgentTaskState::InProgress,
            "Worker",
            None,
        ),
        &mut app.history,
    );

    assert!(
        model.children.is_empty(),
        "child should not be registered without a parent conversation"
    );
}

#[test]
fn updates_status_on_state_change() {
    let mut app = app();
    let parent = task_id(PARENT_TASK_ID);
    let (_, parent_conv_id, mut model) = setup_model(&mut app, VIEW, parent);

    // The child is in progress.
    model.register_child(
        make_task(
            CHILD_A_TASK_ID,
            AmbientAgentTaskState::InProgress,
            "Worker",
            None,
        ),
        &mut app.history,
    );

    // The same child has succeeded.
    model.register_child(
        make_task(
            CHILD_A_TASK_ID,
            AmbientAgentTaskState::Succeeded,
            "Worker",
            None,
        ),
        &mut app.history,
    );

    let entry = model.children.get(&task_id(CHILD_A_TASK_ID).0).unwrap();
    assert!(matches!(entry.last_state, AmbientAgentTaskState::Succeeded));

    let child_ids = app.history.child_conversation_ids_of(&parent_conv_id);
    assert_eq!(child_ids.len(), 1, "still one child after re-registration");
    let child = app.history.conversation(&child_ids[0]).unwrap();
    assert!(matches!(child.status(), ConversationStatus::Success));
}

#[test]
fn materialization_requested_only_once_per_child() {
    let mut app = app();
    let parent = task_id(PARENT_TASK_ID);
    let (_, _, mut model) = setup_model(&mut app, VIEW, parent);

    // The child has a session from the start.
    let first = model.register_child(
        make_task(
            CHILD_A_TASK_ID,
            AmbientAgentTaskState::InProgress,
            "Worker",
            Some(SESSION_A),
        ),
        &mut app.history,
    );
    let entry = model.children.get(&task_id(CHILD_A_TASK_ID).0).unwrap();
    assert!(entry.session_id.is_some());
    assert!(
        entry.pane_materialization_requested,
        "first sight with session_id should ask for the pane"
    );
    assert!(first.is_some());

    // The same child, still in the same session: the pane is not asked for again.
    let second = model.register_child(
        make_task(
            CHILD_A_TASK_ID,
            AmbientAgentTaskState::InProgress,
            "Worker",
            Some(SESSION_A),
        ),
        &mut app.history,
    );
    let entry = model.children.get(&task_id(CHILD_A_TASK_ID).0).unwrap();
    assert!(entry.pane_materialization_requested);
    assert!(second.is_none());
}

#[test]
fn materialization_gate_flips_on_session_id_transition() {
    let mut app = app();
    let parent = task_id(PARENT_TASK_ID);
    let (_, _, mut model) = setup_model(&mut app, VIEW, parent);

    // No session yet.
    model.register_child(
        make_task(
            CHILD_A_TASK_ID,
            AmbientAgentTaskState::Queued,
            "Worker",
            None,
        ),
        &mut app.history,
    );
    let entry = model.children.get(&task_id(CHILD_A_TASK_ID).0).unwrap();
    assert!(entry.session_id.is_none());
    assert!(
        !entry.pane_materialization_requested,
        "no session_id ⇒ no materialization yet"
    );

    // The session arrives.
    model.register_child(
        make_task(
            CHILD_A_TASK_ID,
            AmbientAgentTaskState::InProgress,
            "Worker",
            Some(SESSION_A),
        ),
        &mut app.history,
    );
    let entry = model.children.get(&task_id(CHILD_A_TASK_ID).0).unwrap();
    assert_eq!(entry.session_id, Some(SessionId::parse(SESSION_A).unwrap()));
    assert!(entry.pane_materialization_requested);
}

#[test]
fn registers_multiple_children() {
    let mut app = app();
    let parent = task_id(PARENT_TASK_ID);
    let (_, parent_conv_id, mut model) = setup_model(&mut app, VIEW, parent);

    model.register_child(
        make_task(
            CHILD_A_TASK_ID,
            AmbientAgentTaskState::InProgress,
            "Agent One",
            None,
        ),
        &mut app.history,
    );
    model.register_child(
        make_task(
            CHILD_B_TASK_ID,
            AmbientAgentTaskState::Succeeded,
            "Agent Two",
            None,
        ),
        &mut app.history,
    );

    assert_eq!(model.children.len(), 2);
    assert!(model.children.contains_key(&task_id(CHILD_A_TASK_ID).0));
    assert!(model.children.contains_key(&task_id(CHILD_B_TASK_ID).0));
    let child_ids = app.history.child_conversation_ids_of(&parent_conv_id);
    assert_eq!(child_ids.len(), 2);
}

// ---- Labels -----------------------------------------------------------------

#[test]
fn registers_child_agent_name_from_snapshot_name() {
    let mut app = app();
    let parent = task_id(PARENT_TASK_ID);
    let (_, parent_conv_id, mut model) = setup_model(&mut app, VIEW, parent);

    model.register_child(
        make_task_with_name(
            CHILD_A_TASK_ID,
            AmbientAgentTaskState::InProgress,
            Some("frontend-tests"),
            "Long descriptive task title",
            None,
        ),
        &mut app.history,
    );

    let child_ids = app.history.child_conversation_ids_of(&parent_conv_id);
    let child = app
        .history
        .conversation(&child_ids[0])
        .expect("child conversation exists");
    assert_eq!(child.agent_name(), Some("frontend-tests"));
    assert_eq!(
        child.title().as_deref(),
        Some("Long descriptive task title")
    );
}

#[test]
fn registers_child_agent_name_falls_back_to_title_when_snapshot_name_is_missing() {
    let mut app = app();
    let parent = task_id(PARENT_TASK_ID);
    let (_, parent_conv_id, mut model) = setup_model(&mut app, VIEW, parent);

    model.register_child(
        make_task_with_name(
            CHILD_A_TASK_ID,
            AmbientAgentTaskState::InProgress,
            None,
            "Long descriptive task title",
            None,
        ),
        &mut app.history,
    );

    let child_ids = app.history.child_conversation_ids_of(&parent_conv_id);
    let child = app
        .history
        .conversation(&child_ids[0])
        .expect("child conversation exists");
    assert_eq!(child.agent_name(), Some("Long descriptive task title"));
    assert_eq!(
        child.title().as_deref(),
        Some("Long descriptive task title")
    );
}

#[test]
fn registers_child_agent_name_does_not_set_fallback_for_whitespace_only_title() {
    let mut app = app();
    let parent = task_id(PARENT_TASK_ID);
    let (_, parent_conv_id, mut model) = setup_model(&mut app, VIEW, parent);

    model.register_child(
        make_task_with_name(
            CHILD_A_TASK_ID,
            AmbientAgentTaskState::InProgress,
            None,
            "   ",
            None,
        ),
        &mut app.history,
    );

    let child_ids = app.history.child_conversation_ids_of(&parent_conv_id);
    let child = app
        .history
        .conversation(&child_ids[0])
        .expect("child conversation exists");
    assert_eq!(child.agent_name(), Some("Agent"));
    assert_eq!(
        child.title(),
        None,
        "whitespace-only title must not become a fallback display title"
    );
}

#[test]
fn registers_child_agent_name_uses_literal_agent_when_both_are_empty() {
    let mut app = app();
    let parent = task_id(PARENT_TASK_ID);
    let (_, parent_conv_id, mut model) = setup_model(&mut app, VIEW, parent);

    model.register_child(
        make_task_with_name(
            CHILD_A_TASK_ID,
            AmbientAgentTaskState::InProgress,
            None,
            "",
            None,
        ),
        &mut app.history,
    );

    let child_ids = app.history.child_conversation_ids_of(&parent_conv_id);
    let child = app
        .history
        .conversation(&child_ids[0])
        .expect("child conversation exists");
    assert_eq!(child.agent_name(), Some("Agent"));
    assert_eq!(child.title(), None);
}

#[test]
fn registers_child_agent_name_trims_whitespace() {
    let mut app = app();
    let parent = task_id(PARENT_TASK_ID);
    let (_, parent_conv_id, mut model) = setup_model(&mut app, VIEW, parent);

    model.register_child(
        make_task_with_name(
            CHILD_A_TASK_ID,
            AmbientAgentTaskState::InProgress,
            Some("  frontend-tests  "),
            "Long descriptive task title",
            None,
        ),
        &mut app.history,
    );

    let child_ids = app.history.child_conversation_ids_of(&parent_conv_id);
    let child = app
        .history
        .conversation(&child_ids[0])
        .expect("child conversation exists");
    assert_eq!(child.agent_name(), Some("frontend-tests"));
    assert_eq!(
        child.title().as_deref(),
        Some("Long descriptive task title")
    );
}

// ---- Events -----------------------------------------------------------------

#[test]
fn child_status_changed_with_unknown_run_id_is_silently_dropped() {
    let mut app = app();
    let parent = task_id(PARENT_TASK_ID);
    let (terminal_view_id, _, model) = setup_model(&mut app, VIEW, parent);

    // No children are registered, so the run id is not known.
    model.handle_child_status_changed(
        "unknown-run-id",
        ConversationStatus::Success,
        &mut app.history,
    );

    assert!(
        app.history
            .all_live_conversations_for_terminal_view(terminal_view_id)
            .iter()
            .filter(|id| app
                .history
                .conversation(id)
                .unwrap()
                .is_viewing_shared_session())
            .count()
            == 0,
        "no viewer-side placeholder conversations should have been created"
    );
}

#[test]
fn child_status_changed_updates_existing_placeholder_via_local_map() {
    let mut app = app();
    let parent = task_id(PARENT_TASK_ID);
    let (_, parent_conv_id, mut model) = setup_model(&mut app, VIEW, parent);

    model.register_child(
        make_task(
            CHILD_A_TASK_ID,
            AmbientAgentTaskState::InProgress,
            "Worker",
            None,
        ),
        &mut app.history,
    );

    model.handle_child_status_changed(
        CHILD_A_TASK_ID,
        ConversationStatus::Success,
        &mut app.history,
    );

    let child_ids = app.history.child_conversation_ids_of(&parent_conv_id);
    let child = app.history.conversation(&child_ids[0]).unwrap();
    assert!(matches!(child.status(), ConversationStatus::Success));
}

#[test]
fn handle_streamer_event_filters_on_parent_task_id() {
    let mut app = app();
    let parent = task_id(PARENT_TASK_ID);
    let (_, parent_conv_id, mut model) = setup_model(&mut app, VIEW, parent);

    model.register_child(
        make_task(
            CHILD_A_TASK_ID,
            AmbientAgentTaskState::InProgress,
            "Worker",
            None,
        ),
        &mut app.history,
    );

    let other_parent = task_id(CHILD_B_TASK_ID);
    model.handle_streamer_event(
        &OrchestrationEventStreamerEvent::ChildStatusChanged {
            parent_task_id: other_parent,
            run_id: CHILD_A_TASK_ID.to_string(),
            status: ConversationStatus::Cancelled,
        },
        &mut app.history,
    );

    let child_ids = app.history.child_conversation_ids_of(&parent_conv_id);
    let child = app.history.conversation(&child_ids[0]).unwrap();
    assert!(matches!(child.status(), ConversationStatus::InProgress));
}

#[test]
fn child_spawned_with_malformed_run_id_is_dropped() {
    let mut app = app();
    let parent = task_id(PARENT_TASK_ID);
    let (_, _, model) = setup_model(&mut app, VIEW, parent);

    let action = model.handle_child_spawned("not-a-uuid".to_string());

    assert!(action.is_none());
    assert!(model.children.is_empty());
    assert!(model.children_by_run_id.is_empty());
}

// ---- Registration with the streamer ------------------------------------------

#[test]
fn streamer_consumer_is_registered_when_constructed_under_flag() {
    let mut app = app_under_flags();
    let parent = task_id(PARENT_TASK_ID);
    let (terminal_view_id, _parent_conv_id, _) = setup_model(&mut app, VIEW, parent);

    let _ = OrchestrationViewerModel::new(parent, terminal_view_id, &mut app);

    assert_eq!(
        app.streamer
            .as_ref()
            .unwrap()
            .viewer_mode_consumer_count_for_test(parent),
        1
    );

    // Without a streamer, construction goes through all the same.
    app.streamer = None;
    let _ = OrchestrationViewerModel::new(parent, terminal_view_id, &mut app);
    assert!(app.streamer.is_none());
}

#[test]
fn viewer_model_retries_consumer_registration_on_set_active_conversation() {
    let mut app = app_under_flags();
    let parent = task_id(PARENT_TASK_ID);

    // The model is made before its terminal view has an active conversation.
    let (model, _) = OrchestrationViewerModel::new(parent, VIEW, &mut app);

    assert_eq!(
        app.streamer
            .as_ref()
            .unwrap()
            .viewer_mode_consumer_count_for_test(parent),
        0,
        "no viewer-mode consumer should be registered before an active parent placeholder exists"
    );

    // The placeholder of the viewed task becomes the active conversation.
    let id = app.history.start_new_conversation(VIEW, true);
    app.history
        .set_viewing_shared_session_for_conversation(id, true);
    if let Some(conversation) = app.history.conversation_mut(&id) {
        conversation.set_task_id(parent);
    }
    let event = app.history.set_active_conversation_id(id, VIEW);
    model.handle_history_event(&event, &mut app);

    assert_eq!(
        app.streamer
            .as_ref()
            .unwrap()
            .viewer_mode_consumer_count_for_test(parent),
        1,
        "SetActiveConversation for a parent placeholder must trigger viewer-mode consumer \
         registration (regression: pill bar stayed empty in remote-remote case)"
    );
}
