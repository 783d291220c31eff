use orchestration_viewer::clock::Timestamp;
use orchestration_viewer::context::{
    initialize_app_for_terminal_view, FeatureFlags, ViewerContext,
};
use orchestration_viewer::fixtures::{
    make_task, make_task_with_name, make_task_with_name_at, setup_model, task_id,
    CHILD_A_TASK_ID, CHILD_B_TASK_ID, PARENT_TASK_ID, SESSION_A,
};
use orchestration_viewer::history::BlocklistAIHistoryEvent;
use orchestration_viewer::ids::{AIConversationId, EntityId, SessionId};
use orchestration_viewer::status::{AmbientAgentTaskState, ConversationStatus};
use orchestration_viewer::streamer::{OrchestrationEventStreamer, OrchestrationEventStreamerEvent};
use orchestration_viewer::viewer::{OrchestrationViewerModel, PaneMaterialization, ViewerAction};

const VIEW: EntityId = EntityId(1);
const OTHER_VIEW: EntityId = EntityId(2);
const SESSION_B: &str = "55555555-5555-5555-5555-555555555555";

fn app_with(orchestration_v2: bool, orchestration_viewer_streamer: bool) -> ViewerContext {
    initialize_app_for_terminal_view(FeatureFlags {
        orchestration_v2,
        orchestration_viewer_streamer,
    })
}

fn setup() -> (ViewerContext, AIConversationId, OrchestrationViewerModel) {
    let mut app = app_with(false, false);
    let (_, conversation, model) = setup_model(&mut app, VIEW, task_id(PARENT_TASK_ID));
    (app, conversation, model)
}

#[test]
fn fresh_model_has_no_poll_scheduled_and_no_fetch_started() {
    let (mut app, conversation, mut model) = setup();
    assert_eq!(model.parent_task_id, task_id(PARENT_TASK_ID));
    assert_eq!(model.terminal_view_id, VIEW);
    assert!(model.children.is_empty());
    assert!(model.children_by_run_id.is_empty());
    assert!(!model.polling);
    assert_eq!(model.fetch_generation, 0);
    assert_eq!(app.history.active_conversation_id(VIEW), Some(conversation));

    // Taking in tasks leaves both alone.
    model.polling = true;
    model.fetch_generation = 3;
    model.apply_children_fetch(
        vec![make_task(
            CHILD_A_TASK_ID,
            AmbientAgentTaskState::Queued,
            "Worker",
            None,
        )],
        &mut app.history,
    );
    assert!(model.polling);
    assert_eq!(model.fetch_generation, 3);
}

#[test]
fn direct_change_of_the_viewed_conversation_leaves_the_placeholders_alone() {
    let (mut app, conversation, mut model) = setup();
    model.register_child(
        make_task(CHILD_A_TASK_ID, AmbientAgentTaskState::Queued, "Worker", None),
        &mut app.history,
    );
    app.history
        .set_viewing_shared_session_for_conversation(conversation, true);
    if let Some(c) = app.history.conversation_mut(&conversation) {
        c.set_task_id(task_id(PARENT_TASK_ID));
    }
    let id = model.children[&task_id(CHILD_A_TASK_ID).0].conversation_id;
    let child = app.history.conversation(&id).unwrap();
    assert_eq!(child.task_id(), Some(task_id(CHILD_A_TASK_ID)));
    assert!(child.is_viewing_shared_session());
    assert_eq!(child.parent_conversation_id(), Some(conversation));
    assert_eq!(child.terminal_view_id(), VIEW);
}

#[test]
fn stub_task_holds_what_it_is_given() {
    let now = Timestamp {
        seconds: 1_700_000_000,
        nanos: 5,
    };
    let task = make_task_with_name_at(
        CHILD_A_TASK_ID,
        AmbientAgentTaskState::Claimed,
        Some("name"),
        "title",
        Some(SESSION_A),
        now,
    );
    assert_eq!(task.task_id.0, 0x22222222222222222222222222222222);
    assert_eq!(task.parent_run_id.as_deref(), Some(PARENT_TASK_ID));
    assert_eq!(task.title, "title");
    assert_eq!(task.state, AmbientAgentTaskState::Claimed);
    assert_eq!(task.prompt, "");
    assert_eq!(task.created_at, now);
    assert_eq!(task.started_at, Some(now));
    assert_eq!(task.updated_at, now);
    assert_eq!(task.session_id.as_deref(), Some(SESSION_A));
    assert!(!task.is_sandbox_running);
    let snapshot = task.agent_config_snapshot.as_ref().unwrap();
    assert_eq!(snapshot.name.as_deref(), Some("name"));
    assert!(task.artifacts.is_empty());
    assert!(task.children.is_empty());
}

#[test]
fn stub_task_is_made_at_the_present() {
    let before = chrono::Utc::now();
    let task = make_task(CHILD_A_TASK_ID, AmbientAgentTaskState::Queued, "t", None);
    let after = chrono::Utc::now();
    let made = (task.created_at.seconds, task.created_at.nanos);
    assert!((before.timestamp(), before.timestamp_subsec_nanos()) <= made);
    assert!(made <= (after.timestamp(), after.timestamp_subsec_nanos()));
    assert!(task.created_at.nanos < 1_000_000_000);
    assert_eq!(task.started_at, Some(task.created_at));
    assert_eq!(task.updated_at, task.created_at);
}

#[test]
fn pane_request_names_child_conversation_and_session() {
    let (mut app, _, mut model) = setup();
    let pane = model.register_child(
        make_task(
            CHILD_A_TASK_ID,
            AmbientAgentTaskState::InProgress,
            "Worker",
            Some(SESSION_A),
        ),
        &mut app.history,
    );
    assert_eq!(
        pane,
        Some(PaneMaterialization {
            task_id: task_id(CHILD_A_TASK_ID),
            conversation_id: AIConversationId(1),
            session_id: SessionId(0x44444444444444444444444444444444),
        })
    );
}

#[test]
fn known_session_is_kept_and_a_new_one_asks_for_no_second_pane() {
    let (mut app, _, mut model) = setup();
    let state = AmbientAgentTaskState::InProgress;
    let child = task_id(CHILD_A_TASK_ID).0;
    let first = model.register_child(
        make_task(CHILD_A_TASK_ID, state, "Worker", Some(SESSION_A)),
        &mut app.history,
    );
    assert!(first.is_some());
    let second = model.register_child(
        make_task(CHILD_A_TASK_ID, state, "Worker", None),
        &mut app.history,
    );
    assert!(second.is_none());
    assert_eq!(
        model.children[&child].session_id,
        Some(SessionId::parse(SESSION_A).unwrap())
    );
    let third = model.register_child(
        make_task(CHILD_A_TASK_ID, state, "Worker", Some(SESSION_B)),
        &mut app.history,
    );
    assert!(third.is_none());
    assert_eq!(
        model.children[&child].session_id,
        Some(SessionId::parse(SESSION_B).unwrap())
    );
    assert!(model.children[&child].pane_materialization_requested);
}

#[test]
fn malformed_session_counts_as_none() {
    let (mut app, _, mut model) = setup();
    let pane = model.register_child(
        make_task(
            CHILD_A_TASK_ID,
            AmbientAgentTaskState::InProgress,
            "Worker",
            Some("nowhere"),
        ),
        &mut app.history,
    );
    assert!(pane.is_none());
    let entry = model.children[&task_id(CHILD_A_TASK_ID).0];
    assert_eq!(entry.session_id, None);
    assert!(!entry.pane_materialization_requested);
}

#[test]
fn same_task_again_changes_nothing() {
    let (mut app, conversation, mut model) = setup();
    let task = make_task(
        CHILD_A_TASK_ID,
        AmbientAgentTaskState::InProgress,
        "Worker",
        Some(SESSION_A),
    );
    model.register_child(task.clone(), &mut app.history);
    let entry = model.children[&task_id(CHILD_A_TASK_ID).0];
    assert!(model.register_child(task, &mut app.history).is_none());
    assert_eq!(model.children[&task_id(CHILD_A_TASK_ID).0], entry);
    assert_eq!(model.children.len(), 1);
    assert_eq!(
        app.history.child_conversation_ids_of(&conversation),
        vec![AIConversationId(1)]
    );
}

#[test]
fn deferred_child_is_taken_in_later() {
    let mut app = app_with(false, false);
    let mut model = OrchestrationViewerModel::empty(task_id(PARENT_TASK_ID), VIEW);
    let task = make_task(
        CHILD_A_TASK_ID,
        AmbientAgentTaskState::InProgress,
        "Worker",
        Some(SESSION_A),
    );
    assert!(model
        .register_child(task.clone(), &mut app.history)
        .is_none());
    assert!(model.children.is_empty());
    assert!(app
        .history
        .all_live_conversations_for_terminal_view(VIEW)
        .is_empty());

    let id = app.history.start_new_conversation(VIEW, false);
    app.history.set_active_conversation_id(id, VIEW);
    assert!(model.register_child(task, &mut app.history).is_some());
    assert_eq!(model.children.len(), 1);
    assert_eq!(app.history.child_conversation_ids_of(&id).len(), 1);
}

#[test]
fn status_told_by_an_event_outlives_an_unchanged_state() {
    let (mut app, conversation, mut model) = setup();
    let task = make_task(
        CHILD_A_TASK_ID,
        AmbientAgentTaskState::InProgress,
        "Worker",
        None,
    );
    model.register_child(task.clone(), &mut app.history);
    let blocked = ConversationStatus::Blocked {
        blocked_action: "git push".to_string(),
    };
    let action = model.handle_streamer_event(
        &OrchestrationEventStreamerEvent::ChildStatusChanged {
            parent_task_id: task_id(PARENT_TASK_ID),
            run_id: CHILD_A_TASK_ID.to_string(),
            status: blocked.clone(),
        },
        &mut app.history,
    );
    assert!(action.is_none());
    model.register_child(task, &mut app.history);
    let id = app.history.child_conversation_ids_of(&conversation)[0];
    assert_eq!(app.history.conversation(&id).unwrap().status(), &blocked);

    model.register_child(
        make_task(
            CHILD_A_TASK_ID,
            AmbientAgentTaskState::Blocked,
            "Worker",
            None,
        ),
        &mut app.history,
    );
    assert_eq!(
        app.history.conversation(&id).unwrap().status(),
        &ConversationStatus::Blocked {
            blocked_action: String::new()
        }
    );
}

#[test]
fn status_of_one_child_leaves_the_others_alone() {
    let (mut app, conversation, mut model) = setup();
    for run_id in [CHILD_A_TASK_ID, CHILD_B_TASK_ID] {
        model.register_child(
            make_task(run_id, AmbientAgentTaskState::InProgress, "Worker", None),
            &mut app.history,
        );
    }
    model.handle_child_status_changed(
        CHILD_B_TASK_ID,
        ConversationStatus::Cancelled,
        &mut app.history,
    );
    let ids = app.history.child_conversation_ids_of(&conversation);
    let status = |id: &AIConversationId| app.history.conversation(id).unwrap().status().clone();
    assert_eq!(status(&conversation), ConversationStatus::InProgress);
    assert_eq!(status(&ids[0]), ConversationStatus::InProgress);
    assert_eq!(status(&ids[1]), ConversationStatus::Cancelled);
}

#[test]
fn panes_of_two_views_do_not_disturb_each_other() {
    let (mut app, _, mut model) = setup();
    let other_conversation = app.history.start_new_conversation(OTHER_VIEW, false);
    app.history
        .set_active_conversation_id(other_conversation, OTHER_VIEW);
    let mut other = OrchestrationViewerModel::empty(task_id(PARENT_TASK_ID), OTHER_VIEW);
    let task = make_task(
        CHILD_A_TASK_ID,
        AmbientAgentTaskState::InProgress,
        "Worker",
        None,
    );
    model.register_child(task.clone(), &mut app.history);
    other.register_child(task, &mut app.history);
    other.handle_child_status_changed(
        CHILD_A_TASK_ID,
        ConversationStatus::Error,
        &mut app.history,
    );
    let own = model.children[&task_id(CHILD_A_TASK_ID).0].conversation_id;
    let others = other.children[&task_id(CHILD_A_TASK_ID).0].conversation_id;
    assert_eq!(
        app.history.conversation(&own).unwrap().status(),
        &ConversationStatus::InProgress
    );
    assert_eq!(
        app.history.conversation(&others).unwrap().status(),
        &ConversationStatus::Error
    );
    assert_eq!(
        app.history.conversation(&others).unwrap().terminal_view_id(),
        OTHER_VIEW
    );
    assert_eq!(
        app.history.conversation(&own).unwrap().task_id(),
        Some(task_id(CHILD_A_TASK_ID))
    );
}

#[test]
fn spawned_child_is_fetched_and_then_reached() {
    let (mut app, conversation, mut model) = setup();
    let action = model.handle_streamer_event(
        &OrchestrationEventStreamerEvent::ChildSpawned {
            parent_task_id: task_id(PARENT_TASK_ID),
            run_id: CHILD_A_TASK_ID.to_string(),
        },
        &mut app.history,
    );
    assert_eq!(
        action,
        Some(ViewerAction::FetchTask(task_id(CHILD_A_TASK_ID)))
    );
    model.register_child(
        make_task(CHILD_A_TASK_ID, AmbientAgentTaskState::Queued, "Worker", None),
        &mut app.history,
    );
    model.handle_child_status_changed(
        &task_id(CHILD_A_TASK_ID).run_id(),
        ConversationStatus::Success,
        &mut app.history,
    );
    let id = app.history.child_conversation_ids_of(&conversation)[0];
    assert_eq!(
        app.history.conversation(&id).unwrap().status(),
        &ConversationStatus::Success
    );
}

#[test]
fn spawn_under_another_task_is_ignored() {
    let (mut app, _, model) = setup();
    let action = model.handle_streamer_event(
        &OrchestrationEventStreamerEvent::ChildSpawned {
            parent_task_id: task_id(CHILD_B_TASK_ID),
            run_id: CHILD_A_TASK_ID.to_string(),
        },
        &mut app.history,
    );
    assert_eq!(action, None);
}

#[test]
fn fetch_takes_in_all_but_the_viewed_task() {
    let (mut app, conversation, mut model) = setup();
    let state = AmbientAgentTaskState::InProgress;
    let panes = model.apply_children_fetch(
        vec![
            make_task(CHILD_A_TASK_ID, state, "One", None),
            make_task(PARENT_TASK_ID, state, "Self", Some(SESSION_A)),
            make_task(CHILD_B_TASK_ID, state, "Two", Some(SESSION_B)),
            make_task(CHILD_A_TASK_ID, state, "One", Some(SESSION_A)),
            make_task(CHILD_B_TASK_ID, state, "Two", Some(SESSION_B)),
        ],
        &mut app.history,
    );
    let asked: Vec<_> = panes.iter().map(|p| p.task_id).collect();
    assert_eq!(
        asked,
        vec![task_id(CHILD_B_TASK_ID), task_id(CHILD_A_TASK_ID)]
    );
    assert_eq!(model.children.len(), 2);
    assert!(!model.children.contains_key(&task_id(PARENT_TASK_ID).0));
    assert_eq!(
        app.history.child_conversation_ids_of(&conversation),
        vec![AIConversationId(1), AIConversationId(2)]
    );
    assert_eq!(
        app.history.active_conversation_id(VIEW),
        Some(conversation)
    );
}

#[test]
fn blank_name_falls_back_and_titles_are_trimmed() {
    let label = |name: Option<&str>, title: &str| {
        make_task_with_name(
            CHILD_A_TASK_ID,
            AmbientAgentTaskState::Queued,
            name,
            title,
            None,
        )
        .display_name()
    };
    assert_eq!(label(Some(" \t "), "\u{3000}Build it\n"), "Build it");
    assert_eq!(label(Some(""), " "), "Agent");
    assert_eq!(label(Some("\u{a0}lint er "), "Build it"), "lint er");
}

#[test]
fn pane_begins_with_a_fetch_where_the_streamed_path_is_off() {
    let mut app = app_with(true, false);
    let (view, _, _) = setup_model(&mut app, VIEW, task_id(PARENT_TASK_ID));
    let (model, action) = OrchestrationViewerModel::new(task_id(PARENT_TASK_ID), view, &mut app);
    assert_eq!(action, Some(ViewerAction::FetchChildren));
    assert!(model.children.is_empty());
    let streamer = app.streamer.as_ref().unwrap();
    assert_eq!(
        streamer.viewer_mode_consumer_count_for_test(task_id(PARENT_TASK_ID)),
        0
    );
}

#[test]
fn children_so_far_are_asked_for_once() {
    let parent = task_id(PARENT_TASK_ID);
    let mut app = app_with(true, true);
    let (model, action) = OrchestrationViewerModel::new(parent, VIEW, &mut app);
    assert_eq!(action, None);

    // Another view's conversation does not help.
    let id = app.history.start_new_conversation(VIEW, true);
    let event = app.history.set_active_conversation_id(id, OTHER_VIEW);
    assert_eq!(
        event,
        BlocklistAIHistoryEvent::SetActiveConversation {
            conversation_id: id,
            terminal_view_id: OTHER_VIEW,
        }
    );
    assert_eq!(model.handle_history_event(&event, &mut app), None);

    let event = app.history.set_active_conversation_id(id, VIEW);
    assert_eq!(
        model.handle_history_event(&event, &mut app),
        Some(ViewerAction::SeedChildren)
    );
    assert_eq!(model.handle_history_event(&event, &mut app), None);
    let streamer = app.streamer.as_ref().unwrap();
    assert_eq!(streamer.viewer_mode_consumer_count_for_test(parent), 1);
}

#[test]
fn no_streamer_means_no_registration() {
    let parent = task_id(PARENT_TASK_ID);
    let mut app = app_with(false, true);
    let (view, _, _) = setup_model(&mut app, VIEW, parent);
    let (_, action) = OrchestrationViewerModel::new(parent, view, &mut app);
    assert_eq!(action, None);
    assert!(app.streamer.is_none());
}

#[test]
fn consumers_count_once_per_pane_and_leave_once() {
    let parent = task_id(PARENT_TASK_ID);
    let other = task_id(CHILD_A_TASK_ID);
    let mut streamer = OrchestrationEventStreamer::new();
    assert!(streamer.register_viewer_mode_consumer(parent, VIEW));
    assert!(!streamer.register_viewer_mode_consumer(parent, VIEW));
    assert!(streamer.register_viewer_mode_consumer(parent, OTHER_VIEW));
    assert!(streamer.register_viewer_mode_consumer(other, VIEW));
    assert_eq!(streamer.viewer_mode_consumer_count_for_test(parent), 2);
    streamer.unregister_viewer_mode_consumer(parent, VIEW);
    streamer.unregister_viewer_mode_consumer(parent, VIEW);
    assert_eq!(streamer.viewer_mode_consumer_count_for_test(parent), 1);
    assert_eq!(streamer.viewer_mode_consumer_count_for_test(other), 1);
    assert!(streamer.register_viewer_mode_consumer(parent, VIEW));
    assert_eq!(streamer.viewer_mode_consumer_count_for_test(parent), 2);
}

#[test]
fn history_passes_over_what_it_does_not_have() {
    let mut app = app_with(false, false);
    let id = app.history.start_new_conversation(VIEW, true);
    let nowhere = AIConversationId(9);
    app.history
        .update_conversation_status(nowhere, ConversationStatus::Error);
    app.history
        .set_viewing_shared_session_for_conversation(nowhere, false);
    assert!(app.history.conversation(&nowhere).is_none());
    assert!(app.history.conversation_mut(&nowhere).is_none());
    assert_eq!(app.history.active_conversation_id(VIEW), None);
    let conversation = app.history.conversation(&id).unwrap();
    assert!(conversation.is_viewing_shared_session());
    assert_eq!(conversation.agent_name(), None);
    assert_eq!(conversation.title(), None);
    assert_eq!(conversation.task_id(), None);
    assert_eq!(conversation.parent_conversation_id(), None);
    assert_eq!(conversation.status(), &ConversationStatus::InProgress);
}
