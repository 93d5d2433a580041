use revolver::app::{AppEvent, AppState};
use revolver::protocol::UiToEngine;
use revolver::scheduler::TaskUpdate;
use revolver::task::{TaskDefinition, TaskSnapshot, TaskStatus};

#[test]
fn replay_app_events_reaches_expected_state() {
    let mut app = AppState::new();
    let original_dataset = app.draft.dataset_folder.clone();
    let events = vec![
        AppEvent::OpenTaskInput,
        AppEvent::DraftInsertChar('t'),
        AppEvent::DraftInsertChar('a'),
        AppEvent::DraftInsertChar('s'),
        AppEvent::DraftInsertChar('k'),
        AppEvent::DraftInsertChar('1'),
        AppEvent::DraftSwitchField,
        AppEvent::DraftInsertChar('/'),
        AppEvent::DraftInsertChar('d'),
        AppEvent::DraftInsertChar('s'),
    ];

    for event in events {
        let _ = app.apply_event(event);
    }

    assert_eq!(app.draft.name, "task1");
    assert!(app.draft.dataset_folder.starts_with(&original_dataset));
}

#[test]
fn submitting_a_named_draft_requests_a_task() {
    let mut app = AppState::new();
    app.apply_event(AppEvent::OpenTaskInput);
    for c in "  demo ".chars() {
        app.apply_event(AppEvent::DraftInsertChar(c));
    }
    let result = app.apply_event(AppEvent::DraftSubmit);
    match result.cmd {
        Some(UiToEngine::AddTask { name }) => assert_eq!(name, "demo"),
        other => panic!("expected an add-task command, got {other:?}"),
    }
    // The form is reset and the main screen restored.
    assert_eq!(app.draft.name, "");
    assert_eq!(app.input, "");
}

#[test]
fn submitted_names_are_trimmed_of_unicode_whitespace() {
    let mut app = AppState::new();
    app.apply_event(AppEvent::OpenTaskInput);
    for c in "\u{00A0}demo\u{2003}".chars() {
        app.apply_event(AppEvent::DraftInsertChar(c));
    }
    let result = app.apply_event(AppEvent::DraftSubmit);
    match result.cmd {
        Some(UiToEngine::AddTask { name }) => assert_eq!(name, "demo"),
        other => panic!("expected an add-task command, got {other:?}"),
    }
}

#[test]
fn submitting_an_empty_name_requests_nothing() {
    let mut app = AppState::new();
    app.apply_event(AppEvent::OpenTaskInput);
    let result = app.apply_event(AppEvent::DraftSubmit);
    assert!(result.cmd.is_none());
    assert!(!result.quit);
}

#[test]
fn quit_event_requests_quit() {
    let mut app = AppState::new();
    let result = app.apply_event(AppEvent::Quit);
    assert!(result.quit);
    assert!(result.cmd.is_none());
}

#[test]
fn upserts_key_by_id_and_clamp_the_selection() {
    let mut app = AppState::new();
    let d1 = TaskDefinition::mock(1, "one".to_string());
    let d2 = TaskDefinition::mock(2, "two".to_string());
    app.apply_update(TaskUpdate::Upsert(TaskSnapshot::from_definition(&d1)));
    app.apply_update(TaskUpdate::Upsert(TaskSnapshot::from_definition(&d2)));
    assert_eq!(app.tasks_in_order().len(), 2);

    // A second snapshot for id 1 replaces the first, in place.
    let mut updated = TaskSnapshot::from_definition(&d1);
    updated.status = TaskStatus::Running;
    updated.iteration = 3;
    app.apply_update(TaskUpdate::Upsert(updated));
    let tasks = app.tasks_in_order();
    assert_eq!(tasks.len(), 2);
    assert_eq!(tasks[0].id, 1);
    assert_eq!(tasks[0].iteration, 3);

    app.apply_event(AppEvent::SelectTaskNext);
    let selected = app.selected_task().expect("selection in range");
    assert_eq!(selected.id, 2);
    let result = app.apply_event(AppEvent::CancelSelectedTask);
    match result.cmd {
        Some(UiToEngine::CancelTask { id }) => assert_eq!(id, 2),
        other => panic!("expected a cancel command, got {other:?}"),
    }
}

#[test]
fn log_tail_is_bounded_to_five_lines() {
    let mut app = AppState::new();
    for k in 0..8usize {
        app.apply_update(TaskUpdate::Log { id: 1, message: format!("line {k}") });
    }
    let logs = app.recent_logs();
    assert_eq!(logs.len(), 5);
    assert_eq!(logs[0], "Task 1: line 3");
    assert_eq!(logs[4], "Task 1: line 7");
}

#[test]
fn heuristics_editing_keeps_cursor_in_range() {
    let mut app = AppState::new();
    app.apply_event(AppEvent::OpenTaskInput);
    app.apply_event(AppEvent::DraftSwitchField); // name -> dataset folder
    app.apply_event(AppEvent::DraftSwitchField); // dataset folder -> heuristics
    app.apply_event(AppEvent::DraftAddHeuristic);
    assert_eq!(app.draft.heuristics.len(), 3);
    assert_eq!(app.draft.heuristics[2].title, "Heuristic 3");
    assert_eq!(app.cursor_pos, "Heuristic 3".len());
    for _ in 0..2 {
        app.apply_event(AppEvent::DraftBackspace);
    }
    assert_eq!(app.draft.heuristics[2].title, "Heuristic");
}
