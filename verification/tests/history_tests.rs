use miditui::history::{HistoryManager, StateSnapshot, MAX_HISTORY_SIZE};
use miditui::midi::{IdAllocator, Project};
use std::collections::HashSet;

#[test]
fn test_history_push_and_pop() {
    let mut ids = IdAllocator::new();
    let mut history = HistoryManager::new();

    let project = Project::with_default_track(&mut ids, "Test");
    let snapshot = StateSnapshot::new(&project, 0, &HashSet::new(), "Test action");

    history.push_undo(snapshot);

    assert!(history.can_undo());
    assert!(!history.can_redo());
    assert_eq!(history.undo_count(), 1);

    let restored = history.pop_undo().unwrap();
    assert_eq!(restored.description, "Test action");
    assert!(!history.can_undo());
}

#[test]
fn test_history_max_size() {
    let mut ids = IdAllocator::new();
    let mut history = HistoryManager::new();

    let project = Project::with_default_track(&mut ids, "Test");

    // Push more than MAX_HISTORY_SIZE entries
    for i in 0..MAX_HISTORY_SIZE + 5 {
        let snapshot =
            StateSnapshot::new(&project, 0, &HashSet::new(), &format!("Action {}", i));
        history.push_undo(snapshot);
    }

    // Should only keep MAX_HISTORY_SIZE entries
    assert_eq!(history.undo_count(), MAX_HISTORY_SIZE);

    // The oldest entries should have been removed
    // Most recent should still be there
    let last = history.pop_undo().unwrap();
    assert_eq!(last.description, format!("Action {}", MAX_HISTORY_SIZE + 4));
}

#[test]
fn test_redo_cleared_on_new_action() {
    let mut ids = IdAllocator::new();
    let mut history = HistoryManager::new();

    let project = Project::with_default_track(&mut ids, "Test");

    // Create an undo state
    history.push_undo(StateSnapshot::new(&project, 0, &HashSet::new(), "Action 1"));

    // Pop it and push to redo (simulating an undo operation)
    let undone = history.pop_undo().unwrap();
    history.push_redo(undone);

    assert!(history.can_redo());

    // New action should clear redo stack
    history.push_undo(StateSnapshot::new(&project, 0, &HashSet::new(), "Action 2"));

    assert!(!history.can_redo());
}

#[test]
fn test_snapshot_validation() {
    let mut ids = IdAllocator::new();
    let project = Project::with_default_track(&mut ids, "Test");

    // Valid snapshot
    let valid = StateSnapshot::new(&project, 0, &HashSet::new(), "Valid");
    assert!(valid.is_valid());

    // Invalid track index
    let invalid = StateSnapshot::new(&project, 10, &HashSet::new(), "Invalid");
    assert!(!invalid.is_valid());
}

#[test]
fn test_multi_level_undo_redo() {
    // Test that if user undoes 4 changes, they can redo those same 4 changes
    let mut ids = IdAllocator::new();
    let mut history = HistoryManager::new();
    let project = Project::with_default_track(&mut ids, "Test");

    // Simulate 4 user actions
    for i in 0..4 {
        history.push_undo(StateSnapshot::new(
            &project,
            0,
            &HashSet::new(),
            &format!("Action {}", i),
        ));
    }

    assert_eq!(history.undo_count(), 4);
    assert_eq!(history.redo_count(), 0);

    // Undo all 4 actions
    for _ in 0..4 {
        let undone = history.pop_undo().unwrap();
        history.push_redo(undone);
    }

    assert_eq!(history.undo_count(), 0);
    assert_eq!(history.redo_count(), 4);

    // Now redo all 4 actions using push_undo_preserve_redo
    for _ in 0..4 {
        let redone = history.pop_redo().unwrap();
        // This is the key: use push_undo_preserve_redo, NOT push_undo
        history.push_undo_preserve_redo(redone);
    }

    // Should have all 4 back in undo stack, redo should be empty
    assert_eq!(history.undo_count(), 4);
    assert_eq!(history.redo_count(), 0);
}

#[test]
fn test_new_action_clears_redo_after_undo() {
    // Test that a new action after undo clears the redo stack
    let mut ids = IdAllocator::new();
    let mut history = HistoryManager::new();
    let project = Project::with_default_track(&mut ids, "Test");

    // Make 3 actions
    for i in 0..3 {
        history.push_undo(StateSnapshot::new(
            &project,
            0,
            &HashSet::new(),
            &format!("Action {}", i),
        ));
    }

    // Undo 2 of them
    for _ in 0..2 {
        let undone = history.pop_undo().unwrap();
        history.push_redo(undone);
    }

    assert_eq!(history.undo_count(), 1);
    assert_eq!(history.redo_count(), 2);

    // Make a NEW action (this should clear redo stack - branching timeline)
    history.push_undo(StateSnapshot::new(
        &project,
        0,
        &HashSet::new(),
        "New action after undo",
    ));

    // Redo stack should be cleared, undo should have 2 items
    assert_eq!(history.undo_count(), 2);
    assert_eq!(history.redo_count(), 0);
}

#[test]
fn snapshot_is_a_deep_copy_with_the_selection() {
    let mut ids = IdAllocator::new();
    let mut project = Project::with_default_track(&mut ids, "Test");
    let a = project.track_at_mut(0).unwrap().create_note(&mut ids, 60, 100, 0, 480);
    let mut selected = HashSet::new();
    selected.insert(a.as_u64());
    selected.insert(999);
    let snap = StateSnapshot::new(&project, 0, &selected, "Edit");
    project.track_at_mut(0).unwrap().clear();
    project.name = "Changed".to_string();
    assert_eq!(snap.project.name, "Test");
    assert_eq!(snap.project.track_at(0).unwrap().note_count(), 1);
    assert_eq!(snap.selected_notes, selected);
    let kept = snap.valid_selected_notes();
    assert_eq!(kept.len(), 1);
    assert!(kept.contains(&a.as_u64()));
    let off = StateSnapshot::new(&project, 5, &selected, "Off");
    assert!(off.valid_selected_notes().is_empty());
}

#[test]
fn snapshot_of_a_project_without_tracks_is_valid() {
    let project = Project::new("Empty");
    assert!(StateSnapshot::new(&project, 0, &HashSet::new(), "x").is_valid());
    assert!(StateSnapshot::new(&project, 3, &HashSet::new(), "x").is_valid());
}

#[test]
fn redo_stack_keeps_the_newest_eight() {
    let project = Project::new("Test");
    let mut history = HistoryManager::new();
    for i in 0..11 {
        history.push_redo(StateSnapshot::new(&project, 0, &HashSet::new(), &format!("R{}", i)));
    }
    assert_eq!(history.redo_count(), 8);
    assert_eq!(history.pop_redo().unwrap().description, "R10");
    for _ in 0..7 {
        history.pop_redo();
    }
    assert!(history.pop_redo().is_none());
    history.push_undo(StateSnapshot::new(&project, 0, &HashSet::new(), "U"));
    history.clear();
    assert!(!history.can_undo());
    assert!(!history.can_redo());
}
