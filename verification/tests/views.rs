//! Rows, keys and cursor of the overlay.

use rewind_overlay::input::{
    handle_rewind_key, move_cursor, rewind_activate, set_rewind_cursor, KeyCode, KeyEvent,
    KeyEventKind,
};
use rewind_overlay::layout::{rewind_overlay_height, rewind_row_at, Rect};
use rewind_overlay::phase::{
    file_count_phrase, ConflictDisplay, RewindConflictInfo, RewindInput, RewindMode, RewindPhase,
    RewindPointInfo, RewindState,
};
use rewind_overlay::text::key_label;

fn area() -> Rect {
    Rect {
        x: 0,
        y: 0,
        width: 40,
        height: 10,
    }
}

fn point(prompt_index: usize) -> RewindPointInfo {
    RewindPointInfo {
        prompt_index,
        created_at: String::new(),
        num_file_snapshots: 0,
        prompt_preview: Some(format!("turn {prompt_index}")),
        has_file_changes: false,
    }
}

fn key(code: KeyCode) -> KeyEvent {
    KeyEvent {
        code,
        kind: KeyEventKind::Press,
    }
}

fn confirm_phase(target: usize, active_idx: usize) -> RewindPhase {
    RewindPhase::Confirm {
        target_prompt_index: target,
        active_idx,
        prompt_preview: None,
        mode: RewindMode::ConversationOnly,
    }
}

fn confirm_state() -> RewindState {
    RewindState {
        phase: confirm_phase(3, 0),
        anchor_entry_idx: 0,
        stashed_draft: None,
        selected_prompt_index: Some(3),
    }
}

fn file_preview_phase(active_idx: usize) -> RewindPhase {
    RewindPhase::FilePreview {
        target_prompt_index: 2,
        mode: RewindMode::All,
        clean_files: vec!["a.rs".into(), "b.rs".into()],
        conflicts: vec![ConflictDisplay {
            path: "c.rs".into(),
            label: "modified",
        }],
        active_idx,
        prompt_preview: Some("turn 2".into()),
    }
}

fn state_with(phase: RewindPhase) -> RewindState {
    RewindState {
        phase,
        anchor_entry_idx: 0,
        stashed_draft: None,
        selected_prompt_index: None,
    }
}

#[test]
fn picker_row_hit_test_maps_to_point_index() {
    let phase = RewindPhase::Picker {
        points: vec![point(0), point(1), point(2)],
        selected: 0,
    };
    // Title is at y+1; rows start at y+2.
    assert_eq!(rewind_row_at(&phase, area(), 5, 1), None);
    assert_eq!(rewind_row_at(&phase, area(), 5, 2), Some(0));
    assert_eq!(rewind_row_at(&phase, area(), 5, 4), Some(2));
    // Past the last point.
    assert_eq!(rewind_row_at(&phase, area(), 5, 5), None);
    // Outside the overlay horizontally.
    assert_eq!(rewind_row_at(&phase, area(), 99, 2), None);
}

#[test]
fn cancel_offer_rows() {
    let phase = RewindPhase::CancelOffer { active_idx: 0 };
    assert_eq!(rewind_row_at(&phase, area(), 5, 3), Some(0));
    assert_eq!(rewind_row_at(&phase, area(), 5, 4), Some(1));
    assert_eq!(rewind_row_at(&phase, area(), 5, 5), None);
}

#[test]
fn confirm_rows() {
    let phase = confirm_phase(0, 0);
    assert_eq!(rewind_row_at(&phase, area(), 5, 2), Some(0));
    assert_eq!(rewind_row_at(&phase, area(), 5, 3), Some(1));
    assert_eq!(rewind_row_at(&phase, area(), 5, 4), Some(2));
    assert_eq!(rewind_row_at(&phase, area(), 5, 5), None);
}

/// Every phase reserves a leading blank row and a trailing one, so the height is
/// (rows the render loop writes) + 1. A short overlay clips the last radio.
#[test]
fn overlay_height_covers_every_rendered_row() {
    let with_files = RewindPhase::ModeSelect {
        target_prompt_index: 1,
        has_file_changes: true,
        offer_files_only: true,
        active_idx: 0,
        prompt_preview: None,
    };
    // Blank + title + 3 radios + trailing blank.
    assert_eq!(rewind_overlay_height(&with_files, 40), 6);

    let RewindPhase::ModeSelect {
        target_prompt_index,
        has_file_changes,
        active_idx,
        ..
    } = with_files
    else {
        unreachable!()
    };
    let inline = RewindPhase::ModeSelect {
        target_prompt_index,
        has_file_changes,
        offer_files_only: false,
        active_idx,
        prompt_preview: None,
    };
    assert_eq!(rewind_overlay_height(&inline, 40), 5);

    // Blank + title + 2 clean + 1 conflict + spacer + 2 radios + trailing blank.
    assert_eq!(rewind_overlay_height(&file_preview_phase(0), 40), 9);
}

/// FilePreview radios sit below the file list plus a one-row spacer.
#[test]
fn file_preview_rows_track_the_file_list() {
    // Title(1) + 2 clean + 1 conflict + 1 spacer -> radios at y+6/y+7.
    let phase = file_preview_phase(0);
    assert_eq!(rewind_row_at(&phase, area(), 5, 5), None);
    assert_eq!(rewind_row_at(&phase, area(), 5, 6), Some(0));
    assert_eq!(rewind_row_at(&phase, area(), 5, 7), Some(1));
    assert_eq!(rewind_row_at(&phase, area(), 5, 8), None);

    // Empty lists render one "nothing to restore" line and no spacer.
    let empty = RewindPhase::FilePreview {
        target_prompt_index: 2,
        mode: RewindMode::FilesOnly,
        clean_files: vec![],
        conflicts: vec![],
        active_idx: 0,
        prompt_preview: None,
    };
    assert_eq!(rewind_row_at(&empty, area(), 5, 3), Some(0));
    assert_eq!(rewind_row_at(&empty, area(), 5, 4), Some(1));
}

#[test]
fn orphan_warning_rows() {
    let phase = RewindPhase::OrphanWarning {
        target_prompt_index: 0,
        active_idx: 0,
        prompt_preview: None,
    };
    assert_eq!(rewind_row_at(&phase, area(), 5, 2), None);
    assert_eq!(rewind_row_at(&phase, area(), 5, 3), Some(0));
    assert_eq!(rewind_row_at(&phase, area(), 5, 4), Some(1));
    assert_eq!(rewind_row_at(&phase, area(), 5, 5), None);
}

#[test]
fn error_dismiss_row() {
    let phase = RewindPhase::Error {
        message: "boom".into(),
    };
    assert_eq!(rewind_row_at(&phase, area(), 5, 3), Some(0));
    assert_eq!(rewind_row_at(&phase, area(), 5, 2), None);
}

#[test]
fn non_interactive_phases_have_no_rows() {
    for phase in [
        RewindPhase::Loading,
        RewindPhase::Previewing {
            target_prompt_index: 0,
            mode: RewindMode::All,
        },
        RewindPhase::Executing {
            target_prompt_index: 0,
            mode: RewindMode::All,
        },
    ] {
        for row in 0..10 {
            assert_eq!(rewind_row_at(&phase, area(), 5, row), None);
        }
    }
}

#[test]
fn set_cursor_moves_and_clamps() {
    let mut phase = RewindPhase::Picker {
        points: vec![point(0), point(1)],
        selected: 0,
    };
    assert!(set_rewind_cursor(&mut phase, 1));
    assert!(!set_rewind_cursor(&mut phase, 1)); // no change
    // Clamp out-of-range to last point (already at last, so no change)
    assert!(!set_rewind_cursor(&mut phase, 99));
    if let RewindPhase::Picker { selected, .. } = phase {
        assert_eq!(selected, 1);
    } else {
        panic!("expected picker");
    }

    let mut confirm = confirm_phase(0, 0);
    set_rewind_cursor(&mut confirm, 2);
    if let RewindPhase::Confirm { active_idx, .. } = confirm {
        assert_eq!(active_idx, 2);
    } else {
        panic!("expected confirm");
    }
    set_rewind_cursor(&mut confirm, 99);
    if let RewindPhase::Confirm { active_idx, .. } = confirm {
        assert_eq!(active_idx, 2);
    } else {
        panic!("expected confirm");
    }

    let mut preview = file_preview_phase(0);
    set_rewind_cursor(&mut preview, 99);
    if let RewindPhase::FilePreview { active_idx, .. } = preview {
        assert_eq!(active_idx, 1, "clamped to the Back row");
    } else {
        panic!("expected file preview");
    }
}

#[test]
fn activate_matches_enter_semantics() {
    let picker = RewindPhase::Picker {
        points: vec![point(10), point(20)],
        selected: 1,
    };
    assert!(matches!(
        rewind_activate(&picker),
        RewindInput::PickerSelect(20)
    ));

    let error = RewindPhase::Error {
        message: "x".into(),
    };
    assert!(matches!(rewind_activate(&error), RewindInput::DismissError));

    let confirm_go = confirm_phase(4, 0);
    assert!(matches!(
        rewind_activate(&confirm_go),
        RewindInput::Confirm(4)
    ));

    let confirm_never = confirm_phase(4, 1);
    assert!(matches!(
        rewind_activate(&confirm_never),
        RewindInput::ConfirmNeverAsk(4)
    ));

    let confirm_no = confirm_phase(4, 2);
    assert!(matches!(
        rewind_activate(&confirm_no),
        RewindInput::Dismissed
    ));

    assert!(matches!(
        rewind_activate(&file_preview_phase(0)),
        RewindInput::Confirm(2)
    ));
    assert!(matches!(
        rewind_activate(&file_preview_phase(1)),
        RewindInput::BackToModeSelect
    ));
}

#[test]
fn confirm_letter_keys() {
    let state = confirm_state();
    assert!(matches!(
        handle_rewind_key(&state, &key(KeyCode::Char('y'))),
        RewindInput::Confirm(3)
    ));
    assert!(matches!(
        handle_rewind_key(&state, &key(KeyCode::Char('n'))),
        RewindInput::Dismissed
    ));
    assert!(matches!(
        handle_rewind_key(&state, &key(KeyCode::Char('a'))),
        RewindInput::ConfirmNeverAsk(3)
    ));
}

#[test]
fn esc_dismisses_from_confirm() {
    let state = confirm_state();
    assert!(matches!(
        handle_rewind_key(&state, &key(KeyCode::Esc)),
        RewindInput::Dismissed
    ));
}

#[test]
fn backspace_from_confirm_returns_to_mode_select() {
    let state = confirm_state();
    assert!(matches!(
        handle_rewind_key(&state, &key(KeyCode::Backspace)),
        RewindInput::BackToModeSelect
    ));
}

/// y confirms, Backspace goes back, Esc leaves the flow entirely.
#[test]
fn file_preview_keys() {
    let state = state_with(file_preview_phase(0));
    assert!(matches!(
        handle_rewind_key(&state, &key(KeyCode::Char('y'))),
        RewindInput::Confirm(2)
    ));
    assert!(matches!(
        handle_rewind_key(&state, &key(KeyCode::Backspace)),
        RewindInput::BackToModeSelect
    ));
    assert!(matches!(
        handle_rewind_key(&state, &key(KeyCode::Esc)),
        RewindInput::Dismissed
    ));
}

#[test]
fn orphan_warning_keys() {
    let state = state_with(RewindPhase::OrphanWarning {
        target_prompt_index: 0,
        active_idx: 0,
        prompt_preview: None,
    });
    assert!(matches!(
        handle_rewind_key(&state, &key(KeyCode::Char('y'))),
        RewindInput::Confirm(0)
    ));
    assert!(matches!(
        handle_rewind_key(&state, &key(KeyCode::Backspace)),
        RewindInput::BackToModeSelect
    ));
    assert!(matches!(
        handle_rewind_key(&state, &key(KeyCode::Esc)),
        RewindInput::Dismissed
    ));
    assert!(matches!(
        handle_rewind_key(&state, &key(KeyCode::Enter)),
        RewindInput::ConfirmCursor
    ));
}

#[test]
fn mode_select_letter_keys() {
    let state = state_with(RewindPhase::ModeSelect {
        target_prompt_index: 2,
        has_file_changes: true,
        offer_files_only: true,
        active_idx: 0,
        prompt_preview: None,
    });
    assert!(matches!(
        handle_rewind_key(&state, &key(KeyCode::Char('a'))),
        RewindInput::SelectMode(RewindMode::All, 2)
    ));
    assert!(matches!(
        handle_rewind_key(&state, &key(KeyCode::Char('c'))),
        RewindInput::SelectMode(RewindMode::ConversationOnly, 2)
    ));
    assert!(matches!(
        handle_rewind_key(&state, &key(KeyCode::Char('f'))),
        RewindInput::SelectMode(RewindMode::FilesOnly, 2)
    ));
}

#[test]
fn files_only_hidden_when_offer_files_only_is_false() {
    let phase = RewindPhase::ModeSelect {
        target_prompt_index: 1,
        has_file_changes: true,
        offer_files_only: false,
        active_idx: 0,
        prompt_preview: None,
    };
    assert_eq!(rewind_row_at(&phase, area(), 5, 2), Some(0));
    assert_eq!(rewind_row_at(&phase, area(), 5, 3), Some(1));
    assert_eq!(rewind_row_at(&phase, area(), 5, 4), None);
}

/// Without tracked edits the files-only row is rendered dim: the mouse cannot hit it,
/// the cursor cannot land on it, and `f` does nothing.
#[test]
fn disabled_files_only_row_is_not_reachable() {
    let phase = RewindPhase::ModeSelect {
        target_prompt_index: 1,
        has_file_changes: false,
        offer_files_only: true,
        active_idx: 0,
        prompt_preview: None,
    };
    assert_eq!(rewind_row_at(&phase, area(), 5, 2), Some(0));
    assert_eq!(rewind_row_at(&phase, area(), 5, 3), Some(1));
    assert_eq!(rewind_row_at(&phase, area(), 5, 4), None, "row disabled");

    let mut cursor = phase.clone();
    move_cursor(&mut cursor, 1);
    move_cursor(&mut cursor, 1);
    move_cursor(&mut cursor, 1);
    if let RewindPhase::ModeSelect { active_idx, .. } = cursor {
        assert_eq!(active_idx, 1, "keyboard clamps below the disabled row");
    } else {
        panic!("expected mode select");
    }
    set_rewind_cursor(&mut cursor, 2);
    if let RewindPhase::ModeSelect { active_idx, .. } = cursor {
        assert_eq!(active_idx, 1, "mouse clamps below the disabled row");
    } else {
        panic!("expected mode select");
    }

    assert!(matches!(
        handle_rewind_key(&state_with(phase), &key(KeyCode::Char('f'))),
        RewindInput::Consumed
    ));
}

#[test]
fn esc_dismisses_from_picker_and_other_phases() {
    let s = state_with(RewindPhase::Picker {
        points: vec![],
        selected: 0,
    });
    assert!(matches!(
        handle_rewind_key(&s, &key(KeyCode::Esc)),
        RewindInput::Dismissed
    ));

    let s = RewindState::new_cancel_offer(0, None, None);
    assert!(matches!(
        handle_rewind_key(&s, &key(KeyCode::Esc)),
        RewindInput::Dismissed
    ));

    let s = state_with(RewindPhase::Loading);
    assert!(matches!(
        handle_rewind_key(&s, &key(KeyCode::Esc)),
        RewindInput::Dismissed
    ));

    let s = state_with(RewindPhase::Previewing {
        target_prompt_index: 1,
        mode: RewindMode::All,
    });
    assert!(matches!(
        handle_rewind_key(&s, &key(KeyCode::Esc)),
        RewindInput::Dismissed
    ));
}

#[test]
fn conflict_display_labels() {
    let label = |t: &str| {
        ConflictDisplay::from_conflict(&RewindConflictInfo {
            path: "x".into(),
            conflict_type: t.into(),
        })
        .label
    };
    assert_eq!(label("modified_externally"), "modified");
    assert_eq!(label("deleted_externally"), "deleted");
    assert_eq!(label("created_externally"), "added");
    assert_eq!(label("something_else"), "conflict");
}

#[test]
fn file_count_phrase_is_singular_for_one() {
    assert_eq!(file_count_phrase(1), "1 file");
    assert_eq!(file_count_phrase(0), "0 files");
    assert_eq!(file_count_phrase(3), "3 files");
}

#[test]
fn key_label_renders_special_sentinels() {
    assert_eq!(key_label('\x1b'), "Esc");
    assert_eq!(key_label('\x08'), "Bksp");
    assert_eq!(key_label('y'), "y");
    assert_eq!(key_label('a'), "a");
}

/// Every mode comes back from the wire as it went there; the old name for files-only still works.
#[test]
fn modes_survive_the_wire() {
    for mode in [
        RewindMode::All,
        RewindMode::ConversationOnly,
        RewindMode::FilesOnly,
    ] {
        assert_eq!(RewindMode::from_wire(mode.as_wire()), mode);
    }
    assert_eq!(RewindMode::All.as_wire(), "all");
    assert_eq!(
        RewindMode::ConversationOnly.as_wire(),
        "conversation_only"
    );
    assert_eq!(RewindMode::FilesOnly.as_wire(), "files_only");
    assert_eq!(RewindMode::from_wire("code_only"), RewindMode::FilesOnly);
    assert_eq!(
        RewindMode::from_wire("something new"),
        RewindMode::ConversationOnly
    );
}

/// Keys that go up are not keys that go down; repeats are.
#[test]
fn releases_do_nothing() {
    let state = confirm_state();
    let mut event = key(KeyCode::Char('y'));
    event.kind = KeyEventKind::Release;
    assert!(matches!(
        handle_rewind_key(&state, &event),
        RewindInput::Consumed
    ));
    event.kind = KeyEventKind::Repeat;
    assert!(matches!(
        handle_rewind_key(&state, &event),
        RewindInput::Confirm(3)
    ));
}

/// A rewind under way takes no keys, and the error panel only those that close it.
#[test]
fn executing_and_error_keys() {
    let executing = state_with(RewindPhase::Executing {
        target_prompt_index: 1,
        mode: RewindMode::All,
    });
    let error = state_with(RewindPhase::Error {
        message: "boom".into(),
    });
    for code in [KeyCode::Esc, KeyCode::Enter] {
        assert!(matches!(
            handle_rewind_key(&executing, &key(code)),
            RewindInput::Consumed
        ));
        assert!(matches!(
            handle_rewind_key(&error, &key(code)),
            RewindInput::DismissError
        ));
    }
    assert!(matches!(
        handle_rewind_key(&error, &key(KeyCode::Char('y'))),
        RewindInput::Consumed
    ));
    assert!(matches!(
        handle_rewind_key(&error, &key(KeyCode::Other)),
        RewindInput::Consumed
    ));
}

/// The keyboard moves within the list and stops at both ends.
#[test]
fn cursor_keys_and_ends() {
    let state = state_with(RewindPhase::Picker {
        points: vec![point(5), point(4)],
        selected: 1,
    });
    assert!(matches!(
        handle_rewind_key(&state, &key(KeyCode::Char('j'))),
        RewindInput::MoveDown
    ));
    assert!(matches!(
        handle_rewind_key(&state, &key(KeyCode::Up)),
        RewindInput::MoveUp
    ));
    assert!(matches!(
        handle_rewind_key(&state, &key(KeyCode::Enter)),
        RewindInput::PickerSelect(4)
    ));
    let mut phase = state.phase;
    move_cursor(&mut phase, 1);
    assert!(matches!(phase, RewindPhase::Picker { selected: 1, .. }));
    move_cursor(&mut phase, -5);
    assert!(matches!(phase, RewindPhase::Picker { selected: 0, .. }));

    let mut none = RewindPhase::Picker {
        points: vec![],
        selected: 0,
    };
    move_cursor(&mut none, 1);
    assert!(matches!(none, RewindPhase::Picker { selected: 0, .. }));
    assert!(!set_rewind_cursor(&mut none, 3));
    assert!(matches!(rewind_activate(&none), RewindInput::Consumed));
    assert!(!set_rewind_cursor(&mut RewindPhase::Loading, 1));
}

/// Rows are not hit outside an area, in one that is too small, or at the very edge of the screen.
#[test]
fn row_hits_need_room() {
    let phase = confirm_phase(0, 0);
    let narrow = Rect {
        x: 0,
        y: 0,
        width: 9,
        height: 10,
    };
    assert_eq!(rewind_row_at(&phase, narrow, 5, 2), None);
    let flat = Rect {
        x: 0,
        y: 0,
        width: 40,
        height: 3,
    };
    assert_eq!(rewind_row_at(&phase, flat, 5, 2), Some(0));
    assert_eq!(rewind_row_at(&phase, flat, 5, 3), None);
    let edge = Rect {
        x: 65530,
        y: 65530,
        width: 40,
        height: 10,
    };
    assert_eq!(rewind_row_at(&phase, edge, 65535, 65532), Some(0));
    assert_eq!(rewind_row_at(&phase, edge, 65535, 65535), None);
}

/// The picker scrolls so that the selected turn stays in view, and its rows move along.
#[test]
fn long_pickers_scroll() {
    let phase = RewindPhase::Picker {
        points: (0..20).map(point).collect(),
        selected: 12,
    };
    assert_eq!(rewind_overlay_height(&phase, 40), 23);
    assert_eq!(rewind_overlay_height(&phase, 10), 10);
    // Seven turns fit; the selected one is the last of them.
    assert_eq!(rewind_row_at(&phase, area(), 5, 2), Some(6));
    assert_eq!(rewind_row_at(&phase, area(), 5, 8), Some(12));
}

/// Lists of more than five paths are cut to five and a line for the rest.
#[test]
fn long_file_lists_are_cut() {
    let phase = RewindPhase::FilePreview {
        target_prompt_index: 2,
        mode: RewindMode::All,
        clean_files: (0..9).map(|i| format!("f{i}.rs")).collect(),
        conflicts: vec![],
        active_idx: 0,
        prompt_preview: None,
    };
    // Blank + title + 5 paths + the rest + spacer + 2 choices + trailing blank.
    assert_eq!(rewind_overlay_height(&phase, 40), 12);
    let tall = Rect {
        x: 0,
        y: 0,
        width: 40,
        height: 12,
    };
    assert_eq!(rewind_row_at(&phase, tall, 5, 8), None);
    assert_eq!(rewind_row_at(&phase, tall, 5, 9), Some(0));
    assert_eq!(rewind_row_at(&phase, tall, 5, 10), Some(1));
}

/// The two-row question letters its rows a and b; c keeps working.
#[test]
fn inline_mode_select_letters() {
    let state = state_with(RewindPhase::ModeSelect {
        target_prompt_index: 4,
        has_file_changes: true,
        offer_files_only: false,
        active_idx: 0,
        prompt_preview: None,
    });
    for c in ['b', 'c'] {
        assert!(matches!(
            handle_rewind_key(&state, &key(KeyCode::Char(c))),
            RewindInput::SelectMode(RewindMode::ConversationOnly, 4)
        ));
    }
    assert!(matches!(
        handle_rewind_key(&state, &key(KeyCode::Char('f'))),
        RewindInput::Consumed
    ));
}

/// Pressing the key that a row shows and clicking the row come to the same thing.
#[test]
fn shown_keys_match_clicks() {
    let codes = [
        KeyCode::Char('y'),
        KeyCode::Char('a'),
        KeyCode::Char('n'),
    ];
    for (row, code) in codes.iter().enumerate() {
        let pressed = handle_rewind_key(&confirm_state(), &key(*code));
        let clicked = rewind_activate(&confirm_phase(3, row));
        let same = match (pressed, clicked) {
            (RewindInput::Confirm(a), RewindInput::Confirm(b)) => a == b,
            (RewindInput::ConfirmNeverAsk(a), RewindInput::ConfirmNeverAsk(b)) => a == b,
            (RewindInput::Dismissed, RewindInput::Dismissed) => true,
            _ => false,
        };
        assert!(same, "row {row}");
    }
}

/// After a click the cursor stands on the row that was clicked.
#[test]
fn clicks_land_on_their_row() {
    for row in 0..10 {
        let mut phase = file_preview_phase(0);
        if let Some(hit) = rewind_row_at(&phase, area(), 5, row) {
            set_rewind_cursor(&mut phase, hit);
            match phase {
                RewindPhase::FilePreview { active_idx, .. } => assert_eq!(active_idx, hit),
                _ => panic!("expected file preview"),
            }
        }
    }
}
