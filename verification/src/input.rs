//! Keyboard and mouse input: what a key asks for, and how the cursor moves.

use vstd::prelude::*;

use crate::layout::mode_select_count;
use crate::phase::{PhaseModel, RewindInput, RewindMode, RewindPhase, RewindState};

verus! {

/// The keys that the overlay tells apart.
#[derive(Debug, Clone, Copy, PartialEq, Eq, Structural)]
pub enum KeyCode {
    Backspace,
    Enter,
    Up,
    Down,
    Esc,
    Char(char),
    /// Any other key.
    Other,
}

/// Whether a key went down, repeats, or went up.
#[derive(Debug, Clone, Copy, PartialEq, Eq, Structural)]
pub enum KeyEventKind {
    Press,
    Repeat,
    Release,
}

/// A key event.
#[derive(Debug, Clone, Copy, PartialEq, Eq, Structural)]
pub struct KeyEvent {
    pub code: KeyCode,
    pub kind: KeyEventKind,
}

/// Phases that ask for a last word before the rewind happens.
pub open spec fn is_confirm_style(phase: PhaseModel) -> bool {
    phase is FilePreview || phase is Confirm || phase is OrphanWarning
}

/// Phases with a cursor to move.
pub open spec fn has_cursor(phase: PhaseModel) -> bool {
    phase is Picker || phase is CancelOffer || phase is ModeSelect || is_confirm_style(phase)
}

/// The turn that a phase past the picker is about.
pub open spec fn target_of(phase: PhaseModel) -> usize {
    match phase {
        PhaseModel::ModeSelect { target, .. } => target,
        PhaseModel::Previewing { target, .. } => target,
        PhaseModel::FilePreview { target, .. } => target,
        PhaseModel::Confirm { target, .. } => target,
        PhaseModel::OrphanWarning { target, .. } => target,
        PhaseModel::Executing { target, .. } => target,
        _ => 0,
    }
}

/// Picking the turn under the cursor, if there is one.
pub open spec fn pick_input(phase: PhaseModel) -> RewindInput {
    match phase {
        PhaseModel::Picker { points, selected } if selected < points.len() =>
            RewindInput::PickerSelect(points[selected as int].prompt_index),
        _ => RewindInput::Consumed,
    }
}

/// Esc leaves every phase but a rewind that is under way; on the error panel it closes that.
pub open spec fn esc_input(phase: PhaseModel) -> RewindInput {
    match phase {
        PhaseModel::Executing { .. } => RewindInput::Consumed,
        PhaseModel::Error { .. } => RewindInput::DismissError,
        _ => RewindInput::Dismissed,
    }
}

/// Enter picks, takes the choice under the cursor, or closes the error panel.
pub open spec fn enter_input(phase: PhaseModel) -> RewindInput {
    match phase {
        PhaseModel::Picker { .. } => pick_input(phase),
        PhaseModel::Error { .. } => RewindInput::DismissError,
        _ => if has_cursor(phase) {
            RewindInput::ConfirmCursor
        } else {
            RewindInput::Consumed
        },
    }
}

/// What a letter key other than the cursor keys asks for.
pub open spec fn letter_input(phase: PhaseModel, c: char) -> RewindInput {
    let target = target_of(phase);
    match phase {
        PhaseModel::ModeSelect { has_file_changes, offer_files_only, .. } => if c == 'a' {
            RewindInput::SelectMode(RewindMode::All, target)
        } else if c == 'c' || (c == 'b' && !offer_files_only) {
            RewindInput::SelectMode(RewindMode::ConversationOnly, target)
        } else if c == 'f' && offer_files_only && has_file_changes {
            RewindInput::SelectMode(RewindMode::FilesOnly, target)
        } else {
            RewindInput::Consumed
        },
        PhaseModel::CancelOffer { .. } => if c == 'y' {
            RewindInput::CancelTurnThenProceed
        } else if c == 'n' {
            RewindInput::Dismissed
        } else {
            RewindInput::Consumed
        },
        PhaseModel::Confirm { .. } => if c == 'y' {
            RewindInput::Confirm(target)
        } else if c == 'n' {
            RewindInput::Dismissed
        } else if c == 'a' {
            RewindInput::ConfirmNeverAsk(target)
        } else {
            RewindInput::Consumed
        },
        _ => if c == 'y' && is_confirm_style(phase) {
            RewindInput::Confirm(target)
        } else {
            RewindInput::Consumed
        },
    }
}

/// What a key asks of a phase. Only presses and repeats count.
pub open spec fn key_input(phase: PhaseModel, key: KeyEvent) -> RewindInput {
    if key.kind is Release {
        RewindInput::Consumed
    } else {
        match key.code {
            KeyCode::Esc => esc_input(phase),
            KeyCode::Enter => enter_input(phase),
            KeyCode::Backspace => if is_confirm_style(phase) {
                RewindInput::BackToModeSelect
            } else {
                RewindInput::Consumed
            },
            KeyCode::Down => if has_cursor(phase) {
                RewindInput::MoveDown
            } else {
                RewindInput::Consumed
            },
            KeyCode::Up => if has_cursor(phase) {
                RewindInput::MoveUp
            } else {
                RewindInput::Consumed
            },
            KeyCode::Char(c) => if c == 'j' && has_cursor(phase) {
                RewindInput::MoveDown
            } else if c == 'k' && has_cursor(phase) {
                RewindInput::MoveUp
            } else {
                letter_input(phase, c)
            },
            KeyCode::Other => RewindInput::Consumed,
        }
    }
}

/// What a key event asks of the open flow.
pub fn handle_rewind_key(state: &RewindState, key: &KeyEvent) -> (r: RewindInput)
    ensures
        r == key_input(state@.phase, *key),
{
    if let KeyEventKind::Release = key.kind {
        return RewindInput::Consumed;
    }
    match &state.phase {
        RewindPhase::Picker { points, selected } => match key.code {
            KeyCode::Char('j') | KeyCode::Down => RewindInput::MoveDown,
            KeyCode::Char('k') | KeyCode::Up => RewindInput::MoveUp,
            KeyCode::Enter => if *selected < points.len() {
                RewindInput::PickerSelect(points[*selected].prompt_index)
            } else {
                RewindInput::Consumed
            },
            KeyCode::Esc => RewindInput::Dismissed,
            _ => RewindInput::Consumed,
        },
        RewindPhase::ModeSelect {
            target_prompt_index,
            has_file_changes,
            offer_files_only,
            ..
        } => match key.code {
            KeyCode::Char('j') | KeyCode::Down => RewindInput::MoveDown,
            KeyCode::Char('k') | KeyCode::Up => RewindInput::MoveUp,
            KeyCode::Char('a') => RewindInput::SelectMode(RewindMode::All, *target_prompt_index),
            KeyCode::Char('c') => RewindInput::SelectMode(
                RewindMode::ConversationOnly,
                *target_prompt_index,
            ),
            // The two-row inline variant letters its rows a/b; 'c' stays as an alias so
            // classic-flow muscle memory keeps working.
            KeyCode::Char('b') if !*offer_files_only => RewindInput::SelectMode(
                RewindMode::ConversationOnly,
                *target_prompt_index,
            ),
            KeyCode::Char('f') if *offer_files_only && *has_file_changes =>
                RewindInput::SelectMode(RewindMode::FilesOnly, *target_prompt_index),
            KeyCode::Enter => RewindInput::ConfirmCursor,
            KeyCode::Esc => RewindInput::Dismissed,
            _ => RewindInput::Consumed,
        },
        RewindPhase::CancelOffer { .. } => match key.code {
            KeyCode::Char('y') => RewindInput::CancelTurnThenProceed,
            KeyCode::Char('n') => RewindInput::Dismissed,
            KeyCode::Char('j') | KeyCode::Down => RewindInput::MoveDown,
            KeyCode::Char('k') | KeyCode::Up => RewindInput::MoveUp,
            KeyCode::Enter => RewindInput::ConfirmCursor,
            KeyCode::Esc => RewindInput::Dismissed,
            _ => RewindInput::Consumed,
        },
        RewindPhase::FilePreview { target_prompt_index, .. }
        | RewindPhase::OrphanWarning { target_prompt_index, .. } => match key.code {
            KeyCode::Char('y') => RewindInput::Confirm(*target_prompt_index),
            KeyCode::Char('j') | KeyCode::Down => RewindInput::MoveDown,
            KeyCode::Char('k') | KeyCode::Up => RewindInput::MoveUp,
            KeyCode::Enter => RewindInput::ConfirmCursor,
            // Esc dismisses every phase; Backspace is the "back" gesture.
            KeyCode::Backspace => RewindInput::BackToModeSelect,
            KeyCode::Esc => RewindInput::Dismissed,
            _ => RewindInput::Consumed,
        },
        RewindPhase::Confirm { target_prompt_index, .. } => match key.code {
            KeyCode::Char('y') => RewindInput::Confirm(*target_prompt_index),
            KeyCode::Char('n') => RewindInput::Dismissed,
            KeyCode::Char('a') => RewindInput::ConfirmNeverAsk(*target_prompt_index),
            KeyCode::Char('j') | KeyCode::Down => RewindInput::MoveDown,
            KeyCode::Char('k') | KeyCode::Up => RewindInput::MoveUp,
            KeyCode::Enter => RewindInput::ConfirmCursor,
            KeyCode::Backspace => RewindInput::BackToModeSelect,
            KeyCode::Esc => RewindInput::Dismissed,
            _ => RewindInput::Consumed,
        },
        RewindPhase::Error { .. } => match key.code {
            KeyCode::Esc | KeyCode::Enter => RewindInput::DismissError,
            _ => RewindInput::Consumed,
        },
        RewindPhase::Loading | RewindPhase::Previewing { .. } => match key.code {
            KeyCode::Esc => RewindInput::Dismissed,
            _ => RewindInput::Consumed,
        },
        RewindPhase::Executing { .. } => RewindInput::Consumed,
    }
}

/// The index of the last position the cursor of a phase can take, or -1 without a cursor.
pub open spec fn last_row(phase: PhaseModel) -> int {
    match phase {
        PhaseModel::Picker { points, .. } => points.len() - 1,
        PhaseModel::CancelOffer { .. } => 1,
        PhaseModel::Confirm { .. } => 2,
        PhaseModel::FilePreview { .. } | PhaseModel::OrphanWarning { .. } => 1,
        PhaseModel::ModeSelect { has_file_changes, offer_files_only, .. } => if offer_files_only
            && has_file_changes {
            2
        } else {
            1
        },
        _ => -1,
    }
}

/// Where the cursor of a phase stands.
pub open spec fn cursor_of(phase: PhaseModel) -> usize {
    match phase {
        PhaseModel::Picker { selected, .. } => selected,
        PhaseModel::CancelOffer { active_idx } => active_idx,
        PhaseModel::Confirm { active_idx, .. } => active_idx,
        PhaseModel::FilePreview { active_idx, .. } => active_idx,
        PhaseModel::OrphanWarning { active_idx, .. } => active_idx,
        PhaseModel::ModeSelect { active_idx, .. } => active_idx,
        _ => 0,
    }
}

/// The phase with its cursor at `idx`.
pub open spec fn with_cursor(phase: PhaseModel, idx: usize) -> PhaseModel {
    match phase {
        PhaseModel::Picker { points, selected } => PhaseModel::Picker { points, selected: idx },
        PhaseModel::CancelOffer { active_idx } => PhaseModel::CancelOffer { active_idx: idx },
        PhaseModel::Confirm { target, mode, active_idx, preview } => PhaseModel::Confirm {
            target,
            mode,
            active_idx: idx,
            preview,
        },
        PhaseModel::FilePreview { target, mode, clean_files, conflicts, active_idx, preview } =>
            PhaseModel::FilePreview {
            target,
            mode,
            clean_files,
            conflicts,
            active_idx: idx,
            preview,
        },
        PhaseModel::OrphanWarning { target, active_idx, preview } => PhaseModel::OrphanWarning {
            target,
            active_idx: idx,
            preview,
        },
        PhaseModel::ModeSelect { target, has_file_changes, offer_files_only, active_idx, preview }
        => PhaseModel::ModeSelect {
            target,
            has_file_changes,
            offer_files_only,
            active_idx: idx,
            preview,
        },
        _ => phase,
    }
}

/// `v` moved into the range from 0 to `last`.
pub open spec fn clamped(v: int, last: int) -> usize {
    if v <= 0 {
        0
    } else if v >= last {
        last as usize
    } else {
        v as usize
    }
}

/// The phase after its cursor moved by `delta` rows, stopping at either end.
pub open spec fn moved(phase: PhaseModel, delta: i32) -> PhaseModel {
    if last_row(phase) < 0 {
        phase
    } else {
        with_cursor(phase, clamped(cursor_of(phase) as i32 + delta, last_row(phase)))
    }
}

/// The phase after its cursor was put on row `idx`, or on the last row if that comes first.
pub open spec fn pointed(phase: PhaseModel, idx: usize) -> PhaseModel {
    if last_row(phase) < 0 {
        phase
    } else {
        with_cursor(phase, clamped(idx as int, last_row(phase)))
    }
}

fn step(current: usize, delta: i32, last: i32) -> (r: usize)
    requires
        last >= 0,
        i32::MIN <= current as i32 + delta <= i32::MAX,
    ensures
        r == clamped(current as i32 + delta, last as int),
{
    let new: i32 = current as i32 + delta;
    if new <= 0 {
        0
    } else if new >= last {
        last as usize
    } else {
        new as usize
    }
}

/// Moves the cursor by `delta` rows.
pub fn move_cursor(phase: &mut RewindPhase, delta: i32)
    requires
        last_row(old(phase)@) <= i32::MAX - 1,
        last_row(old(phase)@) >= 0 ==> i32::MIN <= cursor_of(old(phase)@) as i32 + delta
            <= i32::MAX,
    ensures
        final(phase)@ == moved(old(phase)@, delta),
{
    match phase {
        RewindPhase::Picker { points, selected } => {
            if points.is_empty() {
                return;
            }
            let max: i32 = points.len() as i32 - 1;
            *selected = step(*selected, delta, max);
        },
        RewindPhase::CancelOffer { active_idx } => {
            *active_idx = step(*active_idx, delta, 1);
        },
        RewindPhase::Confirm { active_idx, .. } => {
            *active_idx = step(*active_idx, delta, 2);
        },
        RewindPhase::FilePreview { active_idx, .. } => {
            *active_idx = step(*active_idx, delta, 1);
        },
        RewindPhase::OrphanWarning { active_idx, .. } => {
            *active_idx = step(*active_idx, delta, 1);
        },
        RewindPhase::ModeSelect { active_idx, offer_files_only, has_file_changes, .. } => {
            let max: i32 = mode_select_count(*offer_files_only) as i32 - 1;
            let mut new: usize = step(*active_idx, delta, max);
            if new == 2 && !*has_file_changes {
                new = 1;
            }
            *active_idx = new;
        },
        _ => {},
    }
}

/// The mode on row `idx` of the mode question.
pub open spec fn mode_at(idx: usize) -> RewindMode {
    if idx == 0 {
        RewindMode::All
    } else if idx == 1 {
        RewindMode::ConversationOnly
    } else {
        RewindMode::FilesOnly
    }
}

/// The mode on row `idx` of the mode question.
pub fn mode_for_idx(idx: usize) -> (r: RewindMode)
    ensures
        r == mode_at(idx),
{
    match idx {
        0 => RewindMode::All,
        1 => RewindMode::ConversationOnly,
        _ => RewindMode::FilesOnly,
    }
}

/// What taking the choice under the cursor asks for.
pub open spec fn cursor_input(phase: PhaseModel) -> RewindInput {
    let idx = cursor_of(phase);
    let target = target_of(phase);
    match phase {
        PhaseModel::CancelOffer { .. } => if idx == 0 {
            RewindInput::CancelTurnThenProceed
        } else {
            RewindInput::Dismissed
        },
        PhaseModel::Confirm { .. } => if idx == 0 {
            RewindInput::Confirm(target)
        } else if idx == 1 {
            RewindInput::ConfirmNeverAsk(target)
        } else {
            RewindInput::Dismissed
        },
        PhaseModel::FilePreview { .. } | PhaseModel::OrphanWarning { .. } => if idx == 0 {
            RewindInput::Confirm(target)
        } else {
            RewindInput::BackToModeSelect
        },
        PhaseModel::ModeSelect { has_file_changes, .. } => if idx == 2 && !has_file_changes {
            RewindInput::Consumed
        } else {
            RewindInput::SelectMode(mode_at(idx), target)
        },
        _ => RewindInput::Consumed,
    }
}

/// The input for the choice under the cursor.
pub fn confirm_cursor(phase: &RewindPhase) -> (r: RewindInput)
    ensures
        r == cursor_input(phase@),
{
    match phase {
        RewindPhase::CancelOffer { active_idx } => match *active_idx {
            0 => RewindInput::CancelTurnThenProceed,
            _ => RewindInput::Dismissed,
        },
        RewindPhase::Confirm { target_prompt_index, active_idx, .. } => match *active_idx {
            0 => RewindInput::Confirm(*target_prompt_index),
            1 => RewindInput::ConfirmNeverAsk(*target_prompt_index),
            _ => RewindInput::Dismissed,
        },
        RewindPhase::FilePreview { target_prompt_index, active_idx, .. }
        | RewindPhase::OrphanWarning { target_prompt_index, active_idx, .. } => match *active_idx {
            0 => RewindInput::Confirm(*target_prompt_index),
            _ => RewindInput::BackToModeSelect,
        },
        RewindPhase::ModeSelect { target_prompt_index, has_file_changes, active_idx, .. } => {
            if *active_idx == 2 && !*has_file_changes {
                return RewindInput::Consumed;
            }
            RewindInput::SelectMode(mode_for_idx(*active_idx), *target_prompt_index)
        },
        _ => RewindInput::Consumed,
    }
}

/// Stores `new` in a cursor; tells whether that changed it.
fn put(cursor: &mut usize, new: usize) -> (changed: bool)
    ensures
        *final(cursor) == new,
        changed == (*old(cursor) != new),
{
    if *cursor != new {
        *cursor = new;
        true
    } else {
        false
    }
}

fn at_most(idx: usize, last: usize) -> (r: usize)
    ensures
        r == clamped(idx as int, last as int),
{
    if idx < last {
        idx
    } else {
        last
    }
}

/// Move the overlay cursor/selection to `idx` (used by mouse hover/click).
/// Returns `true` if the stored cursor changed.
pub fn set_rewind_cursor(phase: &mut RewindPhase, idx: usize) -> (changed: bool)
    ensures
        final(phase)@ == pointed(old(phase)@, idx),
        changed == (cursor_of(final(phase)@) != cursor_of(old(phase)@)),
{
    match phase {
        RewindPhase::Picker { points, selected } => {
            if points.is_empty() {
                return false;
            }
            let new: usize = at_most(idx, points.len() - 1);
            put(selected, new)
        },
        RewindPhase::CancelOffer { active_idx } => put(active_idx, at_most(idx, 1)),
        RewindPhase::Confirm { active_idx, .. } => put(active_idx, at_most(idx, 2)),
        RewindPhase::FilePreview { active_idx, .. } => put(active_idx, at_most(idx, 1)),
        RewindPhase::OrphanWarning { active_idx, .. } => put(active_idx, at_most(idx, 1)),
        RewindPhase::ModeSelect { active_idx, offer_files_only, has_file_changes, .. } => {
            let mut new: usize = at_most(idx, mode_select_count(*offer_files_only) - 1);
            if new == 2 && !*has_file_changes {
                new = 1;
            }
            put(active_idx, new)
        },
        _ => false,
    }
}

/// What a click on the row under the cursor asks for.
pub open spec fn activation(phase: PhaseModel) -> RewindInput {
    match phase {
        PhaseModel::Picker { .. } => pick_input(phase),
        PhaseModel::Error { .. } => RewindInput::DismissError,
        _ => cursor_input(phase),
    }
}

/// The activation input for the current cursor position, equivalent to pressing Enter on the
/// focused row. Used by mouse-click handling.
pub fn rewind_activate(phase: &RewindPhase) -> (r: RewindInput)
    ensures
        r == activation(phase@),
{
    match phase {
        RewindPhase::Picker { points, selected } => if *selected < points.len() {
            RewindInput::PickerSelect(points[*selected].prompt_index)
        } else {
            RewindInput::Consumed
        },
        RewindPhase::Error { .. } => RewindInput::DismissError,
        other => confirm_cursor(other),
    }
}

} // verus!
