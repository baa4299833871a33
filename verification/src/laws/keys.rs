//! What every key, click and cursor move does, panel by panel.

use vstd::prelude::*;

use crate::input::{
    activation, cursor_input, cursor_of, key_input, mode_at, moved, pointed, KeyCode, KeyEvent,
    KeyEventKind,
};
use crate::phase::{PhaseModel, PointModel, RewindInput, RewindMode};

verus! {

/// The panels that have rows to move between.
pub open spec fn lists_rows(phase: PhaseModel) -> bool {
    match phase {
        PhaseModel::Picker { .. } => true,
        PhaseModel::CancelOffer { .. } => true,
        PhaseModel::ModeSelect { .. } => true,
        PhaseModel::FilePreview { .. } => true,
        PhaseModel::Confirm { .. } => true,
        PhaseModel::OrphanWarning { .. } => true,
        PhaseModel::Loading => false,
        PhaseModel::Previewing { .. } => false,
        PhaseModel::Executing { .. } => false,
        PhaseModel::Error { .. } => false,
    }
}

/// What pressing a key, or holding it down, asks for.
pub open spec fn on_key(phase: PhaseModel, code: KeyCode, kind: KeyEventKind) -> RewindInput {
    key_input(phase, KeyEvent { code, kind })
}

/// Down and `j` move down, Up and `k` move up, on every panel with rows; on the others they do
/// nothing.
pub proof fn law_arrow_keys(phase: PhaseModel, kind: KeyEventKind)
    requires
        kind is Press || kind is Repeat,
    ensures
        lists_rows(phase) ==> {
            &&& on_key(phase, KeyCode::Down, kind) is MoveDown
            &&& on_key(phase, KeyCode::Char('j'), kind) is MoveDown
            &&& on_key(phase, KeyCode::Up, kind) is MoveUp
            &&& on_key(phase, KeyCode::Char('k'), kind) is MoveUp
        },
        !lists_rows(phase) ==> {
            &&& on_key(phase, KeyCode::Down, kind) is Consumed
            &&& on_key(phase, KeyCode::Char('j'), kind) is Consumed
            &&& on_key(phase, KeyCode::Up, kind) is Consumed
            &&& on_key(phase, KeyCode::Char('k'), kind) is Consumed
        },
{
}

/// Enter picks the turn under the cursor, takes the choice under it, or closes the error.
pub proof fn law_enter_key(phase: PhaseModel, kind: KeyEventKind)
    requires
        kind is Press || kind is Repeat,
    ensures
        phase matches PhaseModel::Picker { points, selected } ==> {
            &&& selected < points.len() ==> on_key(phase, KeyCode::Enter, kind)
                == RewindInput::PickerSelect(points[selected as int].prompt_index)
            &&& selected >= points.len() ==> on_key(phase, KeyCode::Enter, kind) is Consumed
        },
        phase is Error ==> on_key(phase, KeyCode::Enter, kind) is DismissError,
        lists_rows(phase) && !(phase is Picker) ==> on_key(phase, KeyCode::Enter, kind)
            is ConfirmCursor,
        phase is Loading || phase is Previewing || phase is Executing ==> on_key(
            phase,
            KeyCode::Enter,
            kind,
        ) is Consumed,
{
}

/// Backspace goes back from the panels that ask for a last word, and does nothing elsewhere. Keys
/// that the overlay does not know do nothing anywhere.
pub proof fn law_back_and_unknown_keys(phase: PhaseModel, kind: KeyEventKind)
    requires
        kind is Press || kind is Repeat,
    ensures
        on_key(phase, KeyCode::Backspace, kind) is BackToModeSelect <==> (phase is FilePreview
            || phase is Confirm || phase is OrphanWarning),
        on_key(phase, KeyCode::Backspace, kind) is BackToModeSelect || on_key(
            phase,
            KeyCode::Backspace,
            kind,
        ) is Consumed,
        on_key(phase, KeyCode::Other, kind) is Consumed,
{
}

/// The letters of the mode question: `a` for both, `c` for the conversation, `f` for the files
/// where they can be had; `b` stands for the conversation where there is no row for the files.
pub proof fn law_mode_letters(
    target: usize,
    has_file_changes: bool,
    offer_files_only: bool,
    active_idx: usize,
    preview: Option<Seq<char>>,
    letter: char,
    kind: KeyEventKind,
)
    requires
        kind is Press || kind is Repeat,
    ensures
        ({
            let phase = PhaseModel::ModeSelect {
                target,
                has_file_changes,
                offer_files_only,
                active_idx,
                preview,
            };
            let both = RewindInput::SelectMode(RewindMode::All, target);
            let conversation = RewindInput::SelectMode(RewindMode::ConversationOnly, target);
            let files = RewindInput::SelectMode(RewindMode::FilesOnly, target);
            &&& on_key(phase, KeyCode::Char('a'), kind) == both
            &&& on_key(phase, KeyCode::Char('c'), kind) == conversation
            &&& !offer_files_only ==> on_key(phase, KeyCode::Char('b'), kind) == conversation
            &&& offer_files_only ==> on_key(phase, KeyCode::Char('b'), kind) is Consumed
            &&& offer_files_only && has_file_changes ==> on_key(phase, KeyCode::Char('f'), kind)
                == files
            &&& !offer_files_only || !has_file_changes ==> on_key(
                phase,
                KeyCode::Char('f'),
                kind,
            ) is Consumed
            &&& letter != 'a' && letter != 'b' && letter != 'c' && letter != 'f' && letter != 'j'
                && letter != 'k' ==> on_key(phase, KeyCode::Char(letter), kind) is Consumed
        }),
{
}

/// The letters of the yes-or-no panels. `y` goes on wherever there is something to agree to, `n`
/// leaves, and `a` in the plain confirmation agrees for good.
pub proof fn law_answer_letters(phase: PhaseModel, letter: char, kind: KeyEventKind)
    requires
        kind is Press || kind is Repeat,
        letter != 'j' && letter != 'k',
    ensures
        phase is CancelOffer ==> on_key(phase, KeyCode::Char(letter), kind) == (if letter == 'y' {
            RewindInput::CancelTurnThenProceed
        } else if letter == 'n' {
            RewindInput::Dismissed
        } else {
            RewindInput::Consumed
        }),
        phase matches PhaseModel::Confirm { target, .. } ==> on_key(
            phase,
            KeyCode::Char(letter),
            kind,
        ) == (if letter == 'y' {
            RewindInput::Confirm(target)
        } else if letter == 'a' {
            RewindInput::ConfirmNeverAsk(target)
        } else if letter == 'n' {
            RewindInput::Dismissed
        } else {
            RewindInput::Consumed
        }),
        phase matches PhaseModel::FilePreview { target, .. } ==> on_key(
            phase,
            KeyCode::Char(letter),
            kind,
        ) == (if letter == 'y' {
            RewindInput::Confirm(target)
        } else {
            RewindInput::Consumed
        }),
        phase matches PhaseModel::OrphanWarning { target, .. } ==> on_key(
            phase,
            KeyCode::Char(letter),
            kind,
        ) == (if letter == 'y' {
            RewindInput::Confirm(target)
        } else {
            RewindInput::Consumed
        }),
        phase is Picker || phase is Loading || phase is Previewing || phase is Executing
            || phase is Error ==> on_key(phase, KeyCode::Char(letter), kind) is Consumed,
{
}

/// Row `from` moved by `delta` among `rows` rows, held at either end.
pub open spec fn held(from: int, delta: int, rows: int) -> int {
    if from + delta < 0 {
        0
    } else if from + delta >= rows {
        rows - 1
    } else {
        from + delta
    }
}

/// In the picker the cursor goes as many turns down or up as asked, and stops at the first and
/// the last one; an empty list keeps it where it is.
pub proof fn law_picker_moves(points: Seq<PointModel>, selected: usize, delta: i32)
    requires
        points.len() <= i32::MAX,
        selected <= i32::MAX,
    ensures
        points.len() > 0 ==> moved(PhaseModel::Picker { points, selected }, delta)
            == (PhaseModel::Picker {
            points,
            selected: held(selected as int, delta as int, points.len() as int) as usize,
        }),
        points.len() == 0 ==> moved(PhaseModel::Picker { points, selected }, delta)
            == (PhaseModel::Picker { points, selected }),
{
}

/// The mode question has three rows, or two where files alone cannot be chosen; the cursor stops
/// at the first and the last of them, and nothing else changes.
pub proof fn law_mode_question_moves(
    target: usize,
    has_file_changes: bool,
    offer_files_only: bool,
    active_idx: usize,
    preview: Option<Seq<char>>,
    delta: i32,
)
    requires
        active_idx <= i32::MAX,
    ensures
        ({
            let rows = if offer_files_only && has_file_changes {
                3int
            } else {
                2
            };
            moved(
                PhaseModel::ModeSelect {
                    target,
                    has_file_changes,
                    offer_files_only,
                    active_idx,
                    preview,
                },
                delta,
            ) == (PhaseModel::ModeSelect {
                target,
                has_file_changes,
                offer_files_only,
                active_idx: held(active_idx as int, delta as int, rows) as usize,
                preview,
            })
        }),
{
}

/// The offer to cancel has two rows, the plain confirmation three, the file list and the orphan
/// warning two; the cursor stops at the first and the last of them, and nothing else changes.
/// Panels without rows do not change.
pub proof fn law_choice_moves(phase: PhaseModel, delta: i32)
    ensures
        phase matches PhaseModel::CancelOffer { active_idx } ==> active_idx <= i32::MAX ==> moved(
            phase,
            delta,
        ) == (PhaseModel::CancelOffer {
            active_idx: held(active_idx as int, delta as int, 2) as usize,
        }),
        phase matches PhaseModel::Confirm { target, mode, active_idx, preview } ==> active_idx
            <= i32::MAX ==> moved(phase, delta) == (PhaseModel::Confirm {
            target,
            mode,
            active_idx: held(active_idx as int, delta as int, 3) as usize,
            preview,
        }),
        phase matches PhaseModel::FilePreview {
            target,
            mode,
            clean_files,
            conflicts,
            active_idx,
            preview,
        } ==> active_idx <= i32::MAX ==> moved(phase, delta) == (PhaseModel::FilePreview {
            target,
            mode,
            clean_files,
            conflicts,
            active_idx: held(active_idx as int, delta as int, 2) as usize,
            preview,
        }),
        phase matches PhaseModel::OrphanWarning { target, active_idx, preview } ==> active_idx
            <= i32::MAX ==> moved(phase, delta) == (PhaseModel::OrphanWarning {
            target,
            active_idx: held(active_idx as int, delta as int, 2) as usize,
            preview,
        }),
        !lists_rows(phase) ==> moved(phase, delta) == phase,
{
}

/// Pointing puts the cursor on the row pointed at, or on the last one if it lies beyond, and
/// changes nothing else. Panels without rows, and an empty list, do not change.
pub proof fn law_pointing(phase: PhaseModel, idx: usize)
    ensures
        phase matches PhaseModel::Picker { points, selected } ==> points.len() <= usize::MAX ==> {
            &&& points.len() == 0 ==> pointed(phase, idx) == phase
            &&& points.len() > 0 ==> pointed(phase, idx) == (PhaseModel::Picker {
                points,
                selected: held(idx as int, 0, points.len() as int) as usize,
            })
        },
        phase matches PhaseModel::CancelOffer { active_idx } ==> pointed(phase, idx)
            == (PhaseModel::CancelOffer { active_idx: held(idx as int, 0, 2) as usize }),
        phase matches PhaseModel::Confirm { target, mode, active_idx, preview } ==> pointed(
            phase,
            idx,
        ) == (PhaseModel::Confirm {
            target,
            mode,
            active_idx: held(idx as int, 0, 3) as usize,
            preview,
        }),
        phase matches PhaseModel::FilePreview {
            target,
            mode,
            clean_files,
            conflicts,
            active_idx,
            preview,
        } ==> pointed(phase, idx) == (PhaseModel::FilePreview {
            target,
            mode,
            clean_files,
            conflicts,
            active_idx: held(idx as int, 0, 2) as usize,
            preview,
        }),
        phase matches PhaseModel::OrphanWarning { target, active_idx, preview } ==> pointed(
            phase,
            idx,
        ) == (PhaseModel::OrphanWarning {
            target,
            active_idx: held(idx as int, 0, 2) as usize,
            preview,
        }),
        phase matches PhaseModel::ModeSelect {
            target,
            has_file_changes,
            offer_files_only,
            active_idx,
            preview,
        } ==> pointed(phase, idx) == (PhaseModel::ModeSelect {
            target,
            has_file_changes,
            offer_files_only,
            active_idx: held(
                idx as int,
                0,
                if offer_files_only && has_file_changes {
                    3
                } else {
                    2
                },
            ) as usize,
            preview,
        }),
        !lists_rows(phase) ==> pointed(phase, idx) == phase,
{
}

/// What the rows of each panel stand for, from top to bottom.
pub proof fn law_rows_taken(phase: PhaseModel)
    ensures
        phase matches PhaseModel::CancelOffer { active_idx } ==> {
            &&& active_idx == 0 ==> cursor_input(phase) is CancelTurnThenProceed
            &&& active_idx > 0 ==> cursor_input(phase) is Dismissed
        },
        phase matches PhaseModel::Confirm { target, active_idx, .. } ==> {
            &&& active_idx == 0 ==> cursor_input(phase) == RewindInput::Confirm(target)
            &&& active_idx == 1 ==> cursor_input(phase) == RewindInput::ConfirmNeverAsk(target)
            &&& active_idx > 1 ==> cursor_input(phase) is Dismissed
        },
        phase matches PhaseModel::FilePreview { target, active_idx, .. } ==> {
            &&& active_idx == 0 ==> cursor_input(phase) == RewindInput::Confirm(target)
            &&& active_idx > 0 ==> cursor_input(phase) is BackToModeSelect
        },
        phase matches PhaseModel::OrphanWarning { target, active_idx, .. } ==> {
            &&& active_idx == 0 ==> cursor_input(phase) == RewindInput::Confirm(target)
            &&& active_idx > 0 ==> cursor_input(phase) is BackToModeSelect
        },
        phase matches PhaseModel::ModeSelect { target, has_file_changes, active_idx, .. } ==> {
            &&& active_idx == 0 ==> cursor_input(phase) == RewindInput::SelectMode(
                RewindMode::All,
                target,
            )
            &&& active_idx == 1 ==> cursor_input(phase) == RewindInput::SelectMode(
                RewindMode::ConversationOnly,
                target,
            )
            &&& active_idx == 2 && !has_file_changes ==> cursor_input(phase) is Consumed
            &&& active_idx == 2 && has_file_changes || active_idx > 2 ==> cursor_input(phase)
                == RewindInput::SelectMode(RewindMode::FilesOnly, target)
        },
        phase is Picker || !lists_rows(phase) ==> cursor_input(phase) is Consumed,
{
}

/// A click picks the turn under the cursor, closes the error, or takes the row under the cursor.
pub proof fn law_clicks(phase: PhaseModel)
    ensures
        phase matches PhaseModel::Picker { points, selected } ==> {
            &&& selected < points.len() ==> activation(phase) == RewindInput::PickerSelect(
                points[selected as int].prompt_index,
            )
            &&& selected >= points.len() ==> activation(phase) is Consumed
        },
        phase is Error ==> activation(phase) is DismissError,
        !(phase is Picker) && !(phase is Error) ==> activation(phase) == cursor_input(phase),
{
}

/// Where the cursor stands; a panel with one row, or none, has it on the first.
pub proof fn law_cursor(phase: PhaseModel)
    ensures
        match phase {
            PhaseModel::Picker { selected, .. } => cursor_of(phase) == selected,
            PhaseModel::CancelOffer { active_idx } => cursor_of(phase) == active_idx,
            PhaseModel::ModeSelect { active_idx, .. } => cursor_of(phase) == active_idx,
            PhaseModel::FilePreview { active_idx, .. } => cursor_of(phase) == active_idx,
            PhaseModel::Confirm { active_idx, .. } => cursor_of(phase) == active_idx,
            PhaseModel::OrphanWarning { active_idx, .. } => cursor_of(phase) == active_idx,
            PhaseModel::Loading => cursor_of(phase) == 0,
            PhaseModel::Previewing { .. } => cursor_of(phase) == 0,
            PhaseModel::Executing { .. } => cursor_of(phase) == 0,
            PhaseModel::Error { .. } => cursor_of(phase) == 0,
        },
{
}

/// The rows of the mode question stand for both, the conversation, and the files.
pub proof fn law_modes_by_row(idx: usize)
    ensures
        mode_at(0) is All,
        mode_at(1) is ConversationOnly,
        idx >= 2 ==> mode_at(idx) is FilesOnly,
{
}

} // verus!
