//! Where the rows of the overlay are, and which of them a click finds.

use vstd::prelude::*;
use vstd::string::*;

use crate::layout::{
    file_rows, first_radio_row, in_area, overlay_height, radios, row_at, RadioModel, Rect,
};
use crate::overlay_list::{list_capacity, list_offset};
use crate::phase::{PhaseModel, PointModel};

verus! {

/// A choice as it is shown.
pub open spec fn choice(key: char, label: Seq<char>, enabled: bool) -> RadioModel {
    RadioModel { key, label, enabled }
}

/// The rows of each panel, from top to bottom, with their keys.
pub proof fn law_choices_offered(phase: PhaseModel)
    ensures
        phase is CancelOffer ==> radios(phase) == seq![
            choice('y', "Cancel turn and rewind"@, true),
            choice('n', "Let it finish"@, true),
        ],
        phase is FilePreview || phase is OrphanWarning ==> radios(phase) == seq![
            choice('y', "Confirm rewind"@, true),
            choice('\u{8}', "Back"@, true),
        ],
        phase is Confirm ==> radios(phase) == seq![
            choice('y', "Yes"@, true),
            choice('a', "Yes, and don't ask again"@, true),
            choice('n', "No"@, true),
        ],
        phase is Error ==> radios(phase) == seq![choice('\u{1b}', "Dismiss"@, true)],
        phase is Loading || phase is Picker || phase is Previewing || phase is Executing
            ==> radios(phase).len() == 0,
{
}

/// The mode question offers both and the conversation, and the files too unless a prompt is being
/// resubmitted; where no files would move, that row is there but cannot be taken.
pub proof fn law_modes_offered(
    target: usize,
    has_file_changes: bool,
    offer_files_only: bool,
    active_idx: usize,
    preview: Option<Seq<char>>,
)
    ensures
        ({
            let phase = PhaseModel::ModeSelect {
                target,
                has_file_changes,
                offer_files_only,
                active_idx,
                preview,
            };
            let rows = radios(phase);
            &&& rows.len() == (if offer_files_only {
                3int
            } else {
                2
            })
            &&& rows[0] == choice('a', "Both conversation and file changes"@, true)
            &&& offer_files_only ==> rows[1] == choice('c', "Conversation only"@, true)
            &&& !offer_files_only ==> rows[1] == choice('b', "Conversation only"@, true)
            &&& offer_files_only && has_file_changes ==> rows[2] == choice(
                'f',
                "File changes only"@,
                true,
            )
            &&& offer_files_only && !has_file_changes ==> rows[2] == choice(
                'f',
                "File changes only (none since this turn)"@,
                false,
            )
        }),
{
}

/// Rows that a list of paths takes up.
pub open spec fn rows_for(n: nat) -> int {
    if n <= 5 {
        n as int
    } else {
        6
    }
}

/// The rows of the file list, and the blank one after it, are as many as its lines.
pub proof fn law_file_rows(clean: nat, conflicts: nat)
    ensures
        clean + conflicts == 0 ==> file_rows(clean, conflicts) == (1nat, 0nat),
        clean + conflicts > 0 ==> {
            &&& file_rows(clean, conflicts).0 == rows_for(clean) + rows_for(conflicts)
            &&& file_rows(clean, conflicts).1 == 1
        },
{
}

/// Where the first choice stands, counted from the top: below the blank row, the title, and what
/// else the panel says.
pub proof fn law_first_choice(phase: PhaseModel)
    ensures
        phase is ModeSelect || phase is Confirm ==> first_radio_row(phase) == 2,
        phase is CancelOffer || phase is OrphanWarning || phase is Error ==> first_radio_row(phase)
            == 3,
        phase matches PhaseModel::FilePreview { clean_files, conflicts, .. } ==> {
            &&& clean_files.len() + conflicts.len() == 0 ==> first_radio_row(phase) == 3
            &&& clean_files.len() + conflicts.len() > 0 ==> first_radio_row(phase) == 3 + rows_for(
                clean_files.len(),
            ) + rows_for(conflicts.len())
        },
{
}

/// How tall each panel is, whatever the screen.
pub proof fn law_heights(phase: PhaseModel, screen_h: u16)
    ensures
        phase is Loading || phase is Previewing || phase is Executing ==> overlay_height(
            phase,
            screen_h,
        ) == 3,
        phase is CancelOffer || phase is OrphanWarning || phase is Confirm ==> overlay_height(
            phase,
            screen_h,
        ) == 6,
        phase is Error ==> overlay_height(phase, screen_h) == 5,
        phase matches PhaseModel::ModeSelect { offer_files_only, .. } ==> overlay_height(
            phase,
            screen_h,
        ) == (if offer_files_only {
            6int
        } else {
            5
        }),
        phase matches PhaseModel::FilePreview { clean_files, conflicts, .. } ==> {
            &&& clean_files.len() + conflicts.len() == 0 ==> overlay_height(phase, screen_h) == 6
            &&& clean_files.len() + conflicts.len() > 0 ==> overlay_height(phase, screen_h) == 6
                + rows_for(clean_files.len()) + rows_for(conflicts.len())
        },
{
}

/// The picker is as tall as its turns and three rows more, if the screen is.
pub proof fn law_picker_height(points: Seq<PointModel>, selected: usize, screen_h: u16)
    ensures
        ({
            let height = overlay_height(PhaseModel::Picker { points, selected }, screen_h);
            &&& points.len() + 3 <= screen_h ==> height == points.len() + 3
            &&& points.len() + 3 > screen_h ==> height == screen_h
        }),
{
}

/// A click outside the overlay, or in one too small to draw, finds nothing.
pub proof fn law_clicks_outside(phase: PhaseModel, area: Rect, col: u16, row: u16)
    requires
        area.height == 0 || area.width < 10 || col < area.x || col >= area.x + area.width || row
            < area.y || row >= area.y + area.height,
    ensures
        row_at(phase, area, col, row) is None,
        area.height == 0 || area.width < 10 <==> area.too_small(),
{
}

/// A click inside finds the choice in that row, counted from the first, if it can be taken.
pub proof fn law_clicks_inside(phase: PhaseModel, area: Rect, col: u16, row: u16)
    requires
        !(phase is Picker),
        area.height > 0,
        area.width >= 10,
        area.x <= col < area.x + area.width,
        area.y <= row < area.y + area.height,
    ensures
        ({
            let i = row - area.y - first_radio_row(phase);
            &&& 0 <= i < radios(phase).len() && radios(phase)[i].enabled ==> row_at(
                phase,
                area,
                col,
                row,
            ) == Some(i as usize)
            &&& i < 0 || i >= radios(phase).len() || !radios(phase)[i].enabled ==> row_at(
                phase,
                area,
                col,
                row,
            ) is None
        }),
        in_area(area, col, row),
{
}

/// The picker shows its turns from its third row to its last but one. It begins with the first
/// turn if the selected one is in sight then, and otherwise ends with the selected one. A click
/// finds the turn in that row.
pub proof fn law_clicks_in_the_picker(
    points: Seq<PointModel>,
    selected: usize,
    area: Rect,
    col: u16,
    row: u16,
)
    requires
        area.width >= 10,
        area.x <= col < area.x + area.width,
        area.y <= row < area.y + area.height,
        points.len() <= usize::MAX,
    ensures
        ({
            let room = if area.height > 3 {
                area.height - 3
            } else {
                0
            };
            let first = if selected < room {
                0
            } else {
                selected - room + 1
            };
            let line = row - area.y - 2;
            let hit = row_at(PhaseModel::Picker { points, selected }, area, col, row);
            &&& 0 <= line < room && first + line < points.len() ==> hit == Some(
                (first + line) as usize,
            )
            &&& line < 0 || line >= room || first + line >= points.len() ==> hit is None
            &&& room == list_capacity(area.height)
            &&& first == list_offset(selected, room as nat)
        }),
{
}

} // verus!
