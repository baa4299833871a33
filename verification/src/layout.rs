//! Overlay geometry: which rows a phase occupies, and which of them can be clicked.

use vstd::prelude::*;

use crate::overlay_list::{list_height, list_row, ListOverlay};
use crate::phase::{ConflictDisplay, PhaseModel, RewindPhase};

verus! {

/// A rectangle of terminal cells.
#[derive(Debug, Clone, Copy, PartialEq, Eq, Structural)]
pub struct Rect {
    pub x: u16,
    pub y: u16,
    pub width: u16,
    pub height: u16,
}

impl Rect {
    /// The first column to the right of the rectangle, as far as a `u16` counts.
    pub open spec fn right(self) -> int {
        if self.x + self.width > u16::MAX {
            u16::MAX as int
        } else {
            self.x + self.width
        }
    }

    /// The first row below the rectangle, as far as a `u16` counts.
    pub open spec fn bottom(self) -> int {
        if self.y + self.height > u16::MAX {
            u16::MAX as int
        } else {
            self.y + self.height
        }
    }

    /// Whether the position lies in the rectangle.
    pub open spec fn holds(self, x: u16, y: u16) -> bool {
        self.x <= x < self.right() && self.y <= y < self.bottom()
    }

    /// Whether a line that starts at (`x`, `y`) and is cut off at the right edge stays in the
    /// rectangle.
    pub open spec fn takes_line(self, x: u16, y: u16) -> bool {
        x >= self.right() || (self.x <= x && self.y <= y < self.bottom())
    }

    /// Too small to draw the overlay in.
    pub open spec fn too_small(self) -> bool {
        self.height == 0 || self.width < 10
    }
}

/// A choice that the overlay offers as a row of its own.
pub struct RadioModel {
    /// The key that takes this choice; Esc and Backspace as their control characters.
    pub key: char,
    pub label: Seq<char>,
    /// A row that is shown but cannot be taken is not enabled.
    pub enabled: bool,
}

/// The rows a phase offers, from top to bottom.
pub open spec fn radios(phase: PhaseModel) -> Seq<RadioModel> {
    match phase {
        PhaseModel::CancelOffer { .. } => seq![
            RadioModel { key: 'y', label: "Cancel turn and rewind"@, enabled: true },
            RadioModel { key: 'n', label: "Let it finish"@, enabled: true },
        ],
        PhaseModel::ModeSelect { has_file_changes, offer_files_only, .. } => {
            let both = RadioModel {
                key: 'a',
                label: "Both conversation and file changes"@,
                enabled: true,
            };
            let conversation = RadioModel {
                key: if offer_files_only {
                    'c'
                } else {
                    'b'
                },
                label: "Conversation only"@,
                enabled: true,
            };
            let files = RadioModel {
                key: 'f',
                label: if has_file_changes {
                    "File changes only"@
                } else {
                    "File changes only (none since this turn)"@
                },
                enabled: has_file_changes,
            };
            if offer_files_only {
                seq![both, conversation, files]
            } else {
                seq![both, conversation]
            }
        },
        PhaseModel::FilePreview { .. } | PhaseModel::OrphanWarning { .. } => seq![
            RadioModel { key: 'y', label: "Confirm rewind"@, enabled: true },
            RadioModel { key: '\u{8}', label: "Back"@, enabled: true },
        ],
        PhaseModel::Confirm { .. } => seq![
            RadioModel { key: 'y', label: "Yes"@, enabled: true },
            RadioModel { key: 'a', label: "Yes, and don't ask again"@, enabled: true },
            RadioModel { key: 'n', label: "No"@, enabled: true },
        ],
        PhaseModel::Error { .. } => seq![
            RadioModel { key: '\u{1b}', label: "Dismiss"@, enabled: true },
        ],
        _ => seq![],
    }
}

/// Rows that a list of `n` paths takes: five of them, then one line for the rest.
pub open spec fn listed_rows(n: nat) -> nat {
    if n > 5 {
        6
    } else {
        n
    }
}

/// Rows of the file list in a preview, and of the spacer after it. Without any file there is a
/// single line that says so, and no spacer.
pub open spec fn file_rows(clean: nat, conflicts: nat) -> (nat, nat) {
    if clean == 0 && conflicts == 0 {
        (1, 0)
    } else {
        (listed_rows(clean) + listed_rows(conflicts), 1)
    }
}

/// Distance of the first choice from the top of the overlay. Row 0 is blank, row 1 the title.
pub open spec fn first_radio_row(phase: PhaseModel) -> nat {
    match phase {
        PhaseModel::CancelOffer { .. } | PhaseModel::OrphanWarning { .. } => 3,
        PhaseModel::Error { .. } => 3,
        PhaseModel::FilePreview { clean_files, conflicts, .. } => {
            let (rows, gap) = file_rows(clean_files.len(), conflicts.len());
            2 + rows + gap
        },
        _ => 2,
    }
}

/// Rows that the overlay needs: everything it shows, the blank row above and one more below.
pub open spec fn overlay_rows(phase: PhaseModel) -> nat {
    first_radio_row(phase) + radios(phase).len() + 1
}

/// Rows of the mode question.
pub fn mode_select_count(offer_files_only: bool) -> (n: usize)
    ensures
        n == if offer_files_only {
            3int
        } else {
            2
        },
{
    if offer_files_only {
        3
    } else {
        2
    }
}

fn listed(n: usize) -> (rows: u16)
    ensures
        rows == listed_rows(n as nat),
{
    if n > 5 {
        6
    } else {
        n as u16
    }
}

/// Rows the file list occupies in a preview, plus the blank spacer that follows it.
pub fn file_preview_rows(clean_files: &[String], conflicts: &[ConflictDisplay]) -> (r: (u16, u16))
    ensures
        (r.0 as nat, r.1 as nat) == file_rows(clean_files@.len(), conflicts@.len()),
{
    if clean_files.len() == 0 && conflicts.len() == 0 {
        return (1, 0);
    }
    (listed(clean_files.len()) + listed(conflicts.len()), 1)
}

/// Distance of the first choice from the top of the overlay.
pub(crate) fn first_choice_row(phase: &RewindPhase) -> (r: u16)
    ensures
        r == first_radio_row(phase@),
        r <= 15,
{
    match phase {
        RewindPhase::CancelOffer { .. } => 3,
        RewindPhase::OrphanWarning { .. } => 3,
        RewindPhase::Error { .. } => 3,
        RewindPhase::FilePreview { clean_files, conflicts, .. } => {
            let (rows, gap): (u16, u16) = file_preview_rows(
                clean_files.as_slice(),
                conflicts.as_slice(),
            );
            2 + rows + gap
        },
        _ => 2,
    }
}

/// How many choices a phase offers as rows.
fn choice_count(phase: &RewindPhase) -> (n: usize)
    ensures
        n == radios(phase@).len(),
        n <= 3,
{
    match phase {
        RewindPhase::CancelOffer { .. } => 2,
        RewindPhase::ModeSelect { offer_files_only, .. } => mode_select_count(*offer_files_only),
        RewindPhase::FilePreview { .. } => 2,
        RewindPhase::OrphanWarning { .. } => 2,
        RewindPhase::Confirm { .. } => 3,
        RewindPhase::Error { .. } => 1,
        _ => 0,
    }
}

/// Whether a position of the screen lies in `area`, edges counted without overflow.
pub open spec fn in_area(area: Rect, col: u16, row: u16) -> bool {
    area.x <= col < area.x + area.width && area.y <= row < area.y + area.height
}

/// The clickable row at a position: the choice drawn there, if it can be taken, or in the turn
/// picker the turn listed there.
pub open spec fn row_at(phase: PhaseModel, area: Rect, col: u16, row: u16) -> Option<usize> {
    if area.too_small() || !in_area(area, col, row) {
        None
    } else if let PhaseModel::Picker { points, selected } = phase {
        list_row(points.len(), selected, area, col, row)
    } else {
        let i = row - (area.y + first_radio_row(phase));
        if 0 <= i < radios(phase).len() && radios(phase)[i].enabled {
            Some(i as usize)
        } else {
            None
        }
    }
}

/// Hit-test a screen position against the rewind overlay's clickable rows.
pub fn rewind_row_at(phase: &RewindPhase, area: Rect, col: u16, row: u16) -> (r: Option<usize>)
    ensures
        r == row_at(phase@, area, col, row),
{
    if area.height == 0 || area.width < 10 {
        return None;
    }
    if col < area.x || col as u32 >= area.x as u32 + area.width as u32 {
        return None;
    }
    if row < area.y || row as u32 >= area.y as u32 + area.height as u32 {
        return None;
    }
    if let RewindPhase::Picker { points, selected } = phase {
        let list = ListOverlay { len: points.len(), selected: *selected };
        return list.row_at(area, col, row);
    }
    let first: u32 = area.y as u32 + first_choice_row(phase) as u32;
    if (row as u32) < first {
        return None;
    }
    let i: usize = (row as u32 - first) as usize;
    if i >= choice_count(phase) {
        return None;
    }
    if let RewindPhase::ModeSelect { has_file_changes, .. } = phase {
        // The disabled files-only row is rendered but not clickable.
        if i == 2 && !*has_file_changes {
            return None;
        }
    }
    Some(i)
}

/// Height of the overlay on a screen of `screen_h` rows.
pub open spec fn overlay_height(phase: PhaseModel, screen_h: u16) -> int {
    if let PhaseModel::Picker { points, .. } = phase {
        list_height(points.len(), screen_h)
    } else {
        overlay_rows(phase) as int
    }
}

/// Rows to reserve for the overlay.
pub fn rewind_overlay_height(phase: &RewindPhase, screen_h: u16) -> (h: u16)
    ensures
        h == overlay_height(phase@, screen_h),
{
    if let RewindPhase::Picker { points, selected } = phase {
        let list = ListOverlay { len: points.len(), selected: *selected };
        return list.height(screen_h);
    }
    first_choice_row(phase) + choice_count(phase) as u16 + 1
}

} // verus!
