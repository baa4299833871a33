//! A scrolling list in an overlay panel: a blank row, a title row, the items, a blank row.

use vstd::prelude::*;

use crate::layout::{in_area, Rect};

verus! {

/// Rows of a list overlay that are not items.
pub const LIST_CHROME_ROWS: u16 = 3;

/// Items that fit in a panel of `height` rows.
pub open spec fn list_capacity(height: u16) -> nat {
    if height > LIST_CHROME_ROWS {
        (height - LIST_CHROME_ROWS) as nat
    } else {
        0
    }
}

/// The first item shown: the list scrolls just far enough to keep the selected one in sight.
pub open spec fn list_offset(selected: usize, capacity: nat) -> nat {
    if selected < capacity {
        0
    } else {
        (selected - capacity + 1) as nat
    }
}

/// The item at a position of the panel in `area`.
pub open spec fn list_row(len: nat, selected: usize, area: Rect, col: u16, row: u16) -> Option<
    usize,
> {
    let shown = list_capacity(area.height);
    let i = row - (area.y + 2);
    let item = list_offset(selected, shown) + i;
    if in_area(area, col, row) && 0 <= i < shown && item < len {
        Some(item as usize)
    } else {
        None
    }
}

/// Height of the panel on a screen of `screen_h` rows: every item if they fit.
pub open spec fn list_height(len: nat, screen_h: u16) -> int {
    if len + LIST_CHROME_ROWS < screen_h {
        len + LIST_CHROME_ROWS
    } else {
        screen_h as int
    }
}

/// A list of `len` items, one of them selected.
#[derive(Debug, Clone, Copy, PartialEq, Eq, Structural)]
pub struct ListOverlay {
    pub len: usize,
    pub selected: usize,
}

impl ListOverlay {
    /// Items that fit in a panel of `height` rows.
    pub fn capacity(height: u16) -> (n: u16)
        ensures
            n == list_capacity(height),
    {
        if height > LIST_CHROME_ROWS {
            height - LIST_CHROME_ROWS
        } else {
            0
        }
    }

    /// The first item shown in a panel with room for `capacity` of them, if there is room at all.
    pub fn offset(&self, capacity: u16) -> (n: usize)
        requires
            capacity > 0,
        ensures
            n == list_offset(self.selected, capacity as nat),
    {
        if self.selected < capacity as usize {
            0
        } else {
            self.selected - (capacity as usize - 1)
        }
    }

    /// The item under a position of the panel.
    pub fn row_at(&self, area: Rect, col: u16, row: u16) -> (r: Option<usize>)
        ensures
            r == list_row(self.len as nat, self.selected, area, col, row),
    {
        if col < area.x || col as u32 >= area.x as u32 + area.width as u32 {
            return None;
        }
        let shown: u16 = ListOverlay::capacity(area.height);
        let first: u32 = area.y as u32 + 2;
        if (row as u32) < first {
            return None;
        }
        let i: u32 = row as u32 - first;
        if i >= shown as u32 {
            return None;
        }
        let offset: usize = self.offset(shown);
        if offset >= self.len || i as usize >= self.len - offset {
            return None;
        }
        Some(offset + i as usize)
    }

    /// Rows to reserve for the panel.
    pub fn height(&self, screen_h: u16) -> (h: u16)
        ensures
            h == list_height(self.len as nat, screen_h),
    {
        if screen_h > LIST_CHROME_ROWS && self.len < (screen_h - LIST_CHROME_ROWS) as usize {
            self.len as u16 + LIST_CHROME_ROWS
        } else {
            screen_h
        }
    }
}

} // verus!
