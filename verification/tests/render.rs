//! The overlay as it comes out on a real cell grid.

use ratatui::buffer::Buffer;
use ratatui::style::{Color, Modifier, Style};
use rewind_overlay::captions::{phase_captions, phase_radios, picker_row_text, preview_title};
use rewind_overlay::layout::{rewind_overlay_height, rewind_row_at, Rect};
use rewind_overlay::phase::{ConflictDisplay, RewindMode, RewindPhase, RewindPointInfo};
use rewind_overlay::render::{overlay_plan, render_rewind_overlay, try_render_rewind_overlay};
use rewind_overlay::screen::has_every_cell;
use rewind_overlay::text::{clip, decimal_string, ellipsize, key_label, pad, trim};
use rewind_overlay::theme::{inked, inked_on, papered, Theme, Tone};

fn theme() -> Theme {
    Theme {
        bg_light: Color::Black,
        accent_user: Color::Cyan,
        accent_error: Color::Red,
        gray: Color::Gray,
        gray_dim: Color::DarkGray,
        text_primary: Color::White,
        warning: Color::Yellow,
        selection_overlay: Style::default().bg(Color::Blue),
        accent_bar: "|",
        filled_dot: "*",
    }
}

fn grid(width: u16, height: u16) -> Buffer {
    Buffer::empty(ratatui::layout::Rect::new(0, 0, width, height))
}

fn row_text(buf: &Buffer, y: u16) -> String {
    let mut text = String::new();
    for x in 0..buf.area.width {
        text.push_str(buf[(x, y)].symbol());
    }
    text.trim_end().to_string()
}

fn whole(buf: &Buffer) -> Rect {
    Rect {
        x: 0,
        y: 0,
        width: buf.area.width,
        height: buf.area.height,
    }
}

fn drawn(phase: &RewindPhase, width: u16, focused: bool) -> Buffer {
    let mut buf = grid(width, rewind_overlay_height(phase, 40));
    let area = whole(&buf);
    assert_eq!(
        try_render_rewind_overlay(&mut buf, area, phase, focused, &theme()),
        Some(!focused)
    );
    buf
}

fn mode_select(has_file_changes: bool, offer_files_only: bool, active_idx: usize) -> RewindPhase {
    RewindPhase::ModeSelect {
        target_prompt_index: 1,
        has_file_changes,
        offer_files_only,
        active_idx,
        prompt_preview: None,
    }
}

fn preview(clean: usize, conflicts: usize) -> RewindPhase {
    RewindPhase::FilePreview {
        target_prompt_index: 2,
        mode: RewindMode::FilesOnly,
        clean_files: (0..clean).map(|i| format!("c{i}.rs")).collect(),
        conflicts: (0..conflicts)
            .map(|i| ConflictDisplay {
                path: format!("x{i}.rs"),
                label: "deleted",
            })
            .collect(),
        active_idx: 1,
        prompt_preview: Some("turn 2".into()),
    }
}

#[test]
fn mode_question_on_the_grid() {
    let buf = drawn(&mode_select(true, true, 1), 60, true);
    assert_eq!(row_text(&buf, 0), "|");
    assert_eq!(row_text(&buf, 1), "|  What do you want to rewind?");
    assert_eq!(
        row_text(&buf, 2),
        "|  a   (\u{25CB}) Both conversation and file changes"
    );
    assert_eq!(row_text(&buf, 3), "|  c   (*) Conversation only");
    assert_eq!(row_text(&buf, 4), "|  f   (\u{25CB}) File changes only");
    assert_eq!(row_text(&buf, 5), "|");
    // The bar, the title, a plain row, and the row under the cursor.
    assert_eq!(buf[(0, 0)].fg, Color::Cyan);
    assert_eq!(buf[(0, 0)].bg, Color::Black);
    assert_eq!(buf[(3, 1)].fg, Color::Cyan);
    assert!(buf[(3, 1)].modifier.contains(Modifier::BOLD));
    assert_eq!(buf[(11, 2)].fg, Color::White);
    assert!(!buf[(11, 2)].modifier.contains(Modifier::BOLD));
    assert!(buf[(11, 3)].modifier.contains(Modifier::BOLD));
    assert_eq!(buf[(2, 3)].bg, Color::Blue);
    assert_eq!(buf[(1, 3)].bg, Color::Black);
    assert_eq!(buf[(2, 2)].bg, Color::Black);
}

#[test]
fn dim_row_and_inline_question() {
    let buf = drawn(&mode_select(false, true, 0), 60, true);
    assert_eq!(
        row_text(&buf, 4),
        "|  f   (\u{25CB}) File changes only (none since this turn)"
    );
    assert_eq!(buf[(3, 4)].fg, Color::DarkGray);
    assert_eq!(buf[(11, 4)].fg, Color::DarkGray);

    let buf = drawn(&mode_select(true, false, 0), 60, true);
    assert_eq!(
        row_text(&buf, 1),
        "|  Resubmit from here \u{2014} what should be rewound?"
    );
    assert_eq!(row_text(&buf, 3), "|  b   (\u{25CB}) Conversation only");
    assert_eq!(buf.area.height, 5);
}

#[test]
fn unfocused_panel_has_no_highlight_and_recedes() {
    let buf = drawn(&mode_select(true, true, 1), 60, false);
    assert_eq!(buf[(2, 3)].bg, Color::Black);
    assert_eq!(row_text(&buf, 3), "|  c   (*) Conversation only");
}

#[test]
fn file_list_on_the_grid() {
    let buf = drawn(&preview(2, 1), 60, true);
    assert_eq!(
        row_text(&buf, 1),
        "|  Rewind file changes only to \u{201C}turn 2\u{201D}? (3 files)"
    );
    assert_eq!(row_text(&buf, 2), "|  c0.rs");
    assert_eq!(row_text(&buf, 3), "|  c1.rs");
    assert_eq!(row_text(&buf, 4), "|  ! x0.rs (deleted)");
    assert_eq!(buf[(3, 4)].fg, Color::Yellow);
    assert_eq!(row_text(&buf, 5), "|");
    assert_eq!(row_text(&buf, 6), "|  y   (\u{25CB}) Confirm rewind");
    assert_eq!(row_text(&buf, 7), "|  Bksp(*) Back");
    assert_eq!(row_text(&buf, 8), "|");

    let buf = drawn(&preview(0, 0), 60, true);
    assert_eq!(
        row_text(&buf, 1),
        "|  Rewind file changes only to \u{201C}turn 2\u{201D}?"
    );
    assert_eq!(row_text(&buf, 2), "|  No tracked file changes to restore.");
    assert_eq!(row_text(&buf, 3), "|  y   (\u{25CB}) Confirm rewind");
}

#[test]
fn long_lists_end_in_a_count() {
    let buf = drawn(&preview(8, 6), 60, true);
    assert_eq!(row_text(&buf, 6), "|  c4.rs");
    assert_eq!(row_text(&buf, 7), "|  +3 more");
    assert_eq!(row_text(&buf, 12), "|  ! x4.rs (deleted)");
    assert_eq!(row_text(&buf, 13), "|  +1 more");
    assert_eq!(buf[(3, 13)].fg, Color::Gray);
    assert_eq!(row_text(&buf, 15), "|  y   (\u{25CB}) Confirm rewind");
}

#[test]
fn remaining_panels_on_the_grid() {
    let buf = drawn(&RewindPhase::Loading, 40, true);
    assert_eq!(row_text(&buf, 1), "|  Loading rewind points...");
    let buf = drawn(
        &RewindPhase::Previewing {
            target_prompt_index: 0,
            mode: RewindMode::All,
        },
        40,
        true,
    );
    assert_eq!(row_text(&buf, 1), "|  Previewing file changes...");
    let buf = drawn(
        &RewindPhase::Executing {
            target_prompt_index: 0,
            mode: RewindMode::All,
        },
        40,
        true,
    );
    assert_eq!(row_text(&buf, 1), "|  Rewinding...");
    let buf = drawn(&RewindPhase::CancelOffer { active_idx: 0 }, 60, true);
    assert_eq!(row_text(&buf, 1), "|  A turn is currently running.");
    assert_eq!(
        row_text(&buf, 2),
        "|  Would you like to cancel it before rewinding?"
    );
    assert_eq!(row_text(&buf, 3), "|  y   (*) Cancel turn and rewind");
    assert_eq!(row_text(&buf, 4), "|  n   (\u{25CB}) Let it finish");
    let buf = drawn(
        &RewindPhase::OrphanWarning {
            target_prompt_index: 0,
            active_idx: 0,
            prompt_preview: None,
        },
        90,
        true,
    );
    assert_eq!(
        row_text(&buf, 1),
        "|  Rewind conversation only to \u{201C}this turn\u{201D}?"
    );
    assert_eq!(
        row_text(&buf, 2),
        "|  The removed turns' file changes stay on disk and cannot be undone later."
    );
    let buf = drawn(
        &RewindPhase::Confirm {
            target_prompt_index: 0,
            mode: RewindMode::All,
            active_idx: 2,
            prompt_preview: Some("a turn".into()),
        },
        60,
        true,
    );
    assert_eq!(
        row_text(&buf, 1),
        "|  Rewind conversation to \u{201C}a turn\u{201D}?"
    );
    assert_eq!(row_text(&buf, 2), "|  y   (\u{25CB}) Yes");
    assert_eq!(
        row_text(&buf, 3),
        "|  a   (\u{25CB}) Yes, and don't ask again"
    );
    assert_eq!(row_text(&buf, 4), "|  n   (*) No");
    let buf = drawn(
        &RewindPhase::Error {
            message: "something went badly wrong".into(),
        },
        20,
        true,
    );
    assert_eq!(row_text(&buf, 1), "|  Rewind failed");
    assert_eq!(buf[(3, 1)].fg, Color::Red);
    assert_eq!(row_text(&buf, 2), "|  something went");
    assert_eq!(row_text(&buf, 3), "|  Esc (*) Dismiss");
}

#[test]
fn picker_on_the_grid() {
    let point = |i: usize, n: usize| RewindPointInfo {
        prompt_index: i,
        created_at: String::new(),
        num_file_snapshots: n,
        prompt_preview: if i == 0 {
            None
        } else {
            Some(format!("turn {i}"))
        },
        has_file_changes: n > 0,
    };
    let phase = RewindPhase::Picker {
        points: vec![point(2, 1), point(1, 0), point(0, 4)],
        selected: 1,
    };
    let buf = drawn(&phase, 50, true);
    assert_eq!(row_text(&buf, 1), "|  Rewind to which turn?");
    assert_eq!(row_text(&buf, 2), "|  \u{B7} turn 2 \u{B7} 1 file");
    assert_eq!(row_text(&buf, 3), "|  \u{B7} turn 1");
    assert_eq!(row_text(&buf, 4), "|  \u{B7} (no preview) \u{B7} 4 files");
    assert!(buf[(5, 3)].modifier.contains(Modifier::BOLD));
    assert_eq!(buf[(5, 3)].bg, Color::Blue);
    assert_eq!(
        picker_row_text(&point(2, 1), 12),
        ("tur\u{2026}".to_string(), " \u{B7} 1 file".to_string())
    );
}

/// What is drawn as a choice is what a click there finds.
#[test]
fn clicks_find_what_is_drawn() {
    let phase = preview(7, 2);
    let buf = drawn(&phase, 60, true);
    let area = whole(&buf);
    let labels = ["Confirm rewind", "Back"];
    for y in 0..area.height {
        let hit = rewind_row_at(&phase, area, 20, y);
        let shown = labels.iter().position(|l| row_text(&buf, y).ends_with(l));
        assert_eq!(hit, shown, "row {y}");
    }
    assert_eq!(phase_radios(&phase).len(), 2);
}

/// The same in the picker, also when it is scrolled.
#[test]
fn picker_clicks_find_what_is_drawn() {
    let phase = RewindPhase::Picker {
        points: (0..12)
            .map(|i| RewindPointInfo {
                prompt_index: i,
                created_at: String::new(),
                num_file_snapshots: 0,
                prompt_preview: Some(format!("turn {i}!")),
                has_file_changes: false,
            })
            .collect(),
        selected: 9,
    };
    let mut buf = grid(40, 8);
    let area = whole(&buf);
    assert_eq!(
        try_render_rewind_overlay(&mut buf, area, &phase, true, &theme()),
        Some(false)
    );
    let mut hits = 0;
    for y in 0..8 {
        let text = row_text(&buf, y);
        match rewind_row_at(&phase, area, 30, y) {
            Some(i) => {
                hits += 1;
                assert!(text.ends_with(&format!("turn {i}!")), "row {y}: {text}");
            }
            None => assert!(!text.ends_with('!'), "row {y}: {text}"),
        }
    }
    assert_eq!(hits, 5);
    assert_eq!(rewind_row_at(&phase, area, 30, 6), Some(9));
}

/// Nothing outside the overlay's area is touched, and inside a too small one nothing at all.
#[test]
fn drawing_stays_in_its_area() {
    let mut buf = grid(60, 20);
    for y in 0..20 {
        for x in 0..60 {
            buf[(x, y)].set_symbol("#");
        }
    }
    let before = buf.clone();
    let area = Rect {
        x: 5,
        y: 4,
        width: 30,
        height: 6,
    };
    let phase = mode_select(true, true, 0);
    assert_eq!(
        try_render_rewind_overlay(&mut buf, area, &phase, true, &theme()),
        Some(false)
    );
    for y in 0..20 {
        for x in 0..60 {
            let inside = x >= 5 && x < 35 && y >= 4 && y < 10;
            if !inside {
                assert_eq!(buf[(x, y)], before[(x, y)], "({x}, {y})");
            }
        }
    }
    assert_eq!(buf[(5, 4)].symbol(), "|");
    assert_eq!(buf[(8, 5)].symbol(), "W");
    // Long labels are cut at the right edge of the text columns.
    assert_eq!(buf[(33, 6)].symbol(), "#");

    let mut untouched = before.clone();
    let narrow = Rect {
        x: 5,
        y: 4,
        width: 9,
        height: 6,
    };
    assert_eq!(
        try_render_rewind_overlay(&mut untouched, narrow, &phase, false, &theme()),
        Some(false)
    );
    assert_eq!(untouched, before);
}

/// Rows below the grid cannot be drawn: nothing is.
#[test]
fn grid_without_room_is_left_alone() {
    let mut buf = grid(60, 4);
    let before = buf.clone();
    let area = whole(&buf);
    let phase = mode_select(true, true, 0);
    assert_eq!(
        try_render_rewind_overlay(&mut buf, area, &phase, true, &theme()),
        None
    );
    assert_eq!(buf, before);
    // Five rows hold all of the text.
    let mut buf = grid(60, 5);
    assert!(has_every_cell(&buf));
    let area = whole(&buf);
    assert!(!render_rewind_overlay(
        &mut buf,
        area,
        &phase,
        true,
        &theme()
    ));
    assert_eq!(row_text(&buf, 4), "|  f   (\u{25CB}) File changes only");
    // A grid with fewer cells than its area promises.
    let mut short = grid(60, 6);
    short.content.truncate(10);
    assert!(!has_every_cell(&short));
    let area = whole(&short);
    assert_eq!(
        try_render_rewind_overlay(&mut short, area, &phase, true, &theme()),
        None
    );
}

/// Frame, title, and two steps for each choice, plus the highlight.
#[test]
fn plan_counts() {
    let area = Rect {
        x: 0,
        y: 0,
        width: 40,
        height: 6,
    };
    let plan = overlay_plan(area, &mode_select(true, true, 0), true, &theme());
    assert_eq!(plan.ops.len(), 1 + 6 + 1 + 3 * 2 + 1);
    let plan = overlay_plan(area, &mode_select(true, true, 0), false, &theme());
    assert_eq!(plan.ops.len(), 1 + 6 + 1 + 3 * 2);
}

#[test]
fn titles_are_fitted() {
    assert_eq!(preview_title("to ", "abcdef", "?", 20), "to abcdef?");
    // Eleven columns: one stays free, four are taken.
    assert_eq!(preview_title("to ", "abcdef", "?", 11), "to abcdef?");
    assert_eq!(preview_title("to ", "abcdef", "?", 10), "to abcd\u{2026}?");
    assert_eq!(preview_title("to ", "abcdef", "?", 2), "to \u{2026}?");
    assert_eq!(preview_title("to ", "", "?", 2), "to ?");
}

#[test]
fn captions_carry_their_tone() {
    let lines = phase_captions(&preview(1, 1), 60).lines;
    let tones: Vec<Tone> = lines.iter().map(|l| l.tone).collect();
    assert_eq!(tones, vec![Tone::Title, Tone::Muted, Tone::Warning]);
    assert_eq!(theme().tone(Tone::Body), Style::default().fg(Color::White));
    assert_eq!(
        theme().tone(Tone::ErrorTitle),
        Style::default().fg(Color::Red).add_modifier(Modifier::BOLD)
    );
}

#[test]
fn styles_set_what_they_say() {
    assert_eq!(inked(Color::Red), Style::default().fg(Color::Red));
    assert_eq!(papered(Color::Red), Style::default().bg(Color::Red));
    assert_eq!(
        inked_on(Color::Red, Color::Blue, false),
        Style::default().fg(Color::Red).bg(Color::Blue)
    );
    assert_eq!(
        inked_on(Color::Red, Color::Blue, true),
        Style::default()
            .fg(Color::Red)
            .bg(Color::Blue)
            .add_modifier(Modifier::BOLD)
    );
}

/// White space at the ends is what the standard library takes for it, for every character.
#[test]
fn trim_agrees_with_the_standard_library() {
    let mut code: u32 = 0;
    while code <= 0x10FFFF {
        if let Some(c) = char::from_u32(code) {
            let text = format!("{c}x{c}");
            assert_eq!(trim(&text), text.trim(), "U+{code:04X}");
        }
        code += 1;
    }
    assert_eq!(trim("  a b \n"), "a b");
    assert_eq!(trim(" \t "), "");
    assert_eq!(trim(""), "");
}

#[test]
fn text_helpers() {
    assert_eq!(clip("h\u{e9}llo", 2), "h\u{e9}");
    assert_eq!(clip("ab", 5), "ab");
    assert_eq!(ellipsize("abcdef", 4), "abc\u{2026}");
    assert_eq!(ellipsize("abcdef", 0), "\u{2026}");
    assert_eq!(ellipsize("abcdef", 6), "abcdef");
    assert_eq!(pad("y", 4), "y   ");
    assert_eq!(pad("Bksp!", 4), "Bksp!");
    assert_eq!(key_label('\u{e9}'), "\u{e9}");
    assert_eq!(decimal_string(0), "0");
    assert_eq!(decimal_string(90210), "90210");
}
