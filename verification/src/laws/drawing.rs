//! What is drawn of the overlay, where, and in which style.

use ratatui::style::Color;
use vstd::prelude::*;
use vstd::string::*;

use crate::captions::{captions, picker_files, picker_preview, Caption, Radio};
use crate::input::cursor_of;
use crate::layout::{first_radio_row, radios, RadioModel, Rect};
use crate::overlay_list::{list_capacity, list_offset};
use crate::phase::{PhaseModel, PointModel};
use crate::render::{
    drawable, frame_ops, grid_fits, last_text_row, lemma_panel_rows, painted, painted_all,
    panel_ops, picker_ops, picker_shown, picker_spans, radio_ops, radio_spans, row_ops, DrawOp,
    OpModel, Plan, TextSpan,
};
use crate::screen::{line_written, style_parts, CellModel, SpanModel, StyleModel};
use crate::text::{key_name, padded};
use crate::theme::{tone_style, Theme, Tone};

verus! {

/// A style that sets these colours and nothing else.
pub open spec fn plain(fg: Option<Color>, bg: Option<Color>) -> StyleModel {
    StyleModel { fg, bg, add: 0, remove: 0 }
}

/// The same in bold.
pub open spec fn strong(fg: Option<Color>, bg: Option<Color>) -> StyleModel {
    StyleModel { fg, bg, add: 1, remove: 0 }
}

/// How each kind of line looks: titles in bold, everything in its colour, on whatever is behind.
pub proof fn law_line_styles(theme: Theme)
    ensures
        tone_style(theme, Tone::Title) == strong(Some(theme.accent_user), None),
        tone_style(theme, Tone::ErrorTitle) == strong(Some(theme.accent_error), None),
        tone_style(theme, Tone::Body) == plain(Some(theme.text_primary), None),
        tone_style(theme, Tone::Muted) == plain(Some(theme.gray), None),
        tone_style(theme, Tone::Warning) == plain(Some(theme.warning), None),
{
    assert(0u16 | 1u16 == 1u16) by (bit_vector);
    assert(0u16 & !1u16 == 0u16) by (bit_vector);
}

/// A choice shows its key in four columns, a marker that is filled under the cursor, and its
/// label, in bold under the cursor. One that cannot be taken is all dim.
pub proof fn law_choice_looks(radio: RadioModel, is_cursor: bool, theme: Theme)
    ensures
        ({
            let spans = radio_spans(radio, is_cursor, theme);
            let bg = Some(theme.bg_light);
            &&& spans.len() == 3
            &&& spans[0].text == padded(key_name(radio.key), 4)
            &&& spans[2].text == radio.label
            &&& radio.enabled && is_cursor ==> {
                &&& spans[0].style == plain(Some(theme.accent_user), bg)
                &&& spans[1].text == "("@ + theme.filled_dot@ + ") "@
                &&& spans[1].style == plain(Some(theme.accent_user), bg)
                &&& spans[2].style == strong(Some(theme.text_primary), bg)
            }
            &&& radio.enabled && !is_cursor ==> {
                &&& spans[0].style == plain(Some(theme.accent_user), bg)
                &&& spans[1].text == "("@ + "\u{25CB}"@ + ") "@
                &&& spans[1].style == plain(Some(theme.gray), bg)
                &&& spans[2].style == plain(Some(theme.text_primary), bg)
            }
            &&& !radio.enabled ==> {
                &&& spans[1].text == "("@ + "\u{25CB}"@ + ") "@
                &&& spans[0].style == plain(Some(theme.gray_dim), bg)
                &&& spans[1].style == plain(Some(theme.gray_dim), bg)
                &&& spans[2].style == plain(Some(theme.gray_dim), bg)
            }
        }),
{
    assert(0u16 | 1u16 == 1u16) by (bit_vector);
    assert(0u16 & !1u16 == 0u16) by (bit_vector);
}

/// A turn in the picker shows a dot, its preview, in bold under the cursor, and its files.
pub proof fn law_turn_looks(point: PointModel, is_cursor: bool, width: u16, theme: Theme)
    ensures
        ({
            let spans = picker_spans(point, is_cursor, width, theme);
            let bg = Some(theme.bg_light);
            &&& spans.len() == 3
            &&& spans[0].text == "\u{00B7} "@
            &&& spans[0].style == plain(Some(theme.gray), bg)
            &&& spans[1].text == picker_preview(point, width)
            &&& is_cursor ==> spans[1].style == strong(Some(theme.text_primary), bg)
            &&& !is_cursor ==> spans[1].style == plain(Some(theme.text_primary), bg)
            &&& spans[2].text == picker_files(point)
            &&& spans[2].style == plain(Some(theme.gray), bg)
        }),
{
    assert(0u16 | 1u16 == 1u16) by (bit_vector);
    assert(0u16 & !1u16 == 0u16) by (bit_vector);
}

/// Text in row `dy` of the overlay: from its fourth column, over all but five of its columns.
pub open spec fn text_in(area: Rect, dy: int, spans: Seq<SpanModel>) -> OpModel {
    OpModel::Text {
        x: (area.x + 3) as u16,
        y: (area.y + dy) as u16,
        spans,
        max_width: (area.width - 5) as u16,
    }
}

/// A style over row `dy` of the overlay, one column further than its text on either side.
pub open spec fn style_over(area: Rect, dy: int, style: StyleModel) -> OpModel {
    OpModel::Fill {
        area: Rect {
            x: (area.x + 2) as u16,
            y: (area.y + dy) as u16,
            width: (area.width - 3) as u16,
            height: 1,
        },
        style,
    }
}

/// A row that can be pointed at: its background, its text, and if it is highlighted the highlight
/// over both.
pub open spec fn row_drawn(
    ops: Seq<OpModel>,
    area: Rect,
    dy: int,
    spans: Seq<SpanModel>,
    highlighted: bool,
    theme: Theme,
) -> bool {
    &&& ops.len() == (if highlighted {
        3int
    } else {
        2
    })
    &&& ops[0] == style_over(area, dy, plain(None, Some(theme.bg_light)))
    &&& ops[1] == text_in(area, dy, spans)
    &&& highlighted ==> ops[2] == style_over(area, dy, style_parts(theme.selection_overlay))
}

/// How a row is drawn.
pub proof fn law_rows_drawn(
    area: Rect,
    dy: int,
    spans: Seq<SpanModel>,
    highlighted: bool,
    theme: Theme,
)
    requires
        area.width >= 10,
    ensures
        row_drawn(
            row_ops(area, dy, spans, highlighted, theme),
            area,
            dy,
            spans,
            highlighted,
            theme,
        ),
{
}

/// The choices are drawn one after the other, each in its row. The one under the cursor is
/// highlighted while the panel has the focus and the choice can be taken.
pub proof fn law_choices_drawn(
    phase: PhaseModel,
    n: nat,
    area: Rect,
    theme: Theme,
    focused: bool,
)
    requires
        n < radios(phase).len(),
        area.width >= 10,
    ensures
        ({
            let before = radio_ops(phase, n, area, theme, focused);
            let after = radio_ops(phase, n + 1, area, theme, focused);
            let under_cursor = n == cursor_of(phase);
            &&& radio_ops(phase, 0, area, theme, focused).len() == 0
            &&& after.len() >= before.len()
            &&& after.take(before.len() as int) == before
            &&& row_drawn(
                after.skip(before.len() as int),
                area,
                (first_radio_row(phase) + n) as int,
                radio_spans(radios(phase)[n as int], under_cursor, theme),
                under_cursor && focused && radios(phase)[n as int].enabled,
                theme,
            )
        }),
{
    let before = radio_ops(phase, n, area, theme, focused);
    let after = radio_ops(phase, n + 1, area, theme, focused);
    let under_cursor = n == cursor_of(phase);
    let row = row_ops(
        area,
        (first_radio_row(phase) + n) as int,
        radio_spans(radios(phase)[n as int], under_cursor, theme),
        under_cursor && focused && radios(phase)[n as int].enabled,
        theme,
    );
    assert(after =~= before + row);
    assert(after.take(before.len() as int) =~= before);
    assert(after.skip(before.len() as int) =~= row);
}

/// The turns of the picker are drawn one after the other from the third row on, beginning with the
/// first in sight. The selected one is highlighted while the panel has the focus.
pub proof fn law_turns_drawn(
    points: Seq<PointModel>,
    selected: usize,
    n: nat,
    area: Rect,
    theme: Theme,
    focused: bool,
)
    requires
        area.width >= 10,
    ensures
        ({
            let before = picker_ops(points, selected, n, area, theme, focused);
            let after = picker_ops(points, selected, n + 1, area, theme, focused);
            let turn = list_offset(selected, list_capacity(area.height)) + n;
            &&& picker_ops(points, selected, 0, area, theme, focused).len() == 0
            &&& after.len() >= before.len()
            &&& after.take(before.len() as int) == before
            &&& row_drawn(
                after.skip(before.len() as int),
                area,
                (n + 2) as int,
                picker_spans(
                    points[turn as int],
                    turn == selected,
                    (area.width - 5) as u16,
                    theme,
                ),
                turn == selected && focused,
                theme,
            )
        }),
{
    let before = picker_ops(points, selected, n, area, theme, focused);
    let after = picker_ops(points, selected, n + 1, area, theme, focused);
    let turn = list_offset(selected, list_capacity(area.height)) + n;
    let row = row_ops(
        area,
        (n + 2) as int,
        picker_spans(points[turn as int], turn == selected, (area.width - 5) as u16, theme),
        turn == selected && focused,
        theme,
    );
    assert(after =~= before + row);
    assert(after.take(before.len() as int) =~= before);
    assert(after.skip(before.len() as int) =~= row);
}

/// As many turns are shown as there is room for and as there are from the first in sight on.
pub proof fn law_turns_in_sight(len: nat, selected: usize, area: Rect)
    ensures
        ({
            let room = list_capacity(area.height);
            let left = len - list_offset(selected, room);
            let shown = picker_shown(len, selected, area);
            &&& shown <= room
            &&& left <= 0 ==> shown == 0
            &&& 0 < left <= room ==> shown == left
            &&& left > room ==> shown == room
        }),
{
}

/// The whole panel: its background, the bar down its left edge, its lines from the second row on,
/// and then its choices or turns. In an area that is too small nothing is drawn.
pub proof fn law_panel_drawn(phase: PhaseModel, area: Rect, theme: Theme, focused: bool)
    requires
        area.y + area.height <= u16::MAX,
    ensures
        ({
            let ops = panel_ops(phase, area, theme, focused);
            let h = area.height as int;
            let lines = captions(phase, (area.width - 5) as u16);
            let head = 1 + h + lines.len();
            &&& area.height == 0 || area.width < 10 ==> ops.len() == 0
            &&& area.height > 0 && area.width >= 10 ==> {
                &&& ops.len() >= head
                &&& ops[0] == (OpModel::Fill { area, style: plain(None, Some(theme.bg_light)) })
                &&& forall|i: int|
                    0 <= i < h ==> #[trigger] ops[1 + i] == (OpModel::Symbol {
                        x: area.x,
                        y: (area.y + i) as u16,
                        symbol: theme.accent_bar@,
                        style: plain(Some(theme.accent_user), None),
                    })
                &&& forall|i: int|
                    0 <= i < lines.len() ==> #[trigger] ops[1 + h + i] == text_in(
                        area,
                        i + 1,
                        seq![
                            SpanModel {
                                text: lines[i].text,
                                style: tone_style(theme, lines[i].tone),
                            },
                        ],
                    )
                &&& phase matches PhaseModel::Picker { points, selected } ==> ops.skip(head)
                    == picker_ops(
                    points,
                    selected,
                    picker_shown(points.len(), selected, area),
                    area,
                    theme,
                    focused,
                )
                &&& !(phase is Picker) ==> ops.skip(head) == radio_ops(
                    phase,
                    radios(phase).len(),
                    area,
                    theme,
                    focused,
                )
            }
        }),
{
    let ops = panel_ops(phase, area, theme, focused);
    let lines = captions(phase, (area.width - 5) as u16);
    let head = 1 + area.height as int + lines.len();
    if area.height > 0 && area.width >= 10 {
        if let PhaseModel::Picker { points, selected } = phase {
            assert(ops.skip(head) =~= picker_ops(
                points,
                selected,
                picker_shown(points.len(), selected, area),
                area,
                theme,
                focused,
            ));
        } else {
            assert(ops.skip(head) =~= radio_ops(phase, radios(phase).len(), area, theme, focused));
        }
    }
}

/// Steps take effect one after the other.
pub proof fn law_steps_in_order(
    cells: Map<(u16, u16), CellModel>,
    grid: Rect,
    ops: Seq<OpModel>,
    op: OpModel,
)
    ensures
        painted_all(cells, grid, Seq::<OpModel>::empty()) == cells,
        painted_all(cells, grid, ops.push(op)) == painted(painted_all(cells, grid, ops), grid, op),
{
    assert(ops.push(op).drop_last() =~= ops);
}

/// What one step does to a cell. A style changes the cells of its area, and of them only the
/// colours that it sets and the modifiers that it names. A symbol goes into its cell. Text is
/// written from its position on.
pub proof fn law_steps_on_cells(
    cells: Map<(u16, u16), CellModel>,
    grid: Rect,
    op: OpModel,
    p: (u16, u16),
)
    requires
        cells.contains_key(p),
    ensures
        match op {
            OpModel::Fill { area, style } => {
                let cell = painted(cells, grid, op)[p];
                let inside = area.x <= p.0 && p.0 < area.x + area.width && p.0 < u16::MAX && area.y
                    <= p.1 && p.1 < area.y + area.height && p.1 < u16::MAX;
                &&& painted(cells, grid, op).contains_key(p)
                &&& !inside ==> cell == cells[p]
                &&& inside ==> {
                    &&& cell.symbol == cells[p].symbol
                    &&& cell.skip == cells[p].skip
                    &&& style.fg matches Some(c) ==> cell.fg == c
                    &&& style.fg is None ==> cell.fg == cells[p].fg
                    &&& style.bg matches Some(c) ==> cell.bg == c
                    &&& style.bg is None ==> cell.bg == cells[p].bg
                    &&& cell.modifier == (cells[p].modifier | style.add) & !style.remove
                }
            },
            OpModel::Symbol { x, y, symbol, style } => {
                let cell = painted(cells, grid, op)[p];
                &&& painted(cells, grid, op).contains_key(p)
                &&& p != (x, y) ==> cell == cells[p]
                &&& p == (x, y) ==> {
                    &&& cell.symbol == symbol
                    &&& cell.skip == cells[p].skip
                    &&& style.fg matches Some(c) ==> cell.fg == c
                    &&& style.fg is None ==> cell.fg == cells[p].fg
                    &&& style.bg matches Some(c) ==> cell.bg == c
                    &&& style.bg is None ==> cell.bg == cells[p].bg
                    &&& cell.modifier == (cells[p].modifier | style.add) & !style.remove
                }
            },
            OpModel::Text { x, y, spans, max_width } => painted(cells, grid, op) == line_written(
                cells,
                grid,
                x,
                y,
                spans,
                max_width,
            ),
        },
{
}

/// The last row with text in it: of the choices, or of the turns in sight, or the title.
pub proof fn law_last_row(phase: PhaseModel, area: Rect)
    ensures
        phase matches PhaseModel::Picker { points, selected } ==> last_text_row(phase, area) == 1
            + picker_shown(points.len(), selected, area),
        !(phase is Picker) && radios(phase).len() > 0 ==> last_text_row(phase, area)
            == first_radio_row(phase) + radios(phase).len() - 1,
        !(phase is Picker) && radios(phase).len() == 0 ==> last_text_row(phase, area) == 1,
{
}

/// The overlay can be drawn wherever its rows and columns have coordinates, and the files of its
/// list can be counted.
pub proof fn law_drawable(phase: PhaseModel, area: Rect)
    requires
        phase matches PhaseModel::FilePreview { clean_files, conflicts, .. } ==> clean_files.len()
            + conflicts.len() <= usize::MAX,
    ensures
        area.height == 0 || area.width < 10 ==> drawable(phase, area),
        area.x + 3 <= u16::MAX && area.y + area.height <= u16::MAX && area.y + last_text_row(
            phase,
            area,
        ) <= u16::MAX ==> drawable(phase, area),
{
}

/// A line of text that starts in a row of the grid, or too far right to be seen at all.
pub open spec fn line_fits(grid: Rect, x: u16, y: u16) -> bool {
    let right = if grid.x + grid.width > u16::MAX {
        u16::MAX as int
    } else {
        grid.x + grid.width
    };
    let bottom = if grid.y + grid.height > u16::MAX {
        u16::MAX as int
    } else {
        grid.y + grid.height
    };
    x >= right || (grid.x <= x && grid.y <= y < bottom)
}

/// Every line of text of these steps fits on the grid.
pub open spec fn all_lines_fit(grid: Rect, ops: Seq<OpModel>) -> bool {
    forall|i: int|
        0 <= i < ops.len() ==> match #[trigger] ops[i] {
            OpModel::Text { x, y, .. } => line_fits(grid, x, y),
            _ => true,
        }
}

/// The grid has room for the overlay exactly if it has room for every line of text in it.
pub proof fn law_room(grid: Rect, phase: PhaseModel, area: Rect, theme: Theme, focused: bool)
    requires
        drawable(phase, area),
        phase matches PhaseModel::Picker { points, .. } ==> points.len() <= usize::MAX,
    ensures
        grid_fits(grid, phase, area) <==> all_lines_fit(
            grid,
            panel_ops(phase, area, theme, focused),
        ),
{
    let ops = panel_ops(phase, area, theme, focused);
    if area.height > 0 && area.width >= 10 {
        let frame = frame_ops(area, theme);
        lemma_panel_rows(phase, area, theme, focused);
        let body = ops.skip(frame.len() as int);
        if grid_fits(grid, phase, area) {
            assert forall|i: int| 0 <= i < ops.len() implies match #[trigger] ops[i] {
                OpModel::Text { x, y, .. } => line_fits(grid, x, y),
                _ => true,
            } by {
                if i < frame.len() {
                    assert(ops[i] == ops.take(frame.len() as int)[i]);
                } else {
                    assert(ops[i] == body[i - frame.len()]);
                }
            }
        }
        if all_lines_fit(grid, ops) {
            law_panel_drawn(phase, area, theme, focused);
            let lines = captions(phase, (area.width - 5) as u16);
            crate::render::lemma_captions_above_choices(phase, (area.width - 5) as u16);
            assert(lines.len() >= 1);
            assert(ops[1 + area.height as int + 0] is Text);
            let head = 1 + area.height as int + lines.len();
            let tail = ops.skip(head);
            if let PhaseModel::Picker { points, selected } = phase {
                let n = picker_shown(points.len(), selected, area);
                if n > 0 {
                    super::lemma_turn_drawn(points, selected, n, area, theme, focused, n - 1);
                    let k = choose|k: int|
                        0 <= k < tail.len() && tail[k] is Text && tail[k]->Text_y == area.y + n + 1;
                    assert(ops[head + k] == tail[k]);
                }
            } else {
                let n = radios(phase).len();
                if n > 0 {
                    super::lemma_choice_drawn(phase, n, area, theme, focused, n - 1);
                    let k = choose|k: int|
                        0 <= k < tail.len() && tail[k] is Text && tail[k]->Text_y == area.y
                            + first_radio_row(phase) + n - 1;
                    assert(ops[head + k] == tail[k]);
                }
            }
        }
    }
}

/// A run of text, a drawing step, a plan, a line and a choice, field by field.
pub proof fn law_steps_stand_for_themselves(
    span: TextSpan,
    op: DrawOp,
    plan: Plan,
    caption: Caption,
    radio: Radio,
    i: int,
)
    ensures
        span@.text == span.text@,
        span@.style == style_parts(span.style),
        match op {
            DrawOp::Fill { area, style } => op@ == (OpModel::Fill {
                area,
                style: style_parts(style),
            }),
            DrawOp::Symbol { x, y, symbol, style } => op@ == (OpModel::Symbol {
                x,
                y,
                symbol: symbol@,
                style: style_parts(style),
            }),
            DrawOp::Text { x, y, spans, max_width } => {
                &&& op@ is Text
                &&& op@->Text_x == x
                &&& op@->Text_y == y
                &&& op@->Text_max_width == max_width
                &&& op@->Text_spans.len() == spans@.len()
                &&& 0 <= i < spans@.len() ==> op@->Text_spans[i] == spans@[i]@
            },
        },
        plan@.len() == plan.ops@.len(),
        0 <= i < plan.ops@.len() ==> plan@[i] == plan.ops@[i]@,
        caption@.text == caption.text@,
        caption@.tone == caption.tone,
        radio@.key == radio.key,
        radio@.label == radio.label@,
        radio@.enabled == radio.enabled,
{
}

} // verus!
