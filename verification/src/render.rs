//! Drawing the overlay: first a plan of drawing steps, then the steps on the cell grid.

use ratatui::buffer::Buffer;
use ratatui::style::Style;
use ratatui::text::Span;
use vstd::prelude::*;
use vstd::string::*;

use crate::captions::{
    captions, countable, phase_captions, phase_radios, picker_files, picker_preview,
    picker_row_text, radios_of, CaptionModel, Captions,
};
use crate::input::cursor_of;
use crate::layout::{
    file_rows, first_choice_row, first_radio_row, in_area, overlay_rows, radios,
    rewind_overlay_height, RadioModel, Rect,
};
use crate::overlay_list::{list_capacity, list_offset, ListOverlay};
use crate::phase::{points_of, PhaseModel, PointModel, RewindPhase, RewindPointInfo};
use crate::screen::{
    area_styled, buffer_area, buffer_cells, buffer_full, buffer_whole, cell_at, covered_area,
    has_every_cell, line_written, patched, set_area_style, set_cell_style, set_cell_symbol,
    span_parts, spans_parts, style_parts, styled_span, write_line, CellModel, SpanModel,
    StyleModel,
};
use crate::text::{key_label, key_name, pad, padded};
use crate::theme::{bold_if, ink, ink_on, inked, inked_on, paper, papered, tone_style, Theme};

verus! {

/// A run of text in one style.
pub struct TextSpan {
    pub text: String,
    pub style: Style,
}

impl View for TextSpan {
    type V = SpanModel;

    open spec fn view(&self) -> SpanModel {
        SpanModel { text: self.text@, style: style_parts(self.style) }
    }
}

/// The contents of each span of a row.
pub open spec fn row_of(spans: Seq<TextSpan>) -> Seq<SpanModel> {
    Seq::new(spans.len(), |i: int| spans[i]@)
}

/// A drawing step.
pub enum DrawOp {
    /// Apply a style to every cell of a rectangle.
    Fill { area: Rect, style: Style },
    /// Put a symbol in one cell, if the grid has that cell.
    Symbol { x: u16, y: u16, symbol: &'static str, style: Style },
    /// Write spans from a position on, over at most `max_width` columns.
    Text { x: u16, y: u16, spans: Vec<TextSpan>, max_width: u16 },
}

/// The contents of a [`DrawOp`].
pub enum OpModel {
    Fill { area: Rect, style: StyleModel },
    Symbol { x: u16, y: u16, symbol: Seq<char>, style: StyleModel },
    Text { x: u16, y: u16, spans: Seq<SpanModel>, max_width: u16 },
}

impl View for DrawOp {
    type V = OpModel;

    open spec fn view(&self) -> OpModel {
        match *self {
            DrawOp::Fill { area, style } => OpModel::Fill { area, style: style_parts(style) },
            DrawOp::Symbol { x, y, symbol, style } => OpModel::Symbol {
                x,
                y,
                symbol: symbol@,
                style: style_parts(style),
            },
            DrawOp::Text { x, y, spans, max_width } => OpModel::Text {
                x,
                y,
                spans: row_of(spans@),
                max_width,
            },
        }
    }
}

/// Drawing steps in the order in which they are taken.
pub struct Plan {
    pub ops: Vec<DrawOp>,
}

impl View for Plan {
    type V = Seq<OpModel>;

    open spec fn view(&self) -> Seq<OpModel> {
        Seq::new(self.ops@.len(), |i: int| self.ops@[i]@)
    }
}

/// Columns of text in an overlay.
pub open spec fn content_width(area: Rect) -> u16 {
    if area.width < 5 {
        0
    } else {
        (area.width - 5) as u16
    }
}

/// A line of text in row `dy` of the overlay.
pub open spec fn text_op(area: Rect, dy: int, spans: Seq<SpanModel>) -> OpModel {
    OpModel::Text {
        x: (area.x + 3) as u16,
        y: (area.y + dy) as u16,
        spans,
        max_width: content_width(area),
    }
}

/// The cells of a row that its background covers: the text columns and one on either side.
pub open spec fn row_rect(area: Rect, dy: int) -> Rect {
    Rect {
        x: (area.x + 2) as u16,
        y: (area.y + dy) as u16,
        width: (content_width(area) + 2) as u16,
        height: 1,
    }
}

/// The panel itself: its background, and the bar down its left edge.
pub open spec fn frame_ops(area: Rect, theme: Theme) -> Seq<OpModel> {
    seq![OpModel::Fill { area, style: paper(theme.bg_light) }] + Seq::new(
        area.height as nat,
        |i: int|
            OpModel::Symbol {
                x: area.x,
                y: (area.y + i) as u16,
                symbol: theme.accent_bar@,
                style: ink(theme.accent_user),
            },
    )
}

/// The lines above the choices, from row 1 down.
pub open spec fn caption_ops(lines: Seq<CaptionModel>, area: Rect, theme: Theme) -> Seq<OpModel> {
    Seq::new(
        lines.len(),
        |i: int|
            text_op(
                area,
                i + 1,
                seq![SpanModel { text: lines[i].text, style: tone_style(theme, lines[i].tone) }],
            ),
    )
}

/// The spans of a choice: its key, its marker, its label.
pub open spec fn radio_spans(radio: RadioModel, is_cursor: bool, theme: Theme) -> Seq<SpanModel> {
    let key = padded(key_name(radio.key), 4);
    if radio.enabled {
        let marker = if is_cursor {
            theme.filled_dot@
        } else {
            "\u{25CB}"@
        };
        seq![
            SpanModel { text: key, style: ink_on(theme.accent_user, theme.bg_light) },
            SpanModel {
                text: "("@ + marker + ") "@,
                style: ink_on(
                    if is_cursor {
                        theme.accent_user
                    } else {
                        theme.gray
                    },
                    theme.bg_light,
                ),
            },
            SpanModel {
                text: radio.label,
                style: bold_if(ink_on(theme.text_primary, theme.bg_light), is_cursor),
            },
        ]
    } else {
        let dim = ink_on(theme.gray_dim, theme.bg_light);
        seq![
            SpanModel { text: key, style: dim },
            SpanModel { text: "("@ + "\u{25CB}"@ + ") "@, style: dim },
            SpanModel { text: radio.label, style: dim },
        ]
    }
}

/// A row of the overlay: its background, its text, and the highlight over it.
pub open spec fn row_ops(
    area: Rect,
    dy: int,
    spans: Seq<SpanModel>,
    highlighted: bool,
    theme: Theme,
) -> Seq<OpModel> {
    let plain = seq![
        OpModel::Fill { area: row_rect(area, dy), style: paper(theme.bg_light) },
        text_op(area, dy, spans),
    ];
    if highlighted {
        plain.push(
            OpModel::Fill {
                area: row_rect(area, dy),
                style: style_parts(theme.selection_overlay),
            },
        )
    } else {
        plain
    }
}

/// The steps for the first `n` choices of a phase.
pub open spec fn radio_ops(
    phase: PhaseModel,
    n: nat,
    area: Rect,
    theme: Theme,
    focused: bool,
) -> Seq<OpModel>
    decreases n,
{
    if n == 0 {
        Seq::empty()
    } else {
        let i = n - 1;
        let radio = radios(phase)[i];
        let is_cursor = i == cursor_of(phase);
        radio_ops(phase, i as nat, area, theme, focused) + row_ops(
            area,
            first_radio_row(phase) + i,
            radio_spans(radio, is_cursor, theme),
            radio.enabled && is_cursor && focused,
            theme,
        )
    }
}

/// The spans of a turn in the picker.
pub open spec fn picker_spans(
    point: PointModel,
    is_cursor: bool,
    width: u16,
    theme: Theme,
) -> Seq<SpanModel> {
    let muted = ink_on(theme.gray, theme.bg_light);
    seq![
        SpanModel { text: "\u{00B7} "@, style: muted },
        SpanModel {
            text: picker_preview(point, width),
            style: bold_if(ink_on(theme.text_primary, theme.bg_light), is_cursor),
        },
        SpanModel { text: picker_files(point), style: muted },
    ]
}

/// How many turns the picker shows at once.
pub open spec fn picker_shown(len: nat, selected: usize, area: Rect) -> nat {
    let room = list_capacity(area.height);
    let left = len - list_offset(selected, room);
    if left <= 0 {
        0
    } else if left < room {
        left as nat
    } else {
        room
    }
}

/// The steps for the first `n` turns that the picker shows.
pub open spec fn picker_ops(
    points: Seq<PointModel>,
    selected: usize,
    n: nat,
    area: Rect,
    theme: Theme,
    focused: bool,
) -> Seq<OpModel>
    decreases n,
{
    if n == 0 {
        Seq::empty()
    } else {
        let i = list_offset(selected, list_capacity(area.height)) + n - 1;
        let is_cursor = i == selected;
        picker_ops(points, selected, (n - 1) as nat, area, theme, focused) + row_ops(
            area,
            (n + 1) as int,
            picker_spans(points[i], is_cursor, content_width(area), theme),
            is_cursor && focused,
            theme,
        )
    }
}

/// Everything that is drawn of a phase.
pub open spec fn panel_ops(phase: PhaseModel, area: Rect, theme: Theme, focused: bool) -> Seq<
    OpModel,
> {
    if area.too_small() {
        Seq::empty()
    } else {
        let head = frame_ops(area, theme) + caption_ops(
            captions(phase, content_width(area)),
            area,
            theme,
        );
        if let PhaseModel::Picker { points, selected } = phase {
            head + picker_ops(
                points,
                selected,
                picker_shown(points.len(), selected, area),
                area,
                theme,
                focused,
            )
        } else {
            head + radio_ops(phase, radios(phase).len(), area, theme, focused)
        }
    }
}

/// The last row that holds text, counted from the top of the overlay.
pub open spec fn last_text_row(phase: PhaseModel, area: Rect) -> int {
    if let PhaseModel::Picker { points, selected } = phase {
        (1 + picker_shown(points.len(), selected, area)) as int
    } else {
        overlay_rows(phase) - 2
    }
}

/// An area whose coordinates, with everything that is drawn in it, stay within `u16`.
pub open spec fn drawable(phase: PhaseModel, area: Rect) -> bool {
    &&& countable(phase)
    &&& area.too_small() || {
        &&& area.x + 3 <= u16::MAX
        &&& area.y + area.height <= u16::MAX
        &&& area.y + last_text_row(phase, area) <= u16::MAX
    }
}

impl Plan {
    fn new() -> (r: Self)
        ensures
            r@ == Seq::<OpModel>::empty(),
    {
        let r = Plan { ops: Vec::new() };
        assert(r@ =~= Seq::<OpModel>::empty());
        r
    }

    fn push(&mut self, op: DrawOp)
        ensures
            final(self)@ == old(self)@.push(op@),
    {
        self.ops.push(op);
        assert(self@ =~= old(self)@.push(op@));
    }

    /// A row with its background, its text, and the highlight over it.
    fn push_row(
        &mut self,
        area: Rect,
        dy: u16,
        spans: Vec<TextSpan>,
        highlighted: bool,
        theme: &Theme,
    )
        requires
            area.width >= 10,
            area.x + 3 <= u16::MAX,
            area.y + dy <= u16::MAX,
        ensures
            final(self)@ == old(self)@ + row_ops(
                area,
                dy as int,
                row_of(spans@),
                highlighted,
                *theme,
            ),
    {
        let ghost start = self@;
        let content_w: u16 = area.width - 5;
        let rect = Rect { x: area.x + 2, y: area.y + dy, width: content_w + 2, height: 1 };
        let ghost row = row_of(spans@);
        self.push(DrawOp::Fill { area: rect, style: papered(theme.bg_light) });
        self.push(DrawOp::Text { x: area.x + 3, y: area.y + dy, spans, max_width: content_w });
        if highlighted {
            self.push(DrawOp::Fill { area: rect, style: theme.selection_overlay });
        }
        assert(self@ =~= start + row_ops(area, dy as int, row, highlighted, *theme));
    }
}

/// A choice as a row of the overlay.
fn render_radio_row(
    plan: &mut Plan,
    area: Rect,
    dy: u16,
    key: char,
    label: &str,
    enabled: bool,
    is_cursor: bool,
    panel_focused: bool,
    theme: &Theme,
)
    requires
        area.width >= 10,
        area.x + 3 <= u16::MAX,
        area.y + dy <= u16::MAX,
    ensures
        final(plan)@ == old(plan)@ + row_ops(
            area,
            dy as int,
            radio_spans(RadioModel { key, label: label@, enabled }, is_cursor, *theme),
            enabled && is_cursor && panel_focused,
            *theme,
        ),
{
    let key_display = pad(key_label(key).as_str(), 4);
    let marker = if enabled && is_cursor {
        theme.filled_dot
    } else {
        "\u{25CB}"
    };
    let mut marker_text = "(".to_owned();
    marker_text.append(marker);
    marker_text.append(") ");
    let (key_style, marker_style, label_style) = if !enabled {
        (
            inked_on(theme.gray_dim, theme.bg_light, false),
            inked_on(theme.gray_dim, theme.bg_light, false),
            inked_on(theme.gray_dim, theme.bg_light, false),
        )
    } else {
        (
            inked_on(theme.accent_user, theme.bg_light, false),
            if is_cursor {
                inked_on(theme.accent_user, theme.bg_light, false)
            } else {
                inked_on(theme.gray, theme.bg_light, false)
            },
            inked_on(theme.text_primary, theme.bg_light, is_cursor),
        )
    };
    let mut spans: Vec<TextSpan> = Vec::new();
    spans.push(TextSpan { text: key_display, style: key_style });
    spans.push(TextSpan { text: marker_text, style: marker_style });
    spans.push(TextSpan { text: label.to_owned(), style: label_style });
    assert(row_of(spans@) =~= radio_spans(
        RadioModel { key, label: label@, enabled },
        is_cursor,
        *theme,
    ));
    plan.push_row(area, dy, spans, enabled && is_cursor && panel_focused, theme);
}

/// The panel's background and the bar down its left edge.
fn render_frame(plan: &mut Plan, area: Rect, theme: &Theme)
    requires
        area.y + area.height <= u16::MAX,
    ensures
        final(plan)@ == old(plan)@ + frame_ops(area, *theme),
{
    let ghost start = plan@;
    let ghost all = frame_ops(area, *theme);
    plan.push(DrawOp::Fill { area, style: papered(theme.bg_light) });
    let mut i: u16 = 0;
    assert(plan@ =~= start + all.take(1));
    while i < area.height
        invariant
            i <= area.height,
            area.y + area.height <= u16::MAX,
            all == frame_ops(area, *theme),
            plan@ == start + all.take(i + 1),
        decreases area.height - i,
    {
        plan.push(
            DrawOp::Symbol {
                x: area.x,
                y: area.y + i,
                symbol: theme.accent_bar,
                style: inked(theme.accent_user),
            },
        );
        assert(plan@ =~= start + all.take(i + 2));
        i = i + 1;
    }
    assert(all.take(area.height + 1) =~= all);
}

/// The lines above the choices.
fn render_captions(plan: &mut Plan, lines: Captions, area: Rect, theme: &Theme)
    requires
        area.width >= 10,
        area.x + 3 <= u16::MAX,
        area.y + lines@.len() <= u16::MAX,
    ensures
        final(plan)@ == old(plan)@ + caption_ops(lines@, area, *theme),
{
    let ghost start = plan@;
    let ghost all = caption_ops(lines@, area, *theme);
    let mut i: usize = 0;
    assert(plan@ =~= start + all.take(0));
    while i < lines.lines.len()
        invariant
            i <= lines.lines@.len(),
            lines.lines@.len() == lines@.len(),
            area.width >= 10,
            area.x + 3 <= u16::MAX,
            area.y + lines@.len() <= u16::MAX,
            all == caption_ops(lines@, area, *theme),
            plan@ == start + all.take(i as int),
        decreases lines.lines@.len() - i,
    {
        let mut spans: Vec<TextSpan> = Vec::new();
        spans.push(
            TextSpan {
                text: lines.lines[i].text.clone(),
                style: theme.tone(lines.lines[i].tone),
            },
        );
        let ghost row = row_of(spans@);
        assert(row =~= seq![
            SpanModel {
                text: lines@[i as int].text,
                style: tone_style(*theme, lines@[i as int].tone),
            },
        ]);
        let op = DrawOp::Text {
            x: area.x + 3,
            y: area.y + (i as u16 + 1),
            spans,
            max_width: area.width - 5,
        };
        assert(op@ == all[i as int]);
        plan.push(op);
        assert(plan@ =~= start + all.take(i + 1));
        i = i + 1;
    }
    assert(all.take(lines@.len() as int) =~= all);
}

/// The choices of a phase.
fn render_radios(plan: &mut Plan, phase: &RewindPhase, area: Rect, theme: &Theme, focused: bool)
    requires
        area.width >= 10,
        area.x + 3 <= u16::MAX,
        area.y + overlay_rows(phase@) - 2 <= u16::MAX,
    ensures
        final(plan)@ == old(plan)@ + radio_ops(
            phase@,
            radios(phase@).len(),
            area,
            *theme,
            focused,
        ),
{
    let ghost start = plan@;
    let rows = phase_radios(phase);
    let first: u16 = first_choice_row(phase);
    let cursor: usize = cursor(phase);
    let mut i: usize = 0;
    assert(plan@ =~= start + radio_ops(phase@, 0, area, *theme, focused));
    while i < rows.len()
        invariant
            i <= rows@.len(),
            radios_of(rows@) == radios(phase@),
            first == first_radio_row(phase@),
            first <= 15,
            cursor == cursor_of(phase@),
            area.width >= 10,
            area.x + 3 <= u16::MAX,
            area.y + overlay_rows(phase@) - 2 <= u16::MAX,
            plan@ == start + radio_ops(phase@, i as nat, area, *theme, focused),
        decreases rows@.len() - i,
    {
        assert(radios(phase@)[i as int] == rows@[i as int]@);
        assert(rows@.len() <= 3);
        let ghost before = plan@;
        render_radio_row(
            plan,
            area,
            first + i as u16,
            rows[i].key,
            rows[i].label,
            rows[i].enabled,
            i == cursor,
            focused,
            theme,
        );
        assert(plan@ =~= start + radio_ops(phase@, (i + 1) as nat, area, *theme, focused));
        i = i + 1;
    }
}

/// Where the cursor of a phase stands.
fn cursor(phase: &RewindPhase) -> (r: usize)
    ensures
        r == cursor_of(phase@),
{
    match phase {
        RewindPhase::Picker { selected, .. } => *selected,
        RewindPhase::CancelOffer { active_idx } => *active_idx,
        RewindPhase::Confirm { active_idx, .. } => *active_idx,
        RewindPhase::FilePreview { active_idx, .. } => *active_idx,
        RewindPhase::OrphanWarning { active_idx, .. } => *active_idx,
        RewindPhase::ModeSelect { active_idx, .. } => *active_idx,
        _ => 0,
    }
}

/// The turns in view of the picker.
fn render_picker(
    plan: &mut Plan,
    points: &Vec<RewindPointInfo>,
    selected: usize,
    area: Rect,
    theme: &Theme,
    focused: bool,
)
    requires
        area.width >= 10,
        area.x + 3 <= u16::MAX,
        area.y + area.height <= u16::MAX,
    ensures
        final(plan)@ == old(plan)@ + picker_ops(
            points_of(points@),
            selected,
            picker_shown(points@.len(), selected, area),
            area,
            *theme,
            focused,
        ),
{
    let ghost start = plan@;
    let ghost turns = points_of(points@);
    let room: u16 = ListOverlay::capacity(area.height);
    assert(plan@ =~= start + picker_ops(turns, selected, 0, area, *theme, focused));
    if room == 0 {
        return;
    }
    let list = ListOverlay { len: points.len(), selected };
    let offset: usize = list.offset(room);
    let mut i: u16 = 0;
    while i < room && offset < points.len() && (i as usize) < points.len() - offset
        invariant
            turns == points_of(points@),
            i <= room,
            room == list_capacity(area.height),
            offset == list_offset(selected, room as nat),
            i <= picker_shown(points@.len(), selected, area),
            area.width >= 10,
            area.x + 3 <= u16::MAX,
            area.y + area.height <= u16::MAX,
            plan@ == start + picker_ops(turns, selected, i as nat, area, *theme, focused),
        decreases room - i,
    {
        let item: usize = offset + i as usize;
        let is_cursor = item == selected;
        let (preview, files) = picker_row_text(&points[item], area.width - 5);
        let mut spans: Vec<TextSpan> = Vec::new();
        spans.push(
            TextSpan {
                text: "\u{00B7} ".to_owned(),
                style: inked_on(theme.gray, theme.bg_light, false),
            },
        );
        spans.push(
            TextSpan {
                text: preview,
                style: inked_on(theme.text_primary, theme.bg_light, is_cursor),
            },
        );
        spans.push(
            TextSpan { text: files, style: inked_on(theme.gray, theme.bg_light, false) },
        );
        assert(turns[item as int] == points@[item as int]@);
        assert(row_of(spans@) =~= picker_spans(
            turns[item as int],
            is_cursor,
            content_width(area),
            *theme,
        ));
        plan.push_row(area, i + 2, spans, is_cursor && focused, theme);
        assert(plan@ =~= start + picker_ops(
            turns,
            selected,
            (i + 1) as nat,
            area,
            *theme,
            focused,
        ));
        i = i + 1;
    }
}

/// The drawing steps for a phase of the overlay.
pub fn overlay_plan(area: Rect, phase: &RewindPhase, focused: bool, theme: &Theme) -> (r: Plan)
    requires
        drawable(phase@, area),
    ensures
        r@ == panel_ops(phase@, area, *theme, focused),
{
    let mut plan = Plan::new();
    if area.height == 0 || area.width < 10 {
        return plan;
    }
    render_frame(&mut plan, area, theme);
    let lines = phase_captions(phase, area.width - 5);
    proof {
        lemma_captions_above_choices(phase@, content_width(area));
    }
    render_captions(&mut plan, lines, area, theme);
    match phase {
        RewindPhase::Picker { points, selected } => {
            render_picker(&mut plan, points, *selected, area, theme, focused);
        },
        _ => {
            render_radios(&mut plan, phase, area, theme, focused);
        },
    }
    assert(plan@ =~= panel_ops(phase@, area, *theme, focused));
    plan
}

/// The lines of a phase end above its first choice, or at its last row when it has no choices.
/// Between a file list and the choices there is one more, blank row.
pub proof fn lemma_captions_above_choices(phase: PhaseModel, width: u16)
    ensures
        phase is Picker ==> captions(phase, width).len() == 1,
        1 + captions(phase, width).len() + (match phase {
            PhaseModel::FilePreview { clean_files, conflicts, .. } => file_rows(
                clean_files.len(),
                conflicts.len(),
            ).1,
            _ => 0,
        }) == first_radio_row(phase),
        !(phase is Picker) ==> captions(phase, width).len() <= overlay_rows(phase) - 2,
{
}

/// The cells after a drawing step on a buffer that covers `grid`.
pub open spec fn painted(
    cells: Map<(u16, u16), CellModel>,
    grid: Rect,
    op: OpModel,
) -> Map<(u16, u16), CellModel> {
    match op {
        OpModel::Fill { area, style } => area_styled(cells, area, style),
        OpModel::Symbol { x, y, symbol, style } => if cells.contains_key((x, y)) {
            cells.insert((x, y), patched(CellModel { symbol, ..cells[(x, y)] }, style))
        } else {
            cells
        },
        OpModel::Text { x, y, spans, max_width } => line_written(
            cells,
            grid,
            x,
            y,
            spans,
            max_width,
        ),
    }
}

/// The cells after drawing steps, taken in order.
pub open spec fn painted_all(
    cells: Map<(u16, u16), CellModel>,
    grid: Rect,
    ops: Seq<OpModel>,
) -> Map<(u16, u16), CellModel>
    decreases ops.len(),
{
    if ops.len() == 0 {
        cells
    } else {
        painted(painted_all(cells, grid, ops.drop_last()), grid, ops.last())
    }
}

/// A drawing step that changes no cell outside `area`.
pub open spec fn within(op: OpModel, area: Rect) -> bool {
    match op {
        OpModel::Fill { area: r, .. } => {
            &&& area.x <= r.x
            &&& r.x + r.width <= area.x + area.width
            &&& area.y <= r.y
            &&& r.y + r.height <= area.y + area.height
        },
        OpModel::Symbol { x, y, .. } => {
            &&& area.x <= x < area.x + area.width
            &&& area.y <= y < area.y + area.height
        },
        OpModel::Text { x, y, max_width, .. } => {
            &&& area.x <= x
            &&& x + max_width <= area.x + area.width
            &&& area.y <= y < area.y + area.height
        },
    }
}

/// A drawing step that the grid has the row for.
pub open spec fn grid_takes(grid: Rect, op: OpModel) -> bool {
    op matches OpModel::Text { x, y, .. } ==> grid.takes_line(x, y)
}

/// Takes one drawing step.
fn paint(buf: &mut Buffer, op: &DrawOp)
    requires
        buffer_whole(*old(buf)),
        grid_takes(buffer_area(*old(buf)), op@),
    ensures
        buffer_area(*final(buf)) == buffer_area(*old(buf)),
        buffer_whole(*final(buf)),
        buffer_cells(*final(buf)) == painted(
            buffer_cells(*old(buf)),
            buffer_area(*old(buf)),
            op@,
        ),
        buffer_cells(*final(buf)).dom() == buffer_cells(*old(buf)).dom(),
        forall|area: Rect, p: (u16, u16)|
            #![trigger within(op@, area), buffer_cells(*final(buf))[p]]
            within(op@, area) && !in_area(area, p.0, p.1) && buffer_cells(*old(buf)).contains_key(
                p,
            ) ==> buffer_cells(*final(buf))[p] == buffer_cells(*old(buf))[p],
{
    match op {
        DrawOp::Fill { area, style } => {
            set_area_style(buf, *area, *style);
        },
        DrawOp::Symbol { x, y, symbol, style } => {
            if let Some(cell) = cell_at(buf, *x, *y) {
                set_cell_symbol(cell, symbol);
                set_cell_style(cell, *style);
            }
        },
        DrawOp::Text { x, y, spans, max_width } => {
            let mut line: Vec<Span<'static>> = Vec::new();
            let mut i: usize = 0;
            while i < spans.len()
                invariant
                    i <= spans@.len(),
                    line@.len() == i,
                    forall|j: int| 0 <= j < i ==> #[trigger] span_parts(line@[j]) == spans@[j]@,
                decreases spans@.len() - i,
            {
                line.push(styled_span(spans[i].text.clone(), spans[i].style));
                i = i + 1;
            }
            assert(spans_parts(line@) =~= row_of(spans@));
            write_line(buf, *x, *y, line, *max_width);
        },
    }
}

/// Takes drawing steps in order.
fn paint_plan(buf: &mut Buffer, plan: &Plan, area: Rect)
    requires
        buffer_whole(*old(buf)),
        forall|i: int|
            0 <= i < plan@.len() ==> grid_takes(buffer_area(*old(buf)), #[trigger] plan@[i]),
    ensures
        buffer_area(*final(buf)) == buffer_area(*old(buf)),
        buffer_whole(*final(buf)),
        buffer_cells(*final(buf)) == painted_all(
            buffer_cells(*old(buf)),
            buffer_area(*old(buf)),
            plan@,
        ),
        buffer_cells(*final(buf)).dom() == buffer_cells(*old(buf)).dom(),
        (forall|i: int| 0 <= i < plan@.len() ==> within(#[trigger] plan@[i], area)) ==> forall|
            p: (u16, u16),
        |
            !in_area(area, p.0, p.1) && buffer_cells(*old(buf)).contains_key(p)
                ==> #[trigger] buffer_cells(*final(buf))[p] == buffer_cells(*old(buf))[p],
{
    let ghost start = buffer_cells(*buf);
    let ghost grid = buffer_area(*buf);
    let mut i: usize = 0;
    assert(plan@.take(0) =~= Seq::<OpModel>::empty());
    while i < plan.ops.len()
        invariant
            i <= plan.ops@.len(),
            plan.ops@.len() == plan@.len(),
            buffer_area(*buf) == grid,
            buffer_whole(*buf),
            forall|i: int| 0 <= i < plan@.len() ==> grid_takes(grid, #[trigger] plan@[i]),
            buffer_cells(*buf) == painted_all(start, grid, plan@.take(i as int)),
            buffer_cells(*buf).dom() == start.dom(),
            (forall|j: int| 0 <= j < plan@.len() ==> within(#[trigger] plan@[j], area))
                ==> forall|p: (u16, u16)|
                !in_area(area, p.0, p.1) && start.contains_key(p)
                    ==> #[trigger] buffer_cells(*buf)[p] == start[p],
        decreases plan.ops@.len() - i,
    {
        let ghost before = buffer_cells(*buf);
        assert(plan@[i as int] == plan.ops@[i as int]@);
        paint(buf, &plan.ops[i]);
        assert(plan@.take(i + 1).drop_last() =~= plan@.take(i as int));
        assert(within(plan@[i as int], area) ==> forall|p: (u16, u16)|
            !in_area(area, p.0, p.1) && before.contains_key(p)
                ==> #[trigger] buffer_cells(*buf)[p] == before[p]);
        i = i + 1;
    }
    assert(plan@.take(plan@.len() as int) =~= plan@);
}

/// A grid that has every row in which text is drawn, unless the text starts right of it.
pub open spec fn grid_fits(grid: Rect, phase: PhaseModel, area: Rect) -> bool {
    ||| area.too_small()
    ||| area.x + 3 >= grid.right()
    ||| grid.x <= area.x + 3 && grid.y <= area.y + 1 && area.y + last_text_row(phase, area)
        < grid.bottom()
}

/// Rows `from` to `to` of the overlay hold every step of `ops`.
pub open spec fn spans_rows(ops: Seq<OpModel>, area: Rect, from: int, to: int) -> bool {
    forall|i: int|
        0 <= i < ops.len() ==> match #[trigger] ops[i] {
            OpModel::Fill { area: r, .. } => {
                &&& r.x == area.x + 2
                &&& r.width == area.width - 3
                &&& area.y + from <= r.y <= area.y + to
                &&& r.height == 1
            },
            OpModel::Text { x, y, max_width, .. } => {
                &&& x == area.x + 3
                &&& max_width == area.width - 5
                &&& area.y + from <= y <= area.y + to
            },
            OpModel::Symbol { .. } => false,
        }
}

proof fn lemma_radio_rows(phase: PhaseModel, n: nat, area: Rect, theme: Theme, focused: bool)
    requires
        !(phase is Picker),
        n <= radios(phase).len(),
        drawable(phase, area),
        !area.too_small(),
    ensures
        spans_rows(
            radio_ops(phase, n, area, theme, focused),
            area,
            1,
            last_text_row(phase, area),
        ),
    decreases n,
{
    if n > 0 {
        lemma_radio_rows(phase, (n - 1) as nat, area, theme, focused);
    }
}

proof fn lemma_picker_rows(
    points: Seq<PointModel>,
    selected: usize,
    n: nat,
    area: Rect,
    theme: Theme,
    focused: bool,
)
    requires
        n <= picker_shown(points.len(), selected, area),
        area.x + 3 <= u16::MAX,
        area.y + area.height <= u16::MAX,
        !area.too_small(),
    ensures
        spans_rows(
            picker_ops(points, selected, n, area, theme, focused),
            area,
            1,
            (1 + picker_shown(points.len(), selected, area)) as int,
        ),
    decreases n,
{
    if n > 0 {
        lemma_picker_rows(points, selected, (n - 1) as nat, area, theme, focused);
    }
}

/// Every step of the panel either draws its frame, or lies in the rows that hold text.
pub(crate) proof fn lemma_panel_rows(phase: PhaseModel, area: Rect, theme: Theme, focused: bool)
    requires
        drawable(phase, area),
        !area.too_small(),
    ensures
        ({
            let ops = panel_ops(phase, area, theme, focused);
            let frame = frame_ops(area, theme);
            &&& ops.len() >= frame.len()
            &&& ops.take(frame.len() as int) == frame
            &&& spans_rows(ops.skip(frame.len() as int), area, 1, last_text_row(phase, area))
        }),
{
    let ops = panel_ops(phase, area, theme, focused);
    let frame = frame_ops(area, theme);
    let lines = caption_ops(captions(phase, content_width(area)), area, theme);
    lemma_captions_above_choices(phase, content_width(area));
    assert(spans_rows(lines, area, 1, last_text_row(phase, area)));
    let rest = if let PhaseModel::Picker { points, selected } = phase {
        let n = picker_shown(points.len(), selected, area);
        lemma_picker_rows(points, selected, n, area, theme, focused);
        picker_ops(points, selected, n, area, theme, focused)
    } else {
        lemma_radio_rows(phase, radios(phase).len(), area, theme, focused);
        radio_ops(phase, radios(phase).len(), area, theme, focused)
    };
    assert(ops =~= frame + lines + rest);
    assert(ops.take(frame.len() as int) =~= frame);
    assert(ops.skip(frame.len() as int) =~= lines + rest);
}

/// Draws the overlay in `area`. The result tells whether the panel is to recede: it was drawn,
/// and the input focus is elsewhere.
///
/// In an area as tall as the overlay needs, less the blank row at its end, no cell outside that
/// area changes.
pub fn render_rewind_overlay(
    buf: &mut Buffer,
    area: Rect,
    phase: &RewindPhase,
    focused: bool,
    theme: &Theme,
) -> (recede: bool)
    requires
        buffer_whole(*old(buf)),
        drawable(phase@, area),
        grid_fits(buffer_area(*old(buf)), phase@, area),
    ensures
        buffer_area(*final(buf)) == buffer_area(*old(buf)),
        buffer_whole(*final(buf)),
        buffer_cells(*final(buf)) == painted_all(
            buffer_cells(*old(buf)),
            buffer_area(*old(buf)),
            panel_ops(phase@, area, *theme, focused),
        ),
        buffer_cells(*final(buf)).dom() == buffer_cells(*old(buf)).dom(),
        last_text_row(phase@, area) < area.height ==> forall|p: (u16, u16)|
            !in_area(area, p.0, p.1) && buffer_cells(*old(buf)).contains_key(p)
                ==> #[trigger] buffer_cells(*final(buf))[p] == buffer_cells(*old(buf))[p],
        recede == (!focused && !area.too_small()),
{
    let plan = overlay_plan(area, phase, focused, theme);
    proof {
        if !area.too_small() {
            let ops = plan@;
            let frame = frame_ops(area, *theme);
            lemma_panel_rows(phase@, area, *theme, focused);
            let body = ops.skip(frame.len() as int);
            assert forall|i: int| 0 <= i < ops.len() implies grid_takes(
                buffer_area(*buf),
                #[trigger] ops[i],
            ) && (last_text_row(phase@, area) < area.height ==> within(ops[i], area)) by {
                if i < frame.len() {
                    assert(ops[i] == ops.take(frame.len() as int)[i]);
                } else {
                    assert(ops[i] == body[i - frame.len()]);
                }
            }
        }
    }
    paint_plan(buf, &plan, area);
    !focused && !(area.height == 0 || area.width < 10)
}

/// Draws the overlay where the screen's coordinates reach that far and the grid has room for it.
/// `None` if not, with the grid unchanged; otherwise whether the panel is to recede.
pub fn try_render_rewind_overlay(
    buf: &mut Buffer,
    area: Rect,
    phase: &RewindPhase,
    focused: bool,
    theme: &Theme,
) -> (recede: Option<bool>)
    ensures
        recede is Some <==> drawable(phase@, area) && buffer_full(*old(buf)) && grid_fits(
            buffer_area(*old(buf)),
            phase@,
            area,
        ),
        recede matches Some(r) ==> {
            &&& buffer_area(*final(buf)) == buffer_area(*old(buf))
            &&& buffer_cells(*final(buf)) == painted_all(
                buffer_cells(*old(buf)),
                buffer_area(*old(buf)),
                panel_ops(phase@, area, *theme, focused),
            )
            &&& last_text_row(phase@, area) < area.height ==> forall|p: (u16, u16)|
                !in_area(area, p.0, p.1) && buffer_cells(*old(buf)).contains_key(p)
                    ==> #[trigger] buffer_cells(*final(buf))[p] == buffer_cells(*old(buf))[p]
            &&& r == (!focused && !area.too_small())
        },
        recede is None ==> *final(buf) == *old(buf),
{
    if can_draw(phase, area) && has_every_cell(buf) && fits_grid(covered_area(buf), phase, area) {
        Some(render_rewind_overlay(buf, area, phase, focused, theme))
    } else {
        None
    }
}

/// Whether everything that is drawn in `area` has coordinates.
fn can_draw(phase: &RewindPhase, area: Rect) -> (r: bool)
    ensures
        r == drawable(phase@, area),
{
    let counted = match phase {
        RewindPhase::FilePreview { clean_files, conflicts, .. } => clean_files.len() <= usize::MAX
            - conflicts.len(),
        _ => true,
    };
    counted && (area.height == 0 || area.width < 10 || (area.x <= u16::MAX - 3 && area.y
        <= u16::MAX - area.height && area.y <= u16::MAX - last_row_drawn(phase, area)))
}

fn right_edge(r: Rect) -> (x: u16)
    ensures
        x == r.right(),
{
    r.x.saturating_add(r.width)
}

fn bottom_edge(r: Rect) -> (y: u16)
    ensures
        y == r.bottom(),
{
    r.y.saturating_add(r.height)
}

/// The last row that holds text, counted from the top of the overlay.
fn last_row_drawn(phase: &RewindPhase, area: Rect) -> (r: u16)
    ensures
        r == last_text_row(phase@, area),
{
    match phase {
        RewindPhase::Picker { points, selected } => {
            let room: u16 = ListOverlay::capacity(area.height);
            if room == 0 {
                return 1;
            }
            let list = ListOverlay { len: points.len(), selected: *selected };
            let offset: usize = list.offset(room);
            if offset >= points.len() {
                1
            } else if points.len() - offset < room as usize {
                1 + (points.len() - offset) as u16
            } else {
                1 + room
            }
        },
        _ => rewind_overlay_height(phase, 0) - 2,
    }
}

/// Whether the grid has every row in which text is drawn.
fn fits_grid(grid: Rect, phase: &RewindPhase, area: Rect) -> (r: bool)
    ensures
        r == grid_fits(grid, phase@, area),
{
    area.height == 0 || area.width < 10 || area.x as u32 + 3 >= right_edge(grid) as u32 || (
    grid.x as u32 <= area.x as u32 + 3 && grid.y as u32 <= area.y as u32 + 1 && area.y as u32
        + (last_row_drawn(phase, area) as u32) < bottom_edge(grid) as u32)
}

} // verus!
