//! The terminal cell grid that the overlay is painted on: ratatui's `Buffer`, and the style and
//! text values that go into it.

use ratatui::buffer::{Buffer, Cell};
use ratatui::style::{Color, Modifier, Style};
use ratatui::text::{Line, Span};
use vstd::prelude::*;

use crate::layout::Rect;

verus! {

/// `ratatui::style::Color`, a terminal colour. Colours are only carried.
#[verifier::external_type_specification]
#[verifier::external_body]
pub struct ExColor(ratatui::style::Color);

/// `ratatui::style::Style`, an incremental change to a cell's colours and modifiers.
#[verifier::external_type_specification]
#[verifier::external_body]
pub struct ExStyle(ratatui::style::Style);

/// `ratatui::text::Span`, a run of text in one style.
#[verifier::external_type_specification]
#[verifier::external_body]
pub struct ExSpan<'a>(ratatui::text::Span<'a>);

/// `ratatui::buffer::Cell`, one position of the grid.
#[verifier::external_type_specification]
#[verifier::external_body]
pub struct ExCell(ratatui::buffer::Cell);

/// `ratatui::buffer::Buffer`, the grid.
#[verifier::external_type_specification]
#[verifier::external_body]
pub struct ExBuffer(ratatui::buffer::Buffer);

/// What a style sets: colours where given, and modifier bits to switch on and off.
pub struct StyleModel {
    pub fg: Option<Color>,
    pub bg: Option<Color>,
    pub add: u16,
    pub remove: u16,
}

/// What a grid cell holds.
pub struct CellModel {
    pub symbol: Seq<char>,
    pub fg: Color,
    pub bg: Color,
    pub modifier: u16,
    pub skip: bool,
}

/// A run of text in one style.
pub struct SpanModel {
    pub text: Seq<char>,
    pub style: StyleModel,
}

/// The contents of a style.
pub uninterp spec fn style_parts(style: Style) -> StyleModel;

/// The contents of a span.
pub uninterp spec fn span_parts(span: Span<'static>) -> SpanModel;

/// The contents of each span of a row.
pub open spec fn spans_parts(spans: Seq<Span<'static>>) -> Seq<SpanModel> {
    Seq::new(spans.len(), |i: int| span_parts(spans[i]))
}

/// The contents of a cell.
pub uninterp spec fn cell_parts(cell: Cell) -> CellModel;

/// The rectangle that a buffer covers.
pub uninterp spec fn buffer_area(buf: Buffer) -> Rect;

/// The cells of a buffer by position, at every position where it has one.
pub uninterp spec fn buffer_cells(buf: Buffer) -> Map<(u16, u16), CellModel>;

/// The cells after a line of spans was written from (`x`, `y`) over at most `max_width` columns
/// into the cells of a buffer that covers `area`.
pub uninterp spec fn line_written(
    cells: Map<(u16, u16), CellModel>,
    area: Rect,
    x: u16,
    y: u16,
    spans: Seq<SpanModel>,
    max_width: u16,
) -> Map<(u16, u16), CellModel>;

/// A cell after `style` was applied to it.
pub open spec fn patched(cell: CellModel, style: StyleModel) -> CellModel {
    CellModel {
        fg: if style.fg is Some {
            style.fg->0
        } else {
            cell.fg
        },
        bg: if style.bg is Some {
            style.bg->0
        } else {
            cell.bg
        },
        modifier: (cell.modifier | style.add) & !style.remove,
        ..cell
    }
}

/// A buffer that has a cell for every position of its area.
pub open spec fn buffer_whole(buf: Buffer) -> bool {
    forall|x: u16, y: u16| #[trigger]
        buffer_area(buf).holds(x, y) ==> buffer_cells(buf).contains_key((x, y))
}

/// `Style::default()` sets nothing.
pub assume_specification[ <ratatui::style::Style as Default>::default ]() -> (s: Style)
    ensures
        style_parts(s) == (StyleModel { fg: None, bg: None, add: 0, remove: 0 }),
;

/// `Style::fg` sets the foreground and keeps the rest.
pub assume_specification[ ratatui::style::Style::fg ](style: Style, color: Color) -> (s: Style)
    ensures
        style_parts(s) == (StyleModel { fg: Some(color), ..style_parts(style) }),
;

/// `Style::bg` sets the background and keeps the rest.
pub assume_specification[ ratatui::style::Style::bg ](style: Style, color: Color) -> (s: Style)
    ensures
        style_parts(s) == (StyleModel { bg: Some(color), ..style_parts(style) }),
;

/// The bit of `Modifier::BOLD`.
pub const BOLD: u16 = 1;

/// `Style::add_modifier` with `Modifier::BOLD`: the bold bit is switched on and no longer off.
#[verifier::external_body]
pub(crate) fn bold(style: Style) -> (s: Style)
    ensures
        style_parts(s) == (StyleModel {
            add: style_parts(style).add | BOLD,
            remove: style_parts(style).remove & !BOLD,
            ..style_parts(style)
        }),
{
    style.add_modifier(Modifier::BOLD)
}

/// `Buffer::cell_mut`: the cell at a position, if the buffer has one there. Changing it changes
/// that position alone.
#[verifier::external_body]
pub(crate) fn cell_at<'a>(buf: &'a mut Buffer, x: u16, y: u16) -> (cell: Option<&'a mut Cell>)
    ensures
        buffer_area(*final(buf)) == buffer_area(*old(buf)),
        match cell {
            Some(c) => {
                &&& buffer_cells(*old(buf)).contains_key((x, y))
                &&& cell_parts(*c) == buffer_cells(*old(buf))[(x, y)]
                &&& buffer_cells(*final(buf)) == buffer_cells(*old(buf)).insert(
                    (x, y),
                    cell_parts(*final(c)),
                )
            },
            None => {
                &&& !buffer_cells(*old(buf)).contains_key((x, y))
                &&& buffer_cells(*final(buf)) == buffer_cells(*old(buf))
            },
        },
{
    buf.cell_mut((x, y))
}

/// `Cell::set_symbol` replaces the symbol and keeps the rest.
#[verifier::external_body]
pub(crate) fn set_cell_symbol(cell: &mut Cell, symbol: &str)
    ensures
        cell_parts(*final(cell)) == (CellModel { symbol: symbol@, ..cell_parts(*old(cell)) }),
{
    cell.set_symbol(symbol);
}

/// `Cell::set_style` applies a style to the cell.
#[verifier::external_body]
pub(crate) fn set_cell_style(cell: &mut Cell, style: Style)
    ensures
        cell_parts(*final(cell)) == patched(cell_parts(*old(cell)), style_parts(style)),
{
    cell.set_style(style);
}

/// The cells after `style` was applied to each of them that lies in `area`.
pub open spec fn area_styled(
    cells: Map<(u16, u16), CellModel>,
    area: Rect,
    style: StyleModel,
) -> Map<(u16, u16), CellModel> {
    Map::new(
        |p: (u16, u16)| cells.contains_key(p),
        |p: (u16, u16)|
            if area.holds(p.0, p.1) {
                patched(cells[p], style)
            } else {
                cells[p]
            },
    )
}

/// `Buffer::set_style` applies a style to every cell of the buffer that lies in `area`.
#[verifier::external_body]
pub(crate) fn set_area_style(buf: &mut Buffer, area: Rect, style: Style)
    requires
        buffer_whole(*old(buf)),
    ensures
        buffer_area(*final(buf)) == buffer_area(*old(buf)),
        buffer_cells(*final(buf)) == area_styled(
            buffer_cells(*old(buf)),
            area,
            style_parts(style),
        ),
{
    buf.set_style(
        ratatui::layout::Rect { x: area.x, y: area.y, width: area.width, height: area.height },
        style,
    );
}

/// `Span::styled` with an owned string: a span of that text in that style.
#[verifier::external_body]
pub(crate) fn styled_span(text: String, style: Style) -> (span: Span<'static>)
    ensures
        span_parts(span) == (SpanModel { text: text@, style: style_parts(style) }),
{
    Span::styled(text, style)
}

/// `Buffer::set_line` with a `Line` of these spans. Writing starts at (`x`, `y`) and covers at
/// most `max_width` columns of row `y`; every other cell keeps its contents. Which graphemes fit,
/// and how wide each of them is, is left to the name `line_written`.
/// A row outside the buffer, or a start left of it, would make the call panic.
#[verifier::external_body]
pub(crate) fn write_line(
    buf: &mut Buffer,
    x: u16,
    y: u16,
    spans: Vec<Span<'static>>,
    max_width: u16,
)
    requires
        buffer_whole(*old(buf)),
        buffer_area(*old(buf)).takes_line(x, y),
    ensures
        buffer_area(*final(buf)) == buffer_area(*old(buf)),
        buffer_cells(*final(buf)) == line_written(
            buffer_cells(*old(buf)),
            buffer_area(*old(buf)),
            x,
            y,
            spans_parts(spans@),
            max_width,
        ),
        buffer_cells(*final(buf)).dom() == buffer_cells(*old(buf)).dom(),
        forall|p: (u16, u16)|
            buffer_cells(*old(buf)).contains_key(p) && (p.1 != y || p.0 < x || p.0 >= x
                + max_width) ==> #[trigger] buffer_cells(*final(buf))[p] == buffer_cells(
                *old(buf),
            )[p],
{
    buf.set_line(x, y, &Line::from(spans), max_width);
}

/// How many cells a buffer holds in memory.
pub uninterp spec fn buffer_len(buf: Buffer) -> nat;

/// A buffer that holds as many cells as its area has positions.
pub open spec fn buffer_full(buf: Buffer) -> bool {
    buffer_len(buf) >= buffer_area(buf).width * buffer_area(buf).height
}

/// `Buffer::area`: the rectangle that the buffer covers.
#[verifier::external_body]
pub(crate) fn covered_area(buf: &Buffer) -> (r: Rect)
    ensures
        r == buffer_area(*buf),
{
    let area = *buf.area();
    Rect { x: area.x, y: area.y, width: area.width, height: area.height }
}

/// `Buffer::content`: the cells in memory, counted here. They stand row by row, so with one for
/// each position of its area a buffer has a cell at every one of them.
#[verifier::external_body]
pub(crate) fn cells_held(buf: &Buffer) -> (n: usize)
    ensures
        n == buffer_len(*buf),
        n >= buffer_area(*buf).width * buffer_area(*buf).height ==> buffer_whole(*buf),
{
    buf.content().len()
}

/// Whether the buffer has a cell for every position of its area.
pub fn has_every_cell(buf: &Buffer) -> (r: bool)
    ensures
        r == buffer_full(*buf),
        r ==> buffer_whole(*buf),
{
    let area = covered_area(buf);
    let positions: u32 = positions(area);
    cells_held(buf) as u64 >= positions as u64
}

fn positions(area: Rect) -> (n: u32)
    ensures
        n == area.width * area.height,
{
    assert(area.width * area.height <= 65535 * 65535) by (nonlinear_arith)
        requires
            area.width <= 65535,
            area.height <= 65535,
    ;
    area.width as u32 * area.height as u32
}

} // verus!
