//! The spectrum plot on a 320 x 240 landscape screen: layout, palette, grid,
//! labels, the curve, and the differential redraw of changed columns.
//!
//! The plot fills the screen above a 16-pixel label strip. The frequency axis
//! is logarithmic from 20 Hz to 20 kHz; the level axis puts 0 dB at 35 % of
//! the plot height, +12 dB at the top and -60 dB at the bottom. Where a level
//! or frequency becomes a pixel, the application does the floating-point part
//! and hands this module the unclamped row or the column; rows are clamped to
//! the plot here.

use vstd::prelude::*;
use crate::control::DisplayMode;
use crate::draw::{
    Color, DrawOp, DrawCmd, TextAlign, cmds, fill_rect_cmd, hline_cmd, vline_cmd, line_cmd,
    text_cmd, fill_rect, hline, vline, line, text, push_op, append_ops,
};

verus! {

/// Screen width in pixels.
pub const LCD_W: i32 = 320;

/// Screen height in pixels.
pub const LCD_H: i32 = 240;

/// Height of the strip under the plot kept free for the frequency labels.
pub const LABEL_AREA: i32 = 16;

/// First column of the plot.
pub const PLOT_X0: i32 = 0;

/// Last column of the plot.
pub const PLOT_X1: i32 = 319;

/// First row of the plot.
pub const PLOT_Y0: i32 = 0;

/// Last row of the plot.
pub const PLOT_Y1: i32 = LCD_H - LABEL_AREA - 1;

/// Number of columns of the plot.
pub const PLOT_W: u32 = 320;

/// Number of rows of the plot.
pub const PLOT_H: i32 = PLOT_Y1 - PLOT_Y0 + 1;

/// Row of the 0 dB line: 35 % down from the top of the plot.
pub const DB0_Y: i32 = 78;

/// `DB0_Y` is 35 % of the plot height below the top of the plot.
pub proof fn lemma_zero_db_row()
    ensures
        DB0_Y == PLOT_Y0 + PLOT_H * 35 / 100,
{
}

/// Background: near black.
pub open spec fn spec_color_bg() -> Color {
    Color { r: 2, g: 4, b: 2 }
}

/// Background: near black.
#[verifier::when_used_as_spec(spec_color_bg)]
pub fn color_bg() -> (c: Color)
    ensures
        c == spec_color_bg(),
{
    Color { r: 2, g: 4, b: 2 }
}

/// Grid lines: a very dim teal grey.
pub open spec fn spec_color_grid() -> Color {
    Color { r: 5, g: 12, b: 5 }
}

/// Grid lines: a very dim teal grey.
#[verifier::when_used_as_spec(spec_color_grid)]
pub fn color_grid() -> (c: Color)
    ensures
        c == spec_color_grid(),
{
    Color { r: 5, g: 12, b: 5 }
}

/// The 0 dB line: a little brighter than the grid.
pub open spec fn spec_color_zero_line() -> Color {
    Color { r: 10, g: 24, b: 10 }
}

/// The 0 dB line: a little brighter than the grid.
#[verifier::when_used_as_spec(spec_color_zero_line)]
pub fn color_zero_line() -> (c: Color)
    ensures
        c == spec_color_zero_line(),
{
    Color { r: 10, g: 24, b: 10 }
}

/// Label text: cyan.
pub open spec fn spec_color_label() -> Color {
    Color { r: 0, g: 31, b: 31 }
}

/// Label text: cyan.
#[verifier::when_used_as_spec(spec_color_label)]
pub fn color_label() -> (c: Color)
    ensures
        c == spec_color_label(),
{
    Color { r: 0, g: 31, b: 31 }
}

/// The measured curve: gold.
pub open spec fn spec_color_curve() -> Color {
    Color { r: 31, g: 44, b: 0 }
}

/// The measured curve: gold.
#[verifier::when_used_as_spec(spec_color_curve)]
pub fn color_curve() -> (c: Color)
    ensures
        c == spec_color_curve(),
{
    Color { r: 31, g: 44, b: 0 }
}

/// The fill under the measured curve: dim gold.
pub open spec fn spec_color_fill() -> Color {
    Color { r: 10, g: 16, b: 0 }
}

/// The fill under the measured curve: dim gold.
#[verifier::when_used_as_spec(spec_color_fill)]
pub fn color_fill() -> (c: Color)
    ensures
        c == spec_color_fill(),
{
    Color { r: 10, g: 16, b: 0 }
}

/// The synthetic peak on the tone page: near white.
pub open spec fn spec_color_select() -> Color {
    Color { r: 31, g: 31, b: 31 }
}

/// The synthetic peak on the tone page: near white.
#[verifier::when_used_as_spec(spec_color_select)]
pub fn color_select() -> (c: Color)
    ensures
        c == spec_color_select(),
{
    Color { r: 31, g: 31, b: 31 }
}

/// The fill under the synthetic peak: the background, so it shows no fill.
pub open spec fn spec_color_select_fill() -> Color {
    Color { r: 2, g: 4, b: 2 }
}

/// The fill under the synthetic peak: the background, so it shows no fill.
#[verifier::when_used_as_spec(spec_color_select_fill)]
pub fn color_select_fill() -> (c: Color)
    ensures
        c == spec_color_select_fill(),
{
    Color { r: 2, g: 4, b: 2 }
}

/// The curve and fill colours of a page: the tone page draws its synthetic
/// peak in near white with no visible fill, the analyser page draws the
/// measured curve in gold over a dim gold fill.
pub fn page_colors(mode: DisplayMode) -> (colors: (Color, Color))
    ensures
        mode == DisplayMode::ChooseFreq ==> colors == (spec_color_select(), spec_color_select_fill()),
        mode == DisplayMode::SpectrumAnalyse ==> colors == (spec_color_curve(), spec_color_fill()),
{
    match mode {
        DisplayMode::ChooseFreq => (color_select(), color_select_fill()),
        DisplayMode::SpectrumAnalyse => (color_curve(), color_fill()),
    }
}

/// A row clamped to the plot.
pub open spec fn spec_clamp_plot_y(raw: i32) -> i32 {
    if raw < PLOT_Y0 {
        PLOT_Y0
    } else if raw > PLOT_Y1 {
        PLOT_Y1
    } else {
        raw
    }
}

/// Clamps a row to the plot; the last step of turning a level into a row.
pub fn clamp_plot_y(raw: i32) -> (y: i32)
    ensures
        y == spec_clamp_plot_y(raw),
        PLOT_Y0 <= y <= PLOT_Y1,
        PLOT_Y0 <= raw <= PLOT_Y1 ==> y == raw,
{
    if raw < PLOT_Y0 {
        PLOT_Y0
    } else if raw > PLOT_Y1 {
        PLOT_Y1
    } else {
        raw
    }
}

/// The rows of a list of unclamped rows, each clamped to the plot.
pub open spec fn plot_rows(raw: Seq<i32>) -> Seq<i32> {
    raw.map_values(|r: i32| spec_clamp_plot_y(r))
}

/// Number of level grid lines.
pub const DB_GRID_LINES: usize = 12;

/// Number of frequency grid lines.
pub const FREQ_GRID_LINES: usize = 28;

/// Number of marks on the level ruler.
pub const RULER_MARKS: usize = 9;

/// Number of frequency labels.
pub const FREQ_LABELS: usize = 10;

/// The levels of the grid lines, in dB: every 6 dB from +12 down to -60,
/// without 0 dB, which has a line of its own.
pub open spec fn db_grid_levels() -> Seq<int> {
    seq![12, 6, -6, -12, -18, -24, -30, -36, -42, -48, -54, -60]
}

/// The frequencies of the grid lines, in hertz: 20 to 90 Hz by ten, 100 to
/// 900 Hz by a hundred, 1 to 9 kHz by a thousand, 10 kHz and 20 kHz.
pub open spec fn freq_grid_hz() -> Seq<u32> {
    seq![
        20, 30, 40, 50, 60, 70, 80, 90,
        100, 200, 300, 400, 500, 600, 700, 800, 900,
        1000, 2000, 3000, 4000, 5000, 6000, 7000, 8000, 9000,
        10000, 20000,
    ]
}

/// The levels of the ruler marks, in dB, top to bottom.
pub open spec fn ruler_levels() -> Seq<int> {
    seq![12, 6, 3, 0, -6, -12, -20, -40, -60]
}

/// The texts of the ruler marks, top to bottom.
pub open spec fn ruler_texts() -> Seq<Seq<char>> {
    seq!["+12"@, "+6"@, "+3"@, "0"@, "-6"@, "-12"@, "-20"@, "-40"@, "-60"@]
}

/// The frequencies of the frequency labels, in hertz, left to right.
pub open spec fn freq_label_hz() -> Seq<u32> {
    seq![20, 50, 100, 200, 500, 1000, 2000, 5000, 10000, 20000]
}

/// The texts of the frequency labels, left to right.
pub open spec fn freq_label_texts() -> Seq<Seq<char>> {
    seq!["20"@, "50"@, "100"@, "200"@, "500"@, "1k"@, "2k"@, "5k"@, "10k"@, "20k"@]
}

/// The level of grid line `i`, in dB.
pub fn db_grid_level(i: usize) -> (db: i32)
    requires
        i < DB_GRID_LINES,
    ensures
        db == db_grid_levels()[i as int],
{
    match i {
        0 => 12,
        1 => 6,
        2 => -6,
        3 => -12,
        4 => -18,
        5 => -24,
        6 => -30,
        7 => -36,
        8 => -42,
        9 => -48,
        10 => -54,
        _ => -60,
    }
}

/// The frequency of grid line `i`, in hertz.
pub fn freq_grid_line_hz(i: usize) -> (hz: u32)
    requires
        i < FREQ_GRID_LINES,
    ensures
        hz == freq_grid_hz()[i as int],
{
    if i < 8 {
        20 + 10 * i as u32
    } else if i < 17 {
        100 * (i as u32 - 7)
    } else if i < 26 {
        1000 * (i as u32 - 16)
    } else if i == 26 {
        10000
    } else {
        20000
    }
}

/// The level of ruler mark `i`, in dB.
pub fn ruler_level(i: usize) -> (db: i32)
    requires
        i < RULER_MARKS,
    ensures
        db == ruler_levels()[i as int],
{
    match i {
        0 => 12,
        1 => 6,
        2 => 3,
        3 => 0,
        4 => -6,
        5 => -12,
        6 => -20,
        7 => -40,
        _ => -60,
    }
}

/// The text of ruler mark `i`.
pub fn ruler_text(i: usize) -> (t: &'static str)
    requires
        i < RULER_MARKS,
    ensures
        t@ == ruler_texts()[i as int],
{
    match i {
        0 => "+12",
        1 => "+6",
        2 => "+3",
        3 => "0",
        4 => "-6",
        5 => "-12",
        6 => "-20",
        7 => "-40",
        _ => "-60",
    }
}

/// The frequency of label `i`, in hertz.
pub fn freq_label_frequency(i: usize) -> (hz: u32)
    requires
        i < FREQ_LABELS,
    ensures
        hz == freq_label_hz()[i as int],
{
    match i {
        0 => 20,
        1 => 50,
        2 => 100,
        3 => 200,
        4 => 500,
        5 => 1000,
        6 => 2000,
        7 => 5000,
        8 => 10000,
        _ => 20000,
    }
}

/// The text of frequency label `i`.
pub fn freq_label_text(i: usize) -> (t: &'static str)
    requires
        i < FREQ_LABELS,
    ensures
        t@ == freq_label_texts()[i as int],
{
    match i {
        0 => "20",
        1 => "50",
        2 => "100",
        3 => "200",
        4 => "500",
        5 => "1k",
        6 => "2k",
        7 => "5k",
        8 => "10k",
        _ => "20k",
    }
}

/// Where the grid lines and the labels fall, as the application computes
/// them from the level and frequency tables above; entry `i` of each array
/// belongs to entry `i` of its table.
pub struct PlotGrid {
    /// Unclamped row of each level grid line (`db_grid_levels`).
    pub db_lines: [i32; DB_GRID_LINES],
    /// Unclamped row of the 0 dB line.
    pub zero: i32,
    /// Column of each frequency grid line (`freq_grid_hz`).
    pub freq_lines: [i32; FREQ_GRID_LINES],
    /// Unclamped row of each ruler mark (`ruler_levels`).
    pub ruler_rows: [i32; RULER_MARKS],
    /// Column of each frequency label (`freq_label_hz`).
    pub freq_label_cols: [i32; FREQ_LABELS],
}

/// The row of the 0 dB line.
pub open spec fn zero_row(grid: &PlotGrid) -> i32 {
    spec_clamp_plot_y(grid.zero)
}

/// The level grid: a full-width line on each of the 12 level grid rows.
pub open spec fn db_grid_cmds(grid: &PlotGrid) -> Seq<DrawCmd> {
    Seq::new(
        DB_GRID_LINES as nat,
        |i: int| hline_cmd(PLOT_X0, PLOT_X1, spec_clamp_plot_y(grid.db_lines@[i]), spec_color_grid(), 1),
    )
}

/// The frequency grid: a full-height line on each of the 28 frequency grid
/// columns.
pub open spec fn freq_grid_cmds(grid: &PlotGrid) -> Seq<DrawCmd> {
    Seq::new(
        FREQ_GRID_LINES as nat,
        |i: int| vline_cmd(grid.freq_lines@[i], PLOT_Y0, PLOT_Y1, spec_color_grid(), 1),
    )
}

/// The 0 dB line.
pub open spec fn zero_line_cmds(grid: &PlotGrid) -> Seq<DrawCmd> {
    seq![hline_cmd(PLOT_X0, PLOT_X1, zero_row(grid), spec_color_zero_line(), 1)]
}

/// The level ruler: the 9 marks "+12" to "-60", each right-aligned 2 pixels
/// from the right edge, 2 pixels above its row.
pub open spec fn ruler_cmds(grid: &PlotGrid) -> Seq<DrawCmd> {
    Seq::new(
        RULER_MARKS as nat,
        |i: int|
            text_cmd(
                ruler_texts()[i],
                (LCD_W - 2) as i32,
                (spec_clamp_plot_y(grid.ruler_rows@[i]) - 2) as i32,
                spec_color_label(),
                TextAlign::Right,
            ),
    )
}

/// The frequency labels: the 10 labels "20" to "20k", each centred on its
/// column, 3 pixels above the bottom of the screen.
pub open spec fn freq_label_cmds(grid: &PlotGrid) -> Seq<DrawCmd> {
    Seq::new(
        FREQ_LABELS as nat,
        |i: int|
            text_cmd(
                freq_label_texts()[i],
                grid.freq_label_cols@[i],
                (LCD_H - 3) as i32,
                spec_color_label(),
                TextAlign::Center,
            ),
    )
}

/// The labels drawn over the plot: frequency labels, then the level ruler.
pub open spec fn overlay_cmds(grid: &PlotGrid) -> Seq<DrawCmd> {
    freq_label_cmds(grid) + ruler_cmds(grid)
}

/// Grid and labels: level grid, frequency grid, 0 dB line, then the overlays
/// so that the labels stand on top of the lines.
pub open spec fn grid_cmds(grid: &PlotGrid) -> Seq<DrawCmd> {
    db_grid_cmds(grid) + freq_grid_cmds(grid) + zero_line_cmds(grid) + overlay_cmds(grid)
}

/// Draws the level grid.
pub fn draw_db_grid(grid: &PlotGrid) -> (ops: Vec<DrawOp<'static>>)
    ensures
        cmds(ops@) == db_grid_cmds(grid),
{
    let mut ops: Vec<DrawOp<'static>> = Vec::new();
    let mut i: usize = 0;
    while i < DB_GRID_LINES
        invariant
            i <= DB_GRID_LINES,
            cmds(ops@) =~= db_grid_cmds(grid).take(i as int),
        decreases DB_GRID_LINES - i,
    {
        let y = clamp_plot_y(grid.db_lines[i]);
        push_op(&mut ops, hline(PLOT_X0, PLOT_X1, y, color_grid(), 1));
        i = i + 1;
        assert(cmds(ops@) =~= db_grid_cmds(grid).take(i as int));
    }
    assert(db_grid_cmds(grid).take(DB_GRID_LINES as int) =~= db_grid_cmds(grid));
    ops
}

/// Draws the frequency grid.
pub fn draw_freq_grid(grid: &PlotGrid) -> (ops: Vec<DrawOp<'static>>)
    ensures
        cmds(ops@) == freq_grid_cmds(grid),
{
    let mut ops: Vec<DrawOp<'static>> = Vec::new();
    let mut i: usize = 0;
    while i < FREQ_GRID_LINES
        invariant
            i <= FREQ_GRID_LINES,
            cmds(ops@) =~= freq_grid_cmds(grid).take(i as int),
        decreases FREQ_GRID_LINES - i,
    {
        push_op(&mut ops, vline(grid.freq_lines[i], PLOT_Y0, PLOT_Y1, color_grid(), 1));
        i = i + 1;
        assert(cmds(ops@) =~= freq_grid_cmds(grid).take(i as int));
    }
    assert(freq_grid_cmds(grid).take(FREQ_GRID_LINES as int) =~= freq_grid_cmds(grid));
    ops
}

/// Draws the 0 dB line.
pub fn draw_zero_line(grid: &PlotGrid) -> (ops: Vec<DrawOp<'static>>)
    ensures
        cmds(ops@) == zero_line_cmds(grid),
{
    let mut ops: Vec<DrawOp<'static>> = Vec::new();
    let y = clamp_plot_y(grid.zero);
    push_op(&mut ops, hline(PLOT_X0, PLOT_X1, y, color_zero_line(), 1));
    assert(cmds(ops@) =~= zero_line_cmds(grid));
    ops
}

/// Draws the level ruler.
pub fn draw_db_ruler(grid: &PlotGrid) -> (ops: Vec<DrawOp<'static>>)
    ensures
        cmds(ops@) == ruler_cmds(grid),
{
    let mut ops: Vec<DrawOp<'static>> = Vec::new();
    let mut i: usize = 0;
    while i < RULER_MARKS
        invariant
            i <= RULER_MARKS,
            cmds(ops@) =~= ruler_cmds(grid).take(i as int),
        decreases RULER_MARKS - i,
    {
        let y = clamp_plot_y(grid.ruler_rows[i]);
        push_op(&mut ops, text(ruler_text(i), LCD_W - 2, y - 2, color_label(), TextAlign::Right));
        i = i + 1;
        assert(cmds(ops@) =~= ruler_cmds(grid).take(i as int));
    }
    assert(ruler_cmds(grid).take(RULER_MARKS as int) =~= ruler_cmds(grid));
    ops
}

/// Draws the frequency labels.
pub fn draw_freq_labels(grid: &PlotGrid) -> (ops: Vec<DrawOp<'static>>)
    ensures
        cmds(ops@) == freq_label_cmds(grid),
{
    let mut ops: Vec<DrawOp<'static>> = Vec::new();
    let mut i: usize = 0;
    while i < FREQ_LABELS
        invariant
            i <= FREQ_LABELS,
            cmds(ops@) =~= freq_label_cmds(grid).take(i as int),
        decreases FREQ_LABELS - i,
    {
        push_op(
            &mut ops,
            text(freq_label_text(i), grid.freq_label_cols[i], LCD_H - 3, color_label(), TextAlign::Center),
        );
        i = i + 1;
        assert(cmds(ops@) =~= freq_label_cmds(grid).take(i as int));
    }
    assert(freq_label_cmds(grid).take(FREQ_LABELS as int) =~= freq_label_cmds(grid));
    ops
}

/// The whole screen: background, then grid and labels.
pub open spec fn base_cmds(grid: &PlotGrid) -> Seq<DrawCmd> {
    seq![fill_rect_cmd(0, 0, LCD_W as u32, LCD_H as u32, spec_color_bg())] + grid_cmds(grid)
}

/// The plot area: its background, then grid and labels.
pub open spec fn clear_cmds(grid: &PlotGrid) -> Seq<DrawCmd> {
    seq![fill_rect_cmd(PLOT_X0, PLOT_Y0, PLOT_W, PLOT_H as u32, spec_color_bg())] + grid_cmds(
        grid,
    )
}

/// Appends the grid and the labels.
fn append_grid(ops: &mut Vec<DrawOp<'static>>, grid: &PlotGrid)
    ensures
        cmds(final(ops)@) == cmds(old(ops)@) + grid_cmds(grid),
{
    append_ops(ops, draw_db_grid(grid));
    append_ops(ops, draw_freq_grid(grid));
    append_ops(ops, draw_zero_line(grid));
    append_ops(ops, draw_freq_labels(grid));
    append_ops(ops, draw_db_ruler(grid));
    assert(cmds(ops@) =~= cmds(old(ops)@) + grid_cmds(grid));
}

/// Draws the whole screen from scratch.
pub fn draw_spectrum_base(grid: &PlotGrid) -> (ops: Vec<DrawOp<'static>>)
    ensures
        cmds(ops@) == base_cmds(grid),
{
    let mut ops: Vec<DrawOp<'static>> = Vec::new();
    push_op(&mut ops, fill_rect(0, 0, LCD_W as u32, LCD_H as u32, color_bg()));
    append_grid(&mut ops, grid);
    assert(cmds(ops@) =~= base_cmds(grid));
    ops
}

/// Clears the plot area and redraws grid and labels.
pub fn clear_curve_area(grid: &PlotGrid) -> (ops: Vec<DrawOp<'static>>)
    ensures
        cmds(ops@) == clear_cmds(grid),
{
    let mut ops: Vec<DrawOp<'static>> = Vec::new();
    push_op(&mut ops, fill_rect(PLOT_X0, PLOT_Y0, PLOT_W, PLOT_H as u32, color_bg()));
    append_grid(&mut ops, grid);
    assert(cmds(ops@) =~= clear_cmds(grid));
    ops
}

/// Redraws the labels over the plot, which the curve may have painted over.
pub fn redraw_plot_overlays(grid: &PlotGrid) -> (ops: Vec<DrawOp<'static>>)
    ensures
        cmds(ops@) == overlay_cmds(grid),
{
    let mut ops = draw_freq_labels(grid);
    append_ops(&mut ops, draw_db_ruler(grid));
    ops
}

/// The page title: a cleared 120 x 12 box in the top-left corner and the
/// title left-aligned in it.
pub fn draw_page_label<'a>(label: &'a str) -> (ops: Vec<DrawOp<'a>>)
    ensures
        cmds(ops@) == seq![
            fill_rect_cmd(0, 0, 120, 12, spec_color_bg()),
            text_cmd(label@, 4, 2, spec_color_label(), TextAlign::Left),
        ],
{
    let mut ops: Vec<DrawOp<'a>> = Vec::new();
    push_op(&mut ops, fill_rect(0, 0, 120, 12, color_bg()));
    push_op(&mut ops, text(label, 4, 2, color_label(), TextAlign::Left));
    ops
}

/// The processing-mode indicator: a cleared 80 x 12 box in the top-left
/// corner and "RAW FFT" or "PROCESSED" left-aligned in it.
pub fn draw_mode_indicator(is_raw_fft: bool) -> (ops: Vec<DrawOp<'static>>)
    ensures
        cmds(ops@) == seq![
            fill_rect_cmd(0, 0, 80, 12, spec_color_bg()),
            text_cmd(
                if is_raw_fft {
                    "RAW FFT"@
                } else {
                    "PROCESSED"@
                },
                4,
                2,
                spec_color_label(),
                TextAlign::Left,
            ),
        ],
{
    let mode_text = if is_raw_fft {
        "RAW FFT"
    } else {
        "PROCESSED"
    };
    let mut ops: Vec<DrawOp<'static>> = Vec::new();
    push_op(&mut ops, fill_rect(0, 0, 80, 12, color_bg()));
    push_op(&mut ops, text(mode_text, 4, 2, color_label(), TextAlign::Left));
    ops
}

/// Whether a frequency grid line falls on column `x`.
pub fn is_freq_grid_x(grid: &PlotGrid, x: i32) -> (r: bool)
    ensures
        r == grid.freq_lines@.contains(x),
{
    let n = FREQ_GRID_LINES;
    let mut i: usize = 0;
    while i < n
        invariant
            n == grid.freq_lines@.len(),
            i <= n,
            forall|j: int| 0 <= j < i ==> grid.freq_lines@[j] != x,
        decreases n - i,
    {
        if grid.freq_lines[i] == x {
            return true;
        }
        i = i + 1;
    }
    false
}

/// The two ends of the fill between a curve row and the 0 dB row, top first.
pub open spec fn fill_span(y: i32, zero_y: i32) -> (i32, i32) {
    if y <= zero_y {
        (y, zero_y)
    } else {
        (zero_y, y)
    }
}

/// The number of columns drawn for `len` values: one per value, at most one
/// per plot column.
pub open spec fn drawn_columns(len: int) -> int {
    if len < PLOT_W {
        len
    } else {
        PLOT_W as int
    }
}

/// The full curve over the first `n` rows: for each column after the first,
/// a line from the previous point and a fill from the point to the 0 dB row.
pub open spec fn curve_cmds(rows: Seq<i32>, zero_y: i32, n: int, curve: Color, fill: Color) -> Seq<
    DrawCmd,
>
    decreases n,
{
    if n <= 1 {
        seq![]
    } else {
        let x = (PLOT_X0 + n - 1) as i32;
        let y = rows[n - 1];
        curve_cmds(rows, zero_y, n - 1, curve, fill) + seq![
            line_cmd((x - 1) as i32, rows[n - 2], x, y, curve, 1),
            vline_cmd(x, fill_span(y, zero_y).0, fill_span(y, zero_y).1, fill, 1),
        ]
    }
}

/// Draws the full curve of `raw_rows` (one unclamped row per column) in the
/// default colours.
pub fn draw_spectrum_curve(grid: &PlotGrid, raw_rows: &[i32]) -> (ops: Vec<DrawOp<'static>>)
    ensures
        cmds(ops@) == curve_cmds(
            plot_rows(raw_rows@),
            zero_row(grid),
            drawn_columns(raw_rows@.len() as int),
            spec_color_curve(),
            spec_color_fill(),
        ),
{
    draw_spectrum_curve_colored(grid, raw_rows, color_curve(), color_fill())
}

/// Draws the full curve of `raw_rows` (one unclamped row per column, the
/// rows beyond the plot width ignored) in the given colours.
pub fn draw_spectrum_curve_colored(
    grid: &PlotGrid,
    raw_rows: &[i32],
    curve_color: Color,
    fill_color: Color,
) -> (ops: Vec<DrawOp<'static>>)
    ensures
        cmds(ops@) == curve_cmds(
            plot_rows(raw_rows@),
            zero_row(grid),
            drawn_columns(raw_rows@.len() as int),
            curve_color,
            fill_color,
        ),
{
    let mut ops: Vec<DrawOp<'static>> = Vec::new();
    if raw_rows.len() == 0 {
        assert(cmds(ops@) =~= seq![]);
        return ops;
    }
    let len: usize = if raw_rows.len() < PLOT_W as usize {
        raw_rows.len()
    } else {
        PLOT_W as usize
    };
    let zero_y = clamp_plot_y(grid.zero);
    let ghost rows = plot_rows(raw_rows@);
    let mut prev_x: i32 = PLOT_X0;
    let mut prev_y: i32 = clamp_plot_y(raw_rows[0]);
    let mut i: usize = 1;
    while i < len
        invariant
            1 <= i <= len,
            len == drawn_columns(raw_rows@.len() as int),
            len <= raw_rows@.len(),
            rows == plot_rows(raw_rows@),
            zero_y == zero_row(grid),
            prev_x == PLOT_X0 + i - 1,
            prev_y == rows[i - 1],
            cmds(ops@) == curve_cmds(rows, zero_y, i as int, curve_color, fill_color),
        decreases len - i,
    {
        let x = PLOT_X0 + i as i32;
        let y = clamp_plot_y(raw_rows[i]);
        push_op(&mut ops, line(prev_x, prev_y, x, y, curve_color, 1));
        let (fy0, fy1) = if y <= zero_y {
            (y, zero_y)
        } else {
            (zero_y, y)
        };
        push_op(&mut ops, vline(x, fy0, fy1, fill_color, 1));
        prev_x = x;
        prev_y = y;
        i = i + 1;
        assert(cmds(ops@) =~= curve_cmds(rows, zero_y, i as int, curve_color, fill_color));
    }
    ops
}

/// For each column of the plot, the row of the curve as last drawn, so that a
/// redraw touches only the columns whose row changed.
pub struct SpectrumFrame {
    pub prev_y: [i32; 320],
}

/// Every recorded row lies in the plot.
pub open spec fn frame_in_plot(rows: Seq<i32>) -> bool {
    forall|i: int| 0 <= i < rows.len() ==> PLOT_Y0 <= #[trigger] rows[i] <= PLOT_Y1
}

impl SpectrumFrame {
    /// A frame as after a blank plot: every column at the bottom row.
    pub fn new() -> (f: SpectrumFrame)
        ensures
            forall|i: int| 0 <= i < PLOT_W ==> f.prev_y@[i] == PLOT_Y1,
            frame_in_plot(f.prev_y@),
    {
        SpectrumFrame { prev_y: [PLOT_Y1; 320] }
    }
}

/// What redrawing column `x` with its curve at row `new_y` draws: the
/// column's background; the frequency grid line if one falls on the column;
/// the level grid dots; the 0 dB dot; the fill between the curve and the
/// 0 dB row when they differ; and the curve dot.
pub open spec fn column_cmds(x: i32, new_y: i32, grid: &PlotGrid, curve: Color, fill: Color) -> Seq<
    DrawCmd,
> {
    let zero_y = zero_row(grid);
    let (fill_y0, fill_y1) = fill_span(new_y, zero_y);
    seq![fill_rect_cmd(x, PLOT_Y0, 1, PLOT_H as u32, spec_color_bg())] + (if grid.freq_lines@.contains(
        x,
    ) {
        seq![vline_cmd(x, PLOT_Y0, PLOT_Y1, spec_color_grid(), 1)]
    } else {
        seq![]
    }) + Seq::new(
        DB_GRID_LINES as nat,
        |j: int| fill_rect_cmd(x, spec_clamp_plot_y(grid.db_lines@[j]), 1, 1, spec_color_grid()),
    ) + seq![fill_rect_cmd(x, zero_y, 1, 1, spec_color_zero_line())] + (if fill_y1 > fill_y0 {
        seq![vline_cmd(x, fill_y0, fill_y1, fill, 1)]
    } else {
        seq![]
    }) + seq![fill_rect_cmd(x, new_y, 1, 1, curve)]
}

/// What the differential redraw of the first `n` columns draws, given the
/// rows last drawn and the new rows: the columns whose row changed, left to
/// right.
pub open spec fn update_cmds(
    prev: Seq<i32>,
    rows: Seq<i32>,
    n: int,
    grid: &PlotGrid,
    curve: Color,
    fill: Color,
) -> Seq<DrawCmd>
    decreases n,
{
    if n <= 0 {
        seq![]
    } else {
        update_cmds(prev, rows, n - 1, grid, curve, fill) + if rows[n - 1] == prev[n - 1] {
            seq![]
        } else {
            column_cmds((PLOT_X0 + n - 1) as i32, rows[n - 1], grid, curve, fill)
        }
    }
}

/// Draws column `x` with its curve at row `new_y`.
fn draw_column(grid: &PlotGrid, x: i32, new_y: i32, curve_color: Color, fill_color: Color) -> (ops:
    Vec<DrawOp<'static>>)
    ensures
        cmds(ops@) == column_cmds(x, new_y, grid, curve_color, fill_color),
{
    let zero_y = clamp_plot_y(grid.zero);
    let mut ops: Vec<DrawOp<'static>> = Vec::new();
    push_op(&mut ops, fill_rect(x, PLOT_Y0, 1, PLOT_H as u32, color_bg()));
    if is_freq_grid_x(grid, x) {
        push_op(&mut ops, vline(x, PLOT_Y0, PLOT_Y1, color_grid(), 1));
    }
    let ghost head = cmds(ops@);
    let n = DB_GRID_LINES;
    let ghost dots = Seq::new(
        DB_GRID_LINES as nat,
        |j: int| fill_rect_cmd(x, spec_clamp_plot_y(grid.db_lines@[j]), 1, 1, spec_color_grid()),
    );
    let mut j: usize = 0;
    while j < n
        invariant
            n == DB_GRID_LINES as nat,
            j <= n,
            dots == Seq::new(
                DB_GRID_LINES as nat,
                |j: int| fill_rect_cmd(x, spec_clamp_plot_y(grid.db_lines@[j]), 1, 1, spec_color_grid()),
            ),
            cmds(ops@) =~= head + dots.take(j as int),
        decreases n - j,
    {
        let y = clamp_plot_y(grid.db_lines[j]);
        push_op(&mut ops, fill_rect(x, y, 1, 1, color_grid()));
        j = j + 1;
        assert(cmds(ops@) =~= head + dots.take(j as int));
    }
    assert(dots.take(n as int) =~= dots);
    push_op(&mut ops, fill_rect(x, zero_y, 1, 1, color_zero_line()));
    let (fill_y0, fill_y1) = if new_y <= zero_y {
        (new_y, zero_y)
    } else {
        (zero_y, new_y)
    };
    if fill_y1 > fill_y0 {
        push_op(&mut ops, vline(x, fill_y0, fill_y1, fill_color, 1));
    }
    push_op(&mut ops, fill_rect(x, new_y, 1, 1, curve_color));
    assert(cmds(ops@) =~= column_cmds(x, new_y, grid, curve_color, fill_color));
    ops
}

/// Redraws, in the default colours, the columns whose row changed; see
/// `update_spectrum_curve_colored`.
pub fn update_spectrum_curve(frame: &mut SpectrumFrame, grid: &PlotGrid, raw_rows: &[i32]) -> (ops:
    Vec<DrawOp<'static>>)
    ensures
        cmds(ops@) == update_cmds(
            old(frame).prev_y@,
            plot_rows(raw_rows@),
            drawn_columns(raw_rows@.len() as int),
            grid,
            spec_color_curve(),
            spec_color_fill(),
        ),
        forall|i: int|
            0 <= i < drawn_columns(raw_rows@.len() as int) ==> final(frame).prev_y@[i]
                == spec_clamp_plot_y(raw_rows@[i]),
        forall|i: int|
            drawn_columns(raw_rows@.len() as int) <= i < PLOT_W ==> final(frame).prev_y@[i]
                == old(frame).prev_y@[i],
        frame_in_plot(old(frame).prev_y@) ==> frame_in_plot(final(frame).prev_y@),
{
    update_spectrum_curve_colored(frame, grid, raw_rows, color_curve(), color_fill())
}

/// Redraws the curve of `raw_rows` (one unclamped row per column, the rows
/// beyond the plot width ignored) column by column, skipping the columns
/// whose row is the one last drawn, and records the new rows in `frame`.
pub fn update_spectrum_curve_colored(
    frame: &mut SpectrumFrame,
    grid: &PlotGrid,
    raw_rows: &[i32],
    curve_color: Color,
    fill_color: Color,
) -> (ops: Vec<DrawOp<'static>>)
    ensures
        cmds(ops@) == update_cmds(
            old(frame).prev_y@,
            plot_rows(raw_rows@),
            drawn_columns(raw_rows@.len() as int),
            grid,
            curve_color,
            fill_color,
        ),
        forall|i: int|
            0 <= i < drawn_columns(raw_rows@.len() as int) ==> final(frame).prev_y@[i]
                == spec_clamp_plot_y(raw_rows@[i]),
        forall|i: int|
            drawn_columns(raw_rows@.len() as int) <= i < PLOT_W ==> final(frame).prev_y@[i]
                == old(frame).prev_y@[i],
        frame_in_plot(old(frame).prev_y@) ==> frame_in_plot(final(frame).prev_y@),
{
    let len: usize = if raw_rows.len() < PLOT_W as usize {
        raw_rows.len()
    } else {
        PLOT_W as usize
    };
    let ghost prev = old(frame).prev_y@;
    let ghost rows = plot_rows(raw_rows@);
    let mut ops: Vec<DrawOp<'static>> = Vec::new();
    let mut i: usize = 0;
    while i < len
        invariant
            i <= len,
            len == drawn_columns(raw_rows@.len() as int),
            len <= raw_rows@.len(),
            len <= PLOT_W,
            prev == old(frame).prev_y@,
            rows == plot_rows(raw_rows@),
            forall|k: int| 0 <= k < i ==> frame.prev_y@[k] == rows[k],
            forall|k: int| i <= k < PLOT_W ==> frame.prev_y@[k] == prev[k],
            cmds(ops@) == update_cmds(prev, rows, i as int, grid, curve_color, fill_color),
        decreases len - i,
    {
        let x = PLOT_X0 + i as i32;
        let new_y = clamp_plot_y(raw_rows[i]);
        let old_y = frame.prev_y[i];
        if new_y != old_y {
            let column = draw_column(grid, x, new_y, curve_color, fill_color);
            append_ops(&mut ops, column);
            frame.prev_y[i] = new_y;
        }
        i = i + 1;
        assert(cmds(ops@) =~= update_cmds(prev, rows, i as int, grid, curve_color, fill_color));
    }
    assert forall|k: int| 0 <= k < len implies frame.prev_y@[k] == spec_clamp_plot_y(
        raw_rows@[k],
    ) by {
        assert(rows[k] == spec_clamp_plot_y(raw_rows@[k]));
    }
    assert(frame.prev_y@.len() == PLOT_W);
    proof {
        if frame_in_plot(prev) {
            assert forall|k: int| 0 <= k < frame.prev_y@.len() implies PLOT_Y0 <= #[trigger] frame.prev_y@[k]
            <= PLOT_Y1 by {
                if k < len {
                    assert(rows[k] == spec_clamp_plot_y(raw_rows@[k]));
                } else {
                    assert(frame.prev_y@[k] == prev[k]);
                }
            }
        }
    }
    ops
}

/// Whether a command draws only inside the plot area.
pub open spec fn within_plot(cmd: DrawCmd) -> bool {
    match cmd {
        DrawCmd::FillRect { x, y, w, h, .. } => PLOT_X0 <= x && x + w - 1 <= PLOT_X1 && PLOT_Y0
            <= y && y + h - 1 <= PLOT_Y1,
        DrawCmd::Line { x0, y0, x1, y1, .. } => PLOT_X0 <= x0 <= PLOT_X1 && PLOT_X0 <= x1
            <= PLOT_X1 && PLOT_Y0 <= y0 <= PLOT_Y1 && PLOT_Y0 <= y1 <= PLOT_Y1,
        DrawCmd::Text { .. } => false,
    }
}

/// Every row of `plot_rows` lies in the plot.
pub proof fn lemma_plot_rows_in_plot(raw: Seq<i32>)
    ensures
        plot_rows(raw).len() == raw.len(),
        forall|i: int| 0 <= i < raw.len() ==> PLOT_Y0 <= #[trigger] plot_rows(raw)[i] <= PLOT_Y1,
{
}

/// Redrawing columns whose rows are the ones last drawn draws nothing.
pub proof fn lemma_update_unchanged_draws_nothing(
    prev: Seq<i32>,
    rows: Seq<i32>,
    n: int,
    grid: &PlotGrid,
    curve: Color,
    fill: Color,
)
    requires
        forall|i: int| 0 <= i < n ==> rows[i] == prev[i],
    ensures
        update_cmds(prev, rows, n, grid, curve, fill) == Seq::<DrawCmd>::empty(),
    decreases n,
{
    if n > 0 {
        lemma_update_unchanged_draws_nothing(prev, rows, n - 1, grid, curve, fill);
        assert(update_cmds(prev, rows, n, grid, curve, fill) =~= Seq::<DrawCmd>::empty());
    }
}

/// Updating the curve a second time with the same values draws nothing: the
/// first update left in the frame exactly the rows the second one would draw.
pub proof fn lemma_second_update_draws_nothing(
    frame_after: Seq<i32>,
    raw_rows: Seq<i32>,
    grid: &PlotGrid,
    curve: Color,
    fill: Color,
)
    requires
        forall|i: int|
            0 <= i < drawn_columns(raw_rows.len() as int) ==> frame_after[i] == spec_clamp_plot_y(
                raw_rows[i],
            ),
    ensures
        update_cmds(
            frame_after,
            plot_rows(raw_rows),
            drawn_columns(raw_rows.len() as int),
            grid,
            curve,
            fill,
        ) == Seq::<DrawCmd>::empty(),
{
    let n = drawn_columns(raw_rows.len() as int);
    assert forall|i: int| 0 <= i < n implies plot_rows(raw_rows)[i] == frame_after[i] by {
        assert(plot_rows(raw_rows)[i] == spec_clamp_plot_y(raw_rows[i]));
    }
    lemma_update_unchanged_draws_nothing(frame_after, plot_rows(raw_rows), n, grid, curve, fill);
}

/// Redrawing a column that lies in the plot, with its curve on a plot row,
/// draws only inside the plot.
pub proof fn lemma_column_in_plot(x: i32, new_y: i32, grid: &PlotGrid, curve: Color, fill: Color)
    requires
        PLOT_X0 <= x <= PLOT_X1,
        PLOT_Y0 <= new_y <= PLOT_Y1,
    ensures
        forall|k: int|
            0 <= k < column_cmds(x, new_y, grid, curve, fill).len() ==> within_plot(
                #[trigger] column_cmds(x, new_y, grid, curve, fill)[k],
            ),
{
    let zero_y = zero_row(grid);
    let (fill_y0, fill_y1) = fill_span(new_y, zero_y);
    let a = seq![fill_rect_cmd(x, PLOT_Y0, 1, PLOT_H as u32, spec_color_bg())];
    let b = if grid.freq_lines@.contains(x) {
        seq![vline_cmd(x, PLOT_Y0, PLOT_Y1, spec_color_grid(), 1)]
    } else {
        seq![]
    };
    let c = Seq::new(
        DB_GRID_LINES as nat,
        |j: int| fill_rect_cmd(x, spec_clamp_plot_y(grid.db_lines@[j]), 1, 1, spec_color_grid()),
    );
    let d = seq![fill_rect_cmd(x, zero_y, 1, 1, spec_color_zero_line())];
    let e = if fill_y1 > fill_y0 {
        seq![vline_cmd(x, fill_y0, fill_y1, fill, 1)]
    } else {
        seq![]
    };
    let f = seq![fill_rect_cmd(x, new_y, 1, 1, curve)];
    let all = a + b + c + d + e + f;
    assert(column_cmds(x, new_y, grid, curve, fill) == all);
    assert forall|k: int| 0 <= k < all.len() implies within_plot(#[trigger] all[k]) by {
        if k < a.len() {
        } else if k < a.len() + b.len() {
        } else if k < a.len() + b.len() + c.len() {
            let j = k - a.len() - b.len();
            assert(all[k] == c[j]);
        } else {
        }
    }
}

/// The differential redraw draws only inside the plot area: it never paints
/// over the label strip under the plot.
pub proof fn lemma_update_in_plot(
    prev: Seq<i32>,
    rows: Seq<i32>,
    n: int,
    grid: &PlotGrid,
    curve: Color,
    fill: Color,
)
    requires
        n <= PLOT_W,
        forall|i: int| 0 <= i < n ==> PLOT_Y0 <= #[trigger] rows[i] <= PLOT_Y1,
    ensures
        forall|k: int|
            0 <= k < update_cmds(prev, rows, n, grid, curve, fill).len() ==> within_plot(
                #[trigger] update_cmds(prev, rows, n, grid, curve, fill)[k],
            ),
    decreases n,
{
    if n > 0 {
        lemma_update_in_plot(prev, rows, n - 1, grid, curve, fill);
        let head = update_cmds(prev, rows, n - 1, grid, curve, fill);
        let x = (PLOT_X0 + n - 1) as i32;
        let tail = if rows[n - 1] == prev[n - 1] {
            seq![]
        } else {
            column_cmds(x, rows[n - 1], grid, curve, fill)
        };
        if rows[n - 1] != prev[n - 1] {
            lemma_column_in_plot(x, rows[n - 1], grid, curve, fill);
        }
        assert(update_cmds(prev, rows, n, grid, curve, fill) == head + tail);
        assert forall|k: int| 0 <= k < (head + tail).len() implies within_plot(
            #[trigger] (head + tail)[k],
        ) by {
            if k < head.len() {
                assert((head + tail)[k] == head[k]);
            } else {
                assert((head + tail)[k] == tail[k - head.len()]);
            }
        }
    }
}

/// The full curve draws only inside the plot area.
pub proof fn lemma_curve_in_plot(rows: Seq<i32>, zero_y: i32, n: int, curve: Color, fill: Color)
    requires
        n <= PLOT_W,
        PLOT_Y0 <= zero_y <= PLOT_Y1,
        forall|i: int| 0 <= i < n ==> PLOT_Y0 <= #[trigger] rows[i] <= PLOT_Y1,
    ensures
        forall|k: int|
            0 <= k < curve_cmds(rows, zero_y, n, curve, fill).len() ==> within_plot(
                #[trigger] curve_cmds(rows, zero_y, n, curve, fill)[k],
            ),
    decreases n,
{
    if n > 1 {
        lemma_curve_in_plot(rows, zero_y, n - 1, curve, fill);
        let head = curve_cmds(rows, zero_y, n - 1, curve, fill);
        let x = (PLOT_X0 + n - 1) as i32;
        let y = rows[n - 1];
        let tail = seq![
            line_cmd((x - 1) as i32, rows[n - 2], x, y, curve, 1),
            vline_cmd(x, fill_span(y, zero_y).0, fill_span(y, zero_y).1, fill, 1),
        ];
        assert(curve_cmds(rows, zero_y, n, curve, fill) == head + tail);
        assert forall|k: int| 0 <= k < (head + tail).len() implies within_plot(
            #[trigger] (head + tail)[k],
        ) by {
            if k < head.len() {
                assert((head + tail)[k] == head[k]);
            } else {
                assert((head + tail)[k] == tail[k - head.len()]);
            }
        }
    }
}

/// Whether a command stays within the one-pixel-wide column `x`.
pub open spec fn in_column(cmd: DrawCmd, x: int) -> bool {
    match cmd {
        DrawCmd::FillRect { x: cx, w, .. } => cx == x && w == 1,
        DrawCmd::Line { x0, x1, .. } => x0 == x && x1 == x,
        DrawCmd::Text { .. } => false,
    }
}

/// Redrawing column `x` stays within that column.
pub proof fn lemma_column_cmds_in_column(x: i32, new_y: i32, grid: &PlotGrid, curve: Color, fill: Color)
    ensures
        forall|k: int|
            0 <= k < column_cmds(x, new_y, grid, curve, fill).len() ==> in_column(
                #[trigger] column_cmds(x, new_y, grid, curve, fill)[k],
                x as int,
            ),
{
    let zero_y = zero_row(grid);
    let (fill_y0, fill_y1) = fill_span(new_y, zero_y);
    let a = seq![fill_rect_cmd(x, PLOT_Y0, 1, PLOT_H as u32, spec_color_bg())];
    let b = if grid.freq_lines@.contains(x) {
        seq![vline_cmd(x, PLOT_Y0, PLOT_Y1, spec_color_grid(), 1)]
    } else {
        seq![]
    };
    let c = Seq::new(
        DB_GRID_LINES as nat,
        |j: int| fill_rect_cmd(x, spec_clamp_plot_y(grid.db_lines@[j]), 1, 1, spec_color_grid()),
    );
    let d = seq![fill_rect_cmd(x, zero_y, 1, 1, spec_color_zero_line())];
    let e = if fill_y1 > fill_y0 {
        seq![vline_cmd(x, fill_y0, fill_y1, fill, 1)]
    } else {
        seq![]
    };
    let f = seq![fill_rect_cmd(x, new_y, 1, 1, curve)];
    let all = a + b + c + d + e + f;
    assert(column_cmds(x, new_y, grid, curve, fill) == all);
    assert forall|k: int| 0 <= k < all.len() implies in_column(#[trigger] all[k], x as int) by {
        if a.len() + b.len() <= k < a.len() + b.len() + c.len() {
            assert(all[k] == c[k - a.len() - b.len()]);
        }
    }
}

/// The differential redraw touches only the columns whose row changed: every
/// command it issues stays within one such column.
pub proof fn lemma_update_touches_changed_columns_only(
    prev: Seq<i32>,
    rows: Seq<i32>,
    n: int,
    grid: &PlotGrid,
    curve: Color,
    fill: Color,
)
    requires
        0 <= n <= PLOT_W,
    ensures
        forall|k: int|
            0 <= k < update_cmds(prev, rows, n, grid, curve, fill).len() ==> exists|i: int|
                0 <= i < n && rows[i] != prev[i] && in_column(
                    #[trigger] update_cmds(prev, rows, n, grid, curve, fill)[k],
                    i,
                ),
    decreases n,
{
    if n > 0 {
        lemma_update_touches_changed_columns_only(prev, rows, n - 1, grid, curve, fill);
        let head = update_cmds(prev, rows, n - 1, grid, curve, fill);
        let x = (PLOT_X0 + n - 1) as i32;
        let tail = if rows[n - 1] == prev[n - 1] {
            seq![]
        } else {
            column_cmds(x, rows[n - 1], grid, curve, fill)
        };
        lemma_column_cmds_in_column(x, rows[n - 1], grid, curve, fill);
        assert(update_cmds(prev, rows, n, grid, curve, fill) == head + tail);
        assert forall|k: int| 0 <= k < (head + tail).len() implies exists|i: int|
            0 <= i < n && rows[i] != prev[i] && in_column(#[trigger] (head + tail)[k], i) by {
            if k < head.len() {
                assert((head + tail)[k] == head[k]);
                let i = choose|i: int|
                    0 <= i < n - 1 && rows[i] != prev[i] && in_column(head[k], i);
                assert(0 <= i < n && rows[i] != prev[i] && in_column((head + tail)[k], i));
            } else {
                assert((head + tail)[k] == tail[k - head.len()]);
                assert(in_column(tail[k - head.len()], n - 1));
            }
        }
    }
}

/// A row clamped to the plot, written with the library's `min` and `max`.
pub open spec fn clamped_to_plot(raw: i32) -> int {
    vstd::math::min(vstd::math::max(raw as int, PLOT_Y0 as int), PLOT_Y1 as int)
}

/// Ruler mark `i` is the text of ruler level `i`, right-aligned 2 pixels from
/// the right edge and 2 pixels above the clamped row of the same level; there
/// are exactly `RULER_MARKS` marks.
pub proof fn lemma_ruler_marks_at_their_rows(grid: &PlotGrid)
    ensures
        ruler_cmds(grid).len() == RULER_MARKS,
        forall|i: int|
            0 <= i < RULER_MARKS ==> #[trigger] ruler_cmds(grid)[i] == text_cmd(
                ruler_texts()[i],
                318,
                (clamped_to_plot(grid.ruler_rows@[i]) - 2) as i32,
                spec_color_label(),
                TextAlign::Right,
            ),
{
}

/// Frequency label `i` is the text of label frequency `i`, centred on the
/// column of the same frequency, 3 pixels above the bottom of the screen;
/// there are exactly `FREQ_LABELS` labels.
pub proof fn lemma_freq_labels_at_their_columns(grid: &PlotGrid)
    ensures
        freq_label_cmds(grid).len() == FREQ_LABELS,
        forall|i: int|
            0 <= i < FREQ_LABELS ==> #[trigger] freq_label_cmds(grid)[i] == text_cmd(
                freq_label_texts()[i],
                grid.freq_label_cols@[i],
                237,
                spec_color_label(),
                TextAlign::Center,
            ),
{
}

/// The full curve over `n` points is, for each point after the first, a line
/// in the curve colour from the previous point to it, followed by a fill line
/// in its column spanning exactly the rows between the point and the 0 dB
/// row: from the smaller to the larger of the two.
pub proof fn lemma_curve_segments(rows: Seq<i32>, zero_y: i32, n: int, curve: Color, fill: Color)
    requires
        1 <= n <= rows.len(),
        n <= PLOT_W,
    ensures
        curve_cmds(rows, zero_y, n, curve, fill).len() == 2 * (n - 1),
        forall|k: int|
            0 <= k < 2 * (n - 1) ==> {
                let x = k / 2 + 1;
                #[trigger] curve_cmds(rows, zero_y, n, curve, fill)[k] == if k % 2 == 0 {
                    line_cmd((x - 1) as i32, rows[x - 1], x as i32, rows[x], curve, 1)
                } else {
                    vline_cmd(
                        x as i32,
                        vstd::math::min(rows[x] as int, zero_y as int) as i32,
                        vstd::math::max(rows[x] as int, zero_y as int) as i32,
                        fill,
                        1,
                    )
                }
            },
    decreases n,
{
    if n > 1 {
        lemma_curve_segments(rows, zero_y, n - 1, curve, fill);
        let head = curve_cmds(rows, zero_y, n - 1, curve, fill);
        let x = (PLOT_X0 + n - 1) as i32;
        let y = rows[n - 1];
        let tail = seq![
            line_cmd((x - 1) as i32, rows[n - 2], x, y, curve, 1),
            vline_cmd(x, fill_span(y, zero_y).0, fill_span(y, zero_y).1, fill, 1),
        ];
        assert(curve_cmds(rows, zero_y, n, curve, fill) == head + tail);
        assert forall|k: int| 0 <= k < 2 * (n - 1) implies {
            let x = k / 2 + 1;
            #[trigger] curve_cmds(rows, zero_y, n, curve, fill)[k] == if k % 2 == 0 {
                line_cmd((x - 1) as i32, rows[x - 1], x as i32, rows[x], curve, 1)
            } else {
                vline_cmd(
                    x as i32,
                    vstd::math::min(rows[x] as int, zero_y as int) as i32,
                    vstd::math::max(rows[x] as int, zero_y as int) as i32,
                    fill,
                    1,
                )
            }
        } by {
            if k < head.len() {
                assert((head + tail)[k] == head[k]);
            } else {
                assert((head + tail)[k] == tail[k - head.len()]);
                assert(k / 2 + 1 == n - 1);
            }
        }
    }
}

/// What the redraw of one column draws: first the column's background over
/// the whole plot height, last the curve dot at the new row; in between the
/// dot of every level grid line, the 0 dB dot, the frequency grid line when
/// one falls on the column, and, unless the new row is the 0 dB row, a fill
/// line in the column spanning exactly the rows between the new row and the
/// 0 dB row.
pub proof fn lemma_column_redraw_contents(
    x: i32,
    new_y: i32,
    grid: &PlotGrid,
    curve: Color,
    fill: Color,
)
    ensures
        ({
            let cs = column_cmds(x, new_y, grid, curve, fill);
            let zero_y = clamped_to_plot(grid.zero) as i32;
            &&& cs.len() >= 2
            &&& cs[0] == fill_rect_cmd(x, 0, 1, 224, spec_color_bg())
            &&& cs.last() == fill_rect_cmd(x, new_y, 1, 1, curve)
            &&& cs.contains(fill_rect_cmd(x, zero_y, 1, 1, spec_color_zero_line()))
            &&& forall|j: int|
                0 <= j < DB_GRID_LINES ==> cs.contains(
                    fill_rect_cmd(x, clamped_to_plot(#[trigger] grid.db_lines@[j]) as i32, 1, 1, spec_color_grid()),
                )
            &&& grid.freq_lines@.contains(x) ==> cs.contains(vline_cmd(x, 0, 223, spec_color_grid(), 1))
            &&& new_y != zero_y ==> cs.contains(
                vline_cmd(
                    x,
                    vstd::math::min(new_y as int, zero_y as int) as i32,
                    vstd::math::max(new_y as int, zero_y as int) as i32,
                    fill,
                    1,
                ),
            )
        }),
{
    let zero_y = zero_row(grid);
    let (fill_y0, fill_y1) = fill_span(new_y, zero_y);
    let a = seq![fill_rect_cmd(x, PLOT_Y0, 1, PLOT_H as u32, spec_color_bg())];
    let b = if grid.freq_lines@.contains(x) {
        seq![vline_cmd(x, PLOT_Y0, PLOT_Y1, spec_color_grid(), 1)]
    } else {
        seq![]
    };
    let c = Seq::new(
        DB_GRID_LINES as nat,
        |j: int| fill_rect_cmd(x, spec_clamp_plot_y(grid.db_lines@[j]), 1, 1, spec_color_grid()),
    );
    let d = seq![fill_rect_cmd(x, zero_y, 1, 1, spec_color_zero_line())];
    let e = if fill_y1 > fill_y0 {
        seq![vline_cmd(x, fill_y0, fill_y1, fill, 1)]
    } else {
        seq![]
    };
    let f = seq![fill_rect_cmd(x, new_y, 1, 1, curve)];
    let all = a + b + c + d + e + f;
    assert(column_cmds(x, new_y, grid, curve, fill) == all);
    assert(all[0] == a[0]);
    assert(all[all.len() - 1] == f[0]);
    let zi: int = (a.len() + b.len() + c.len()) as int;
    assert(all[zi] == d[0]);
    if grid.freq_lines@.contains(x) {
        assert(all[a.len() as int] == b[0]);
    }
    assert forall|j: int| 0 <= j < DB_GRID_LINES implies all.contains(
        fill_rect_cmd(x, clamped_to_plot(#[trigger] grid.db_lines@[j]) as i32, 1, 1, spec_color_grid()),
    ) by {
        assert(all[a.len() + b.len() + j] == c[j]);
    }
    if new_y != zero_y {
        assert(all[zi + 1] == e[0]);
    }
}

/// Every column whose new row differs from the row last drawn is redrawn in
/// full, whether its level rose or fell: the commands of the differential
/// redraw contain, as one contiguous run, the redraw of that column at its new
/// row.
pub proof fn lemma_update_redraws_every_changed_column(
    prev: Seq<i32>,
    rows: Seq<i32>,
    n: int,
    grid: &PlotGrid,
    curve: Color,
    fill: Color,
)
    requires
        0 <= n <= PLOT_W,
    ensures
        forall|i: int|
            0 <= i < n && rows[i] != prev[i] ==> exists|off: int|
                0 <= off && off + column_cmds(i as i32, rows[i], grid, curve, fill).len() <= update_cmds(
                    prev,
                    rows,
                    n,
                    grid,
                    curve,
                    fill,
                ).len() && #[trigger] update_cmds(prev, rows, n, grid, curve, fill).subrange(
                    off,
                    off + column_cmds(i as i32, rows[i], grid, curve, fill).len(),
                ) == column_cmds(i as i32, rows[i], grid, curve, fill),
    decreases n,
{
    if n > 0 {
        lemma_update_redraws_every_changed_column(prev, rows, n - 1, grid, curve, fill);
        let head = update_cmds(prev, rows, n - 1, grid, curve, fill);
        let x = (PLOT_X0 + n - 1) as i32;
        let tail = if rows[n - 1] == prev[n - 1] {
            seq![]
        } else {
            column_cmds(x, rows[n - 1], grid, curve, fill)
        };
        let all = update_cmds(prev, rows, n, grid, curve, fill);
        assert(all == head + tail);
        assert forall|i: int| 0 <= i < n && rows[i] != prev[i] implies exists|off: int|
            0 <= off && off + column_cmds(i as i32, rows[i], grid, curve, fill).len() <= all.len()
                && #[trigger] all.subrange(
                off,
                off + column_cmds(i as i32, rows[i], grid, curve, fill).len(),
            ) == column_cmds(i as i32, rows[i], grid, curve, fill) by {
            let cl = column_cmds(i as i32, rows[i], grid, curve, fill).len();
            if i < n - 1 {
                let off = choose|off: int|
                    0 <= off && off + column_cmds(i as i32, rows[i], grid, curve, fill).len()
                        <= head.len() && #[trigger] head.subrange(
                        off,
                        off + column_cmds(i as i32, rows[i], grid, curve, fill).len(),
                    ) == column_cmds(i as i32, rows[i], grid, curve, fill);
                assert(all.subrange(off, off + cl) =~= head.subrange(off, off + cl));
            } else {
                assert(all.subrange(head.len() as int, head.len() + cl as int) =~= tail);
            }
        }
    }
}

} // verus!
