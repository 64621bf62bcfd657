//! Drawing commands: what the library asks the display to draw, as plain
//! values. The application hands each command to the display driver.

use vstd::prelude::*;

verus! {

/// A 16-bit RGB colour: 5 bits of red, 6 of green and 5 of blue.
#[derive(Clone, Copy, PartialEq, Eq, Debug, Structural)]
pub struct Color {
    pub r: u8,
    pub g: u8,
    pub b: u8,
}

impl Color {
    /// The colour with the given red, green and blue channels.
    pub fn new(r: u8, g: u8, b: u8) -> (c: Color)
        ensures
            c == (Color { r, g, b }),
    {
        Color { r, g, b }
    }
}

/// Horizontal placement of a text relative to its anchor point.
#[derive(Clone, Copy, PartialEq, Eq, Debug, Structural)]
pub enum TextAlign {
    Left,
    Center,
    Right,
}

/// One drawing command. Texts are drawn in the 6x10 monospace font with
/// their baseline at `y`.
#[derive(Debug, PartialEq, Eq)]
pub enum DrawOp<'a> {
    /// A filled rectangle with its top-left corner at (`x`, `y`).
    FillRect { x: i32, y: i32, w: u32, h: u32, color: Color },
    /// A straight line from (`x0`, `y0`) to (`x1`, `y1`), `width` pixels wide.
    Line { x0: i32, y0: i32, x1: i32, y1: i32, color: Color, width: u32 },
    /// A text anchored at (`x`, `y`).
    Text { text: &'a str, x: i32, y: i32, color: Color, align: TextAlign },
}

/// The mathematical value of a drawing command: the command with its text
/// taken as a sequence of characters.
pub enum DrawCmd {
    FillRect { x: i32, y: i32, w: u32, h: u32, color: Color },
    Line { x0: i32, y0: i32, x1: i32, y1: i32, color: Color, width: u32 },
    Text { text: Seq<char>, x: i32, y: i32, color: Color, align: TextAlign },
}

impl<'a> View for DrawOp<'a> {
    type V = DrawCmd;

    open spec fn view(&self) -> DrawCmd {
        match self {
            DrawOp::FillRect { x, y, w, h, color } => DrawCmd::FillRect {
                x: *x,
                y: *y,
                w: *w,
                h: *h,
                color: *color,
            },
            DrawOp::Line { x0, y0, x1, y1, color, width } => DrawCmd::Line {
                x0: *x0,
                y0: *y0,
                x1: *x1,
                y1: *y1,
                color: *color,
                width: *width,
            },
            DrawOp::Text { text, x, y, color, align } => DrawCmd::Text {
                text: text@,
                x: *x,
                y: *y,
                color: *color,
                align: *align,
            },
        }
    }
}

/// The values of a list of commands.
pub open spec fn cmds<'a>(ops: Seq<DrawOp<'a>>) -> Seq<DrawCmd> {
    ops.map_values(|op: DrawOp<'a>| op@)
}

/// A filled rectangle.
pub open spec fn fill_rect_cmd(x: i32, y: i32, w: u32, h: u32, color: Color) -> DrawCmd {
    DrawCmd::FillRect { x, y, w, h, color }
}

/// A straight line.
pub open spec fn line_cmd(x0: i32, y0: i32, x1: i32, y1: i32, color: Color, width: u32) -> DrawCmd {
    DrawCmd::Line { x0, y0, x1, y1, color, width }
}

/// A horizontal line from column `x0` to column `x1` on row `y`.
pub open spec fn hline_cmd(x0: i32, x1: i32, y: i32, color: Color, width: u32) -> DrawCmd {
    DrawCmd::Line { x0, y0: y, x1, y1: y, color, width }
}

/// A vertical line from row `y0` to row `y1` in column `x`.
pub open spec fn vline_cmd(x: i32, y0: i32, y1: i32, color: Color, width: u32) -> DrawCmd {
    DrawCmd::Line { x0: x, y0, x1: x, y1, color, width }
}

/// A text.
pub open spec fn text_cmd(text: Seq<char>, x: i32, y: i32, color: Color, align: TextAlign) -> DrawCmd {
    DrawCmd::Text { text, x, y, color, align }
}

/// Builds a filled rectangle.
pub fn fill_rect<'a>(x: i32, y: i32, w: u32, h: u32, color: Color) -> (op: DrawOp<'a>)
    ensures
        op@ == fill_rect_cmd(x, y, w, h, color),
{
    DrawOp::FillRect { x, y, w, h, color }
}

/// Builds a straight line.
pub fn line<'a>(x0: i32, y0: i32, x1: i32, y1: i32, color: Color, width: u32) -> (op: DrawOp<'a>)
    ensures
        op@ == line_cmd(x0, y0, x1, y1, color, width),
{
    DrawOp::Line { x0, y0, x1, y1, color, width }
}

/// Builds a horizontal line.
pub fn hline<'a>(x0: i32, x1: i32, y: i32, color: Color, width: u32) -> (op: DrawOp<'a>)
    ensures
        op@ == hline_cmd(x0, x1, y, color, width),
{
    DrawOp::Line { x0, y0: y, x1, y1: y, color, width }
}

/// Builds a vertical line.
pub fn vline<'a>(x: i32, y0: i32, y1: i32, color: Color, width: u32) -> (op: DrawOp<'a>)
    ensures
        op@ == vline_cmd(x, y0, y1, color, width),
{
    DrawOp::Line { x0: x, y0, x1: x, y1, color, width }
}

/// Builds a text.
pub fn text<'a>(label: &'a str, x: i32, y: i32, color: Color, align: TextAlign) -> (op: DrawOp<'a>)
    ensures
        op@ == text_cmd(label@, x, y, color, align),
{
    DrawOp::Text { text: label, x, y, color, align }
}

/// Appends one command to a list.
pub fn push_op<'a>(ops: &mut Vec<DrawOp<'a>>, op: DrawOp<'a>)
    ensures
        cmds(final(ops)@) == cmds(old(ops)@).push(op@),
{
    ops.push(op);
    assert(cmds(ops@) =~= cmds(old(ops)@).push(op@));
}

/// Appends a list of commands to another.
pub fn append_ops<'a>(ops: &mut Vec<DrawOp<'a>>, more: Vec<DrawOp<'a>>)
    ensures
        cmds(final(ops)@) == cmds(old(ops)@) + cmds(more@),
{
    let ghost added = more@;
    let mut more = more;
    ops.append(&mut more);
    assert(cmds(ops@) =~= cmds(old(ops)@) + cmds(added));
}

} // verus!
