use vstd::prelude::*;
use crate::consts::{SCREEN_HEIGHT, SCREEN_WIDTH};
use crate::geometry::{clamp, trunc_div, Rectangle, Vector2, SCALE};

verus! {

#[derive(Clone, Copy, PartialEq, Eq, Structural, Debug)]
pub struct Color {
    pub r: u8,
    pub g: u8,
    pub b: u8,
    pub a: u8,
}

/// The palette; every colour is opaque.
impl Color {
    pub open spec fn black_spec() -> Color {
        Color { r: 0, g: 0, b: 0, a: 255 }
    }

    pub fn black() -> (c: Color)
        ensures
            c == Color::black_spec(),
    {
        Color { r: 0, g: 0, b: 0, a: 255 }
    }

    pub open spec fn dark_gray_spec() -> Color {
        Color { r: 80, g: 80, b: 80, a: 255 }
    }

    pub fn dark_gray() -> (c: Color)
        ensures
            c == Color::dark_gray_spec(),
    {
        Color { r: 80, g: 80, b: 80, a: 255 }
    }

    pub open spec fn light_gray_spec() -> Color {
        Color { r: 200, g: 200, b: 200, a: 255 }
    }

    pub fn light_gray() -> (c: Color)
        ensures
            c == Color::light_gray_spec(),
    {
        Color { r: 200, g: 200, b: 200, a: 255 }
    }

    pub open spec fn gray_spec() -> Color {
        Color { r: 130, g: 130, b: 130, a: 255 }
    }

    pub fn gray() -> (c: Color)
        ensures
            c == Color::gray_spec(),
    {
        Color { r: 130, g: 130, b: 130, a: 255 }
    }

    pub open spec fn maroon_spec() -> Color {
        Color { r: 190, g: 33, b: 55, a: 255 }
    }

    pub fn maroon() -> (c: Color)
        ensures
            c == Color::maroon_spec(),
    {
        Color { r: 190, g: 33, b: 55, a: 255 }
    }

    pub open spec fn ray_white_spec() -> Color {
        Color { r: 245, g: 245, b: 245, a: 255 }
    }

    pub fn ray_white() -> (c: Color)
        ensures
            c == Color::ray_white_spec(),
    {
        Color { r: 245, g: 245, b: 245, a: 255 }
    }

    pub open spec fn elegant_black_spec() -> Color {
        Color { r: 19, g: 19, b: 18, a: 255 }
    }

    pub fn elegant_black() -> (c: Color)
        ensures
            c == Color::elegant_black_spec(),
    {
        Color { r: 19, g: 19, b: 18, a: 255 }
    }

    pub open spec fn paddle_gray_spec() -> Color {
        Color { r: 230, g: 230, b: 230, a: 255 }
    }

    pub fn paddle_gray() -> (c: Color)
        ensures
            c == Color::paddle_gray_spec(),
    {
        Color { r: 230, g: 230, b: 230, a: 255 }
    }
}

/// One drawing call for the window: the library describes a frame as a
/// list of these, and the program around it performs them in order.
#[derive(Clone, PartialEq, Eq, Debug)]
pub enum DrawCommand {
    Clear { color: Color },
    Rectangle { x: i32, y: i32, width: i32, height: i32, color: Color },
    Circle { center: Vector2, radius: i64, color: Color },
    Text { text: String, x: i32, y: i32, font_size: i32, color: Color },
    /// Text centred on the screen; its position depends on the width the
    /// font gives it (see `draw_text_center`).
    CenteredText { text: String, font_size: i32, color: Color },
    Button { bounds: Rectangle, label: String },
}

/// A `DrawCommand` with its text as a sequence of characters.
pub enum DrawOp {
    Clear(Color),
    Rectangle(i32, i32, i32, i32, Color),
    Circle(Vector2, i64, Color),
    Text(Seq<char>, i32, i32, i32, Color),
    CenteredText(Seq<char>, i32, Color),
    Button(Rectangle, Seq<char>),
}

impl View for DrawCommand {
    type V = DrawOp;

    open spec fn view(&self) -> DrawOp {
        match self {
            DrawCommand::Clear { color } => DrawOp::Clear(*color),
            DrawCommand::Rectangle { x, y, width, height, color } => DrawOp::Rectangle(
                *x,
                *y,
                *width,
                *height,
                *color,
            ),
            DrawCommand::Circle { center, radius, color } => DrawOp::Circle(*center, *radius, *color),
            DrawCommand::Text { text, x, y, font_size, color } => DrawOp::Text(
                text@,
                *x,
                *y,
                *font_size,
                *color,
            ),
            DrawCommand::CenteredText { text, font_size, color } => DrawOp::CenteredText(
                text@,
                *font_size,
                *color,
            ),
            DrawCommand::Button { bounds, label } => DrawOp::Button(*bounds, label@),
        }
    }
}

pub open spec fn views(cmds: Seq<DrawCommand>) -> Seq<DrawOp> {
    cmds.map_values(|c: DrawCommand| c@)
}

/// A coordinate in whole pixels: rounded toward zero and saturated to the
/// range of `i32`, as a float-to-integer cast does.
pub open spec fn pixels(v: int) -> i32 {
    clamp(trunc_div(v, SCALE as int), i32::MIN as int, i32::MAX as int) as i32
}

pub fn to_pixels(v: i64) -> (r: i32)
    ensures
        r == pixels(v as int),
{
    let p = v / SCALE;
    if p < i32::MIN as i64 {
        i32::MIN
    } else if p > i32::MAX as i64 {
        i32::MAX
    } else {
        p as i32
    }
}

/// The filled rectangle of size `size` centred on `position`.
pub open spec fn box_op(position: Vector2, size: Vector2, color: Color) -> DrawOp {
    DrawOp::Rectangle(
        pixels(position.x - trunc_div(size.x as int, 2)),
        pixels(position.y - trunc_div(size.y as int, 2)),
        pixels(size.x as int),
        pixels(size.y as int),
        color,
    )
}

pub fn draw_box(position: &Vector2, size: &Vector2, color: Color) -> (r: DrawCommand)
    requires
        Rectangle::can_center(*position, *size),
    ensures
        r@ == box_op(*position, *size, color),
{
    DrawCommand::Rectangle {
        x: to_pixels(position.x - size.x / 2),
        y: to_pixels(position.y - size.y / 2),
        width: to_pixels(size.x),
        height: to_pixels(size.y),
        color,
    }
}

/// The decimal numeral of `n`, with a leading '-' when it is negative.
pub open spec fn decimal(n: int) -> Seq<char> {
    if n < 0 {
        seq!['-'] + digits((-n) as nat)
    } else {
        digits(n as nat)
    }
}

pub open spec fn digits(n: nat) -> Seq<char>
    decreases n,
{
    let d = seq!['0', '1', '2', '3', '4', '5', '6', '7', '8', '9'][(n % 10) as int];
    if n < 10 {
        seq![d]
    } else {
        digits(n / 10).push(d)
    }
}

/// Relies on `i32`'s `Display` (through `ToString::to_string`): the decimal
/// numeral, '-' first for a negative number.
#[verifier::external_body]
fn decimal_text(n: i32) -> (r: String)
    ensures
        r@ == decimal(n as int),
{
    n.to_string()
}

/// Where `draw_text_center` puts text `text_width` pixels wide: centred
/// horizontally, starting at mid-height.
pub open spec fn centered_x(text_width: i32) -> int {
    SCREEN_WIDTH / 2 - trunc_div(text_width as int, 2)
}

/// Text centred on the screen, given the width the font gives it.
pub fn draw_text_center(text: &str, font_size: i32, color: Color, text_width: i32) -> (r: DrawCommand)
    ensures
        r@ == DrawOp::Text(text@, centered_x(text_width) as i32, (SCREEN_HEIGHT / 2) as i32, font_size, color),
{
    let x = SCREEN_WIDTH / 2 - text_width / 2;
    let y = SCREEN_HEIGHT / 2;
    DrawCommand::Text { text: text.to_string(), x, y, font_size, color }
}

/// A score, written at `(x, y)`.
pub open spec fn point_op(point: i32, x: i32, y: i32) -> DrawOp {
    DrawOp::Text(decimal(point as int), x, y, 40, Color::gray_spec())
}

pub fn draw_point(point: i32, x: i32, y: i32) -> (r: DrawCommand)
    ensures
        r@ == point_op(point, x, y),
{
    DrawCommand::Text { text: decimal_text(point), x, y, font_size: 40, color: Color::gray() }
}

} // verus!
