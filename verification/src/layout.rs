//! Where the box puts things on its canvas: the size of the canvas, the
//! place of each line, the background, and the speaker mark that a
//! renderer draws apart from the rest of its line.

use crate::canvas::{canvas_bytes, canvas_size, pixel_offset, Canvas, CHANNELS};
use crate::compiler::SPEAKER_MARK;
use crate::window::Slot;
use vstd::prelude::*;

verus! {

/// The width of the canvas in pixels.
pub const WIDTH: u32 = 960;

/// The height of the canvas in pixels.
pub const HEIGHT: u32 = 256;

/// The number of ordinary characters that fit on one line of the canvas.
pub const TEXT_LENGTH_LIMIT: usize = 25;

/// The distance of every line from the left edge.
pub const TEXT_LEFT: i32 = 40;

/// The distance of the top line from the top edge, and of the bottom line
/// from the bottom edge.
pub const TEXT_INSET: i32 = 60;

/// The point at which the line of `slot` is drawn, as `(x, y)`: the top
/// line one inset below the top edge, the middle line half way down, the
/// bottom line one inset above the bottom edge.
pub open spec fn origin_of(slot: Slot) -> (int, int) {
    match slot {
        Slot::Top => (TEXT_LEFT as int, TEXT_INSET as int),
        Slot::Middle => (TEXT_LEFT as int, HEIGHT as int / 2),
        Slot::Bottom => (TEXT_LEFT as int, HEIGHT as int - TEXT_INSET as int),
    }
}

/// The point at which the line of `slot` is drawn.
pub fn line_origin(slot: Slot) -> (at: (i32, i32))
    ensures
        (at.0 as int, at.1 as int) == origin_of(slot),
{
    match slot {
        Slot::Top => (TEXT_LEFT, TEXT_INSET),
        Slot::Middle => (TEXT_LEFT, (HEIGHT / 2) as i32),
        Slot::Bottom => (TEXT_LEFT, HEIGHT as i32 - TEXT_INSET),
    }
}

/// Whether `line` opens with the speaker mark.
pub open spec fn opens_with_mark(line: Seq<char>) -> bool {
    line.len() > 0 && line[0] == SPEAKER_MARK
}

/// What of `line` is drawn as ordinary text: all of it but an opening
/// speaker mark.
pub open spec fn body_of(line: Seq<char>) -> Seq<char> {
    if opens_with_mark(line) {
        line.skip(1)
    } else {
        line
    }
}

/// The bytes of the canvas on which a picture of `width` by `height`
/// pixels, held row by row in `pixels`, has been laid with its top left
/// corner in the top left corner of the canvas: what of the picture lies
/// on the canvas is kept, the rest of the canvas is clear.
pub open spec fn fitted(width: nat, height: nat, pixels: Seq<u8>) -> Seq<u8> {
    Seq::new(
        (CHANNELS * (WIDTH * HEIGHT)) as nat,
        |i: int|
            {
                let x = (i / CHANNELS as int) % WIDTH as int;
                let y = (i / CHANNELS as int) / WIDTH as int;
                if x < width && y < height {
                    pixels[pixel_offset(x, y, width as int) + i % CHANNELS as int]
                } else {
                    0u8
                }
            },
    )
}

/// The byte at place `i` of the canvas while the picture is being laid:
/// of a picture that is `width` pixels wide, the first `across` pixels
/// of every row above `row` and the first `column` pixels of row `row`
/// lie on the canvas already.
spec fn laid(width: nat, pixels: Seq<u8>, row: int, column: int, across: int, i: int) -> u8 {
    let x = (i / CHANNELS as int) % WIDTH as int;
    let y = (i / CHANNELS as int) / WIDTH as int;
    if (y < row && x < across) || (y == row && x < column) {
        pixels[pixel_offset(x, y, width as int) + i % CHANNELS as int]
    } else {
        0u8
    }
}

/// Lays a picture of `width` by `height` pixels, held row by row in
/// `pixels`, onto the canvas; see `fitted`. `None` if `pixels` holds
/// fewer than four bytes for each pixel of the picture. Bytes beyond the
/// picture are ignored.
pub fn fit_background(width: u32, height: u32, pixels: Vec<u8>) -> (canvas: Option<Vec<u8>>)
    ensures
        canvas is Some <==> CHANNELS * (width * height) <= pixels@.len(),
        canvas matches Some(bytes) ==> bytes@ == fitted(width as nat, height as nat, pixels@),
{
    let mut canvas = Canvas::new(WIDTH, HEIGHT);
    if width == 0 || height == 0 {
        assert(width * height == 0) by (nonlinear_arith)
            requires
                width == 0 || height == 0,
        ;
        return Some(canvas.into_raw());
    }
    assert(CHANNELS * width <= CHANNELS * (width * height)) by (nonlinear_arith)
        requires
            height >= 1,
    ;
    assert(pixels@.len() == pixels.len());
    let source = match Canvas::from_raw(width, height, pixels) {
        Some(source) => source,
        None => {
            return None;
        },
    };
    let across = if width < WIDTH {
        width
    } else {
        WIDTH
    };
    let down = if height < HEIGHT {
        height
    } else {
        HEIGHT
    };
    let mut y: u32 = 0;
    while y < down
        invariant
            y <= down,
            across <= WIDTH,
            across <= width,
            down <= HEIGHT,
            down <= height,
            canvas_size(source) == (width, height),
            canvas_bytes(source) == pixels@,
            CHANNELS * (width * height) <= pixels@.len(),
            canvas_size(canvas) == (WIDTH, HEIGHT),
            canvas_bytes(canvas).len() == CHANNELS * (WIDTH * HEIGHT),
            forall|i: int|
                0 <= i < CHANNELS * (WIDTH * HEIGHT) ==> #[trigger] canvas_bytes(canvas)[i] == laid(
                    width as nat,
                    pixels@,
                    y as int,
                    0,
                    across as int,
                    i,
                ),
        decreases down - y,
    {
        let mut x: u32 = 0;
        while x < across
            invariant
                y < down,
                x <= across,
                across <= WIDTH,
                across <= width,
                down <= HEIGHT,
                down <= height,
                canvas_size(source) == (width, height),
                canvas_bytes(source) == pixels@,
                CHANNELS * (width * height) <= pixels@.len(),
                canvas_size(canvas) == (WIDTH, HEIGHT),
                canvas_bytes(canvas).len() == CHANNELS * (WIDTH * HEIGHT),
                forall|i: int|
                    0 <= i < CHANNELS * (WIDTH * HEIGHT) ==> #[trigger] canvas_bytes(canvas)[i]
                        == laid(width as nat, pixels@, y as int, x as int, across as int, i),
            decreases across - x,
        {
            let pixel = source.get_pixel(x, y);
            canvas.put_pixel(x, y, pixel);
            proof {
                lemma_inside(x as int, y as int, width as int, height as int);
            }
            x = x + 1;
        }
        y = y + 1;
    }
    Some(canvas.into_raw())
}

/// A pixel inside a picture has its bytes inside the picture's bytes.
proof fn lemma_inside(x: int, y: int, width: int, height: int)
    requires
        0 <= x < width,
        0 <= y < height,
    ensures
        0 <= pixel_offset(x, y, width),
        pixel_offset(x, y, width) + CHANNELS <= CHANNELS * (width * height),
{
    assert(y * width + width <= height * width) by (nonlinear_arith)
        requires
            0 <= y < height,
            0 <= width,
    ;
    assert(0 <= y * width) by (nonlinear_arith)
        requires
            0 <= y,
            0 <= width,
    ;
    assert(height * width == width * height) by (nonlinear_arith);
}

/// Whether `c` is the speaker mark.
fn is_speaker_mark(c: char) -> (mark: bool)
    ensures
        mark == (c == SPEAKER_MARK),
{
    c == SPEAKER_MARK
}

/// Splits a line into its opening speaker mark, if it has one, and the
/// text after it.
pub fn split_speaker_mark(line: &str) -> (parts: (bool, String))
    ensures
        parts.0 == opens_with_mark(line@),
        parts.1@ == body_of(line@),
{
    let mut marked = false;
    let mut first = true;
    let mut body = String::new();
    for c in it: line.chars()
        invariant
            it.seq() == line@,
            first == (it.index() == 0),
            marked == (it.index() > 0 && opens_with_mark(line@)),
            body@ == if marked {
                line@.subrange(1, it.index())
            } else {
                line@.take(it.index())
            },
    {
        if first && is_speaker_mark(c) {
            marked = true;
        } else {
            body.push(c);
        }
        first = false;
    }
    (marked, body)
}

} // verus!
