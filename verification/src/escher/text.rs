//! Text in a fixed font of 5 by 10 pixels: which glyph stands for a character, and where the
//! characters of a text are drawn.

use vstd::prelude::*;

use crate::eadk::{Color, Rect, SCREEN_HEIGHT};
use crate::escher::UiEvent;
use crate::utils::vec::Vec2;

verus! {

/// The number of glyphs of the font.
pub const CHARS_COUNT: usize = 44;

/// The width of a glyph in pixels.
pub const CHAR_WIDTH: u16 = 5;

/// The height of a glyph in pixels.
pub const CHAR_HEIGHT: u16 = 10;

/// The number of pixels of a glyph.
pub const CHAR_SIZE: usize = 50;

/// The distance between the columns of two characters of debug text.
pub const DEBUG_CHAR_STEP: u16 = 6;

/// The distance between two lines of debug text.
pub const DEBUG_LINE_STEP: u16 = 11;

/// The last column at which a character of debug text may start.
pub const DEBUG_LAST_COLUMN: u16 = 314;

/// The colors of the pixels of a font, from their raw values.
pub fn build_colors(data: &[u16]) -> (colors: Vec<Color>)
    ensures
        colors@.len() == data@.len(),
        forall|i: int| 0 <= i < data@.len() ==> (#[trigger] colors@[i]).rgb565 == data@[i],
{
    let mut colors: Vec<Color> = Vec::new();
    let mut i: usize = 0;
    while i < data.len()
        invariant
            i <= data@.len(),
            colors@.len() == i,
            forall|k: int| 0 <= k < i ==> (#[trigger] colors@[k]).rgb565 == data@[k],
        decreases data@.len() - i,
    {
        colors.push(Color { rgb565: data[i] });
        i = i + 1;
    }
    colors
}

/// The place of a character's glyph in the font. Letters share a glyph between upper and
/// lower case; a character that the font lacks gets the glyph at place 0.
pub open spec fn glyph_index(char: u8) -> nat {
    if 'a' <= char <= 'z' {
        (char - 'a' + 1) as nat
    } else if 'A' <= char <= 'Z' {
        (char - 'A' + 1) as nat
    } else if '0' <= char <= '9' {
        (char - '0' + 30) as nat
    } else if char == ' ' {
        27
    } else if char == '.' {
        28
    } else if char == ':' {
        29
    } else if char == '(' {
        40
    } else if char == ')' {
        41
    } else if char == '/' {
        42
    } else if char == '_' {
        43
    } else {
        0
    }
}

/// Where the pixels of a character's glyph lie in the font's data: from the first index up
/// to, not including, the second. Every glyph takes `CHAR_SIZE` pixels.
pub fn get_char_data(char: &u8) -> (range: (usize, usize))
    ensures
        range.0 == glyph_index(*char) * CHAR_SIZE,
        range.1 == range.0 + CHAR_SIZE,
        range.1 <= CHARS_COUNT * CHAR_SIZE,
{
    let c: u8 = *char;
    let i: usize = if 97 <= c && c <= 122 {
        (c - 97 + 1) as usize
    } else if 65 <= c && c <= 90 {
        (c - 65 + 1) as usize
    } else if 48 <= c && c <= 57 {
        (c - 48 + 30) as usize
    } else if c == 32 {
        27
    } else if c == 46 {
        28
    } else if c == 58 {
        29
    } else if c == 40 {
        40
    } else if c == 41 {
        41
    } else if c == 47 {
        42
    } else if c == 95 {
        43
    } else {
        0
    };
    (i * CHAR_SIZE, (i + 1) * CHAR_SIZE)
}

/// Where the cursor of debug text stands after one more character: a step to the right, or
/// at the start of the next line once the step leads beyond the last column.
pub open spec fn advance(cursor: (int, int)) -> (int, int) {
    if cursor.0 + DEBUG_CHAR_STEP > DEBUG_LAST_COLUMN {
        (0, cursor.1 + DEBUG_LINE_STEP)
    } else {
        (cursor.0 + DEBUG_CHAR_STEP, cursor.1)
    }
}

/// Where the cursor of debug text stands after `count` characters.
pub open spec fn advanced(cursor: (u16, u16), count: nat) -> (int, int)
    decreases count,
{
    if count == 0 {
        (cursor.0 as int, cursor.1 as int)
    } else {
        advance(advanced(cursor, (count - 1) as nat))
    }
}

/// Whether a debug text of `len` characters from `offset` stays within the range of the
/// coordinates: every step to the right, and every cursor.
pub open spec fn in_range(offset: (u16, u16), len: nat) -> bool {
    forall|k: nat|
        k < len ==> (#[trigger] advanced(offset, k)).0 + DEBUG_CHAR_STEP <= u16::MAX
            && advance(advanced(offset, k)).1 <= u16::MAX
}

/// Whether a debug text of `len` characters from `offset` stays within the range of the
/// coordinates, so that it can be laid out.
pub fn debug_text_fits(len: usize, offset: (u16, u16)) -> (fits: bool)
    ensures
        fits == in_range(offset, len as nat),
{
    let mut x: u16 = offset.0;
    let mut y: u16 = offset.1;
    let mut i: usize = 0;
    while i < len
        invariant
            i <= len,
            x == advanced(offset, i as nat).0,
            y == advanced(offset, i as nat).1,
            in_range(offset, i as nat),
        decreases len - i,
    {
        if x > u16::MAX - DEBUG_CHAR_STEP {
            return false;
        }
        x = x + DEBUG_CHAR_STEP;
        if x > DEBUG_LAST_COLUMN {
            if y > u16::MAX - DEBUG_LINE_STEP {
                return false;
            }
            x = 0;
            y = y + DEBUG_LINE_STEP;
        }
        i = i + 1;
    }
    true
}

/// Lays out a debug text of `len` characters from `offset`: returns where each character is
/// drawn, and the cursor after the last one. The text must not run off the range of the
/// coordinates.
pub fn draw_debug_text(len: usize, offset: (u16, u16)) -> (laid_out: (Vec<Rect>, (u16, u16)))
    requires
        in_range(offset, len as nat),
    ensures
        laid_out.0@.len() == len,
        forall|i: int|
            0 <= i < len ==> #[trigger] laid_out.0@[i] == (Rect {
                x: advanced(offset, i as nat).0 as u16,
                y: advanced(offset, i as nat).1 as u16,
                width: CHAR_WIDTH,
                height: CHAR_HEIGHT,
            }),
        laid_out.1.0 == advanced(offset, len as nat).0,
        laid_out.1.1 == advanced(offset, len as nat).1,
{
    let mut x: u16 = offset.0;
    let mut y: u16 = offset.1;
    let mut rects: Vec<Rect> = Vec::new();
    let mut i: usize = 0;
    while i < len
        invariant
            i <= len,
            in_range(offset, len as nat),
            rects@.len() == i,
            x == advanced(offset, i as nat).0,
            y == advanced(offset, i as nat).1,
            forall|k: int|
                0 <= k < i ==> #[trigger] rects@[k] == (Rect {
                    x: advanced(offset, k as nat).0 as u16,
                    y: advanced(offset, k as nat).1 as u16,
                    width: CHAR_WIDTH,
                    height: CHAR_HEIGHT,
                }),
        decreases len - i,
    {
        rects.push(Rect { x, y, width: CHAR_WIDTH, height: CHAR_HEIGHT });
        x = x + DEBUG_CHAR_STEP;
        if x > DEBUG_LAST_COLUMN {
            x = 0;
            y = y + DEBUG_LINE_STEP;
        }
        i = i + 1;
    }
    (rects, (x, y))
}

/// A text of `len` characters stays within the range of the coordinates if its first step
/// does, and if there is room beneath `offset` for a line for each character.
pub proof fn lemma_in_range(offset: (u16, u16), len: nat)
    requires
        offset.0 + DEBUG_CHAR_STEP <= u16::MAX,
        offset.1 + len * DEBUG_LINE_STEP <= u16::MAX,
    ensures
        in_range(offset, len),
{
    assert forall|k: nat| k < len implies (#[trigger] advanced(offset, k)).0 + DEBUG_CHAR_STEP
        <= u16::MAX && advance(advanced(offset, k)).1 <= u16::MAX by {
        lemma_cursor_bounds(offset, k);
    }
}

/// After `count` characters the cursor is at most a line further down for each of them, and,
/// once a character was drawn, not beyond the last column.
proof fn lemma_cursor_bounds(offset: (u16, u16), count: nat)
    ensures
        0 <= advanced(offset, count).0,
        count == 0 ==> advanced(offset, count).0 == offset.0,
        count > 0 ==> advanced(offset, count).0 <= DEBUG_LAST_COLUMN,
        offset.1 <= advanced(offset, count).1 <= offset.1 + count * DEBUG_LINE_STEP,
    decreases count,
{
    if count > 0 {
        lemma_cursor_bounds(offset, (count - 1) as nat);
    }
}

/// A line of text.
#[derive(Clone, PartialEq, Eq, Debug)]
pub struct Label {
    pub text: Vec<u8>,
    pub selected: bool,
}

impl Label {
    /// A label passes every event on as it is.
    pub fn update(&mut self, signal: UiEvent) -> (passed: UiEvent)
        ensures
            passed == signal,
            *final(self) == *old(self),
    {
        signal
    }

    /// The size that the label asks for: a glyph's width for each character, and a glyph's
    /// height. The width must fit in 32 bits; of a number of characters that does not, the
    /// lower 32 bits are taken.
    pub fn requested_size(&self) -> (size: Vec2<i32>)
        requires
            i32::MIN <= (self.text@.len() as i32) * CHAR_WIDTH <= i32::MAX,
        ensures
            size.x == (self.text@.len() as i32) * CHAR_WIDTH,
            size.y == CHAR_HEIGHT,
    {
        let chars: i32 = #[verifier::truncate]
        (self.text.len() as i32);
        Vec2 { x: chars * CHAR_WIDTH as i32, y: CHAR_HEIGHT as i32 }
    }

    /// Whether a label at `offset` is drawn at all: only if it lies between the first row of
    /// the screen and the row that leaves room for a glyph and one row more.
    pub open spec fn visible(offset: Vec2<i32>) -> bool {
        offset.y >= 0 && offset.y + CHAR_HEIGHT < SCREEN_HEIGHT
    }

    /// The column at which the character at `index` of a label at `offset` starts.
    pub open spec fn glyph_column(offset: Vec2<i32>, index: usize) -> int {
        offset.x + (index as i32) * CHAR_WIDTH
    }

    /// Where the character at `index` of a label at `offset` is drawn, if it is drawn: the
    /// label must be visible, and the character must start within the first `SCREEN_HEIGHT`
    /// columns.
    pub fn glyph_rect(&self, offset: Vec2<i32>, index: usize) -> (rect: Option<Rect>)
        requires
            index < self.text@.len(),
        ensures
            rect == (if Self::visible(offset) && 0 <= Self::glyph_column(offset, index)
                < SCREEN_HEIGHT {
                Some(
                    Rect {
                        x: Self::glyph_column(offset, index) as u16,
                        y: offset.y as u16,
                        width: CHAR_WIDTH,
                        height: CHAR_HEIGHT,
                    },
                )
            } else {
                None
            }),
    {
        if !(offset.y >= 0 && offset.y as i64 + (CHAR_HEIGHT as i64) < SCREEN_HEIGHT as i64) {
            return None;
        }
        let place: i32 = #[verifier::truncate]
        (index as i32);
        let pos_x: i64 = offset.x as i64 + place as i64 * 5;
        if pos_x >= 0 && pos_x < SCREEN_HEIGHT as i64 {
            Some(Rect { x: pos_x as u16, y: offset.y as u16, width: CHAR_WIDTH, height: CHAR_HEIGHT })
        } else {
            None
        }
    }

    /// Selects or deselects the label.
    pub fn set_selected(&mut self, selected: bool)
        ensures
            final(self).selected == selected,
            final(self).text == old(self).text,
    {
        self.selected = selected;
    }

    /// Whether the label is selected.
    pub fn get_selected(&self) -> (selected: bool)
        ensures
            selected == self.selected,
    {
        self.selected
    }
}

} // verus!
