//! The display: its dimensions, rectangles on it, and colors in the RGB 5-6-5 format.

use vstd::prelude::*;
use vstd::string::*;

verus! {

/// The width of the screen in pixels.
pub const SCREEN_WIDTH: u16 = 320;

/// The height of the screen in pixels.
pub const SCREEN_HEIGHT: u16 = 240;

/// The number of pixels on the screen.
pub const SCREEN_AREA: usize = 76800;

/// The width of one char of the standard font in pixels.
pub const CHAR_WIDTH: u16 = 7;

/// The height of one char of the standard font in pixels.
pub const CHAR_HEIGHT: u16 = 14;

/// The width of one char of the large font in pixels.
pub const LARGE_CHAR_WIDTH: u16 = 10;

/// The height of one char of the large font in pixels.
pub const LARGE_CHAR_HEIGHT: u16 = 16;

/// `value` brought into the range from `low` to `high`.
pub open spec fn clamp_spec(value: int, low: int, high: int) -> int {
    if value < low {
        low
    } else if value > high {
        high
    } else {
        value
    }
}

/// The smaller of two lengths.
pub open spec fn min_spec(a: int, b: int) -> int {
    if a <= b {
        a
    } else {
        b
    }
}

/// A rectangle on the screen.
#[derive(Clone, Copy, PartialEq, Eq, Structural, Debug)]
pub struct Rect {
    pub x: u16,
    pub y: u16,
    pub width: u16,
    pub height: u16,
}

impl Rect {
    /// Whether the rectangle lies within the screen.
    pub open spec fn on_screen(&self) -> bool {
        self.x + self.width <= SCREEN_WIDTH && self.y + self.height <= SCREEN_HEIGHT
    }

    /// The rectangle that `screen_space_clipping` gives: the corner is moved onto the screen,
    /// and the rectangle is cut off at the right and bottom edges of the screen.
    pub open spec fn clipped(x: int, y: int, width: u16, height: u16) -> Rect {
        let left = clamp_spec(x, 0, SCREEN_WIDTH as int);
        let top = clamp_spec(y, 0, SCREEN_HEIGHT as int);
        Rect {
            x: left as u16,
            y: top as u16,
            width: min_spec(width as int, SCREEN_WIDTH - left) as u16,
            height: min_spec(height as int, SCREEN_HEIGHT - top) as u16,
        }
    }

    /// Creates a new `Rect` from raw components.
    pub fn new(x: u16, y: u16, width: u16, height: u16) -> (rect: Self)
        ensures
            rect == (Rect { x, y, width, height }),
    {
        Rect { x, y, width, height }
    }

    /// The rectangle of the given size at `(x, y)`, made to fit on the screen: a corner that
    /// lies off the screen is moved to the nearest point of it, and what then reaches beyond
    /// the right or bottom edge is cut off. The size is not reduced by the distance that the
    /// corner was moved.
    pub fn screen_space_clipping(x: i32, y: i32, width: u16, height: u16) -> (rect: Self)
        ensures
            rect == Rect::clipped(x as int, y as int, width, height),
            rect.on_screen(),
            0 <= x <= SCREEN_WIDTH ==> rect.x == x,
            0 <= y <= SCREEN_HEIGHT ==> rect.y == y,
    {
        Self::clip(x as i64, y as i64, width, height)
    }

    /// `screen_space_clipping` for a corner that was computed in 64 bits.
    pub fn clip(x: i64, y: i64, width: u16, height: u16) -> (rect: Self)
        ensures
            rect == Rect::clipped(x as int, y as int, width, height),
            rect.on_screen(),
    {
        let left: u16 = if x < 0 {
            0
        } else if x > SCREEN_WIDTH as i64 {
            SCREEN_WIDTH
        } else {
            x as u16
        };
        let top: u16 = if y < 0 {
            0
        } else if y > SCREEN_HEIGHT as i64 {
            SCREEN_HEIGHT
        } else {
            y as u16
        };
        let room_x: u16 = SCREEN_WIDTH - left;
        let room_y: u16 = SCREEN_HEIGHT - top;
        Rect {
            x: left,
            y: top,
            width: if width <= room_x {
                width
            } else {
                room_x
            },
            height: if height <= room_y {
                height
            } else {
                room_y
            },
        }
    }

    /// Creates a square.
    pub fn new_square(x: u16, y: u16, width: u16) -> (rect: Self)
        ensures
            rect == (Rect { x, y, width, height: width }),
    {
        Self::new(x, y, width, width)
    }

    /// Creates a square with side-length 1, i.e, a pixel.
    pub fn new_pixel(x: u16, y: u16) -> (rect: Self)
        ensures
            rect == (Rect { x, y, width: 1, height: 1 }),
    {
        Self::new_square(x, y, 1)
    }

    /// The number of pixels covered by the rectangle.
    pub fn area(&self) -> (area: u32)
        ensures
            area == self.width * self.height,
    {
        assert(self.width * self.height <= 0xFFFF * 0xFFFF) by (nonlinear_arith)
            requires
                self.width <= 0xFFFF,
                self.height <= 0xFFFF,
        ;
        self.width as u32 * self.height as u32
    }

    /// Centers the rectangle on the screen. It must not be larger than the screen.
    pub fn center(&mut self)
        requires
            old(self).width <= SCREEN_WIDTH,
            old(self).height <= SCREEN_HEIGHT,
        ensures
            final(self).width == old(self).width,
            final(self).height == old(self).height,
            final(self).x == (SCREEN_WIDTH - old(self).width) / 2,
            final(self).y == (SCREEN_HEIGHT - old(self).height) / 2,
            final(self).on_screen(),
    {
        self.x = (SCREEN_WIDTH - self.width) / 2;
        self.y = (SCREEN_HEIGHT - self.height) / 2;
    }

    /// The rectangle the size of the screen.
    pub fn screen() -> (rect: Self)
        ensures
            rect == (Rect { x: 0, y: 0, width: SCREEN_WIDTH, height: SCREEN_HEIGHT }),
            rect.on_screen(),
    {
        Rect { x: 0, y: 0, width: SCREEN_WIDTH, height: SCREEN_HEIGHT }
    }
}

/// An RGB 5-6-5 color: 5 bits for red, 6 bits for green and 5 bits for blue.
#[derive(Clone, Copy, PartialEq, Eq, Structural, Debug)]
pub struct Color(pub u16);

impl Color {
    /// The color with the given channels, of which red and blue keep their upper five bits
    /// and green its upper six.
    pub open spec fn from_rgb_spec(r: u8, g: u8, b: u8) -> Color {
        Color(((r / 8) * 2048 + (g / 4) * 32 + b / 8) as u16)
    }

    /// The channels of the color, each spread over the range from 0 to 255: the bits of a
    /// channel are moved to the top of the byte, and its highest bits are repeated beneath
    /// them.
    pub open spec fn separate_rgb_spec(&self) -> (u8, u8, u8) {
        let red = self.0 / 2048;
        let green = (self.0 / 32) % 64;
        let blue = self.0 % 32;
        ((red * 8 + red / 4) as u8, (green * 4 + green / 16) as u8, (blue * 8 + blue / 4) as u8)
    }

    /// Creates a color directly from a u16.
    pub fn new(rgb565: u16) -> (color: Self)
        ensures
            color == Color(rgb565),
    {
        Color(rgb565)
    }

    /// Creates a color from distinct red, green and blue channels.
    ///
    /// Converts 8-bit per channel RGB values into RGB565 format.
    /// Precision is lost in the conversion: red and blue use 5 bits, green uses 6 bits.
    pub fn from_rgb(r: u8, g: u8, b: u8) -> (color: Self)
        ensures
            color == Color::from_rgb_spec(r, g, b),
    {
        let red: u16 = (r & 0b11111000) as u16;
        let green: u16 = (g & 0b11111100) as u16;
        let blue: u16 = b as u16;
        assert((((r & 0b11111000) as u16) << 8) | (((g & 0b11111100) as u16) << 3) | ((b as u16)
            >> 3) == ((r / 8) * 2048 + (g / 4) * 32 + b / 8) as u16) by (bit_vector);
        Color((red << 8) | (green << 3) | (blue >> 3))
    }

    /// Separates the color into 3 channels (0 to 255).
    #[verifier::when_used_as_spec(separate_rgb_spec)]
    pub fn separate_rgb(&self) -> (channels: (u8, u8, u8))
        ensures
            channels == self.separate_rgb_spec(),
    {
        let v: u16 = self.0;
        let r0: u8 = ((v >> 8) & 0b11111000) as u8;
        let r: u8 = r0 | (r0 >> 5);
        let g0: u8 = ((v >> 3) & 0b11111100) as u8;
        let g: u8 = g0 | (g0 >> 6);
        let b0: u8 = ((v & 0b11111) << 3) as u8;
        let b: u8 = b0 | (b0 >> 5);
        assert((((v >> 8) & 0b11111000) as u8) | ((((v >> 8) & 0b11111000) as u8) >> 5) == ((v
            / 2048) * 8 + (v / 2048) / 4) as u8) by (bit_vector);
        assert((((v >> 3) & 0b11111100) as u8) | ((((v >> 3) & 0b11111100) as u8) >> 6) == (((v
            / 32) % 64) * 4 + ((v / 32) % 64) / 16) as u8) by (bit_vector);
        assert((((v & 0b11111) << 3) as u8) | ((((v & 0b11111) << 3) as u8) >> 5) == ((v % 32)
            * 8 + (v % 32) / 4) as u8) by (bit_vector);
        (r, g, b)
    }

    /// Separating a color into its channels loses nothing: the color made of them is the
    /// color itself.
    pub proof fn lemma_separate_then_join(self)
        ensures
            ({
                let (r, g, b) = self.separate_rgb_spec();
                Color::from_rgb_spec(r, g, b) == self
            }),
    {
        let v: u16 = self.0;
        assert(((((v / 2048) * 8 + (v / 2048) / 4) as u8) / 8) * 2048 + (((((v / 32) % 64) * 4 + ((v
            / 32) % 64) / 16) as u8) / 4) * 32 + ((((v % 32) * 8 + (v % 32) / 4) as u8) / 8)
            == v) by (bit_vector);
    }

    /// Pure black (0, 0, 0).
    pub fn black() -> (color: Self)
        ensures
            color == Color(0x0000),
    {
        Color(0x0000)
    }

    /// Pure white (255, 255, 255).
    pub fn white() -> (color: Self)
        ensures
            color == Color(0xFFFF),
    {
        Color(0xFFFF)
    }

    /// Pure red (255, 0, 0).
    pub fn red() -> (color: Self)
        ensures
            color == Color(0xF800),
    {
        Color(0xF800)
    }

    /// Pure green (0, 255, 0).
    pub fn green() -> (color: Self)
        ensures
            color == Color(0x07E0),
    {
        Color(0x07E0)
    }

    /// Pure blue (0, 0, 255).
    pub fn blue() -> (color: Self)
        ensures
            color == Color(0x001F),
    {
        Color(0x001F)
    }
}

/// The column at which a line of `len` characters of the large font starts when it is
/// centered on the screen. The line must not be wider than the screen; of a length that does
/// not fit in 16 bits, the lower 16 bits are taken.
pub fn centered_x(len: usize) -> (x: u16)
    requires
        (len as u16) * LARGE_CHAR_WIDTH <= SCREEN_WIDTH,
    ensures
        x == (SCREEN_WIDTH - (len as u16) * LARGE_CHAR_WIDTH) / 2,
        len <= u16::MAX ==> x + len * LARGE_CHAR_WIDTH + x <= SCREEN_WIDTH,
{
    let chars: u16 = #[verifier::truncate]
    (len as u16);
    (SCREEN_WIDTH - chars * LARGE_CHAR_WIDTH) / 2
}

/// The row at which a line of the large font starts when it is centered on the screen.
pub fn centered_y() -> (y: u16)
    ensures
        y == (SCREEN_HEIGHT - LARGE_CHAR_HEIGHT) / 2,
{
    (SCREEN_HEIGHT - LARGE_CHAR_HEIGHT) / 2
}

/// The text with a null character at its end: `text` itself if it already ends with one, else
/// `text` with one added.
pub open spec fn terminated(text: Seq<char>) -> Seq<char> {
    if text.len() > 0 && text.last() == '\0' {
        text
    } else {
        text.push('\0')
    }
}

/// Adds a null character at the end of a string if needed, as the display's text routine
/// wants one there.
pub fn terminate_str(s: &str) -> (owned: String)
    ensures
        owned@ == terminated(s@),
        owned@.len() > 0 && owned@.last() == '\0',
{
    let len = s.unicode_len();
    let mut owned = String::from_str(s);
    if len == 0 || s.get_char(len - 1) != '\0' {
        proof {
            reveal_strlit("\0");
        }
        owned.append("\0");
    }
    owned
}

} // verus!
