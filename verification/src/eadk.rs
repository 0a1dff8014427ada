//! The calculator's own interface, at a lower level: colors by their channels, rectangles
//! culled to the screen, raw input, and decimal text for the diagnostic screens.

use vstd::arithmetic::div_mod::*;
use vstd::prelude::*;

pub mod input;

verus! {

/// The width of the screen in pixels.
pub const SCREEN_WIDTH: u16 = 320;

/// The height of the screen in pixels.
pub const SCREEN_HEIGHT: u16 = 240;

/// An RGB 5-6-5 color: red in the upper five bits, green in the six bits beneath them, blue
/// in the lower five.
#[derive(Clone, Copy, PartialEq, Eq, Structural, Debug)]
pub struct Color {
    pub rgb565: u16,
}

impl Color {
    /// The red component: the upper five bits.
    pub open spec fn red(&self) -> int {
        self.rgb565 as int / 2048
    }

    /// The green component: the six bits in the middle.
    pub open spec fn green(&self) -> int {
        (self.rgb565 as int / 32) % 64
    }

    /// The blue component: the lower five bits.
    pub open spec fn blue(&self) -> int {
        self.rgb565 as int % 32
    }

    /// A color is its three components: red counts 2048, green 32, blue 1.
    pub proof fn lemma_components(self)
        ensures
            self.rgb565 == self.red() * 2048 + self.green() * 32 + self.blue(),
            0 <= self.red() < 32,
            0 <= self.green() < 64,
            0 <= self.blue() < 32,
    {
    }

    /// Get the red color component (5 bits).
    pub fn get_red_raw(&self) -> (red: u16)
        ensures
            red == self.red(),
            red < 32,
    {
        let v: u16 = self.rgb565;
        assert((v >> 11) & 0b11111 == v / 2048) by (bit_vector);
        (self.rgb565 >> 11) & 0b11111
    }

    /// Set the red color component to the lower five bits of `red`.
    pub fn set_red_raw(&mut self, red: u16)
        ensures
            final(self).red() == red % 32,
            final(self).green() == old(self).green(),
            final(self).blue() == old(self).blue(),
    {
        let v: u16 = self.rgb565;
        let w: u16 = (v & 0b0000011111111111) | ((red & 0b11111) << 11);
        assert(w / 2048 == red % 32 && (w / 32) % 64 == (v / 32) % 64 && w % 32 == v % 32)
            by (bit_vector)
            requires
                w == (v & 0b0000011111111111) | ((red & 0b11111) << 11),
        ;
        self.rgb565 = (self.rgb565 & 0b0000011111111111) | ((red & 0b11111) << 11);
    }

    /// Get the green color component (6 bits).
    pub fn get_green_raw(&self) -> (green: u16)
        ensures
            green == self.green(),
            green < 64,
    {
        let v: u16 = self.rgb565;
        assert((v >> 5) & 0b111111 == (v / 32) % 64) by (bit_vector);
        (self.rgb565 >> 5) & 0b111111
    }

    /// Set the green color component to the lower six bits of `green`.
    pub fn set_green_raw(&mut self, green: u16)
        ensures
            final(self).red() == old(self).red(),
            final(self).green() == green % 64,
            final(self).blue() == old(self).blue(),
    {
        let v: u16 = self.rgb565;
        let w: u16 = (v & 0b1111100000011111) | ((green & 0b111111) << 5);
        assert(w / 2048 == v / 2048 && (w / 32) % 64 == green % 64 && w % 32 == v % 32)
            by (bit_vector)
            requires
                w == (v & 0b1111100000011111) | ((green & 0b111111) << 5),
        ;
        self.rgb565 = (self.rgb565 & 0b1111100000011111) | ((green & 0b111111) << 5);
    }

    /// Get the blue color component (5 bits).
    pub fn get_blue_raw(&self) -> (blue: u16)
        ensures
            blue == self.blue(),
            blue < 32,
    {
        let v: u16 = self.rgb565;
        assert(v & 0b11111 == v % 32) by (bit_vector);
        self.rgb565 & 0b11111
    }

    /// Set the blue color component to the lower five bits of `blue`.
    pub fn set_blue_raw(&mut self, blue: u16)
        ensures
            final(self).red() == old(self).red(),
            final(self).green() == old(self).green(),
            final(self).blue() == blue % 32,
    {
        let v: u16 = self.rgb565;
        let w: u16 = (v & 0b1111111111100000) | (blue & 0b11111);
        assert(w / 2048 == v / 2048 && (w / 32) % 64 == (v / 32) % 64 && w % 32 == blue % 32)
            by (bit_vector)
            requires
                w == (v & 0b1111111111100000) | (blue & 0b11111),
        ;
        self.rgb565 = (self.rgb565 & 0b1111111111100000) | (blue & 0b11111);
    }
}

/// A rectangle on the screen.
#[derive(Clone, Copy, PartialEq, Eq, Structural, Debug)]
pub struct Rect {
    pub x: u16,
    pub y: u16,
    pub width: u16,
    pub height: u16,
}

/// `value` brought into the range from `low` to `high`.
pub open spec fn clamp_spec(value: int, low: int, high: int) -> int {
    if value < low {
        low
    } else if value > high {
        high
    } else {
        value
    }
}

impl Rect {
    /// The rectangle that `screen_space_culling` gives: both corners are moved to the
    /// nearest pixel of the screen, and the size is the distance between them. For a size
    /// that is negative, the distance is negative too, and what is given is its lower 16
    /// bits.
    pub open spec fn culled(x: int, y: int, width: int, height: int) -> Rect {
        let left = clamp_spec(x, 0, SCREEN_WIDTH - 1);
        let top = clamp_spec(y, 0, SCREEN_HEIGHT - 1);
        Rect {
            x: left as u16,
            y: top as u16,
            width: (clamp_spec(x + width, 0, SCREEN_WIDTH - 1) - left) as u16,
            height: (clamp_spec(y + height, 0, SCREEN_HEIGHT - 1) - top) as u16,
        }
    }

    /// The part of a rectangle that is on the screen: its corners are moved to the nearest
    /// pixel of the screen, so that what is left lies between the first and the last pixel
    /// of each axis.
    pub fn screen_space_culling(x: i32, y: i32, width: i32, height: i32) -> (rect: Self)
        ensures
            rect == Rect::culled(x as int, y as int, width as int, height as int),
            rect.x < SCREEN_WIDTH,
            rect.y < SCREEN_HEIGHT,
            width >= 0 ==> rect.x + rect.width < SCREEN_WIDTH,
            height >= 0 ==> rect.y + rect.height < SCREEN_HEIGHT,
    {
        Self::cull(x as i128, y as i128, width, height)
    }

    /// `screen_space_culling` for a corner that was computed in 128 bits.
    pub(crate) fn cull(x: i128, y: i128, width: i32, height: i32) -> (rect: Self)
        requires
            -0x4000_0000_0000_0000_0000_0000 <= x <= 0x4000_0000_0000_0000_0000_0000,
            -0x4000_0000_0000_0000_0000_0000 <= y <= 0x4000_0000_0000_0000_0000_0000,
        ensures
            rect == Rect::culled(x as int, y as int, width as int, height as int),
            rect.x < SCREEN_WIDTH,
            rect.y < SCREEN_HEIGHT,
            width >= 0 ==> rect.x + rect.width < SCREEN_WIDTH,
            height >= 0 ==> rect.y + rect.height < SCREEN_HEIGHT,
    {
        let left: i128 = clamp(x, SCREEN_WIDTH as i128 - 1);
        let top: i128 = clamp(y, SCREEN_HEIGHT as i128 - 1);
        let right: i128 = clamp(x + width as i128, SCREEN_WIDTH as i128 - 1);
        let bottom: i128 = clamp(y + height as i128, SCREEN_HEIGHT as i128 - 1);
        Rect {
            x: left as u16,
            y: top as u16,
            width: #[verifier::truncate]
            ((right - left) as u16),
            height: #[verifier::truncate]
            ((bottom - top) as u16),
        }
    }
}

/// `value` brought into the range from 0 to `high`.
fn clamp(value: i128, high: i128) -> (clamped: i128)
    requires
        0 <= high,
    ensures
        clamped == clamp_spec(value as int, 0, high as int),
{
    if value < 0 {
        0
    } else if value > high {
        high
    } else {
        value
    }
}

/// The `k`-th power of ten.
pub open spec fn pow10(k: nat) -> nat
    decreases k,
{
    if k == 0 {
        1
    } else {
        10 * pow10((k - 1) as nat)
    }
}

/// The number of decimal digits of `n`; zero has one.
pub open spec fn digit_count(n: nat) -> nat
    decreases n,
{
    if n < 10 {
        1
    } else {
        1 + digit_count(n / 10)
    }
}

/// The character of the decimal digit of `n` that counts `pow10(k)`.
pub open spec fn digit_char(n: nat, k: nat) -> u8 {
    (48 + (n / pow10(k)) % 10) as u8
}

/// The place in the text of the last digit that `int_to_str` writes.
pub const LAST_DIGIT: usize = 19;

/// A number below the `k`-th power of ten has at most `k` digits.
pub proof fn lemma_digit_count_bound(n: nat, k: nat)
    requires
        k >= 1,
        n < pow10(k),
    ensures
        digit_count(n) <= k,
    decreases k,
{
    if n >= 10 {
        assert(k >= 2) by {
            reveal_with_fuel(pow10, 2);
        }
        lemma_digit_count_bound(n / 10, (k - 1) as nat);
    }
}

/// Dividing by a power of ten and then by ten is dividing by the next power of ten.
proof fn lemma_next_digit(n: nat, k: nat)
    ensures
        (n / pow10(k)) / 10 == n / pow10(k + 1),
        pow10(k) > 0,
    decreases k,
{
    if k > 0 {
        lemma_next_digit(n, (k - 1) as nat);
    }
    lemma_div_denominator(n as int, pow10(k) as int, 10);
    assert(pow10(k) * 10 == 10 * pow10(k)) by (nonlinear_arith);
}

/// Writes `number` in decimal into `string`, so that its last digit stands at `LAST_DIGIT` and
/// the digits before it to the left of that; the rest of `string` is left as it is.
pub fn int_to_str(number: usize, string: &mut [u8])
    requires
        old(string)@.len() > LAST_DIGIT,
    ensures
        final(string)@.len() == old(string)@.len(),
        digit_count(number as nat) <= LAST_DIGIT + 1,
        forall|i: int|
            0 <= i < old(string)@.len() ==> #[trigger] final(string)@[i] == (if LAST_DIGIT
                - digit_count(number as nat) < i <= LAST_DIGIT {
                digit_char(number as nat, (LAST_DIGIT - i) as nat)
            } else {
                old(string)@[i]
            }),
{
    proof {
        assert(number < pow10(20)) by {
            reveal_with_fuel(pow10, 21);
        }
        lemma_digit_count_bound(number as nat, 20);
    }
    let mut num: usize = number;
    let mut pos: usize = LAST_DIGIT;
    let ghost done: nat = 0;
    assert(pow10(0) == 1);
    loop
        invariant_except_break
            pos + done == LAST_DIGIT,
            num == number as nat / pow10(done),
            digit_count(num as nat) + done == digit_count(number as nat),
            forall|i: int|
                0 <= i < string@.len() ==> #[trigger] string@[i] == (if pos < i <= LAST_DIGIT {
                    digit_char(number as nat, (LAST_DIGIT - i) as nat)
                } else {
                    old(string)@[i]
                }),
        invariant
            string@.len() == old(string)@.len(),
            string@.len() > LAST_DIGIT,
            digit_count(number as nat) <= LAST_DIGIT + 1,
        ensures
            forall|i: int|
                0 <= i < string@.len() ==> #[trigger] string@[i] == (if LAST_DIGIT - digit_count(
                    number as nat,
                ) < i <= LAST_DIGIT {
                    digit_char(number as nat, (LAST_DIGIT - i) as nat)
                } else {
                    old(string)@[i]
                }),
        decreases pos,
    {
        let c: u8 = 48 + (num % 10) as u8;
        string[pos] = c;
        proof {
            lemma_next_digit(number as nat, done);
        }
        if num / 10 == 0 {
            break;
        }
        assert(digit_count(num as nat / 10) >= 1);
        num = num / 10;
        pos = pos - 1;
        proof {
            done = done + 1;
        }
    }
}

} // verus!
