//! The keyboard: hardware keys, keypress events, raw scans, and the timed state that sorts
//! every key into held, just pressed and just released by comparing two consecutive scans.

use vstd::prelude::*;

verus! {

/// A hardware key.
#[derive(Clone, Copy, PartialEq, Eq, Structural, Debug)]
pub enum RawKey {
    Left,
    Up,
    Down,
    Right,
    Okay,
    Back,
    Home,
    OnOff,
    Shift,
    Alpha,
    Xnt,
    Var,
    Toolbox,
    Backspace,
    Exp,
    Ln,
    Log,
    Imaginary,
    Comma,
    Power,
    Sine,
    Cosine,
    Tangent,
    Pi,
    Sqrt,
    Square,
    Seven,
    Eight,
    Nine,
    LeftParenthesis,
    RightParenthesis,
    Four,
    Five,
    Six,
    Multiplication,
    Division,
    One,
    Two,
    Three,
    Plus,
    Minus,
    Zero,
    Dot,
    Ee,
    Ans,
    Exe,
}

impl RawKey {
    /// The number that the hardware gives this key.
    pub open spec fn code_spec(self) -> u8 {
        match self {
            RawKey::Left => 0,
            RawKey::Up => 1,
            RawKey::Down => 2,
            RawKey::Right => 3,
            RawKey::Okay => 4,
            RawKey::Back => 5,
            RawKey::Home => 6,
            RawKey::OnOff => 8,
            RawKey::Shift => 12,
            RawKey::Alpha => 13,
            RawKey::Xnt => 14,
            RawKey::Var => 15,
            RawKey::Toolbox => 16,
            RawKey::Backspace => 17,
            RawKey::Exp => 18,
            RawKey::Ln => 19,
            RawKey::Log => 20,
            RawKey::Imaginary => 21,
            RawKey::Comma => 22,
            RawKey::Power => 23,
            RawKey::Sine => 24,
            RawKey::Cosine => 25,
            RawKey::Tangent => 26,
            RawKey::Pi => 27,
            RawKey::Sqrt => 28,
            RawKey::Square => 29,
            RawKey::Seven => 30,
            RawKey::Eight => 31,
            RawKey::Nine => 32,
            RawKey::LeftParenthesis => 33,
            RawKey::RightParenthesis => 34,
            RawKey::Four => 36,
            RawKey::Five => 37,
            RawKey::Six => 38,
            RawKey::Multiplication => 39,
            RawKey::Division => 40,
            RawKey::One => 42,
            RawKey::Two => 43,
            RawKey::Three => 44,
            RawKey::Plus => 45,
            RawKey::Minus => 46,
            RawKey::Zero => 48,
            RawKey::Dot => 49,
            RawKey::Ee => 50,
            RawKey::Ans => 51,
            RawKey::Exe => 52,
        }
    }

    /// The number that the hardware gives this key.
    #[verifier::when_used_as_spec(code_spec)]
    pub fn code(self) -> (code: u8)
        ensures
            code == self.code_spec(),
    {
        match self {
            RawKey::Left => 0,
            RawKey::Up => 1,
            RawKey::Down => 2,
            RawKey::Right => 3,
            RawKey::Okay => 4,
            RawKey::Back => 5,
            RawKey::Home => 6,
            RawKey::OnOff => 8,
            RawKey::Shift => 12,
            RawKey::Alpha => 13,
            RawKey::Xnt => 14,
            RawKey::Var => 15,
            RawKey::Toolbox => 16,
            RawKey::Backspace => 17,
            RawKey::Exp => 18,
            RawKey::Ln => 19,
            RawKey::Log => 20,
            RawKey::Imaginary => 21,
            RawKey::Comma => 22,
            RawKey::Power => 23,
            RawKey::Sine => 24,
            RawKey::Cosine => 25,
            RawKey::Tangent => 26,
            RawKey::Pi => 27,
            RawKey::Sqrt => 28,
            RawKey::Square => 29,
            RawKey::Seven => 30,
            RawKey::Eight => 31,
            RawKey::Nine => 32,
            RawKey::LeftParenthesis => 33,
            RawKey::RightParenthesis => 34,
            RawKey::Four => 36,
            RawKey::Five => 37,
            RawKey::Six => 38,
            RawKey::Multiplication => 39,
            RawKey::Division => 40,
            RawKey::One => 42,
            RawKey::Two => 43,
            RawKey::Three => 44,
            RawKey::Plus => 45,
            RawKey::Minus => 46,
            RawKey::Zero => 48,
            RawKey::Dot => 49,
            RawKey::Ee => 50,
            RawKey::Ans => 51,
            RawKey::Exe => 52,
        }
    }

    /// Every key's number is a valid bit position of a scan.
    pub proof fn lemma_code_fits(self)
        ensures
            self.code_spec() <= 52,
    {
    }

    /// The key with the given number, if there is one.
    pub fn from_code(code: u8) -> (key: Option<RawKey>)
        ensures
            match key {
                Some(k) => k.code_spec() == code,
                None => forall|k: RawKey| k.code_spec() != code,
            },
    {
        match code {
            0 => Some(RawKey::Left),
            1 => Some(RawKey::Up),
            2 => Some(RawKey::Down),
            3 => Some(RawKey::Right),
            4 => Some(RawKey::Okay),
            5 => Some(RawKey::Back),
            6 => Some(RawKey::Home),
            8 => Some(RawKey::OnOff),
            12 => Some(RawKey::Shift),
            13 => Some(RawKey::Alpha),
            14 => Some(RawKey::Xnt),
            15 => Some(RawKey::Var),
            16 => Some(RawKey::Toolbox),
            17 => Some(RawKey::Backspace),
            18 => Some(RawKey::Exp),
            19 => Some(RawKey::Ln),
            20 => Some(RawKey::Log),
            21 => Some(RawKey::Imaginary),
            22 => Some(RawKey::Comma),
            23 => Some(RawKey::Power),
            24 => Some(RawKey::Sine),
            25 => Some(RawKey::Cosine),
            26 => Some(RawKey::Tangent),
            27 => Some(RawKey::Pi),
            28 => Some(RawKey::Sqrt),
            29 => Some(RawKey::Square),
            30 => Some(RawKey::Seven),
            31 => Some(RawKey::Eight),
            32 => Some(RawKey::Nine),
            33 => Some(RawKey::LeftParenthesis),
            34 => Some(RawKey::RightParenthesis),
            36 => Some(RawKey::Four),
            37 => Some(RawKey::Five),
            38 => Some(RawKey::Six),
            39 => Some(RawKey::Multiplication),
            40 => Some(RawKey::Division),
            42 => Some(RawKey::One),
            43 => Some(RawKey::Two),
            44 => Some(RawKey::Three),
            45 => Some(RawKey::Plus),
            46 => Some(RawKey::Minus),
            48 => Some(RawKey::Zero),
            49 => Some(RawKey::Dot),
            50 => Some(RawKey::Ee),
            51 => Some(RawKey::Ans),
            52 => Some(RawKey::Exe),
            _ => None,
        }
    }
}

/// A keypress event: the result of pressing a key with or without the shift and alpha
/// modifiers.
#[derive(Clone, Copy, PartialEq, Eq, Structural, Debug)]
pub enum Key {
    Left,
    Up,
    Down,
    Right,
    Okay,
    Back,
    Shift,
    Alpha,
    Xnt,
    Var,
    Toolbox,
    Backspace,
    Exp,
    Ln,
    Log,
    Imaginary,
    Comma,
    Power,
    Sine,
    Cosine,
    Tangent,
    Pi,
    Sqrt,
    Square,
    Seven,
    Eight,
    Nine,
    LeftParenthesis,
    RightParenthesis,
    Four,
    Five,
    Six,
    Multiplication,
    Division,
    One,
    Two,
    Three,
    Plus,
    Minus,
    Zero,
    Dot,
    Ee,
    Ans,
    Exe,
    ShiftLeft,
    ShiftUp,
    ShiftDown,
    ShiftRight,
    AlphaLock,
    Cut,
    Copy,
    Paste,
    Clear,
    LeftBracket,
    RightBracket,
    LeftBrace,
    RightBrace,
    Underscore,
    Sto,
    Arcsine,
    Arccosine,
    Arctangent,
    Equal,
    Lower,
    Greater,
    Colon,
    Semicolon,
    DoubleQuotes,
    Percent,
    LowerA,
    LowerB,
    LowerC,
    LowerD,
    LowerE,
    LowerF,
    LowerG,
    LowerH,
    LowerI,
    LowerJ,
    LowerK,
    LowerL,
    LowerM,
    LowerN,
    LowerO,
    LowerP,
    LowerQ,
    LowerR,
    LowerS,
    LowerT,
    LowerU,
    LowerV,
    LowerW,
    LowerX,
    LowerY,
    LowerZ,
    Space,
    Question,
    Exclamation,
    UpperA,
    UpperB,
    UpperC,
    UpperD,
    UpperE,
    UpperF,
    UpperG,
    UpperH,
    UpperI,
    UpperJ,
    UpperK,
    UpperL,
    UpperM,
    UpperN,
    UpperO,
    UpperP,
    UpperQ,
    UpperR,
    UpperS,
    UpperT,
    UpperU,
    UpperV,
    UpperW,
    UpperX,
    UpperY,
    UpperZ,
    /// The event that stands for no key having been pressed.
    Nothing,
}

impl Key {
    /// The number that the hardware gives this key.
    pub open spec fn code_spec(self) -> u16 {
        match self {
            Key::Left => 0,
            Key::Up => 1,
            Key::Down => 2,
            Key::Right => 3,
            Key::Okay => 4,
            Key::Back => 5,
            Key::Shift => 12,
            Key::Alpha => 13,
            Key::Xnt => 14,
            Key::Var => 15,
            Key::Toolbox => 16,
            Key::Backspace => 17,
            Key::Exp => 18,
            Key::Ln => 19,
            Key::Log => 20,
            Key::Imaginary => 21,
            Key::Comma => 22,
            Key::Power => 23,
            Key::Sine => 24,
            Key::Cosine => 25,
            Key::Tangent => 26,
            Key::Pi => 27,
            Key::Sqrt => 28,
            Key::Square => 29,
            Key::Seven => 30,
            Key::Eight => 31,
            Key::Nine => 32,
            Key::LeftParenthesis => 33,
            Key::RightParenthesis => 34,
            Key::Four => 36,
            Key::Five => 37,
            Key::Six => 38,
            Key::Multiplication => 39,
            Key::Division => 40,
            Key::One => 42,
            Key::Two => 43,
            Key::Three => 44,
            Key::Plus => 45,
            Key::Minus => 46,
            Key::Zero => 48,
            Key::Dot => 49,
            Key::Ee => 50,
            Key::Ans => 51,
            Key::Exe => 52,
            Key::ShiftLeft => 54,
            Key::ShiftUp => 55,
            Key::ShiftDown => 56,
            Key::ShiftRight => 57,
            Key::AlphaLock => 67,
            Key::Cut => 68,
            Key::Copy => 69,
            Key::Paste => 70,
            Key::Clear => 71,
            Key::LeftBracket => 72,
            Key::RightBracket => 73,
            Key::LeftBrace => 74,
            Key::RightBrace => 75,
            Key::Underscore => 76,
            Key::Sto => 77,
            Key::Arcsine => 78,
            Key::Arccosine => 79,
            Key::Arctangent => 80,
            Key::Equal => 81,
            Key::Lower => 82,
            Key::Greater => 83,
            Key::Colon => 122,
            Key::Semicolon => 123,
            Key::DoubleQuotes => 124,
            Key::Percent => 125,
            Key::LowerA => 126,
            Key::LowerB => 127,
            Key::LowerC => 128,
            Key::LowerD => 129,
            Key::LowerE => 130,
            Key::LowerF => 131,
            Key::LowerG => 132,
            Key::LowerH => 133,
            Key::LowerI => 134,
            Key::LowerJ => 135,
            Key::LowerK => 136,
            Key::LowerL => 137,
            Key::LowerM => 138,
            Key::LowerN => 139,
            Key::LowerO => 140,
            Key::LowerP => 141,
            Key::LowerQ => 142,
            Key::LowerR => 144,
            Key::LowerS => 145,
            Key::LowerT => 146,
            Key::LowerU => 147,
            Key::LowerV => 148,
            Key::LowerW => 150,
            Key::LowerX => 151,
            Key::LowerY => 152,
            Key::LowerZ => 153,
            Key::Space => 154,
            Key::Question => 156,
            Key::Exclamation => 157,
            Key::UpperA => 180,
            Key::UpperB => 181,
            Key::UpperC => 182,
            Key::UpperD => 183,
            Key::UpperE => 184,
            Key::UpperF => 185,
            Key::UpperG => 186,
            Key::UpperH => 187,
            Key::UpperI => 188,
            Key::UpperJ => 189,
            Key::UpperK => 190,
            Key::UpperL => 191,
            Key::UpperM => 192,
            Key::UpperN => 193,
            Key::UpperO => 194,
            Key::UpperP => 195,
            Key::UpperQ => 196,
            Key::UpperR => 198,
            Key::UpperS => 199,
            Key::UpperT => 200,
            Key::UpperU => 201,
            Key::UpperV => 202,
            Key::UpperW => 204,
            Key::UpperX => 205,
            Key::UpperY => 206,
            Key::UpperZ => 207,
            Key::Nothing => 223,
        }
    }

    /// The number that the hardware gives this key.
    #[verifier::when_used_as_spec(code_spec)]
    pub fn code(self) -> (code: u16)
        ensures
            code == self.code_spec(),
    {
        match self {
            Key::Left => 0,
            Key::Up => 1,
            Key::Down => 2,
            Key::Right => 3,
            Key::Okay => 4,
            Key::Back => 5,
            Key::Shift => 12,
            Key::Alpha => 13,
            Key::Xnt => 14,
            Key::Var => 15,
            Key::Toolbox => 16,
            Key::Backspace => 17,
            Key::Exp => 18,
            Key::Ln => 19,
            Key::Log => 20,
            Key::Imaginary => 21,
            Key::Comma => 22,
            Key::Power => 23,
            Key::Sine => 24,
            Key::Cosine => 25,
            Key::Tangent => 26,
            Key::Pi => 27,
            Key::Sqrt => 28,
            Key::Square => 29,
            Key::Seven => 30,
            Key::Eight => 31,
            Key::Nine => 32,
            Key::LeftParenthesis => 33,
            Key::RightParenthesis => 34,
            Key::Four => 36,
            Key::Five => 37,
            Key::Six => 38,
            Key::Multiplication => 39,
            Key::Division => 40,
            Key::One => 42,
            Key::Two => 43,
            Key::Three => 44,
            Key::Plus => 45,
            Key::Minus => 46,
            Key::Zero => 48,
            Key::Dot => 49,
            Key::Ee => 50,
            Key::Ans => 51,
            Key::Exe => 52,
            Key::ShiftLeft => 54,
            Key::ShiftUp => 55,
            Key::ShiftDown => 56,
            Key::ShiftRight => 57,
            Key::AlphaLock => 67,
            Key::Cut => 68,
            Key::Copy => 69,
            Key::Paste => 70,
            Key::Clear => 71,
            Key::LeftBracket => 72,
            Key::RightBracket => 73,
            Key::LeftBrace => 74,
            Key::RightBrace => 75,
            Key::Underscore => 76,
            Key::Sto => 77,
            Key::Arcsine => 78,
            Key::Arccosine => 79,
            Key::Arctangent => 80,
            Key::Equal => 81,
            Key::Lower => 82,
            Key::Greater => 83,
            Key::Colon => 122,
            Key::Semicolon => 123,
            Key::DoubleQuotes => 124,
            Key::Percent => 125,
            Key::LowerA => 126,
            Key::LowerB => 127,
            Key::LowerC => 128,
            Key::LowerD => 129,
            Key::LowerE => 130,
            Key::LowerF => 131,
            Key::LowerG => 132,
            Key::LowerH => 133,
            Key::LowerI => 134,
            Key::LowerJ => 135,
            Key::LowerK => 136,
            Key::LowerL => 137,
            Key::LowerM => 138,
            Key::LowerN => 139,
            Key::LowerO => 140,
            Key::LowerP => 141,
            Key::LowerQ => 142,
            Key::LowerR => 144,
            Key::LowerS => 145,
            Key::LowerT => 146,
            Key::LowerU => 147,
            Key::LowerV => 148,
            Key::LowerW => 150,
            Key::LowerX => 151,
            Key::LowerY => 152,
            Key::LowerZ => 153,
            Key::Space => 154,
            Key::Question => 156,
            Key::Exclamation => 157,
            Key::UpperA => 180,
            Key::UpperB => 181,
            Key::UpperC => 182,
            Key::UpperD => 183,
            Key::UpperE => 184,
            Key::UpperF => 185,
            Key::UpperG => 186,
            Key::UpperH => 187,
            Key::UpperI => 188,
            Key::UpperJ => 189,
            Key::UpperK => 190,
            Key::UpperL => 191,
            Key::UpperM => 192,
            Key::UpperN => 193,
            Key::UpperO => 194,
            Key::UpperP => 195,
            Key::UpperQ => 196,
            Key::UpperR => 198,
            Key::UpperS => 199,
            Key::UpperT => 200,
            Key::UpperU => 201,
            Key::UpperV => 202,
            Key::UpperW => 204,
            Key::UpperX => 205,
            Key::UpperY => 206,
            Key::UpperZ => 207,
            Key::Nothing => 223,
        }
    }

    /// The event with the given number, if there is one.
    pub fn from_code(code: u16) -> (key: Option<Key>)
        ensures
            match key {
                Some(k) => k.code_spec() == code,
                None => forall|k: Key| k.code_spec() != code,
            },
    {
        match code {
            0 => Some(Key::Left),
            1 => Some(Key::Up),
            2 => Some(Key::Down),
            3 => Some(Key::Right),
            4 => Some(Key::Okay),
            5 => Some(Key::Back),
            12 => Some(Key::Shift),
            13 => Some(Key::Alpha),
            14 => Some(Key::Xnt),
            15 => Some(Key::Var),
            16 => Some(Key::Toolbox),
            17 => Some(Key::Backspace),
            18 => Some(Key::Exp),
            19 => Some(Key::Ln),
            20 => Some(Key::Log),
            21 => Some(Key::Imaginary),
            22 => Some(Key::Comma),
            23 => Some(Key::Power),
            24 => Some(Key::Sine),
            25 => Some(Key::Cosine),
            26 => Some(Key::Tangent),
            27 => Some(Key::Pi),
            28 => Some(Key::Sqrt),
            29 => Some(Key::Square),
            30 => Some(Key::Seven),
            31 => Some(Key::Eight),
            32 => Some(Key::Nine),
            33 => Some(Key::LeftParenthesis),
            34 => Some(Key::RightParenthesis),
            36 => Some(Key::Four),
            37 => Some(Key::Five),
            38 => Some(Key::Six),
            39 => Some(Key::Multiplication),
            40 => Some(Key::Division),
            42 => Some(Key::One),
            43 => Some(Key::Two),
            44 => Some(Key::Three),
            45 => Some(Key::Plus),
            46 => Some(Key::Minus),
            48 => Some(Key::Zero),
            49 => Some(Key::Dot),
            50 => Some(Key::Ee),
            51 => Some(Key::Ans),
            52 => Some(Key::Exe),
            54 => Some(Key::ShiftLeft),
            55 => Some(Key::ShiftUp),
            56 => Some(Key::ShiftDown),
            57 => Some(Key::ShiftRight),
            67 => Some(Key::AlphaLock),
            68 => Some(Key::Cut),
            69 => Some(Key::Copy),
            70 => Some(Key::Paste),
            71 => Some(Key::Clear),
            72 => Some(Key::LeftBracket),
            73 => Some(Key::RightBracket),
            74 => Some(Key::LeftBrace),
            75 => Some(Key::RightBrace),
            76 => Some(Key::Underscore),
            77 => Some(Key::Sto),
            78 => Some(Key::Arcsine),
            79 => Some(Key::Arccosine),
            80 => Some(Key::Arctangent),
            81 => Some(Key::Equal),
            82 => Some(Key::Lower),
            83 => Some(Key::Greater),
            122 => Some(Key::Colon),
            123 => Some(Key::Semicolon),
            124 => Some(Key::DoubleQuotes),
            125 => Some(Key::Percent),
            126 => Some(Key::LowerA),
            127 => Some(Key::LowerB),
            128 => Some(Key::LowerC),
            129 => Some(Key::LowerD),
            130 => Some(Key::LowerE),
            131 => Some(Key::LowerF),
            132 => Some(Key::LowerG),
            133 => Some(Key::LowerH),
            134 => Some(Key::LowerI),
            135 => Some(Key::LowerJ),
            136 => Some(Key::LowerK),
            137 => Some(Key::LowerL),
            138 => Some(Key::LowerM),
            139 => Some(Key::LowerN),
            140 => Some(Key::LowerO),
            141 => Some(Key::LowerP),
            142 => Some(Key::LowerQ),
            144 => Some(Key::LowerR),
            145 => Some(Key::LowerS),
            146 => Some(Key::LowerT),
            147 => Some(Key::LowerU),
            148 => Some(Key::LowerV),
            150 => Some(Key::LowerW),
            151 => Some(Key::LowerX),
            152 => Some(Key::LowerY),
            153 => Some(Key::LowerZ),
            154 => Some(Key::Space),
            156 => Some(Key::Question),
            157 => Some(Key::Exclamation),
            180 => Some(Key::UpperA),
            181 => Some(Key::UpperB),
            182 => Some(Key::UpperC),
            183 => Some(Key::UpperD),
            184 => Some(Key::UpperE),
            185 => Some(Key::UpperF),
            186 => Some(Key::UpperG),
            187 => Some(Key::UpperH),
            188 => Some(Key::UpperI),
            189 => Some(Key::UpperJ),
            190 => Some(Key::UpperK),
            191 => Some(Key::UpperL),
            192 => Some(Key::UpperM),
            193 => Some(Key::UpperN),
            194 => Some(Key::UpperO),
            195 => Some(Key::UpperP),
            196 => Some(Key::UpperQ),
            198 => Some(Key::UpperR),
            199 => Some(Key::UpperS),
            200 => Some(Key::UpperT),
            201 => Some(Key::UpperU),
            202 => Some(Key::UpperV),
            204 => Some(Key::UpperW),
            205 => Some(Key::UpperX),
            206 => Some(Key::UpperY),
            207 => Some(Key::UpperZ),
            223 => Some(Key::Nothing),
            _ => None,
        }
    }

    /// The keys that `is_digit` reports: the number keys, `Eight` excepted.
    pub open spec fn is_digit_spec(&self) -> bool {
        self is One || self is Two || self is Three || self is Four || self is Five
            || self is Six || self is Seven || self is Nine || self is Zero
    }

    /// Whether the key is reported as a digit. `Eight` is not, although `to_digit` knows its
    /// value.
    #[verifier::when_used_as_spec(is_digit_spec)]
    pub fn is_digit(&self) -> (digit: bool)
        ensures
            digit == self.is_digit_spec(),
    {
        match self {
            Key::One => true,
            Key::Two => true,
            Key::Three => true,
            Key::Four => true,
            Key::Five => true,
            Key::Six => true,
            Key::Seven => true,
            Key::Nine => true,
            Key::Zero => true,
            _ => false,
        }
    }

    /// The value of a number key.
    pub open spec fn to_digit_spec(&self) -> Option<u8> {
        match *self {
            Key::Zero => Some(0u8),
            Key::One => Some(1u8),
            Key::Two => Some(2u8),
            Key::Three => Some(3u8),
            Key::Four => Some(4u8),
            Key::Five => Some(5u8),
            Key::Six => Some(6u8),
            Key::Seven => Some(7u8),
            Key::Eight => Some(8u8),
            Key::Nine => Some(9u8),
            _ => None,
        }
    }

    /// Converts the key to the digit it stands for, if it is a number key.
    #[verifier::when_used_as_spec(to_digit_spec)]
    pub fn to_digit(&self) -> (digit: Option<u8>)
        ensures
            digit == self.to_digit_spec(),
    {
        match self {
            Key::Zero => Some(0),
            Key::One => Some(1),
            Key::Two => Some(2),
            Key::Three => Some(3),
            Key::Four => Some(4),
            Key::Five => Some(5),
            Key::Six => Some(6),
            Key::Seven => Some(7),
            Key::Eight => Some(8),
            Key::Nine => Some(9),
            _ => None,
        }
    }

    /// A key reported as a digit has a value below ten; of the keys with a value, only
    /// `Eight` is not reported.
    pub proof fn lemma_digit_has_value(self)
        ensures
            self.is_digit_spec() ==> self.to_digit_spec() is Some,
            self.to_digit_spec() matches Some(d) ==> d <= 9 && (self.is_digit_spec() || self is Eight),
    {
    }
}

/// Interprets the event that a bounded wait for input produced: nothing if the wait ran out
/// before a key was pressed.
pub fn wait_for_input(event: Key) -> (pressed: Option<Key>)
    ensures
        pressed == (if event is Nothing { None } else { Some(event) }),
{
    match event {
        Key::Nothing => None,
        key => Some(key),
    }
}

/// One scan of the keyboard: bit `n` is set when the key with number `n` is down.
#[derive(Clone, Copy, PartialEq, Eq, Structural, Debug)]
pub struct KeyboardState(pub u64);

impl KeyboardState {
    /// Whether the key's bit is set in this scan.
    pub open spec fn holds(self, key: RawKey) -> bool {
        (self.0 >> (key.code_spec() as u64)) & 1 != 0
    }

    /// Checks if the given key was pressed in this state.
    pub fn is_pressed(self, key: RawKey) -> (pressed: bool)
        ensures
            pressed == self.holds(key),
    {
        keyboard_key_down(self, key)
    }
}

/// Checks if the key was pressed in the given state.
pub fn keyboard_key_down(keyboard_state: KeyboardState, key: RawKey) -> (down: bool)
    ensures
        down == keyboard_state.holds(key),
{
    proof {
        key.lemma_code_fits();
    }
    (keyboard_state.0 >> (key.code() as u64)) & 1 != 0
}

/// The keys that are down in `current` and were not in `previous`.
pub open spec fn rising(previous: KeyboardState, current: KeyboardState) -> KeyboardState {
    KeyboardState((!previous.0) & current.0)
}

/// The keys that were down in `previous` and are not in `current`.
pub open spec fn falling(previous: KeyboardState, current: KeyboardState) -> KeyboardState {
    KeyboardState(previous.0 & (!current.0))
}

/// A key is rising exactly when it is down now and was not before, and falling exactly when
/// it was down before and is not now: no key is both, and a key that is neither kept its
/// state.
pub proof fn lemma_edges(previous: KeyboardState, current: KeyboardState, key: RawKey)
    ensures
        rising(previous, current).holds(key) == (!previous.holds(key) && current.holds(key)),
        falling(previous, current).holds(key) == (previous.holds(key) && !current.holds(key)),
{
    let c = key.code_spec() as u64;
    let p = previous.0;
    let q = current.0;
    assert((((!p) & q) >> c) & 1 != 0 <==> (!((p >> c) & 1 != 0) && ((q >> c) & 1 != 0)))
        by (bit_vector)
        requires
            c <= 52,
    ;
    assert(((p & (!q)) >> c) & 1 != 0 <==> (((p >> c) & 1 != 0) && !((q >> c) & 1 != 0)))
        by (bit_vector)
        requires
            c <= 52,
    ;
}

/// Follows the keyboard through time: the latest scan, and the keys that changed between it
/// and the scan before.
#[derive(Clone, Copy, Debug)]
pub struct KeyboardTimedState {
    current_state: KeyboardState,
    pressing_state: KeyboardState,
    releasing_state: KeyboardState,
}

impl KeyboardTimedState {
    /// The latest scan.
    pub closed spec fn current(&self) -> KeyboardState {
        self.current_state
    }

    /// The keys that went down between the last two scans.
    pub closed spec fn pressing(&self) -> KeyboardState {
        self.pressing_state
    }

    /// The keys that went up between the last two scans.
    pub closed spec fn releasing(&self) -> KeyboardState {
        self.releasing_state
    }

    /// Creates a new instance from the first two scans of the keyboard, taken in this order.
    /// Two are needed so that a key held down at the start does not count as just pressed
    /// unless it went down between them.
    pub fn new(first: KeyboardState, second: KeyboardState) -> (state: Self)
        ensures
            state.current() == second,
            state.pressing() == rising(first, second),
            state.releasing() == falling(first, second),
    {
        let mut state = KeyboardTimedState {
            current_state: KeyboardState(0),
            pressing_state: KeyboardState(0),
            releasing_state: KeyboardState(0),
        };
        state.fetch(first);
        state.fetch(second);
        state
    }

    /// Takes in a new scan: it becomes the current state, and the keys that differ from the
    /// scan before are recorded as just pressed or just released.
    pub fn fetch(&mut self, scan: KeyboardState)
        ensures
            final(self).current() == scan,
            final(self).pressing() == rising(old(self).current(), scan),
            final(self).releasing() == falling(old(self).current(), scan),
    {
        let previous_state = self.current_state;
        self.current_state = scan;
        self.pressing_state = KeyboardState((!previous_state.0) & self.current_state.0);
        self.releasing_state = KeyboardState(previous_state.0 & (!self.current_state.0));
    }

    /// Checks if `key` is currently pressed.
    pub fn is_key_pressed(&self, key: RawKey) -> (pressed: bool)
        ensures
            pressed == self.current().holds(key),
    {
        keyboard_key_down(KeyboardState(self.current_state.0), key)
    }

    /// Checks if `key` is just pressed (is pressed now but was not before).
    pub fn is_key_just_pressed(&self, key: RawKey) -> (pressed: bool)
        ensures
            pressed == self.pressing().holds(key),
    {
        keyboard_key_down(KeyboardState(self.pressing_state.0), key)
    }

    /// Checks if `key` is just released (not pressed now but was before).
    pub fn is_key_just_released(&self, key: RawKey) -> (released: bool)
        ensures
            released == self.releasing().holds(key),
    {
        keyboard_key_down(KeyboardState(self.releasing_state.0), key)
    }
}

} // verus!
