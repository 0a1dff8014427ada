//! Raw input: the keys of the keyboard, its scans, and the events that key presses make.

use vstd::prelude::*;

verus! {

/// A hardware key.
#[derive(Clone, Copy, PartialEq, Eq, Structural, Debug)]
pub enum Key {
    Left,
    Up,
    Down,
    Right,
    Okay,
    Back,
    Home,
    OnOff,
    Shift,
    Alpha,
    Xnt,
    Var,
    Toolbox,
    Backspace,
    Exp,
    Ln,
    Log,
    Imaginary,
    Comma,
    Power,
    Sine,
    Cosine,
    Tangent,
    Pi,
    Sqrt,
    Square,
    Seven,
    Eight,
    Nine,
    LeftParenthesis,
    RightParenthesis,
    Four,
    Five,
    Six,
    Multiplication,
    Division,
    One,
    Two,
    Three,
    Plus,
    Minus,
    Zero,
    Dot,
    Ee,
    Ans,
    Exe,
}

impl Key {
    /// The number that the hardware gives this key.
    pub open spec fn code_spec(self) -> u8 {
        match self {
            Key::Left => 0,
            Key::Up => 1,
            Key::Down => 2,
            Key::Right => 3,
            Key::Okay => 4,
            Key::Back => 5,
            Key::Home => 6,
            Key::OnOff => 8,
            Key::Shift => 12,
            Key::Alpha => 13,
            Key::Xnt => 14,
            Key::Var => 15,
            Key::Toolbox => 16,
            Key::Backspace => 17,
            Key::Exp => 18,
            Key::Ln => 19,
            Key::Log => 20,
            Key::Imaginary => 21,
            Key::Comma => 22,
            Key::Power => 23,
            Key::Sine => 24,
            Key::Cosine => 25,
            Key::Tangent => 26,
            Key::Pi => 27,
            Key::Sqrt => 28,
            Key::Square => 29,
            Key::Seven => 30,
            Key::Eight => 31,
            Key::Nine => 32,
            Key::LeftParenthesis => 33,
            Key::RightParenthesis => 34,
            Key::Four => 36,
            Key::Five => 37,
            Key::Six => 38,
            Key::Multiplication => 39,
            Key::Division => 40,
            Key::One => 42,
            Key::Two => 43,
            Key::Three => 44,
            Key::Plus => 45,
            Key::Minus => 46,
            Key::Zero => 48,
            Key::Dot => 49,
            Key::Ee => 50,
            Key::Ans => 51,
            Key::Exe => 52,
        }
    }

    /// The number that the hardware gives this key.
    #[verifier::when_used_as_spec(code_spec)]
    pub fn code(self) -> (code: u8)
        ensures
            code == self.code_spec(),
    {
        match self {
            Key::Left => 0,
            Key::Up => 1,
            Key::Down => 2,
            Key::Right => 3,
            Key::Okay => 4,
            Key::Back => 5,
            Key::Home => 6,
            Key::OnOff => 8,
            Key::Shift => 12,
            Key::Alpha => 13,
            Key::Xnt => 14,
            Key::Var => 15,
            Key::Toolbox => 16,
            Key::Backspace => 17,
            Key::Exp => 18,
            Key::Ln => 19,
            Key::Log => 20,
            Key::Imaginary => 21,
            Key::Comma => 22,
            Key::Power => 23,
            Key::Sine => 24,
            Key::Cosine => 25,
            Key::Tangent => 26,
            Key::Pi => 27,
            Key::Sqrt => 28,
            Key::Square => 29,
            Key::Seven => 30,
            Key::Eight => 31,
            Key::Nine => 32,
            Key::LeftParenthesis => 33,
            Key::RightParenthesis => 34,
            Key::Four => 36,
            Key::Five => 37,
            Key::Six => 38,
            Key::Multiplication => 39,
            Key::Division => 40,
            Key::One => 42,
            Key::Two => 43,
            Key::Three => 44,
            Key::Plus => 45,
            Key::Minus => 46,
            Key::Zero => 48,
            Key::Dot => 49,
            Key::Ee => 50,
            Key::Ans => 51,
            Key::Exe => 52,
        }
    }

    /// Every key's number is a valid bit position of a scan.
    pub proof fn lemma_code_fits(self)
        ensures
            self.code_spec() <= 52,
    {
    }

    /// The key with the given number, if there is one.
    pub fn from_code(code: u8) -> (found: Option<Key>)
        ensures
            match found {
                Some(k) => k.code_spec() == code,
                None => forall|k: Key| k.code_spec() != code,
            },
    {
        match code {
            0 => Some(Key::Left),
            1 => Some(Key::Up),
            2 => Some(Key::Down),
            3 => Some(Key::Right),
            4 => Some(Key::Okay),
            5 => Some(Key::Back),
            6 => Some(Key::Home),
            8 => Some(Key::OnOff),
            12 => Some(Key::Shift),
            13 => Some(Key::Alpha),
            14 => Some(Key::Xnt),
            15 => Some(Key::Var),
            16 => Some(Key::Toolbox),
            17 => Some(Key::Backspace),
            18 => Some(Key::Exp),
            19 => Some(Key::Ln),
            20 => Some(Key::Log),
            21 => Some(Key::Imaginary),
            22 => Some(Key::Comma),
            23 => Some(Key::Power),
            24 => Some(Key::Sine),
            25 => Some(Key::Cosine),
            26 => Some(Key::Tangent),
            27 => Some(Key::Pi),
            28 => Some(Key::Sqrt),
            29 => Some(Key::Square),
            30 => Some(Key::Seven),
            31 => Some(Key::Eight),
            32 => Some(Key::Nine),
            33 => Some(Key::LeftParenthesis),
            34 => Some(Key::RightParenthesis),
            36 => Some(Key::Four),
            37 => Some(Key::Five),
            38 => Some(Key::Six),
            39 => Some(Key::Multiplication),
            40 => Some(Key::Division),
            42 => Some(Key::One),
            43 => Some(Key::Two),
            44 => Some(Key::Three),
            45 => Some(Key::Plus),
            46 => Some(Key::Minus),
            48 => Some(Key::Zero),
            49 => Some(Key::Dot),
            50 => Some(Key::Ee),
            51 => Some(Key::Ans),
            52 => Some(Key::Exe),
            _ => None,
        }
    }
}

/// One scan of the keyboard: bit `n` is set when the key with number `n` is down.
#[derive(Clone, Copy, PartialEq, Eq, Structural, Debug)]
pub struct KeyboardState(pub u64);

impl KeyboardState {
    /// Whether the key's bit is set in this scan.
    pub open spec fn holds(self, key: Key) -> bool {
        (self.0 >> (key.code_spec() as u64)) & 1 != 0
    }

    /// The scan with the given bits.
    pub fn from_raw(state: u64) -> (scan: Self)
        ensures
            scan == KeyboardState(state),
    {
        KeyboardState(state)
    }

    /// Whether the key is down in this scan.
    pub fn key_down(&self, key: Key) -> (down: bool)
        ensures
            down == self.holds(key),
    {
        proof {
            key.lemma_code_fits();
        }
        (self.0 >> (key.code() as u64)) & 1 != 0
    }
}

/// A keypress event: the result of pressing a key with or without the shift and alpha
/// modifiers.
#[derive(Clone, Copy, PartialEq, Eq, Structural, Debug)]
pub enum Event {
    Left,
    Up,
    Down,
    Right,
    Okay,
    Back,
    Shift,
    Alpha,
    Xnt,
    Var,
    Toolbox,
    Backspace,
    Exp,
    Ln,
    Log,
    Imaginary,
    Comma,
    Power,
    Sine,
    Cosine,
    Tangent,
    Pi,
    Sqrt,
    Square,
    Seven,
    Eight,
    Nine,
    LeftParenthesis,
    RightParenthesis,
    Four,
    Five,
    Six,
    Multiplication,
    Division,
    One,
    Two,
    Three,
    Plus,
    Minus,
    Zero,
    Dot,
    Ee,
    Ans,
    Exe,
    ShiftLeft,
    ShiftUp,
    ShiftDown,
    ShiftRight,
    AlphaLock,
    Cut,
    Copy,
    Paste,
    Clear,
    LeftBracket,
    RightBracket,
    LeftBrace,
    RightBrace,
    Underscore,
    Sto,
    Arcsine,
    Arccosine,
    Arctangent,
    Equal,
    Lower,
    Greater,
    Colon,
    Semicolon,
    DoubleQuotes,
    Percent,
    LowerA,
    LowerB,
    LowerC,
    LowerD,
    LowerE,
    LowerF,
    LowerG,
    LowerH,
    LowerI,
    LowerJ,
    LowerK,
    LowerL,
    LowerM,
    LowerN,
    LowerO,
    LowerP,
    LowerQ,
    LowerR,
    LowerS,
    LowerT,
    LowerU,
    LowerV,
    LowerW,
    LowerX,
    LowerY,
    LowerZ,
    Space,
    Question,
    Exclamation,
    UpperA,
    UpperB,
    UpperC,
    UpperD,
    UpperE,
    UpperF,
    UpperG,
    UpperH,
    UpperI,
    UpperJ,
    UpperK,
    UpperL,
    UpperM,
    UpperN,
    UpperO,
    UpperP,
    UpperQ,
    UpperR,
    UpperS,
    UpperT,
    UpperU,
    UpperV,
    UpperW,
    UpperX,
    UpperY,
    UpperZ,
}

impl Event {
    /// The number that the hardware gives this event.
    pub open spec fn code_spec(self) -> u16 {
        match self {
            Event::Left => 0,
            Event::Up => 1,
            Event::Down => 2,
            Event::Right => 3,
            Event::Okay => 4,
            Event::Back => 5,
            Event::Shift => 12,
            Event::Alpha => 13,
            Event::Xnt => 14,
            Event::Var => 15,
            Event::Toolbox => 16,
            Event::Backspace => 17,
            Event::Exp => 18,
            Event::Ln => 19,
            Event::Log => 20,
            Event::Imaginary => 21,
            Event::Comma => 22,
            Event::Power => 23,
            Event::Sine => 24,
            Event::Cosine => 25,
            Event::Tangent => 26,
            Event::Pi => 27,
            Event::Sqrt => 28,
            Event::Square => 29,
            Event::Seven => 30,
            Event::Eight => 31,
            Event::Nine => 32,
            Event::LeftParenthesis => 33,
            Event::RightParenthesis => 34,
            Event::Four => 36,
            Event::Five => 37,
            Event::Six => 38,
            Event::Multiplication => 39,
            Event::Division => 40,
            Event::One => 42,
            Event::Two => 43,
            Event::Three => 44,
            Event::Plus => 45,
            Event::Minus => 46,
            Event::Zero => 48,
            Event::Dot => 49,
            Event::Ee => 50,
            Event::Ans => 51,
            Event::Exe => 52,
            Event::ShiftLeft => 54,
            Event::ShiftUp => 55,
            Event::ShiftDown => 56,
            Event::ShiftRight => 57,
            Event::AlphaLock => 67,
            Event::Cut => 68,
            Event::Copy => 69,
            Event::Paste => 70,
            Event::Clear => 71,
            Event::LeftBracket => 72,
            Event::RightBracket => 73,
            Event::LeftBrace => 74,
            Event::RightBrace => 75,
            Event::Underscore => 76,
            Event::Sto => 77,
            Event::Arcsine => 78,
            Event::Arccosine => 79,
            Event::Arctangent => 80,
            Event::Equal => 81,
            Event::Lower => 82,
            Event::Greater => 83,
            Event::Colon => 122,
            Event::Semicolon => 123,
            Event::DoubleQuotes => 124,
            Event::Percent => 125,
            Event::LowerA => 126,
            Event::LowerB => 127,
            Event::LowerC => 128,
            Event::LowerD => 129,
            Event::LowerE => 130,
            Event::LowerF => 131,
            Event::LowerG => 132,
            Event::LowerH => 133,
            Event::LowerI => 134,
            Event::LowerJ => 135,
            Event::LowerK => 136,
            Event::LowerL => 137,
            Event::LowerM => 138,
            Event::LowerN => 139,
            Event::LowerO => 140,
            Event::LowerP => 141,
            Event::LowerQ => 142,
            Event::LowerR => 144,
            Event::LowerS => 145,
            Event::LowerT => 146,
            Event::LowerU => 147,
            Event::LowerV => 148,
            Event::LowerW => 150,
            Event::LowerX => 151,
            Event::LowerY => 152,
            Event::LowerZ => 153,
            Event::Space => 154,
            Event::Question => 156,
            Event::Exclamation => 157,
            Event::UpperA => 180,
            Event::UpperB => 181,
            Event::UpperC => 182,
            Event::UpperD => 183,
            Event::UpperE => 184,
            Event::UpperF => 185,
            Event::UpperG => 186,
            Event::UpperH => 187,
            Event::UpperI => 188,
            Event::UpperJ => 189,
            Event::UpperK => 190,
            Event::UpperL => 191,
            Event::UpperM => 192,
            Event::UpperN => 193,
            Event::UpperO => 194,
            Event::UpperP => 195,
            Event::UpperQ => 196,
            Event::UpperR => 198,
            Event::UpperS => 199,
            Event::UpperT => 200,
            Event::UpperU => 201,
            Event::UpperV => 202,
            Event::UpperW => 204,
            Event::UpperX => 205,
            Event::UpperY => 206,
            Event::UpperZ => 207,
        }
    }

    /// The number that the hardware gives this event.
    #[verifier::when_used_as_spec(code_spec)]
    pub fn code(self) -> (code: u16)
        ensures
            code == self.code_spec(),
    {
        match self {
            Event::Left => 0,
            Event::Up => 1,
            Event::Down => 2,
            Event::Right => 3,
            Event::Okay => 4,
            Event::Back => 5,
            Event::Shift => 12,
            Event::Alpha => 13,
            Event::Xnt => 14,
            Event::Var => 15,
            Event::Toolbox => 16,
            Event::Backspace => 17,
            Event::Exp => 18,
            Event::Ln => 19,
            Event::Log => 20,
            Event::Imaginary => 21,
            Event::Comma => 22,
            Event::Power => 23,
            Event::Sine => 24,
            Event::Cosine => 25,
            Event::Tangent => 26,
            Event::Pi => 27,
            Event::Sqrt => 28,
            Event::Square => 29,
            Event::Seven => 30,
            Event::Eight => 31,
            Event::Nine => 32,
            Event::LeftParenthesis => 33,
            Event::RightParenthesis => 34,
            Event::Four => 36,
            Event::Five => 37,
            Event::Six => 38,
            Event::Multiplication => 39,
            Event::Division => 40,
            Event::One => 42,
            Event::Two => 43,
            Event::Three => 44,
            Event::Plus => 45,
            Event::Minus => 46,
            Event::Zero => 48,
            Event::Dot => 49,
            Event::Ee => 50,
            Event::Ans => 51,
            Event::Exe => 52,
            Event::ShiftLeft => 54,
            Event::ShiftUp => 55,
            Event::ShiftDown => 56,
            Event::ShiftRight => 57,
            Event::AlphaLock => 67,
            Event::Cut => 68,
            Event::Copy => 69,
            Event::Paste => 70,
            Event::Clear => 71,
            Event::LeftBracket => 72,
            Event::RightBracket => 73,
            Event::LeftBrace => 74,
            Event::RightBrace => 75,
            Event::Underscore => 76,
            Event::Sto => 77,
            Event::Arcsine => 78,
            Event::Arccosine => 79,
            Event::Arctangent => 80,
            Event::Equal => 81,
            Event::Lower => 82,
            Event::Greater => 83,
            Event::Colon => 122,
            Event::Semicolon => 123,
            Event::DoubleQuotes => 124,
            Event::Percent => 125,
            Event::LowerA => 126,
            Event::LowerB => 127,
            Event::LowerC => 128,
            Event::LowerD => 129,
            Event::LowerE => 130,
            Event::LowerF => 131,
            Event::LowerG => 132,
            Event::LowerH => 133,
            Event::LowerI => 134,
            Event::LowerJ => 135,
            Event::LowerK => 136,
            Event::LowerL => 137,
            Event::LowerM => 138,
            Event::LowerN => 139,
            Event::LowerO => 140,
            Event::LowerP => 141,
            Event::LowerQ => 142,
            Event::LowerR => 144,
            Event::LowerS => 145,
            Event::LowerT => 146,
            Event::LowerU => 147,
            Event::LowerV => 148,
            Event::LowerW => 150,
            Event::LowerX => 151,
            Event::LowerY => 152,
            Event::LowerZ => 153,
            Event::Space => 154,
            Event::Question => 156,
            Event::Exclamation => 157,
            Event::UpperA => 180,
            Event::UpperB => 181,
            Event::UpperC => 182,
            Event::UpperD => 183,
            Event::UpperE => 184,
            Event::UpperF => 185,
            Event::UpperG => 186,
            Event::UpperH => 187,
            Event::UpperI => 188,
            Event::UpperJ => 189,
            Event::UpperK => 190,
            Event::UpperL => 191,
            Event::UpperM => 192,
            Event::UpperN => 193,
            Event::UpperO => 194,
            Event::UpperP => 195,
            Event::UpperQ => 196,
            Event::UpperR => 198,
            Event::UpperS => 199,
            Event::UpperT => 200,
            Event::UpperU => 201,
            Event::UpperV => 202,
            Event::UpperW => 204,
            Event::UpperX => 205,
            Event::UpperY => 206,
            Event::UpperZ => 207,
        }
    }

    /// The event with the given number, if there is one.
    pub fn from_code(code: u16) -> (found: Option<Event>)
        ensures
            match found {
                Some(k) => k.code_spec() == code,
                None => forall|k: Event| k.code_spec() != code,
            },
    {
        match code {
            0 => Some(Event::Left),
            1 => Some(Event::Up),
            2 => Some(Event::Down),
            3 => Some(Event::Right),
            4 => Some(Event::Okay),
            5 => Some(Event::Back),
            12 => Some(Event::Shift),
            13 => Some(Event::Alpha),
            14 => Some(Event::Xnt),
            15 => Some(Event::Var),
            16 => Some(Event::Toolbox),
            17 => Some(Event::Backspace),
            18 => Some(Event::Exp),
            19 => Some(Event::Ln),
            20 => Some(Event::Log),
            21 => Some(Event::Imaginary),
            22 => Some(Event::Comma),
            23 => Some(Event::Power),
            24 => Some(Event::Sine),
            25 => Some(Event::Cosine),
            26 => Some(Event::Tangent),
            27 => Some(Event::Pi),
            28 => Some(Event::Sqrt),
            29 => Some(Event::Square),
            30 => Some(Event::Seven),
            31 => Some(Event::Eight),
            32 => Some(Event::Nine),
            33 => Some(Event::LeftParenthesis),
            34 => Some(Event::RightParenthesis),
            36 => Some(Event::Four),
            37 => Some(Event::Five),
            38 => Some(Event::Six),
            39 => Some(Event::Multiplication),
            40 => Some(Event::Division),
            42 => Some(Event::One),
            43 => Some(Event::Two),
            44 => Some(Event::Three),
            45 => Some(Event::Plus),
            46 => Some(Event::Minus),
            48 => Some(Event::Zero),
            49 => Some(Event::Dot),
            50 => Some(Event::Ee),
            51 => Some(Event::Ans),
            52 => Some(Event::Exe),
            54 => Some(Event::ShiftLeft),
            55 => Some(Event::ShiftUp),
            56 => Some(Event::ShiftDown),
            57 => Some(Event::ShiftRight),
            67 => Some(Event::AlphaLock),
            68 => Some(Event::Cut),
            69 => Some(Event::Copy),
            70 => Some(Event::Paste),
            71 => Some(Event::Clear),
            72 => Some(Event::LeftBracket),
            73 => Some(Event::RightBracket),
            74 => Some(Event::LeftBrace),
            75 => Some(Event::RightBrace),
            76 => Some(Event::Underscore),
            77 => Some(Event::Sto),
            78 => Some(Event::Arcsine),
            79 => Some(Event::Arccosine),
            80 => Some(Event::Arctangent),
            81 => Some(Event::Equal),
            82 => Some(Event::Lower),
            83 => Some(Event::Greater),
            122 => Some(Event::Colon),
            123 => Some(Event::Semicolon),
            124 => Some(Event::DoubleQuotes),
            125 => Some(Event::Percent),
            126 => Some(Event::LowerA),
            127 => Some(Event::LowerB),
            128 => Some(Event::LowerC),
            129 => Some(Event::LowerD),
            130 => Some(Event::LowerE),
            131 => Some(Event::LowerF),
            132 => Some(Event::LowerG),
            133 => Some(Event::LowerH),
            134 => Some(Event::LowerI),
            135 => Some(Event::LowerJ),
            136 => Some(Event::LowerK),
            137 => Some(Event::LowerL),
            138 => Some(Event::LowerM),
            139 => Some(Event::LowerN),
            140 => Some(Event::LowerO),
            141 => Some(Event::LowerP),
            142 => Some(Event::LowerQ),
            144 => Some(Event::LowerR),
            145 => Some(Event::LowerS),
            146 => Some(Event::LowerT),
            147 => Some(Event::LowerU),
            148 => Some(Event::LowerV),
            150 => Some(Event::LowerW),
            151 => Some(Event::LowerX),
            152 => Some(Event::LowerY),
            153 => Some(Event::LowerZ),
            154 => Some(Event::Space),
            156 => Some(Event::Question),
            157 => Some(Event::Exclamation),
            180 => Some(Event::UpperA),
            181 => Some(Event::UpperB),
            182 => Some(Event::UpperC),
            183 => Some(Event::UpperD),
            184 => Some(Event::UpperE),
            185 => Some(Event::UpperF),
            186 => Some(Event::UpperG),
            187 => Some(Event::UpperH),
            188 => Some(Event::UpperI),
            189 => Some(Event::UpperJ),
            190 => Some(Event::UpperK),
            191 => Some(Event::UpperL),
            192 => Some(Event::UpperM),
            193 => Some(Event::UpperN),
            194 => Some(Event::UpperO),
            195 => Some(Event::UpperP),
            196 => Some(Event::UpperQ),
            198 => Some(Event::UpperR),
            199 => Some(Event::UpperS),
            200 => Some(Event::UpperT),
            201 => Some(Event::UpperU),
            202 => Some(Event::UpperV),
            204 => Some(Event::UpperW),
            205 => Some(Event::UpperX),
            206 => Some(Event::UpperY),
            207 => Some(Event::UpperZ),
            _ => None,
        }
    }

    /// The value of a number key.
    pub open spec fn to_digit_spec(&self) -> Option<u8> {
        match *self {
            Event::Zero => Some(0u8),
            Event::One => Some(1u8),
            Event::Two => Some(2u8),
            Event::Three => Some(3u8),
            Event::Four => Some(4u8),
            Event::Five => Some(5u8),
            Event::Six => Some(6u8),
            Event::Seven => Some(7u8),
            Event::Eight => Some(8u8),
            Event::Nine => Some(9u8),
            _ => None,
        }
    }

    /// Whether the event is a number key.
    pub fn is_digit(&self) -> (digit: bool)
        ensures
            digit == self.to_digit_spec() is Some,
    {
        match self {
            Event::Zero => true,
            Event::One => true,
            Event::Two => true,
            Event::Three => true,
            Event::Four => true,
            Event::Five => true,
            Event::Six => true,
            Event::Seven => true,
            Event::Eight => true,
            Event::Nine => true,
            _ => false,
        }
    }

    /// Converts the event to the digit it stands for, if it is a number key.
    #[verifier::when_used_as_spec(to_digit_spec)]
    pub fn to_digit(&self) -> (digit: Option<u8>)
        ensures
            digit == self.to_digit_spec(),
            digit matches Some(d) ==> d <= 9,
    {
        match self {
            Event::Zero => Some(0),
            Event::One => Some(1),
            Event::Two => Some(2),
            Event::Three => Some(3),
            Event::Four => Some(4),
            Event::Five => Some(5),
            Event::Six => Some(6),
            Event::Seven => Some(7),
            Event::Eight => Some(8),
            Event::Nine => Some(9),
            _ => None,
        }
    }
}

} // verus!
