//! The closed set of sprite identifiers.

use vstd::prelude::*;

verus! {

/// How many sprite identifiers there are.
pub const SPRITE_COUNT: usize = 102;

/// One identifier per region that the built-in catalog declares, in the
/// catalog's declaration order.
#[derive(Debug, Copy, Clone, PartialEq, Eq, Structural, Hash)]
pub enum SkinImage {
    ButtonPrev,
    ButtonPlay,
    ButtonPause,
    ButtonStop,
    ButtonNext,
    ButtonEject,
    ButtonPrevPressed,
    ButtonPlayPressed,
    ButtonPausePressed,
    ButtonStopPressed,
    ButtonNextPressed,
    ButtonEjectPressed,
    MainWindow,
    VolumeSliderBar0,
    VolumeSliderBar1,
    VolumeSliderBar2,
    VolumeSliderBar3,
    VolumeSliderBar4,
    VolumeSliderBar5,
    VolumeSliderBar6,
    VolumeSliderBar7,
    VolumeSliderBar8,
    VolumeSliderBar9,
    VolumeSliderBar10,
    VolumeSliderBar11,
    VolumeSliderBar12,
    VolumeSliderBar13,
    VolumeSliderBar14,
    VolumeSliderBar15,
    VolumeSliderBar16,
    VolumeSliderBar17,
    VolumeSliderBar18,
    VolumeSliderBar19,
    VolumeSliderBar20,
    VolumeSliderBar21,
    VolumeSliderBar22,
    VolumeSliderBar23,
    VolumeSliderBar24,
    VolumeSliderBar25,
    VolumeSliderBar26,
    VolumeSliderBar27,
    VolumeSliderButton,
    VolumeSliderButtonPressed,
    SmallFontA,
    SmallFontB,
    SmallFontC,
    SmallFontD,
    SmallFontE,
    SmallFontF,
    SmallFontG,
    SmallFontH,
    SmallFontI,
    SmallFontJ,
    SmallFontK,
    SmallFontL,
    SmallFontM,
    SmallFontN,
    SmallFontO,
    SmallFontP,
    SmallFontQ,
    SmallFontR,
    SmallFontS,
    SmallFontT,
    SmallFontU,
    SmallFontV,
    SmallFontW,
    SmallFontX,
    SmallFontY,
    SmallFontZ,
    SmallFontDoubleQuote,
    SmallFontAt,
    SmallFont0,
    SmallFont1,
    SmallFont2,
    SmallFont3,
    SmallFont4,
    SmallFont5,
    SmallFont6,
    SmallFont7,
    SmallFont8,
    SmallFont9,
    SmallFontEllipsis,
    SmallFontPeriodMaybe,
    SmallFontColon,
    SmallFontLeftParen,
    SmallFontRightParen,
    SmallFontHyphen,
    SmallFontSingleQuote,
    SmallFontExclamation,
    SmallFontUnderscore,
    SmallFontPlus,
    SmallFontBackslash,
    SmallFontSlash,
    SmallFontLeftBracket,
    SmallFontRightBracket,
    SmallFontCaret,
    SmallFontAmpersand,
    SmallFontPercent,
    SmallFontComma,
    SmallFontEquals,
    SmallFontDollar,
    SmallFontHash,
}

impl SkinImage {
    /// The position of the identifier in declaration order.
    pub open spec fn spec_index(self) -> nat {
        match self {
            SkinImage::ButtonPrev => 0,
            SkinImage::ButtonPlay => 1,
            SkinImage::ButtonPause => 2,
            SkinImage::ButtonStop => 3,
            SkinImage::ButtonNext => 4,
            SkinImage::ButtonEject => 5,
            SkinImage::ButtonPrevPressed => 6,
            SkinImage::ButtonPlayPressed => 7,
            SkinImage::ButtonPausePressed => 8,
            SkinImage::ButtonStopPressed => 9,
            SkinImage::ButtonNextPressed => 10,
            SkinImage::ButtonEjectPressed => 11,
            SkinImage::MainWindow => 12,
            SkinImage::VolumeSliderBar0 => 13,
            SkinImage::VolumeSliderBar1 => 14,
            SkinImage::VolumeSliderBar2 => 15,
            SkinImage::VolumeSliderBar3 => 16,
            SkinImage::VolumeSliderBar4 => 17,
            SkinImage::VolumeSliderBar5 => 18,
            SkinImage::VolumeSliderBar6 => 19,
            SkinImage::VolumeSliderBar7 => 20,
            SkinImage::VolumeSliderBar8 => 21,
            SkinImage::VolumeSliderBar9 => 22,
            SkinImage::VolumeSliderBar10 => 23,
            SkinImage::VolumeSliderBar11 => 24,
            SkinImage::VolumeSliderBar12 => 25,
            SkinImage::VolumeSliderBar13 => 26,
            SkinImage::VolumeSliderBar14 => 27,
            SkinImage::VolumeSliderBar15 => 28,
            SkinImage::VolumeSliderBar16 => 29,
            SkinImage::VolumeSliderBar17 => 30,
            SkinImage::VolumeSliderBar18 => 31,
            SkinImage::VolumeSliderBar19 => 32,
            SkinImage::VolumeSliderBar20 => 33,
            SkinImage::VolumeSliderBar21 => 34,
            SkinImage::VolumeSliderBar22 => 35,
            SkinImage::VolumeSliderBar23 => 36,
            SkinImage::VolumeSliderBar24 => 37,
            SkinImage::VolumeSliderBar25 => 38,
            SkinImage::VolumeSliderBar26 => 39,
            SkinImage::VolumeSliderBar27 => 40,
            SkinImage::VolumeSliderButton => 41,
            SkinImage::VolumeSliderButtonPressed => 42,
            SkinImage::SmallFontA => 43,
            SkinImage::SmallFontB => 44,
            SkinImage::SmallFontC => 45,
            SkinImage::SmallFontD => 46,
            SkinImage::SmallFontE => 47,
            SkinImage::SmallFontF => 48,
            SkinImage::SmallFontG => 49,
            SkinImage::SmallFontH => 50,
            SkinImage::SmallFontI => 51,
            SkinImage::SmallFontJ => 52,
            SkinImage::SmallFontK => 53,
            SkinImage::SmallFontL => 54,
            SkinImage::SmallFontM => 55,
            SkinImage::SmallFontN => 56,
            SkinImage::SmallFontO => 57,
            SkinImage::SmallFontP => 58,
            SkinImage::SmallFontQ => 59,
            SkinImage::SmallFontR => 60,
            SkinImage::SmallFontS => 61,
            SkinImage::SmallFontT => 62,
            SkinImage::SmallFontU => 63,
            SkinImage::SmallFontV => 64,
            SkinImage::SmallFontW => 65,
            SkinImage::SmallFontX => 66,
            SkinImage::SmallFontY => 67,
            SkinImage::SmallFontZ => 68,
            SkinImage::SmallFontDoubleQuote => 69,
            SkinImage::SmallFontAt => 70,
            SkinImage::SmallFont0 => 71,
            SkinImage::SmallFont1 => 72,
            SkinImage::SmallFont2 => 73,
            SkinImage::SmallFont3 => 74,
            SkinImage::SmallFont4 => 75,
            SkinImage::SmallFont5 => 76,
            SkinImage::SmallFont6 => 77,
            SkinImage::SmallFont7 => 78,
            SkinImage::SmallFont8 => 79,
            SkinImage::SmallFont9 => 80,
            SkinImage::SmallFontEllipsis => 81,
            SkinImage::SmallFontPeriodMaybe => 82,
            SkinImage::SmallFontColon => 83,
            SkinImage::SmallFontLeftParen => 84,
            SkinImage::SmallFontRightParen => 85,
            SkinImage::SmallFontHyphen => 86,
            SkinImage::SmallFontSingleQuote => 87,
            SkinImage::SmallFontExclamation => 88,
            SkinImage::SmallFontUnderscore => 89,
            SkinImage::SmallFontPlus => 90,
            SkinImage::SmallFontBackslash => 91,
            SkinImage::SmallFontSlash => 92,
            SkinImage::SmallFontLeftBracket => 93,
            SkinImage::SmallFontRightBracket => 94,
            SkinImage::SmallFontCaret => 95,
            SkinImage::SmallFontAmpersand => 96,
            SkinImage::SmallFontPercent => 97,
            SkinImage::SmallFontComma => 98,
            SkinImage::SmallFontEquals => 99,
            SkinImage::SmallFontDollar => 100,
            SkinImage::SmallFontHash => 101,
        }
    }

    /// The identifier at a position of the declaration order, if there is one.
    pub open spec fn spec_from_index(i: nat) -> Option<SkinImage> {
        if i < SPRITE_COUNT {
            Self::spec_at(i as usize)
        } else {
            None
        }
    }

    /// The identifier at a position, as a machine integer.
    pub open spec fn spec_at(i: usize) -> Option<SkinImage> {
        match i {
            0 => Some(SkinImage::ButtonPrev),
            1 => Some(SkinImage::ButtonPlay),
            2 => Some(SkinImage::ButtonPause),
            3 => Some(SkinImage::ButtonStop),
            4 => Some(SkinImage::ButtonNext),
            5 => Some(SkinImage::ButtonEject),
            6 => Some(SkinImage::ButtonPrevPressed),
            7 => Some(SkinImage::ButtonPlayPressed),
            8 => Some(SkinImage::ButtonPausePressed),
            9 => Some(SkinImage::ButtonStopPressed),
            10 => Some(SkinImage::ButtonNextPressed),
            11 => Some(SkinImage::ButtonEjectPressed),
            12 => Some(SkinImage::MainWindow),
            13 => Some(SkinImage::VolumeSliderBar0),
            14 => Some(SkinImage::VolumeSliderBar1),
            15 => Some(SkinImage::VolumeSliderBar2),
            16 => Some(SkinImage::VolumeSliderBar3),
            17 => Some(SkinImage::VolumeSliderBar4),
            18 => Some(SkinImage::VolumeSliderBar5),
            19 => Some(SkinImage::VolumeSliderBar6),
            20 => Some(SkinImage::VolumeSliderBar7),
            21 => Some(SkinImage::VolumeSliderBar8),
            22 => Some(SkinImage::VolumeSliderBar9),
            23 => Some(SkinImage::VolumeSliderBar10),
            24 => Some(SkinImage::VolumeSliderBar11),
            25 => Some(SkinImage::VolumeSliderBar12),
            26 => Some(SkinImage::VolumeSliderBar13),
            27 => Some(SkinImage::VolumeSliderBar14),
            28 => Some(SkinImage::VolumeSliderBar15),
            29 => Some(SkinImage::VolumeSliderBar16),
            30 => Some(SkinImage::VolumeSliderBar17),
            31 => Some(SkinImage::VolumeSliderBar18),
            32 => Some(SkinImage::VolumeSliderBar19),
            33 => Some(SkinImage::VolumeSliderBar20),
            34 => Some(SkinImage::VolumeSliderBar21),
            35 => Some(SkinImage::VolumeSliderBar22),
            36 => Some(SkinImage::VolumeSliderBar23),
            37 => Some(SkinImage::VolumeSliderBar24),
            38 => Some(SkinImage::VolumeSliderBar25),
            39 => Some(SkinImage::VolumeSliderBar26),
            40 => Some(SkinImage::VolumeSliderBar27),
            41 => Some(SkinImage::VolumeSliderButton),
            42 => Some(SkinImage::VolumeSliderButtonPressed),
            43 => Some(SkinImage::SmallFontA),
            44 => Some(SkinImage::SmallFontB),
            45 => Some(SkinImage::SmallFontC),
            46 => Some(SkinImage::SmallFontD),
            47 => Some(SkinImage::SmallFontE),
            48 => Some(SkinImage::SmallFontF),
            49 => Some(SkinImage::SmallFontG),
            50 => Some(SkinImage::SmallFontH),
            51 => Some(SkinImage::SmallFontI),
            52 => Some(SkinImage::SmallFontJ),
            53 => Some(SkinImage::SmallFontK),
            54 => Some(SkinImage::SmallFontL),
            55 => Some(SkinImage::SmallFontM),
            56 => Some(SkinImage::SmallFontN),
            57 => Some(SkinImage::SmallFontO),
            58 => Some(SkinImage::SmallFontP),
            59 => Some(SkinImage::SmallFontQ),
            60 => Some(SkinImage::SmallFontR),
            61 => Some(SkinImage::SmallFontS),
            62 => Some(SkinImage::SmallFontT),
            63 => Some(SkinImage::SmallFontU),
            64 => Some(SkinImage::SmallFontV),
            65 => Some(SkinImage::SmallFontW),
            66 => Some(SkinImage::SmallFontX),
            67 => Some(SkinImage::SmallFontY),
            68 => Some(SkinImage::SmallFontZ),
            69 => Some(SkinImage::SmallFontDoubleQuote),
            70 => Some(SkinImage::SmallFontAt),
            71 => Some(SkinImage::SmallFont0),
            72 => Some(SkinImage::SmallFont1),
            73 => Some(SkinImage::SmallFont2),
            74 => Some(SkinImage::SmallFont3),
            75 => Some(SkinImage::SmallFont4),
            76 => Some(SkinImage::SmallFont5),
            77 => Some(SkinImage::SmallFont6),
            78 => Some(SkinImage::SmallFont7),
            79 => Some(SkinImage::SmallFont8),
            80 => Some(SkinImage::SmallFont9),
            81 => Some(SkinImage::SmallFontEllipsis),
            82 => Some(SkinImage::SmallFontPeriodMaybe),
            83 => Some(SkinImage::SmallFontColon),
            84 => Some(SkinImage::SmallFontLeftParen),
            85 => Some(SkinImage::SmallFontRightParen),
            86 => Some(SkinImage::SmallFontHyphen),
            87 => Some(SkinImage::SmallFontSingleQuote),
            88 => Some(SkinImage::SmallFontExclamation),
            89 => Some(SkinImage::SmallFontUnderscore),
            90 => Some(SkinImage::SmallFontPlus),
            91 => Some(SkinImage::SmallFontBackslash),
            92 => Some(SkinImage::SmallFontSlash),
            93 => Some(SkinImage::SmallFontLeftBracket),
            94 => Some(SkinImage::SmallFontRightBracket),
            95 => Some(SkinImage::SmallFontCaret),
            96 => Some(SkinImage::SmallFontAmpersand),
            97 => Some(SkinImage::SmallFontPercent),
            98 => Some(SkinImage::SmallFontComma),
            99 => Some(SkinImage::SmallFontEquals),
            100 => Some(SkinImage::SmallFontDollar),
            101 => Some(SkinImage::SmallFontHash),
            _ => None,
        }
    }

    /// The position of the identifier in declaration order.
    pub fn index(self) -> (i: usize)
        ensures
            i == self.spec_index(),
            i < SPRITE_COUNT,
    {
        match self {
            SkinImage::ButtonPrev => 0,
            SkinImage::ButtonPlay => 1,
            SkinImage::ButtonPause => 2,
            SkinImage::ButtonStop => 3,
            SkinImage::ButtonNext => 4,
            SkinImage::ButtonEject => 5,
            SkinImage::ButtonPrevPressed => 6,
            SkinImage::ButtonPlayPressed => 7,
            SkinImage::ButtonPausePressed => 8,
            SkinImage::ButtonStopPressed => 9,
            SkinImage::ButtonNextPressed => 10,
            SkinImage::ButtonEjectPressed => 11,
            SkinImage::MainWindow => 12,
            SkinImage::VolumeSliderBar0 => 13,
            SkinImage::VolumeSliderBar1 => 14,
            SkinImage::VolumeSliderBar2 => 15,
            SkinImage::VolumeSliderBar3 => 16,
            SkinImage::VolumeSliderBar4 => 17,
            SkinImage::VolumeSliderBar5 => 18,
            SkinImage::VolumeSliderBar6 => 19,
            SkinImage::VolumeSliderBar7 => 20,
            SkinImage::VolumeSliderBar8 => 21,
            SkinImage::VolumeSliderBar9 => 22,
            SkinImage::VolumeSliderBar10 => 23,
            SkinImage::VolumeSliderBar11 => 24,
            SkinImage::VolumeSliderBar12 => 25,
            SkinImage::VolumeSliderBar13 => 26,
            SkinImage::VolumeSliderBar14 => 27,
            SkinImage::VolumeSliderBar15 => 28,
            SkinImage::VolumeSliderBar16 => 29,
            SkinImage::VolumeSliderBar17 => 30,
            SkinImage::VolumeSliderBar18 => 31,
            SkinImage::VolumeSliderBar19 => 32,
            SkinImage::VolumeSliderBar20 => 33,
            SkinImage::VolumeSliderBar21 => 34,
            SkinImage::VolumeSliderBar22 => 35,
            SkinImage::VolumeSliderBar23 => 36,
            SkinImage::VolumeSliderBar24 => 37,
            SkinImage::VolumeSliderBar25 => 38,
            SkinImage::VolumeSliderBar26 => 39,
            SkinImage::VolumeSliderBar27 => 40,
            SkinImage::VolumeSliderButton => 41,
            SkinImage::VolumeSliderButtonPressed => 42,
            SkinImage::SmallFontA => 43,
            SkinImage::SmallFontB => 44,
            SkinImage::SmallFontC => 45,
            SkinImage::SmallFontD => 46,
            SkinImage::SmallFontE => 47,
            SkinImage::SmallFontF => 48,
            SkinImage::SmallFontG => 49,
            SkinImage::SmallFontH => 50,
            SkinImage::SmallFontI => 51,
            SkinImage::SmallFontJ => 52,
            SkinImage::SmallFontK => 53,
            SkinImage::SmallFontL => 54,
            SkinImage::SmallFontM => 55,
            SkinImage::SmallFontN => 56,
            SkinImage::SmallFontO => 57,
            SkinImage::SmallFontP => 58,
            SkinImage::SmallFontQ => 59,
            SkinImage::SmallFontR => 60,
            SkinImage::SmallFontS => 61,
            SkinImage::SmallFontT => 62,
            SkinImage::SmallFontU => 63,
            SkinImage::SmallFontV => 64,
            SkinImage::SmallFontW => 65,
            SkinImage::SmallFontX => 66,
            SkinImage::SmallFontY => 67,
            SkinImage::SmallFontZ => 68,
            SkinImage::SmallFontDoubleQuote => 69,
            SkinImage::SmallFontAt => 70,
            SkinImage::SmallFont0 => 71,
            SkinImage::SmallFont1 => 72,
            SkinImage::SmallFont2 => 73,
            SkinImage::SmallFont3 => 74,
            SkinImage::SmallFont4 => 75,
            SkinImage::SmallFont5 => 76,
            SkinImage::SmallFont6 => 77,
            SkinImage::SmallFont7 => 78,
            SkinImage::SmallFont8 => 79,
            SkinImage::SmallFont9 => 80,
            SkinImage::SmallFontEllipsis => 81,
            SkinImage::SmallFontPeriodMaybe => 82,
            SkinImage::SmallFontColon => 83,
            SkinImage::SmallFontLeftParen => 84,
            SkinImage::SmallFontRightParen => 85,
            SkinImage::SmallFontHyphen => 86,
            SkinImage::SmallFontSingleQuote => 87,
            SkinImage::SmallFontExclamation => 88,
            SkinImage::SmallFontUnderscore => 89,
            SkinImage::SmallFontPlus => 90,
            SkinImage::SmallFontBackslash => 91,
            SkinImage::SmallFontSlash => 92,
            SkinImage::SmallFontLeftBracket => 93,
            SkinImage::SmallFontRightBracket => 94,
            SkinImage::SmallFontCaret => 95,
            SkinImage::SmallFontAmpersand => 96,
            SkinImage::SmallFontPercent => 97,
            SkinImage::SmallFontComma => 98,
            SkinImage::SmallFontEquals => 99,
            SkinImage::SmallFontDollar => 100,
            SkinImage::SmallFontHash => 101,
        }
    }

    /// The identifier at a position of the declaration order; `None` from
    /// `SPRITE_COUNT` on.
    pub fn from_index(i: usize) -> (r: Option<SkinImage>)
        ensures
            r == Self::spec_from_index(i as nat),
            r is Some <==> i < SPRITE_COUNT,
    {
        match i {
            0 => Some(SkinImage::ButtonPrev),
            1 => Some(SkinImage::ButtonPlay),
            2 => Some(SkinImage::ButtonPause),
            3 => Some(SkinImage::ButtonStop),
            4 => Some(SkinImage::ButtonNext),
            5 => Some(SkinImage::ButtonEject),
            6 => Some(SkinImage::ButtonPrevPressed),
            7 => Some(SkinImage::ButtonPlayPressed),
            8 => Some(SkinImage::ButtonPausePressed),
            9 => Some(SkinImage::ButtonStopPressed),
            10 => Some(SkinImage::ButtonNextPressed),
            11 => Some(SkinImage::ButtonEjectPressed),
            12 => Some(SkinImage::MainWindow),
            13 => Some(SkinImage::VolumeSliderBar0),
            14 => Some(SkinImage::VolumeSliderBar1),
            15 => Some(SkinImage::VolumeSliderBar2),
            16 => Some(SkinImage::VolumeSliderBar3),
            17 => Some(SkinImage::VolumeSliderBar4),
            18 => Some(SkinImage::VolumeSliderBar5),
            19 => Some(SkinImage::VolumeSliderBar6),
            20 => Some(SkinImage::VolumeSliderBar7),
            21 => Some(SkinImage::VolumeSliderBar8),
            22 => Some(SkinImage::VolumeSliderBar9),
            23 => Some(SkinImage::VolumeSliderBar10),
            24 => Some(SkinImage::VolumeSliderBar11),
            25 => Some(SkinImage::VolumeSliderBar12),
            26 => Some(SkinImage::VolumeSliderBar13),
            27 => Some(SkinImage::VolumeSliderBar14),
            28 => Some(SkinImage::VolumeSliderBar15),
            29 => Some(SkinImage::VolumeSliderBar16),
            30 => Some(SkinImage::VolumeSliderBar17),
            31 => Some(SkinImage::VolumeSliderBar18),
            32 => Some(SkinImage::VolumeSliderBar19),
            33 => Some(SkinImage::VolumeSliderBar20),
            34 => Some(SkinImage::VolumeSliderBar21),
            35 => Some(SkinImage::VolumeSliderBar22),
            36 => Some(SkinImage::VolumeSliderBar23),
            37 => Some(SkinImage::VolumeSliderBar24),
            38 => Some(SkinImage::VolumeSliderBar25),
            39 => Some(SkinImage::VolumeSliderBar26),
            40 => Some(SkinImage::VolumeSliderBar27),
            41 => Some(SkinImage::VolumeSliderButton),
            42 => Some(SkinImage::VolumeSliderButtonPressed),
            43 => Some(SkinImage::SmallFontA),
            44 => Some(SkinImage::SmallFontB),
            45 => Some(SkinImage::SmallFontC),
            46 => Some(SkinImage::SmallFontD),
            47 => Some(SkinImage::SmallFontE),
            48 => Some(SkinImage::SmallFontF),
            49 => Some(SkinImage::SmallFontG),
            50 => Some(SkinImage::SmallFontH),
            51 => Some(SkinImage::SmallFontI),
            52 => Some(SkinImage::SmallFontJ),
            53 => Some(SkinImage::SmallFontK),
            54 => Some(SkinImage::SmallFontL),
            55 => Some(SkinImage::SmallFontM),
            56 => Some(SkinImage::SmallFontN),
            57 => Some(SkinImage::SmallFontO),
            58 => Some(SkinImage::SmallFontP),
            59 => Some(SkinImage::SmallFontQ),
            60 => Some(SkinImage::SmallFontR),
            61 => Some(SkinImage::SmallFontS),
            62 => Some(SkinImage::SmallFontT),
            63 => Some(SkinImage::SmallFontU),
            64 => Some(SkinImage::SmallFontV),
            65 => Some(SkinImage::SmallFontW),
            66 => Some(SkinImage::SmallFontX),
            67 => Some(SkinImage::SmallFontY),
            68 => Some(SkinImage::SmallFontZ),
            69 => Some(SkinImage::SmallFontDoubleQuote),
            70 => Some(SkinImage::SmallFontAt),
            71 => Some(SkinImage::SmallFont0),
            72 => Some(SkinImage::SmallFont1),
            73 => Some(SkinImage::SmallFont2),
            74 => Some(SkinImage::SmallFont3),
            75 => Some(SkinImage::SmallFont4),
            76 => Some(SkinImage::SmallFont5),
            77 => Some(SkinImage::SmallFont6),
            78 => Some(SkinImage::SmallFont7),
            79 => Some(SkinImage::SmallFont8),
            80 => Some(SkinImage::SmallFont9),
            81 => Some(SkinImage::SmallFontEllipsis),
            82 => Some(SkinImage::SmallFontPeriodMaybe),
            83 => Some(SkinImage::SmallFontColon),
            84 => Some(SkinImage::SmallFontLeftParen),
            85 => Some(SkinImage::SmallFontRightParen),
            86 => Some(SkinImage::SmallFontHyphen),
            87 => Some(SkinImage::SmallFontSingleQuote),
            88 => Some(SkinImage::SmallFontExclamation),
            89 => Some(SkinImage::SmallFontUnderscore),
            90 => Some(SkinImage::SmallFontPlus),
            91 => Some(SkinImage::SmallFontBackslash),
            92 => Some(SkinImage::SmallFontSlash),
            93 => Some(SkinImage::SmallFontLeftBracket),
            94 => Some(SkinImage::SmallFontRightBracket),
            95 => Some(SkinImage::SmallFontCaret),
            96 => Some(SkinImage::SmallFontAmpersand),
            97 => Some(SkinImage::SmallFontPercent),
            98 => Some(SkinImage::SmallFontComma),
            99 => Some(SkinImage::SmallFontEquals),
            100 => Some(SkinImage::SmallFontDollar),
            101 => Some(SkinImage::SmallFontHash),
            _ => None,
        }
    }

    /// Position and identifier determine each other.
    pub proof fn lemma_index_round_trip(self)
        ensures
            self.spec_index() < SPRITE_COUNT,
            Self::spec_from_index(self.spec_index()) == Some(self),
    {
    }

    /// Every position below `SPRITE_COUNT` holds an identifier, and that
    /// identifier's position is the one asked for.
    pub proof fn lemma_from_index(i: nat)
        ensures
            i < SPRITE_COUNT <==> Self::spec_from_index(i) is Some,
            Self::spec_from_index(i) matches Some(s) ==> s.spec_index() == i,
    {
    }

    /// Two identifiers at the same position are the same identifier.
    pub proof fn lemma_index_injective(a: SkinImage, b: SkinImage)
        requires
            a.spec_index() == b.spec_index(),
        ensures
            a == b,
    {
        a.lemma_index_round_trip();
        b.lemma_index_round_trip();
    }
}

} // verus!
