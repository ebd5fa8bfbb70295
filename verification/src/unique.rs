//! The sprite names of the classic catalog are all different.

use crate::builtin::{
    builtin_catalog, button_names, lemma_font_length, pressed_button_names, small_font_chars,
    small_font_names, FONT_FIRST_ROW, FONT_GLYPHS, VOLUME_FRAMES,
};
use crate::catalog::char_name;
use crate::compiler::{lemma_name_at, names_in};
use crate::sprites::SPRITE_COUNT;
use crate::table::{lemma_builtin_offsets, FIRST_FONT_GLYPH, FIRST_VOLUME_FRAME};
use crate::text::{decimal, lemma_decimal_injective, lemma_same_prefix};
use vstd::prelude::*;

verus! {

/// The readable names of the listed signs, spelled out.
proof fn lemma_reveal_char_names()
    ensures
        "DoubleQuote"@.len() == 11 && "DoubleQuote"@[0] == 'D' && "DoubleQuote"@[2] == 'u',
        "At"@.len() == 2,
        "PeriodMaybe"@.len() == 11 && "PeriodMaybe"@[0] == 'P',
        "Hyphen"@.len() == 6 && "Hyphen"@[0] == 'H',
        "Colon"@.len() == 5 && "Colon"@[0] == 'C' && "Colon"@[1] == 'o' && "Colon"@[2] == 'l',
        "LeftParen"@.len() == 9,
        "RightParen"@.len() == 10,
        "SingleQuote"@.len() == 11 && "SingleQuote"@[0] == 'S',
        "Exclamation"@.len() == 11 && "Exclamation"@[0] == 'E',
        "Underscore"@.len() == 10 && "Underscore"@[0] == 'U',
        "Plus"@.len() == 4 && "Plus"@[0] == 'P',
        "Backslash"@.len() == 9 && "Backslash"@[0] == 'B',
        "Slash"@.len() == 5 && "Slash"@[0] == 'S',
        "LeftBracket"@.len() == 11 && "LeftBracket"@[0] == 'L',
        "RightBracket"@.len() == 12,
        "Caret"@.len() == 5 && "Caret"@[0] == 'C' && "Caret"@[1] == 'a',
        "Ampersand"@.len() == 9 && "Ampersand"@[0] == 'A',
        "Percent"@.len() == 7,
        "Comma"@.len() == 5 && "Comma"@[0] == 'C' && "Comma"@[1] == 'o' && "Comma"@[2] == 'm',
        "Equals"@.len() == 6 && "Equals"@[0] == 'E',
        "Dollar"@.len() == 6 && "Dollar"@[0] == 'D',
        "Hash"@.len() == 4 && "Hash"@[0] == 'H',
        "Ellipsis"@.len() == 8,
        "LeftParen"@[0] == 'L',
        "RightParen"@[0] == 'R',
        "Underscore"@[0] == 'U',
{
    reveal_strlit("DoubleQuote");
    reveal_strlit("At");
    reveal_strlit("PeriodMaybe");
    reveal_strlit("Hyphen");
    reveal_strlit("Colon");
    reveal_strlit("LeftParen");
    reveal_strlit("RightParen");
    reveal_strlit("SingleQuote");
    reveal_strlit("Exclamation");
    reveal_strlit("Underscore");
    reveal_strlit("Plus");
    reveal_strlit("Backslash");
    reveal_strlit("Slash");
    reveal_strlit("LeftBracket");
    reveal_strlit("RightBracket");
    reveal_strlit("Caret");
    reveal_strlit("Ampersand");
    reveal_strlit("Percent");
    reveal_strlit("Comma");
    reveal_strlit("Equals");
    reveal_strlit("Dollar");
    reveal_strlit("Hash");
    reveal_strlit("Ellipsis");
}

/// Different characters have different readable names.
pub proof fn lemma_char_name_injective(a: char, b: char)
    requires
        char_name(a) == char_name(b),
    ensures
        a == b,
{
    lemma_reveal_char_names();
    let x = char_name(a);
    let y = char_name(b);
    assert(x.len() == y.len());
    if x.len() == 1 {
        assert(x[0] == y[0]);
    } else {
        assert(x[0] == y[0]);
        if x.len() == 5 {
            assert(x[1] == y[1]);
            assert(x[2] == y[2]);
        }
    }
}

/// No character stands twice in the small font.
pub proof fn lemma_font_chars_distinct(i: int, j: int)
    requires
        0 <= i < j < FONT_GLYPHS,
    ensures
        small_font_chars()[i] != small_font_chars()[j],
{
    reveal_strlit("ABCDEFGHIJKLMNOPQRSTUVWXYZ\"@0123456789\u{2026}.:()-'!_+\\/[]^&%,=$#");
}

/// The name at each position of the classic catalog's sprite names.
pub proof fn lemma_builtin_name(i: int)
    requires
        0 <= i < SPRITE_COUNT,
    ensures
        names_in(builtin_catalog()).len() == SPRITE_COUNT,
        i < 6 ==> names_in(builtin_catalog())[i] == button_names()[i],
        6 <= i < 12 ==> names_in(builtin_catalog())[i] == pressed_button_names()[i - 6],
        i == 12 ==> names_in(builtin_catalog())[i] == "MainWindow"@,
        FIRST_VOLUME_FRAME <= i < FIRST_VOLUME_FRAME + VOLUME_FRAMES ==> names_in(
            builtin_catalog(),
        )[i] == "VolumeSliderBar"@ + decimal((i - FIRST_VOLUME_FRAME) as nat),
        i == 41 ==> names_in(builtin_catalog())[i] == "VolumeSliderButton"@,
        i == 42 ==> names_in(builtin_catalog())[i] == "VolumeSliderButtonPressed"@,
        FIRST_FONT_GLYPH <= i ==> names_in(builtin_catalog())[i] == "SmallFont"@ + char_name(
            small_font_chars()[i - FIRST_FONT_GLYPH],
        ),
{
    lemma_builtin_offsets();
    lemma_font_length();
    if i < 12 {
        lemma_name_at(builtin_catalog(), 0, i);
    } else if i == 12 {
        lemma_name_at(builtin_catalog(), 1, 0);
    } else if i < FIRST_FONT_GLYPH {
        lemma_name_at(builtin_catalog(), 2, i - FIRST_VOLUME_FRAME);
    } else {
        let k = i - FIRST_FONT_GLYPH;
        lemma_name_at(builtin_catalog(), 3, k);
        let names = small_font_names();
        if k < FONT_FIRST_ROW {
            assert(names.subrange(0, FONT_FIRST_ROW as int)[k] == names[k]);
        } else {
            assert(names.subrange(FONT_FIRST_ROW as int, FONT_GLYPHS as int)[k - FONT_FIRST_ROW]
                == names[k]);
        }
    }
}

/// How the fixed names of the classic catalog begin and how long they are.
proof fn lemma_reveal_fixed_names()
    ensures
        forall|i: int| 0 <= i < 6 ==> (#[trigger] button_names()[i])[0] == 'B',
        forall|i: int| 0 <= i < 6 ==> (#[trigger] pressed_button_names()[i])[0] == 'B',
        forall|i: int| 0 <= i < 6 ==> (#[trigger] button_names()[i]).len() <= 11,
        forall|i: int| 0 <= i < 6 ==> (#[trigger] pressed_button_names()[i]).len() >= 17,
        forall|i: int, j: int| 0 <= i < j < 6 ==> button_names()[i] != button_names()[j],
        forall|i: int, j: int|
            0 <= i < j < 6 ==> pressed_button_names()[i] != pressed_button_names()[j],
        "MainWindow"@[0] == 'M',
        "VolumeSliderBar"@.len() == 15,
        "VolumeSliderBar"@[0] == 'V',
        "VolumeSliderBar"@[13] == 'a',
        "VolumeSliderButton"@.len() == 18,
        "VolumeSliderButton"@[0] == 'V',
        "VolumeSliderButton"@[13] == 'u',
        "VolumeSliderButtonPressed"@.len() == 25,
        "VolumeSliderButtonPressed"@[0] == 'V',
        "VolumeSliderButtonPressed"@[13] == 'u',
        "SmallFont"@.len() == 9,
        "SmallFont"@[0] == 'S',
{
    reveal_strlit("ButtonPrev");
    reveal_strlit("ButtonPlay");
    reveal_strlit("ButtonPause");
    reveal_strlit("ButtonStop");
    reveal_strlit("ButtonNext");
    reveal_strlit("ButtonEject");
    reveal_strlit("ButtonPrevPressed");
    reveal_strlit("ButtonPlayPressed");
    reveal_strlit("ButtonPausePressed");
    reveal_strlit("ButtonStopPressed");
    reveal_strlit("ButtonNextPressed");
    reveal_strlit("ButtonEjectPressed");
    reveal_strlit("MainWindow");
    reveal_strlit("VolumeSliderBar");
    reveal_strlit("VolumeSliderButton");
    reveal_strlit("VolumeSliderButtonPressed");
    reveal_strlit("SmallFont");
    assert forall|i: int, j: int| 0 <= i < j < 6 implies button_names()[i] != button_names()[j] by {
        let a = button_names()[i];
        let b = button_names()[j];
        if a == b {
            assert(a[8] == b[8]);
            assert(a[9] == b[9]);
        }
    }
    assert forall|i: int, j: int| 0 <= i < j < 6 implies pressed_button_names()[i]
        != pressed_button_names()[j] by {
        let a = pressed_button_names()[i];
        let b = pressed_button_names()[j];
        if a == b {
            assert(a[8] == b[8]);
            assert(a[9] == b[9]);
        }
    }
}

/// Two positions of the classic catalog's sprite names hold different names.
pub proof fn lemma_builtin_names_differ(i: int, j: int)
    requires
        0 <= i < j < SPRITE_COUNT,
    ensures
        names_in(builtin_catalog())[i] != names_in(builtin_catalog())[j],
{
    lemma_builtin_name(i);
    lemma_builtin_name(j);
    lemma_reveal_fixed_names();
    lemma_font_length();
    let a = names_in(builtin_catalog())[i];
    let b = names_in(builtin_catalog())[j];
    if a == b {
        assert(a[0] == b[0]);
        assert(a.len() == b.len());
        if j < 12 {
            if i < 6 && j >= 6 {
                assert(button_names()[i].len() <= 11);
                assert(pressed_button_names()[j - 6].len() >= 17);
            }
        } else if i >= FIRST_FONT_GLYPH {
            let x = small_font_chars()[i - FIRST_FONT_GLYPH];
            let y = small_font_chars()[j - FIRST_FONT_GLYPH];
            lemma_same_prefix("SmallFont"@, char_name(x), char_name(y));
            lemma_char_name_injective(x, y);
            lemma_font_chars_distinct(i - FIRST_FONT_GLYPH, j - FIRST_FONT_GLYPH);
        } else if i >= FIRST_VOLUME_FRAME && j < FIRST_FONT_GLYPH {
            if j < 41 {
                let m = (i - FIRST_VOLUME_FRAME) as nat;
                let n = (j - FIRST_VOLUME_FRAME) as nat;
                lemma_same_prefix("VolumeSliderBar"@, decimal(m), decimal(n));
                lemma_decimal_injective(m, n);
            } else if i < 41 {
                assert(a[13] == "VolumeSliderBar"@[13]);
                assert(a[13] == b[13]);
            }
        } else {
            if i < 6 {
                assert(button_names()[i][0] == 'B');
            } else if i < 12 {
                assert(pressed_button_names()[i - 6][0] == 'B');
            }
            if j >= FIRST_FONT_GLYPH {
                assert(b[0] == "SmallFont"@[0]);
            } else if j >= FIRST_VOLUME_FRAME && j < 41 {
                assert(b[0] == "VolumeSliderBar"@[0]);
            }
            if i >= FIRST_VOLUME_FRAME && i < 41 {
                assert(a[0] == "VolumeSliderBar"@[0]);
            }
        }
    }
}

/// The sprite names of the classic catalog are all different: the catalog
/// compiles.
pub proof fn lemma_builtin_names_unique()
    ensures
        names_in(builtin_catalog()).no_duplicates(),
{
    lemma_builtin_offsets();
    assert forall|i: int, j: int|
        0 <= i < names_in(builtin_catalog()).len() && 0 <= j < names_in(builtin_catalog()).len()
            && i != j implies names_in(builtin_catalog())[i] != names_in(builtin_catalog())[j] by {
        if i < j {
            lemma_builtin_names_differ(i, j);
        } else {
            lemma_builtin_names_differ(j, i);
        }
    }
}

} // verus!
