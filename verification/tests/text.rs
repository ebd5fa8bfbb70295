use winamp_skin::text::{ascii_lower, chars_of, eq_ignoring_case, push_decimal, read_le32};
use winamp_skin::sprites::SkinImage;
use winamp_skin::widgets::{button_face, control_buttons, BarOrientation, ButtonFace};

#[test]
fn ascii_lower_folds_only_ascii_capitals() {
    assert_eq!(ascii_lower('A'), 'a');
    assert_eq!(ascii_lower('Z'), 'z');
    assert_eq!(ascii_lower('M'), 'm');
    assert_eq!(ascii_lower('a'), 'a');
    assert_eq!(ascii_lower('@'), '@');
    assert_eq!(ascii_lower('['), '[');
    assert_eq!(ascii_lower('0'), '0');
    assert_eq!(ascii_lower('.'), '.');
    assert_eq!(ascii_lower('\u{c4}'), '\u{c4}');
    assert_eq!(ascii_lower('\u{2026}'), '\u{2026}');
}

#[test]
fn ascii_lower_agrees_with_std_on_every_ascii_character() {
    for b in 0u8..128 {
        let c = b as char;
        assert_eq!(ascii_lower(c), c.to_ascii_lowercase());
    }
}

#[test]
fn chars_of_keeps_order_and_wide_characters() {
    assert_eq!(chars_of(""), Vec::<char>::new());
    assert_eq!(chars_of("a\u{2026}b"), vec!['a', '\u{2026}', 'b']);
}

#[test]
fn names_compare_without_regard_to_ascii_case() {
    assert!(eq_ignoring_case("MAIN.BMP", "main.bmp"));
    assert!(eq_ignoring_case("Main.Bmp", "mAIN.bMP"));
    assert!(eq_ignoring_case("", ""));
    assert!(!eq_ignoring_case("MAIN.BMP", "main.bm"));
    assert!(!eq_ignoring_case("MAIN.BMP", "maim.bmp"));
    assert!(!eq_ignoring_case("a", ""));
}

#[test]
fn names_with_other_letters_compare_as_written() {
    assert!(eq_ignoring_case("\u{e4}.bmp", "\u{e4}.BMP"));
    assert!(!eq_ignoring_case("\u{c4}.bmp", "\u{e4}.bmp"));
}

#[test]
fn decimal_numerals_are_appended() {
    let cases: [(usize, &str); 8] = [
        (0, "n0"),
        (7, "n7"),
        (9, "n9"),
        (10, "n10"),
        (27, "n27"),
        (100, "n100"),
        (909, "n909"),
        (12345, "n12345"),
    ];
    for (n, expected) in cases {
        let mut s = String::from("n");
        push_decimal(&mut s, n);
        assert_eq!(s, expected);
    }
}

#[test]
fn decimal_numeral_of_the_largest_number() {
    let mut s = String::new();
    push_decimal(&mut s, usize::MAX);
    assert_eq!(s, usize::MAX.to_string());
}

#[test]
fn button_shows_click_face_first() {
    assert_eq!(button_face(true, false, false, false), ButtonFace::Click);
    assert_eq!(button_face(false, true, false, true), ButtonFace::Click);
    assert_eq!(button_face(false, false, true, true), ButtonFace::Click);
    assert_eq!(button_face(true, true, true, true), ButtonFace::Click);
}

#[test]
fn button_shows_hover_face_under_the_pointer() {
    assert_eq!(button_face(false, false, false, true), ButtonFace::Hover);
}

#[test]
fn button_shows_normal_face_otherwise() {
    assert_eq!(button_face(false, false, false, false), ButtonFace::Normal);
}

#[test]
fn bar_orientation_has_two_values() {
    let v = BarOrientation::Vertical;
    let h = BarOrientation::Horizontal;
    assert!(matches!(v.clone(), BarOrientation::Vertical));
    assert!(matches!(h.clone(), BarOrientation::Horizontal));
    assert_ne!(v, h);
}

#[test]
fn control_buttons_sit_in_one_row() {
    let buttons = control_buttons();
    let columns: Vec<u32> = buttons.iter().map(|b| b.x).collect();
    assert_eq!(columns, vec![16, 39, 62, 85, 108, 136]);
    for (k, button) in buttons.iter().enumerate() {
        assert_eq!(button.y, 88);
        assert_eq!(button.texture.index(), k);
        assert_eq!(button.hover_texture, button.texture);
        assert_eq!(button.click_texture.index(), 6 + k);
    }
    assert_eq!(buttons[0].texture, SkinImage::ButtonPrev);
    assert_eq!(buttons[0].click_texture, SkinImage::ButtonPrevPressed);
    assert_eq!(buttons[5].texture, SkinImage::ButtonEject);
    assert_eq!(buttons[5].click_texture, SkinImage::ButtonEjectPressed);
}

#[test]
fn four_bytes_are_read_lowest_first() {
    let data = [9, 0x78, 0x56, 0x34, 0x12, 0xff, 0xff, 0xff, 0xff, 0];
    assert_eq!(read_le32(&data, 1), 0x1234_5678);
    assert_eq!(read_le32(&data, 5), u32::MAX);
    assert_eq!(read_le32(&data, 6), 0x00ff_ffff);
    assert_eq!(read_le32(&[1, 0, 0, 0], 0), 1);
}
