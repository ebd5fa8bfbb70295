use std::collections::HashSet;
use winamp_skin::builtin::regions;
use winamp_skin::catalog::{
    char_mapped_enum_names, char_position, checked_char_mapped_enum_names,
    escape_char_for_string, is_nameable, map_def, map_repeated, map_special_chars_to_names,
    numbered_enum_names, SkinFile, SkinFileRegion,
};
use winamp_skin::compiler::{compile, enum_names, find_duplicate, index_catalog, CatalogError};
use winamp_skin::sprites::{SkinImage, SPRITE_COUNT};

fn corners(r: &SkinFileRegion) -> (u32, u32, u32, u32) {
    (r.top_left_x, r.top_left_y, r.bottom_right_x, r.bottom_right_y)
}

fn file(filename: &str, names: &[&str]) -> SkinFile {
    SkinFile {
        filename: filename.to_string(),
        regions: map_repeated(0, 0, 2, 2, 2, 0, names.to_vec()),
    }
}

#[test]
fn button_strip_matches_manual_computation() {
    let names = vec![
        "ButtonPrev",
        "ButtonPlay",
        "ButtonPause",
        "ButtonStop",
        "ButtonNext",
        "ButtonEject",
    ];
    let out = map_repeated(0, 0, 22, 18, 23, 0, names);
    assert_eq!(out.len(), 6);
    assert_eq!(corners(&out[0]), (0, 0, 22, 18));
    assert_eq!(corners(&out[1]), (23, 0, 45, 18));
    assert_eq!(corners(&out[2]), (46, 0, 68, 18));
    assert_eq!(corners(&out[3]), (69, 0, 91, 18));
    assert_eq!(corners(&out[4]), (92, 0, 114, 18));
    assert_eq!(corners(&out[5]), (115, 0, 137, 18));
    assert_eq!(out[0].enum_name, "ButtonPrev");
    assert_eq!(out[5].enum_name, "ButtonEject");
}

#[test]
fn grid_cell_is_origin_plus_strides_with_fixed_size() {
    let names = vec!["a", "b", "c", "d"];
    let (x, y, w, h, sx, sy) = (7u32, 11u32, 5u32, 3u32, 13u32, 17u32);
    let out = map_repeated(x, y, w, h, sx, sy, names.clone());
    assert_eq!(out.len(), names.len());
    for (i, region) in out.iter().enumerate() {
        let i32u = i as u32;
        assert_eq!(region.top_left_x, x + i32u * sx);
        assert_eq!(region.top_left_y, y + i32u * sy);
        assert_eq!(region.bottom_right_x - region.top_left_x, w);
        assert_eq!(region.bottom_right_y - region.top_left_y, h);
        assert_eq!(region.enum_name, names[i]);
    }
}

#[test]
fn grid_without_names_is_empty() {
    assert!(map_repeated(1, 2, 3, 4, 5, 6, vec![]).is_empty());
}

#[test]
fn grid_may_reach_the_last_coordinate() {
    let out = map_repeated(u32::MAX - 10, 0, 4, 1, 6, 0, vec!["a", "b"]);
    assert_eq!(corners(&out[1]), (u32::MAX - 4, 0, u32::MAX, 1));
}

#[test]
fn grid_with_zero_stride_stacks_cells() {
    let out = map_repeated(3, 4, 2, 2, 0, 0, vec!["a", "b", "c"]);
    for region in &out {
        assert_eq!(corners(region), (3, 4, 5, 6));
    }
}

#[test]
fn explicit_region_keeps_its_corners_and_name() {
    let r = map_def(0, 422, 13, 432, "VolumeSliderButton");
    assert_eq!(corners(&r), (0, 422, 13, 432));
    assert_eq!(r.enum_name, "VolumeSliderButton");
}

#[test]
fn numbered_names_count_from_zero() {
    let names = numbered_enum_names("VolumeSliderBar", 28);
    assert_eq!(names.len(), 28);
    assert_eq!(names[0], "VolumeSliderBar0");
    assert_eq!(names[9], "VolumeSliderBar9");
    assert_eq!(names[10], "VolumeSliderBar10");
    assert_eq!(names[27], "VolumeSliderBar27");
    for (i, name) in names.iter().enumerate() {
        assert_eq!(*name, format!("VolumeSliderBar{}", i));
    }
}

#[test]
fn numbered_names_of_zero_count_are_none() {
    assert!(numbered_enum_names("x", 0).is_empty());
}

#[test]
fn every_special_character_has_its_name() {
    let table: [(char, &str); 23] = [
        ('"', "DoubleQuote"),
        ('@', "At"),
        ('.', "PeriodMaybe"),
        ('-', "Hyphen"),
        (':', "Colon"),
        ('(', "LeftParen"),
        (')', "RightParen"),
        ('\'', "SingleQuote"),
        ('!', "Exclamation"),
        ('_', "Underscore"),
        ('+', "Plus"),
        ('\\', "Backslash"),
        ('/', "Slash"),
        ('[', "LeftBracket"),
        (']', "RightBracket"),
        ('^', "Caret"),
        ('&', "Ampersand"),
        ('%', "Percent"),
        (',', "Comma"),
        ('=', "Equals"),
        ('$', "Dollar"),
        ('#', "Hash"),
        ('\u{2026}', "Ellipsis"),
    ];
    for (c, name) in table {
        assert_eq!(map_special_chars_to_names(c), name);
    }
}

#[test]
fn letters_and_digits_name_themselves() {
    for c in "ABCXYZabcxyz0123456789".chars() {
        assert_eq!(map_special_chars_to_names(c), c.to_string());
    }
}

#[test]
fn unlisted_characters_fall_back_to_themselves() {
    assert_eq!(map_special_chars_to_names('?'), "?");
    assert_eq!(map_special_chars_to_names('\u{e4}'), "\u{e4}");
}

#[test]
fn char_mapped_names_follow_the_characters() {
    let names = char_mapped_enum_names("SmallFont", "A\"9.'\u{2026}".to_string());
    assert_eq!(
        names,
        vec![
            "SmallFontA",
            "SmallFontDoubleQuote",
            "SmallFont9",
            "SmallFontPeriodMaybe",
            "SmallFontSingleQuote",
            "SmallFontEllipsis",
        ]
    );
}

#[test]
fn char_mapped_names_of_empty_string_are_none() {
    assert!(char_mapped_enum_names("SmallFont", String::new()).is_empty());
}

#[test]
fn quote_and_backslash_are_escaped() {
    assert_eq!(escape_char_for_string('\''), "\\'");
    assert_eq!(escape_char_for_string('\\'), "\\\\");
    assert_eq!(escape_char_for_string('"'), "\"");
    assert_eq!(escape_char_for_string('a'), "a");
    assert_eq!(escape_char_for_string('\u{2026}'), "\u{2026}");
}

#[test]
fn classic_catalog_has_four_files() {
    let catalog = regions();
    let names: Vec<&str> = catalog.iter().map(|f| f.filename.as_str()).collect();
    assert_eq!(names, vec!["CBUTTONS.BMP", "MAIN.BMP", "VOLUME.BMP", "TEXT.BMP"]);
    let counts: Vec<usize> = catalog.iter().map(|f| f.regions.len()).collect();
    assert_eq!(counts, vec![12, 1, 30, 59]);
}

#[test]
fn classic_catalog_places_the_pressed_buttons_in_the_second_row() {
    let catalog = regions();
    let buttons = &catalog[0].regions;
    assert_eq!(corners(&buttons[6]), (0, 18, 22, 36));
    assert_eq!(buttons[6].enum_name, "ButtonPrevPressed");
    assert_eq!(corners(&buttons[11]), (115, 18, 137, 36));
    assert_eq!(buttons[11].enum_name, "ButtonEjectPressed");
}

#[test]
fn classic_catalog_stacks_the_volume_frames() {
    let catalog = regions();
    let volume = &catalog[2].regions;
    assert_eq!(corners(&volume[0]), (0, 0, 68, 13));
    assert_eq!(volume[0].enum_name, "VolumeSliderBar0");
    assert_eq!(corners(&volume[27]), (0, 405, 68, 418));
    assert_eq!(volume[27].enum_name, "VolumeSliderBar27");
    assert_eq!(corners(&volume[28]), (0, 422, 13, 432));
    assert_eq!(volume[28].enum_name, "VolumeSliderButton");
    assert_eq!(corners(&volume[29]), (15, 422, 28, 432));
    assert_eq!(volume[29].enum_name, "VolumeSliderButtonPressed");
}

#[test]
fn classic_catalog_splits_the_font_into_two_rows() {
    let catalog = regions();
    let text = &catalog[3].regions;
    assert_eq!(corners(&text[0]), (0, 0, 4, 6));
    assert_eq!(text[0].enum_name, "SmallFontA");
    assert_eq!(corners(&text[27]), (135, 0, 139, 6));
    assert_eq!(text[27].enum_name, "SmallFontAt");
    assert_eq!(corners(&text[28]), (0, 6, 4, 12));
    assert_eq!(text[28].enum_name, "SmallFont0");
    assert_eq!(corners(&text[58]), (150, 6, 154, 12));
    assert_eq!(text[58].enum_name, "SmallFontHash");
}

#[test]
fn classic_catalog_compiles_without_duplicate_names() {
    let compiled = match compile(&regions()) {
        Ok(compiled) => compiled,
        Err(CatalogError::DuplicateName(name)) => panic!("duplicate name {}", name),
    };
    assert_eq!(compiled.names.len(), SPRITE_COUNT);
    let distinct: HashSet<&String> = compiled.names.iter().collect();
    assert_eq!(distinct.len(), compiled.names.len());
}

#[test]
fn sprite_identifiers_are_spelled_like_the_compiled_names() {
    let compiled = compile(&regions()).unwrap();
    for (k, name) in compiled.names.iter().enumerate() {
        let sprite = SkinImage::from_index(k).unwrap();
        assert_eq!(format!("{:?}", sprite), *name);
        assert_eq!(sprite.name(), *name);
    }
}

#[test]
fn compiled_table_numbers_regions_in_declaration_order() {
    let catalog = vec![file("A.BMP", &["a0", "a1"]), file("B.BMP", &[]), file("C.BMP", &["c0"])];
    let compiled = compile(&catalog).unwrap();
    assert_eq!(compiled.names, vec!["a0", "a1", "c0"]);
    assert_eq!(compiled.files.len(), 3);
    assert_eq!(compiled.files[0].filename, "A.BMP");
    assert_eq!(compiled.files[1].filename, "B.BMP");
    assert_eq!(compiled.files[2].filename, "C.BMP");
    let sprites: Vec<Vec<usize>> = compiled
        .files
        .iter()
        .map(|f| f.regions.iter().map(|r| r.sprite).collect())
        .collect();
    assert_eq!(sprites, vec![vec![0, 1], vec![], vec![2]]);
    let second = compiled.files[0].regions[1];
    assert_eq!(
        (second.top_left_x, second.top_left_y, second.bottom_right_x, second.bottom_right_y),
        (2, 0, 4, 2)
    );
}

#[test]
fn compile_names_the_first_repeated_name() {
    let catalog = vec![file("A.BMP", &["x", "y", "z"]), file("B.BMP", &["w", "z", "y", "x"])];
    match compile(&catalog) {
        Err(CatalogError::DuplicateName(name)) => assert_eq!(name, "z"),
        Ok(_) => panic!("a catalog with a repeated name compiled"),
    }
}

#[test]
fn compile_rejects_a_name_repeated_within_one_file() {
    let catalog = vec![file("A.BMP", &["x", "x"])];
    assert!(matches!(compile(&catalog), Err(CatalogError::DuplicateName(name)) if name == "x"));
}

#[test]
fn empty_catalog_compiles_to_nothing() {
    let compiled = compile(&Vec::new()).unwrap();
    assert!(compiled.names.is_empty());
    assert!(compiled.files.is_empty());
}

#[test]
fn names_differing_in_case_are_different_sprites() {
    let catalog = vec![file("A.BMP", &["x", "X"])];
    assert!(compile(&catalog).is_ok());
}

#[test]
fn enum_names_flattens_the_files() {
    let catalog = vec![file("A.BMP", &["a"]), file("B.BMP", &["b", "c"])];
    assert_eq!(enum_names(&catalog), vec!["a", "b", "c"]);
}

#[test]
fn find_duplicate_gives_the_first_repeating_index() {
    let names: Vec<String> = ["a", "b", "c", "b", "a"].iter().map(|s| s.to_string()).collect();
    assert_eq!(find_duplicate(&names), Some(3));
    let names: Vec<String> = ["a", "b", "c"].iter().map(|s| s.to_string()).collect();
    assert_eq!(find_duplicate(&names), None);
    assert_eq!(find_duplicate(&Vec::new()), None);
}

#[test]
fn index_catalog_keeps_corners() {
    let catalog = vec![SkinFile {
        filename: "A.BMP".to_string(),
        regions: vec![map_def(1, 2, 3, 4, "a"), map_def(5, 6, 7, 8, "b")],
    }];
    let files = index_catalog(&catalog);
    let r = files[0].regions[1];
    assert_eq!(
        (r.top_left_x, r.top_left_y, r.bottom_right_x, r.bottom_right_y, r.sprite),
        (5, 6, 7, 8, 1)
    );
}

#[test]
fn char_position_is_the_first_place_of_the_character() {
    assert_eq!(char_position("ABCA", 'A'), Some(0));
    assert_eq!(char_position("ABCA", 'C'), Some(2));
    assert_eq!(char_position("AB\u{2026}C", 'C'), Some(3));
    assert_eq!(char_position("ABCA", 'a'), None);
    assert_eq!(char_position("", 'A'), None);
}

#[test]
fn listed_signs_letters_digits_and_underscore_are_nameable() {
    for c in "ABCXYZabcxyz0123456789_\"@.-:()'!+\\/[]^&%,=$#\u{2026}".chars() {
        assert!(is_nameable(c), "{:?}", c);
    }
}

#[test]
fn other_characters_are_not_nameable() {
    for c in [' ', '?', '*', '<', '>', '{', '}', '|', '~', '`', ';', '\n', '\u{e4}', '\u{416}'] {
        assert!(!is_nameable(c), "{:?}", c);
    }
}

#[test]
fn nameable_characters_have_identifier_names() {
    for code in 0u32..0x3000 {
        let c = match char::from_u32(code) {
            Some(c) => c,
            None => continue,
        };
        let name = map_special_chars_to_names(c);
        let identifier = name.chars().all(|n| n.is_ascii_alphanumeric() || n == '_');
        assert_eq!(identifier, is_nameable(c), "{:?}", c);
    }
}

#[test]
fn checked_names_are_given_only_for_nameable_characters() {
    assert_eq!(
        checked_char_mapped_enum_names("SmallFont", "A\"9_".to_string()),
        Some(vec![
            "SmallFontA".to_string(),
            "SmallFontDoubleQuote".to_string(),
            "SmallFont9".to_string(),
            "SmallFontUnderscore".to_string(),
        ])
    );
    assert_eq!(checked_char_mapped_enum_names("SmallFont", "AB?C".to_string()), None);
    assert_eq!(checked_char_mapped_enum_names("SmallFont", " ".to_string()), None);
    assert_eq!(checked_char_mapped_enum_names("SmallFont", String::new()), Some(Vec::new()));
    let font = winamp_skin::builtin::small_font_text();
    assert_eq!(
        checked_char_mapped_enum_names("SmallFont", font.to_string()),
        Some(char_mapped_enum_names("SmallFont", font.to_string()))
    );
}
