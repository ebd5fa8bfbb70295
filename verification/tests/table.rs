use std::io::Write;
use winamp_skin::sprites::{SkinImage, SPRITE_COUNT};
use winamp_skin::table::{
    char_SmallFont, compiled_catalog, get_skin_load_specs, iter_VolumeSliderBar, load_skin_data,
    open_skin,
};

fn bmp24(width: u32, height: u32, pixel: fn(u32, u32) -> [u8; 3]) -> Vec<u8> {
    let row = ((width * 3 + 3) / 4) * 4;
    let size = 54 + row * height;
    let mut out = Vec::new();
    out.extend_from_slice(b"BM");
    out.extend_from_slice(&size.to_le_bytes());
    out.extend_from_slice(&0u32.to_le_bytes());
    out.extend_from_slice(&54u32.to_le_bytes());
    out.extend_from_slice(&40u32.to_le_bytes());
    out.extend_from_slice(&(width as i32).to_le_bytes());
    out.extend_from_slice(&(height as i32).to_le_bytes());
    out.extend_from_slice(&1u16.to_le_bytes());
    out.extend_from_slice(&24u16.to_le_bytes());
    out.extend_from_slice(&0u32.to_le_bytes());
    out.extend_from_slice(&(row * height).to_le_bytes());
    out.extend_from_slice(&2835u32.to_le_bytes());
    out.extend_from_slice(&2835u32.to_le_bytes());
    out.extend_from_slice(&0u32.to_le_bytes());
    out.extend_from_slice(&0u32.to_le_bytes());
    for y in (0..height).rev() {
        for x in 0..width {
            let [r, g, b] = pixel(x, y);
            out.extend_from_slice(&[b, g, r]);
        }
        for _ in (width * 3)..row {
            out.push(0);
        }
    }
    out
}

fn package(entries: &[(&str, Vec<u8>)]) -> Vec<u8> {
    let mut writer = zip::ZipWriter::new(std::io::Cursor::new(Vec::new()));
    for (name, bytes) in entries {
        writer.start_file(*name, zip::write::FileOptions::default()).unwrap();
        writer.write_all(bytes).unwrap();
    }
    writer.finish().unwrap().into_inner()
}

fn by_position(x: u32, y: u32) -> [u8; 3] {
    [x as u8, y as u8, (x * 7 + y * 13) as u8]
}

fn classic_package() -> Vec<u8> {
    package(&[
        ("cbuttons.bmp", bmp24(137, 36, by_position)),
        ("Main.bmp", bmp24(275, 116, by_position)),
        ("VOLUME.BMP", bmp24(68, 433, by_position)),
        ("text.BMP", bmp24(155, 12, by_position)),
    ])
}

#[test]
fn sprite_positions_round_trip() {
    for k in 0..SPRITE_COUNT {
        let sprite = SkinImage::from_index(k).unwrap();
        assert_eq!(sprite.index(), k);
    }
    assert_eq!(SkinImage::from_index(SPRITE_COUNT), None);
    assert_eq!(SkinImage::from_index(usize::MAX), None);
    assert_eq!(SkinImage::ButtonPrev.index(), 0);
    assert_eq!(SkinImage::MainWindow.index(), 12);
    assert_eq!(SkinImage::SmallFontHash.index(), SPRITE_COUNT - 1);
}

#[test]
fn sprite_names_are_those_of_the_catalog() {
    assert_eq!(SkinImage::ButtonPrev.name(), "ButtonPrev");
    assert_eq!(SkinImage::ButtonEjectPressed.name(), "ButtonEjectPressed");
    assert_eq!(SkinImage::MainWindow.name(), "MainWindow");
    assert_eq!(SkinImage::VolumeSliderBar0.name(), "VolumeSliderBar0");
    assert_eq!(SkinImage::VolumeSliderBar27.name(), "VolumeSliderBar27");
    assert_eq!(SkinImage::VolumeSliderButtonPressed.name(), "VolumeSliderButtonPressed");
    assert_eq!(SkinImage::SmallFontEllipsis.name(), "SmallFontEllipsis");
    assert_eq!(SkinImage::SmallFontHash.name(), "SmallFontHash");
}

#[test]
fn load_table_lists_the_four_atlas_files() {
    let specs = get_skin_load_specs();
    let files: Vec<&str> = specs.iter().map(|s| s.filename).collect();
    assert_eq!(files, vec!["CBUTTONS.BMP", "MAIN.BMP", "VOLUME.BMP", "TEXT.BMP"]);
    let counts: Vec<usize> = specs.iter().map(|s| s.regions.len()).collect();
    assert_eq!(counts, vec![12, 1, 30, 59]);
}

#[test]
fn load_table_numbers_sprites_in_declaration_order() {
    let specs = get_skin_load_specs();
    let mut next = 0;
    for file in &specs {
        for region in &file.regions {
            assert_eq!(region.image.index(), next);
            next += 1;
        }
    }
    assert_eq!(next, SPRITE_COUNT);
}

#[test]
fn load_table_holds_the_button_and_window_rectangles() {
    let specs = get_skin_load_specs();
    let expected: [(u32, u32, u32, u32, SkinImage); 12] = [
        (0, 0, 22, 18, SkinImage::ButtonPrev),
        (23, 0, 45, 18, SkinImage::ButtonPlay),
        (46, 0, 68, 18, SkinImage::ButtonPause),
        (69, 0, 91, 18, SkinImage::ButtonStop),
        (92, 0, 114, 18, SkinImage::ButtonNext),
        (115, 0, 137, 18, SkinImage::ButtonEject),
        (0, 18, 22, 36, SkinImage::ButtonPrevPressed),
        (23, 18, 45, 36, SkinImage::ButtonPlayPressed),
        (46, 18, 68, 36, SkinImage::ButtonPausePressed),
        (69, 18, 91, 36, SkinImage::ButtonStopPressed),
        (92, 18, 114, 36, SkinImage::ButtonNextPressed),
        (115, 18, 137, 36, SkinImage::ButtonEjectPressed),
    ];
    for (region, (x0, y0, x1, y1, image)) in specs[0].regions.iter().zip(expected) {
        assert_eq!(
            (region.top_left_x, region.top_left_y, region.bottom_right_x, region.bottom_right_y),
            (x0, y0, x1, y1)
        );
        assert_eq!(region.image, image);
    }
    let window = specs[1].regions[0];
    assert_eq!(
        (window.top_left_x, window.top_left_y, window.bottom_right_x, window.bottom_right_y),
        (0, 0, 275, 116)
    );
    assert_eq!(window.image, SkinImage::MainWindow);
}

#[test]
fn load_table_regions_are_not_empty() {
    for file in get_skin_load_specs() {
        for region in file.regions {
            assert!(region.bottom_right_x > region.top_left_x);
            assert!(region.bottom_right_y > region.top_left_y);
        }
    }
}

#[test]
fn button_rows_are_the_twelve_button_rectangles() {
    let rows = load_skin_data();
    assert_eq!(
        rows,
        vec![
            (SkinImage::ButtonPrev, 0, 0, 22, 18),
            (SkinImage::ButtonPlay, 23, 0, 45, 18),
            (SkinImage::ButtonPause, 46, 0, 68, 18),
            (SkinImage::ButtonStop, 69, 0, 91, 18),
            (SkinImage::ButtonNext, 92, 0, 114, 18),
            (SkinImage::ButtonEject, 115, 0, 137, 18),
            (SkinImage::ButtonPrevPressed, 0, 18, 22, 36),
            (SkinImage::ButtonPlayPressed, 23, 18, 45, 36),
            (SkinImage::ButtonPausePressed, 46, 18, 68, 36),
            (SkinImage::ButtonStopPressed, 69, 18, 91, 36),
            (SkinImage::ButtonNextPressed, 92, 18, 114, 36),
            (SkinImage::ButtonEjectPressed, 115, 18, 137, 36),
        ]
    );
}

#[test]
fn volume_frames_come_in_order() {
    let frames = iter_VolumeSliderBar();
    assert_eq!(frames.len(), 28);
    assert_eq!(frames[0], SkinImage::VolumeSliderBar0);
    assert_eq!(frames[13], SkinImage::VolumeSliderBar13);
    assert_eq!(frames[27], SkinImage::VolumeSliderBar27);
    for (k, frame) in frames.iter().enumerate() {
        assert_eq!(frame.name(), format!("VolumeSliderBar{}", k));
    }
}

#[test]
fn font_characters_have_glyphs() {
    assert_eq!(char_SmallFont('A'), Some(SkinImage::SmallFontA));
    assert_eq!(char_SmallFont('Z'), Some(SkinImage::SmallFontZ));
    assert_eq!(char_SmallFont('"'), Some(SkinImage::SmallFontDoubleQuote));
    assert_eq!(char_SmallFont('@'), Some(SkinImage::SmallFontAt));
    assert_eq!(char_SmallFont('0'), Some(SkinImage::SmallFont0));
    assert_eq!(char_SmallFont('9'), Some(SkinImage::SmallFont9));
    assert_eq!(char_SmallFont('\u{2026}'), Some(SkinImage::SmallFontEllipsis));
    assert_eq!(char_SmallFont('.'), Some(SkinImage::SmallFontPeriodMaybe));
    assert_eq!(char_SmallFont('\''), Some(SkinImage::SmallFontSingleQuote));
    assert_eq!(char_SmallFont('\\'), Some(SkinImage::SmallFontBackslash));
    assert_eq!(char_SmallFont('#'), Some(SkinImage::SmallFontHash));
}

#[test]
fn other_characters_have_no_glyph() {
    for c in ['a', 'z', ' ', '?', '*', '\u{e4}', '\n'] {
        assert_eq!(char_SmallFont(c), None);
    }
}

#[test]
fn every_font_glyph_is_reached_by_its_character() {
    let chars = "ABCDEFGHIJKLMNOPQRSTUVWXYZ\"@0123456789\u{2026}.:()-'!_+\\/[]^&%,=$#";
    assert_eq!(winamp_skin::builtin::small_font_text(), chars);
    for (k, c) in chars.chars().enumerate() {
        assert_eq!(char_SmallFont(c).unwrap().index(), 43 + k);
    }
}

#[test]
fn classic_package_loads_every_sprite() {
    let skin = open_skin(&classic_package()).unwrap();
    for file in get_skin_load_specs() {
        for region in file.regions {
            let sprite = skin.get(region.image).unwrap();
            let w = (region.bottom_right_x - region.top_left_x) as usize;
            let h = (region.bottom_right_y - region.top_left_y) as usize;
            assert_eq!(sprite.image, region.image);
            assert_eq!(sprite.size, (w, h));
            assert_eq!(sprite.pixels.len(), w * h * 4);
            let [r, g, b] = by_position(region.top_left_x, region.top_left_y);
            assert_eq!(&sprite.pixels[0..4], &[r, g, b, 255]);
        }
    }
}

#[test]
fn classic_package_without_the_volume_atlas_does_not_load() {
    let data = package(&[
        ("cbuttons.bmp", bmp24(137, 36, by_position)),
        ("main.bmp", bmp24(275, 116, by_position)),
        ("text.bmp", bmp24(155, 12, by_position)),
    ]);
    match open_skin(&data) {
        Err(winamp_skin::skin::SkinError::ExpectedFileMissing(name)) => {
            assert_eq!(name, "VOLUME.BMP")
        },
        Err(other) => panic!("unexpected {:?}", other),
        Ok(_) => panic!("loaded"),
    }
}

#[test]
fn classic_package_with_a_short_atlas_reports_the_region() {
    let data = package(&[
        ("cbuttons.bmp", bmp24(137, 35, by_position)),
        ("main.bmp", bmp24(275, 116, by_position)),
        ("volume.bmp", bmp24(68, 433, by_position)),
        ("text.bmp", bmp24(155, 12, by_position)),
    ]);
    match open_skin(&data) {
        Err(winamp_skin::skin::SkinError::RegionOutOfBounds(region, size)) => {
            assert_eq!(region.image, SkinImage::ButtonPrevPressed);
            assert_eq!(size, (137, 35));
        },
        Err(other) => panic!("unexpected {:?}", other),
        Ok(_) => panic!("loaded"),
    }
}

#[test]
fn compiled_classic_catalog_agrees_with_the_load_table() {
    let compiled = compiled_catalog();
    let specs = get_skin_load_specs();
    assert_eq!(compiled.names.len(), SPRITE_COUNT);
    assert_eq!(compiled.files.len(), specs.len());
    for (file, spec) in compiled.files.iter().zip(specs.iter()) {
        assert_eq!(file.filename, spec.filename);
        assert_eq!(file.regions.len(), spec.regions.len());
        for (numbered, region) in file.regions.iter().zip(spec.regions.iter()) {
            assert_eq!(numbered.sprite, region.image.index());
            assert_eq!(compiled.names[numbered.sprite], region.image.name());
            assert_eq!(
                (
                    numbered.top_left_x,
                    numbered.top_left_y,
                    numbered.bottom_right_x,
                    numbered.bottom_right_y
                ),
                (
                    region.top_left_x,
                    region.top_left_y,
                    region.bottom_right_x,
                    region.bottom_right_y
                )
            );
        }
    }
}
