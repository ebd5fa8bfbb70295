//! The catalog of the classic skin layout, and what is derived from it: the
//! load table, the frames of the volume bar and the glyphs of the small font.

use crate::catalog::{
    catalog_of, char_names, checked_char_mapped_enum_names, grid, map_def, map_repeated,
    nameable, numbered_enum_names, numbered_names, region_decls, FileDecl, RegionDecl, SkinFile,
    SkinFileRegion,
};
use crate::text::{strings, strs};
use vstd::pervasive::unreached;
use vstd::prelude::*;

verus! {

/// The six control buttons, left to right.
pub open spec fn button_names() -> Seq<Seq<char>> {
    seq![
        "ButtonPrev"@,
        "ButtonPlay"@,
        "ButtonPause"@,
        "ButtonStop"@,
        "ButtonNext"@,
        "ButtonEject"@,
    ]
}

/// The six control buttons while pressed, left to right.
pub open spec fn pressed_button_names() -> Seq<Seq<char>> {
    seq![
        "ButtonPrevPressed"@,
        "ButtonPlayPressed"@,
        "ButtonPausePressed"@,
        "ButtonStopPressed"@,
        "ButtonNextPressed"@,
        "ButtonEjectPressed"@,
    ]
}

/// How many frames the volume bar has.
pub const VOLUME_FRAMES: usize = 28;

/// How many glyphs the first row of the small font holds.
pub const FONT_FIRST_ROW: usize = 28;

/// How many glyphs the small font has.
pub const FONT_GLYPHS: usize = 59;

/// The characters of the small font, in the order of their glyphs.
pub open spec fn small_font_chars() -> Seq<char> {
    "ABCDEFGHIJKLMNOPQRSTUVWXYZ\"@0123456789\u{2026}.:()-'!_+\\/[]^&%,=$#"@
}

/// The names of the glyphs of the small font, in order.
pub open spec fn small_font_names() -> Seq<Seq<char>> {
    char_names("SmallFont"@, small_font_chars())
}

/// One explicitly placed region.
pub open spec fn placed(x0: int, y0: int, x1: int, y1: int, name: Seq<char>) -> RegionDecl {
    RegionDecl { top_left_x: x0, top_left_y: y0, bottom_right_x: x1, bottom_right_y: y1, name }
}

/// The control buttons: two rows of six cells of 22 by 18 pixels, 23 pixels
/// apart, the pressed faces in the second row.
pub open spec fn control_button_regions() -> Seq<RegionDecl> {
    grid(0, 0, 22, 18, 23, 0, button_names()) + grid(0, 18, 22, 18, 23, 0, pressed_button_names())
}

/// The volume bar: its frames stacked 15 pixels apart, each 68 by 13 pixels,
/// and below them the handle and the pressed handle.
pub open spec fn volume_regions() -> Seq<RegionDecl> {
    grid(0, 0, 68, 13, 0, 15, numbered_names("VolumeSliderBar"@, VOLUME_FRAMES as nat)) + seq![
        placed(0, 422, 13, 432, "VolumeSliderButton"@),
        placed(15, 422, 28, 432, "VolumeSliderButtonPressed"@),
    ]
}

/// The small font: two rows of glyphs of 4 by 6 pixels, 5 pixels apart.
pub open spec fn text_regions() -> Seq<RegionDecl> {
    grid(0, 0, 4, 6, 5, 0, small_font_names().subrange(0, FONT_FIRST_ROW as int)) + grid(
        0,
        6,
        4,
        6,
        5,
        0,
        small_font_names().subrange(FONT_FIRST_ROW as int, FONT_GLYPHS as int),
    )
}

/// The catalog of the classic skin layout.
pub open spec fn builtin_catalog() -> Seq<FileDecl> {
    seq![
        FileDecl { filename: "CBUTTONS.BMP"@, regions: control_button_regions() },
        FileDecl { filename: "MAIN.BMP"@, regions: seq![placed(0, 0, 275, 116, "MainWindow"@)] },
        FileDecl { filename: "VOLUME.BMP"@, regions: volume_regions() },
        FileDecl { filename: "TEXT.BMP"@, regions: text_regions() },
    ]
}

/// The characters of the small font, in the order of their glyphs.
pub fn small_font_text() -> (text: &'static str)
    ensures
        text@ == small_font_chars(),
{
    "ABCDEFGHIJKLMNOPQRSTUVWXYZ\"@0123456789\u{2026}.:()-'!_+\\/[]^&%,=$#"
}

/// The small font has as many characters as it has glyphs.
pub proof fn lemma_font_length()
    ensures
        small_font_chars().len() == FONT_GLYPHS,
{
    reveal_strlit("ABCDEFGHIJKLMNOPQRSTUVWXYZ\"@0123456789\u{2026}.:()-'!_+\\/[]^&%,=$#");
}

/// Every character of the small font has a name that can be part of an
/// identifier.
pub proof fn lemma_font_chars_nameable()
    ensures
        forall|k: int|
            0 <= k < small_font_chars().len() ==> nameable(#[trigger] small_font_chars()[k]),
{
    reveal_strlit("ABCDEFGHIJKLMNOPQRSTUVWXYZ\"@0123456789\u{2026}.:()-'!_+\\/[]^&%,=$#");
}

/// Borrows the names from index `from` up to index `to`.
fn borrow_names<'a>(names: &'a Vec<String>, from: usize, to: usize) -> (out: Vec<&'a str>)
    requires
        from <= to <= names.len(),
    ensures
        strs(out@) == strings(names@).subrange(from as int, to as int),
{
    let mut out: Vec<&'a str> = Vec::new();
    let mut i: usize = from;
    while i < to
        invariant
            from <= i <= to,
            to <= names.len(),
            out.len() == i - from,
            forall|j: int| 0 <= j < out.len() ==> (#[trigger] out[j])@ == names[from + j]@,
        decreases to - i,
    {
        out.push(names[i].as_str());
        i = i + 1;
    }
    assert(strs(out@) =~= strings(names@).subrange(from as int, to as int));
    out
}

/// Joins two runs of region declarations.
fn joined(first: Vec<SkinFileRegion>, second: Vec<SkinFileRegion>) -> (all: Vec<SkinFileRegion>)
    ensures
        region_decls(all@) == region_decls(first@) + region_decls(second@),
{
    let mut all = first;
    let mut rest = second;
    all.append(&mut rest);
    assert(region_decls(all@) =~= region_decls(first@) + region_decls(second@));
    all
}

/// The catalog of the classic skin layout.
pub fn regions() -> (files: Vec<SkinFile>)
    ensures
        catalog_of(files@) == builtin_catalog(),
{
    let volume_slider_bar_names = numbered_enum_names("VolumeSliderBar", VOLUME_FRAMES);
    let small_font_names = match checked_char_mapped_enum_names(
        "SmallFont",
        small_font_text().to_owned(),
    ) {
        Some(names) => names,
        None => {
            proof {
                lemma_font_chars_nameable();
            }
            unreached()
        },
    };
    proof {
        lemma_font_length();
        assert(strings(volume_slider_bar_names@).len() == VOLUME_FRAMES);
        assert(strings(small_font_names@).len() == FONT_GLYPHS);
    }
    let names = vec![
        "ButtonPrev",
        "ButtonPlay",
        "ButtonPause",
        "ButtonStop",
        "ButtonNext",
        "ButtonEject",
    ];
    assert(strs(names@) =~= button_names());
    let pressed_names = vec![
        "ButtonPrevPressed",
        "ButtonPlayPressed",
        "ButtonPausePressed",
        "ButtonStopPressed",
        "ButtonNextPressed",
        "ButtonEjectPressed",
    ];
    assert(strs(pressed_names@) =~= pressed_button_names());
    let control_buttons = SkinFile {
        filename: "CBUTTONS.BMP".to_owned(),
        regions: joined(
            map_repeated(0, 0, 22, 18, 23, 0, names),
            map_repeated(0, 18, 22, 18, 23, 0, pressed_names),
        ),
    };
    let mut main_regions: Vec<SkinFileRegion> = Vec::new();
    main_regions.push(map_def(0, 0, 275, 116, "MainWindow"));
    assert(region_decls(main_regions@) =~= seq![placed(0, 0, 275, 116, "MainWindow"@)]);
    let main_window = SkinFile { filename: "MAIN.BMP".to_owned(), regions: main_regions };
    let mut handles: Vec<SkinFileRegion> = Vec::new();
    handles.push(map_def(0, 422, 13, 432, "VolumeSliderButton"));
    handles.push(map_def(15, 422, 28, 432, "VolumeSliderButtonPressed"));
    assert(region_decls(handles@) =~= seq![
        placed(0, 422, 13, 432, "VolumeSliderButton"@),
        placed(15, 422, 28, 432, "VolumeSliderButtonPressed"@),
    ]);
    let frames = borrow_names(&volume_slider_bar_names, 0, VOLUME_FRAMES);
    assert(strs(frames@) =~= numbered_names("VolumeSliderBar"@, VOLUME_FRAMES as nat));
    let volume = SkinFile {
        filename: "VOLUME.BMP".to_owned(),
        regions: joined(map_repeated(0, 0, 68, 13, 0, 15, frames), handles),
    };
    let first_row = borrow_names(&small_font_names, 0, FONT_FIRST_ROW);
    let second_row = borrow_names(&small_font_names, FONT_FIRST_ROW, FONT_GLYPHS);
    assert(strs(first_row@).len() == FONT_FIRST_ROW);
    assert(strs(second_row@).len() == FONT_GLYPHS - FONT_FIRST_ROW);
    let text = SkinFile {
        filename: "TEXT.BMP".to_owned(),
        regions: joined(
            map_repeated(0, 0, 4, 6, 5, 0, first_row),
            map_repeated(0, 6, 4, 6, 5, 0, second_row),
        ),
    };
    let mut files: Vec<SkinFile> = Vec::new();
    files.push(control_buttons);
    files.push(main_window);
    files.push(volume);
    files.push(text);
    assert(catalog_of(files@) =~= builtin_catalog());
    files
}

} // verus!
