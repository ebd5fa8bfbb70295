//! The load table of the classic skin layout, with each region's sprite as
//! a sprite identifier, and the lookups that go with it.

use crate::archive::{lists, package_names};
use crate::atlas::RectLoadSpec;
use crate::builtin::{
    builtin_catalog, lemma_font_length, regions, small_font_chars, small_font_text, FONT_GLYPHS,
    VOLUME_FRAMES,
};
use crate::bundle::WinampSkin;
use crate::catalog::{char_name, char_position, first_index_of, FileDecl};
use crate::compiler::{
    compile, indexed, indexed_files, lemma_name_at, lemma_regions_before, names_in,
    regions_before, CompiledCatalog, IndexedFileModel, IndexedRegion,
};
use crate::laws::table_sprites;
use crate::loader::{agrees, load_skin, table_of, FileLoadSpec, FileTable};
use crate::skin::{SkinError, SkinFailure};
use crate::sprites::{SkinImage, SPRITE_COUNT};
use crate::text::{decimal, strings};
use crate::unique::{lemma_builtin_name, lemma_builtin_names_unique};
use vstd::pervasive::unreached;
use vstd::prelude::*;

verus! {

/// The position of the first frame of the volume bar among the sprites.
pub const FIRST_VOLUME_FRAME: usize = 13;

/// The position of the first glyph of the small font among the sprites.
pub const FIRST_FONT_GLYPH: usize = 43;

/// A numbered region with the sprite identifier at its sprite's position.
pub open spec fn sprite_rect(region: IndexedRegion) -> RectLoadSpec {
    RectLoadSpec {
        top_left_x: region.top_left_x,
        top_left_y: region.top_left_y,
        bottom_right_x: region.bottom_right_x,
        bottom_right_y: region.bottom_right_y,
        image: SkinImage::spec_from_index(region.sprite as nat).unwrap(),
    }
}

/// Numbered regions with sprite identifiers, one by one.
pub open spec fn sprite_rects(regions: Seq<IndexedRegion>) -> Seq<RectLoadSpec> {
    Seq::new(regions.len(), |j: int| sprite_rect(regions[j]))
}

/// A numbered load table with sprite identifiers.
pub open spec fn load_table(files: Seq<IndexedFileModel>) -> Seq<FileTable> {
    Seq::new(
        files.len(),
        |i: int| FileTable { filename: files[i].filename, regions: sprite_rects(files[i].regions) },
    )
}

/// The load table of the classic skin layout: the files of its catalog in
/// order, and for each region the sprite identifier at the position that the
/// region's name has among the catalog's sprite names.
pub open spec fn builtin_table() -> Seq<FileTable> {
    load_table(indexed(builtin_catalog()))
}

/// The name of a sprite identifier: the name at its position among the
/// sprite names of the classic catalog.
pub open spec fn sprite_name(sprite: SkinImage) -> Seq<char> {
    names_in(builtin_catalog())[sprite.spec_index() as int]
}

/// Where the files of the classic catalog begin among the sprites, and that
/// the catalog declares as many regions as there are sprite identifiers.
pub proof fn lemma_builtin_offsets()
    ensures
        builtin_catalog().len() == 4,
        builtin_catalog()[0].regions.len() == 12,
        builtin_catalog()[1].regions.len() == 1,
        builtin_catalog()[2].regions.len() == VOLUME_FRAMES + 2,
        builtin_catalog()[3].regions.len() == FONT_GLYPHS,
        regions_before(builtin_catalog(), 0) == 0,
        regions_before(builtin_catalog(), 1) == 12,
        regions_before(builtin_catalog(), 2) == FIRST_VOLUME_FRAME,
        regions_before(builtin_catalog(), 3) == FIRST_FONT_GLYPH,
        names_in(builtin_catalog()).len() == SPRITE_COUNT,
{
    lemma_font_length();
    lemma_regions_before(builtin_catalog(), 0);
    lemma_regions_before(builtin_catalog(), 1);
    lemma_regions_before(builtin_catalog(), 2);
    lemma_regions_before(builtin_catalog(), 3);
}

/// The classic catalog, compiled: its sprite names, which are all
/// different, and its numbered load table.
pub fn compiled_catalog() -> (compiled: CompiledCatalog)
    ensures
        strings(compiled.names@) == names_in(builtin_catalog()),
        indexed_files(compiled.files@) == indexed(builtin_catalog()),
        names_in(builtin_catalog()).no_duplicates(),
        compiled.names.len() == SPRITE_COUNT,
        compiled.files.len() == 4,
{
    proof {
        lemma_builtin_names_unique();
        lemma_builtin_offsets();
    }
    match compile(&regions()) {
        Ok(compiled) => {
            assert(strings(compiled.names@).len() == compiled.names.len());
            assert(indexed_files(compiled.files@).len() == compiled.files.len());
            compiled
        },
        Err(_) => unreached(),
    }
}

/// The sprites that the load table of a catalog names are the sprite
/// identifiers in the order of their positions, as many as the catalog has
/// regions.
pub proof fn lemma_load_table_sprites(catalog: Seq<FileDecl>, n: int)
    requires
        0 <= n <= catalog.len(),
        names_in(catalog).len() <= usize::MAX,
    ensures
        table_sprites(load_table(indexed(catalog)).take(n)) == Seq::new(
            regions_before(catalog, n),
            |p: int| SkinImage::spec_from_index(p as nat).unwrap(),
        ),
    decreases n,
{
    let table = load_table(indexed(catalog));
    let all = Seq::new(
        regions_before(catalog, n),
        |p: int| SkinImage::spec_from_index(p as nat).unwrap(),
    );
    if n == 0 {
        assert(names_in(catalog.take(0)) =~= Seq::<Seq<char>>::empty());
        assert(table_sprites(table.take(n)) =~= all);
    } else {
        lemma_load_table_sprites(catalog, n - 1);
        lemma_regions_before(catalog, n - 1);
        let upto = table.take(n);
        assert(upto.last() == table[n - 1]);
        assert(upto.drop_last() =~= table.take(n - 1));
        assert(table_sprites(upto) =~= all);
    }
}

/// The load table of the classic skin layout names every sprite identifier
/// once, in the order of their positions.
pub proof fn lemma_builtin_table_sprites()
    ensures
        table_sprites(builtin_table()).len() == SPRITE_COUNT,
        forall|p: int|
            0 <= p < SPRITE_COUNT ==> (#[trigger] table_sprites(builtin_table())[p]).spec_index()
                == p,
        table_sprites(builtin_table()).no_duplicates(),
{
    lemma_builtin_offsets();
    lemma_load_table_sprites(builtin_catalog(), 4);
    lemma_regions_before(builtin_catalog(), 3);
    assert(builtin_table().take(4) =~= builtin_table());
    assert forall|p: int| 0 <= p < SPRITE_COUNT implies (#[trigger] table_sprites(
        builtin_table(),
    )[p]).spec_index() == p by {
        SkinImage::lemma_from_index(p as nat);
    }
}

/// Gives each numbered region its sprite identifier.
fn rects_of(regions: &Vec<IndexedRegion>) -> (rects: Vec<RectLoadSpec>)
    requires
        forall|j: int| 0 <= j < regions.len() ==> (#[trigger] regions[j]).sprite < SPRITE_COUNT,
    ensures
        rects@ == sprite_rects(regions@),
{
    let mut rects: Vec<RectLoadSpec> = Vec::new();
    let mut j: usize = 0;
    while j < regions.len()
        invariant
            j <= regions.len(),
            forall|k: int| 0 <= k < regions.len() ==> (#[trigger] regions[k]).sprite < SPRITE_COUNT,
            rects.len() == j,
            forall|k: int| 0 <= k < j ==> #[trigger] rects[k] == sprite_rect(regions[k]),
        decreases regions.len() - j,
    {
        let region = regions[j];
        let image = SkinImage::from_index(region.sprite).unwrap();
        rects.push(
            RectLoadSpec {
                top_left_x: region.top_left_x,
                top_left_y: region.top_left_y,
                bottom_right_x: region.bottom_right_x,
                bottom_right_y: region.bottom_right_y,
                image,
            },
        );
        j = j + 1;
    }
    assert(rects@ =~= sprite_rects(regions@));
    rects
}

/// The load table of the classic skin layout. It is made from the catalog
/// as `compile` gives it, which gives none for a catalog in which a name
/// repeats: no two regions of the catalog behind the table share a name.
pub fn get_skin_load_specs() -> (specs: Vec<FileLoadSpec<'static>>)
    ensures
        table_of(specs@) == builtin_table(),
        names_in(builtin_catalog()).no_duplicates(),
{
    let compiled = compiled_catalog();
    let files = &compiled.files;
    let ghost numbered_table = indexed(builtin_catalog());
    proof {
        lemma_builtin_offsets();
        assert forall|i: int, j: int|
            0 <= i < 4 && 0 <= j < files[i].regions.len() implies (#[trigger] files[i].regions[j]).sprite
            < SPRITE_COUNT by {
            assert(files[i]@ == numbered_table[i]);
            lemma_regions_before(builtin_catalog(), i);
        }
    }
    let mut specs: Vec<FileLoadSpec<'static>> = Vec::new();
    specs.push(FileLoadSpec { filename: "CBUTTONS.BMP", regions: rects_of(&files[0].regions) });
    specs.push(FileLoadSpec { filename: "MAIN.BMP", regions: rects_of(&files[1].regions) });
    specs.push(FileLoadSpec { filename: "VOLUME.BMP", regions: rects_of(&files[2].regions) });
    specs.push(FileLoadSpec { filename: "TEXT.BMP", regions: rects_of(&files[3].regions) });
    proof {
        assert(files[0]@ == numbered_table[0]);
        assert(files[1]@ == numbered_table[1]);
        assert(files[2]@ == numbered_table[2]);
        assert(files[3]@ == numbered_table[3]);
        assert(table_of(specs@) =~= builtin_table());
    }
    specs
}

/// The regions of the control buttons as plain rows: the sprite, then the
/// left, top, right and bottom edge of its rectangle.
pub fn load_skin_data() -> (rows: Vec<(SkinImage, u32, u32, u32, u32)>)
    ensures
        rows@ == Seq::new(
            12,
            |j: int|
                {
                    let r = builtin_table()[0].regions[j];
                    (r.image, r.top_left_x, r.top_left_y, r.bottom_right_x, r.bottom_right_y)
                },
        ),
{
    let specs = get_skin_load_specs();
    proof {
        lemma_builtin_offsets();
    }
    assert(table_of(specs@).len() == 4);
    assert(table_of(specs@)[0] == specs[0]@);
    let buttons = &specs[0].regions;
    let mut rows: Vec<(SkinImage, u32, u32, u32, u32)> = Vec::new();
    let mut j: usize = 0;
    while j < buttons.len()
        invariant
            j <= buttons.len(),
            rows.len() == j,
            forall|k: int|
                0 <= k < j ==> #[trigger] rows[k] == (
                    buttons[k].image,
                    buttons[k].top_left_x,
                    buttons[k].top_left_y,
                    buttons[k].bottom_right_x,
                    buttons[k].bottom_right_y,
                ),
        decreases buttons.len() - j,
    {
        let r = buttons[j];
        rows.push((r.image, r.top_left_x, r.top_left_y, r.bottom_right_x, r.bottom_right_y));
        j = j + 1;
    }
    assert(rows@ =~= Seq::new(
        12,
        |j: int|
            {
                let r = builtin_table()[0].regions[j];
                (r.image, r.top_left_x, r.top_left_y, r.bottom_right_x, r.bottom_right_y)
            },
    ));
    rows
}

/// The frames of the volume bar, from the first to the last: frame `k` is
/// the sprite called `VolumeSliderBar` followed by the number `k`.
#[allow(non_snake_case)]
pub fn iter_VolumeSliderBar() -> (frames: Vec<SkinImage>)
    ensures
        frames.len() == VOLUME_FRAMES,
        forall|k: int|
            0 <= k < VOLUME_FRAMES ==> (#[trigger] frames[k]).spec_index() == FIRST_VOLUME_FRAME + k,
        forall|k: int|
            0 <= k < VOLUME_FRAMES ==> sprite_name(#[trigger] frames[k]) == "VolumeSliderBar"@
                + decimal(k as nat),
{
    let mut frames: Vec<SkinImage> = Vec::new();
    let mut k: usize = 0;
    while k < VOLUME_FRAMES
        invariant
            k <= VOLUME_FRAMES,
            frames.len() == k,
            forall|m: int| 0 <= m < k ==> (#[trigger] frames[m]).spec_index() == FIRST_VOLUME_FRAME + m,
        decreases VOLUME_FRAMES - k,
    {
        let frame = SkinImage::from_index(FIRST_VOLUME_FRAME + k).unwrap();
        proof {
            SkinImage::lemma_from_index((FIRST_VOLUME_FRAME + k) as nat);
        }
        frames.push(frame);
        k = k + 1;
    }
    proof {
        lemma_builtin_offsets();
        assert forall|m: int| 0 <= m < VOLUME_FRAMES implies sprite_name(#[trigger] frames[m])
            == "VolumeSliderBar"@ + decimal(m as nat) by {
            lemma_name_at(builtin_catalog(), 2, m);
        }
    }
    frames
}

/// The glyph of a character in the small font; `None` for a character that
/// the font does not have.
#[allow(non_snake_case)]
pub fn char_SmallFont(c: char) -> (glyph: Option<SkinImage>)
    ensures
        match glyph {
            Some(sprite) => exists|k: int|
                first_index_of(small_font_chars(), c, k) && sprite.spec_index() == FIRST_FONT_GLYPH
                    + k,
            None => !small_font_chars().contains(c),
        },
{
    proof {
        lemma_font_length();
    }
    match char_position(small_font_text(), c) {
        Some(k) => {
            proof {
                SkinImage::lemma_from_index((FIRST_FONT_GLYPH + k) as nat);
            }
            SkinImage::from_index(FIRST_FONT_GLYPH + k)
        },
        None => None,
    }
}

/// The name of glyph `k` of the small font: `SmallFont` followed by the
/// readable name of its character.
pub proof fn lemma_glyph_name(sprite: SkinImage, k: int)
    requires
        0 <= k < FONT_GLYPHS,
        sprite.spec_index() == FIRST_FONT_GLYPH + k,
    ensures
        sprite_name(sprite) == "SmallFont"@ + char_name(small_font_chars()[k]),
{
    lemma_builtin_name(FIRST_FONT_GLYPH + k);
}

/// Different sprite identifiers have different names.
pub proof fn lemma_sprite_name_injective(a: SkinImage, b: SkinImage)
    requires
        sprite_name(a) == sprite_name(b),
    ensures
        a == b,
{
    lemma_builtin_names_unique();
    lemma_builtin_offsets();
    a.lemma_index_round_trip();
    b.lemma_index_round_trip();
    SkinImage::lemma_index_injective(a, b);
}

impl SkinImage {
    /// The name of the sprite.
    pub fn name(self) -> (name: String)
        ensures
            name@ == sprite_name(self),
    {
        let compiled = compiled_catalog();
        assert(strings(compiled.names@)[self.spec_index() as int]
            == compiled.names[self.spec_index() as int]@);
        compiled.names[self.index()].clone()
    }
}

/// Loads the classic skin layout from the bytes of a package. See
/// `load_skin`, which this calls with the classic load table.
pub fn open_skin(data: &[u8]) -> (result: Result<WinampSkin, SkinError>)
    ensures
        match package_names(data@) {
            None => result matches Err(e) && e@ == SkinFailure::Zip,
            Some(names) => exists|listing: Seq<Seq<char>>| #[trigger]
                lists(listing, names) && agrees(result, data@, listing, builtin_table()),
        },
{
    let load_specs = get_skin_load_specs();
    load_skin(data, &load_specs)
}

} // verus!
