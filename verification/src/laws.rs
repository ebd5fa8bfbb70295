//! What holds of every load, stated over the models of the loader.

use crate::atlas::{cropped, AtlasModel, RectLoadSpec, SpriteModel};
use crate::archive::archive_entry;
use crate::decode::decoded_model;
use crate::loader::{bundle_of, file_outcome, load_outcome, resolved, FileTable};
use crate::skin::{sliced, SkinFailure};
use crate::sprites::SkinImage;
use crate::text::same_ignoring_case;
use vstd::prelude::*;

verus! {

/// A file name resolves exactly when the listing has a name that is the same
/// without regard to ASCII case, and then to such a name of the listing.
pub proof fn lemma_resolution(listing: Seq<Seq<char>>, filename: Seq<char>)
    ensures
        resolved(listing, filename) is Some <==> exists|i: int|
            0 <= i < listing.len() && same_ignoring_case(#[trigger] listing[i], filename),
        resolved(listing, filename) matches Some(entry) ==> listing.contains(entry)
            && same_ignoring_case(entry, filename),
    decreases listing.len(),
{
    if listing.len() > 0 {
        let rest = listing.drop_last();
        lemma_resolution(rest, filename);
        if same_ignoring_case(listing.last(), filename) {
            assert(listing[listing.len() - 1] == listing.last());
        } else {
            if resolved(rest, filename) is Some {
                let i = choose|i: int|
                    0 <= i < rest.len() && same_ignoring_case(#[trigger] rest[i], filename);
                assert(listing[i] == rest[i]);
                let entry = resolved(rest, filename).unwrap();
                let k = choose|k: int| 0 <= k < rest.len() && rest[k] == entry;
                assert(listing[k] == entry);
            }
            if exists|i: int|
                0 <= i < listing.len() && same_ignoring_case(#[trigger] listing[i], filename) {
                let i = choose|i: int|
                    0 <= i < listing.len() && same_ignoring_case(#[trigger] listing[i], filename);
                assert(rest[i] == listing[i]);
            }
        }
    }
}

/// Resolution does not look at the case of the file name: two file names
/// that differ in ASCII case only resolve alike.
pub proof fn lemma_resolution_ignores_case(listing: Seq<Seq<char>>, a: Seq<char>, b: Seq<char>)
    requires
        same_ignoring_case(a, b),
    ensures
        resolved(listing, a) == resolved(listing, b),
    decreases listing.len(),
{
    if listing.len() > 0 {
        lemma_resolution_ignores_case(listing.drop_last(), a, b);
    }
}

/// A name resolves against a listing that holds it in whatever case.
pub proof fn lemma_resolves_listed(listing: Seq<Seq<char>>, i: int, filename: Seq<char>)
    requires
        0 <= i < listing.len(),
        same_ignoring_case(listing[i], filename),
    ensures
        resolved(listing, filename) is Some,
{
    lemma_resolution(listing, filename);
}

/// Where no two names of a package differ in ASCII case only, the order in
/// which the package lists them does not matter to what a file name
/// resolves to.
pub proof fn lemma_resolution_ignores_order(first: Seq<Seq<char>>, second: Seq<Seq<char>>, filename: Seq<char>)
    requires
        first.to_set() == second.to_set(),
        forall|a: Seq<char>, b: Seq<char>|
            first.contains(a) && first.contains(b) && same_ignoring_case(a, b) ==> a == b,
    ensures
        resolved(first, filename) == resolved(second, filename),
{
    lemma_resolution(first, filename);
    lemma_resolution(second, filename);
    if resolved(first, filename) is Some {
        let entry = resolved(first, filename)->Some_0;
        assert(first.to_set().contains(entry));
        assert(second.contains(entry));
        let i = choose|i: int| 0 <= i < second.len() && second[i] == entry;
        assert(same_ignoring_case(second[i], filename));
        let other = resolved(second, filename)->Some_0;
        assert(second.to_set().contains(other));
        assert(first.contains(other));
        assert(first.contains(entry));
        assert(same_ignoring_case(entry, other));
    } else if resolved(second, filename) is Some {
        let other = resolved(second, filename)->Some_0;
        assert(second.to_set().contains(other));
        assert(first.contains(other));
        let i = choose|i: int| 0 <= i < first.len() && first[i] == other;
        assert(same_ignoring_case(first[i], filename));
    }
}

/// Where no two names of a package differ in ASCII case only, the order in
/// which the package lists them does not matter to what a load gives.
pub proof fn lemma_load_ignores_order(
    data: Seq<u8>,
    first: Seq<Seq<char>>,
    second: Seq<Seq<char>>,
    table: Seq<FileTable>,
)
    requires
        first.to_set() == second.to_set(),
        forall|a: Seq<char>, b: Seq<char>|
            first.contains(a) && first.contains(b) && same_ignoring_case(a, b) ==> a == b,
    ensures
        load_outcome(data, first, table) == load_outcome(data, second, table),
    decreases table.len(),
{
    if table.len() > 0 {
        lemma_load_ignores_order(data, first, second, table.drop_last());
        lemma_resolution_ignores_order(first, second, table.last().filename);
    }
}

/// A region that is cut out successfully gives a sprite of the region's
/// width and height whose buffer holds four bytes per pixel.
pub proof fn lemma_sliced_sizes(atlas: AtlasModel, regions: Seq<RectLoadSpec>, i: int)
    requires
        sliced(atlas, regions) is Ok,
        0 <= i < regions.len(),
    ensures
        sliced(atlas, regions)->Ok_0.len() == regions.len(),
        sliced(atlas, regions)->Ok_0[i] == cropped(atlas, regions[i]),
        sliced(atlas, regions)->Ok_0[i].image == regions[i].image,
        sliced(atlas, regions)->Ok_0[i].width == regions[i].width(),
        sliced(atlas, regions)->Ok_0[i].height == regions[i].height(),
        sliced(atlas, regions)->Ok_0[i].pixels.len() == regions[i].width() * regions[i].height()
            * 4,
        regions[i].fits(atlas.width, atlas.height),
{
}

/// The sprites that every line of a table stands for, in table order.
pub open spec fn table_sprites(table: Seq<FileTable>) -> Seq<SkinImage>
    decreases table.len(),
{
    if table.len() == 0 {
        Seq::empty()
    } else {
        table_sprites(table.drop_last()) + Seq::new(
            table.last().regions.len(),
            |j: int| table.last().regions[j].image,
        )
    }
}

/// The identifiers of a run of sprites, one by one.
pub open spec fn images_of(sprites: Seq<SpriteModel>) -> Seq<SkinImage> {
    Seq::new(sprites.len(), |m: int| sprites[m].image)
}

/// A load that succeeds gives one sprite per region of the table, in table
/// order, each with four bytes per pixel.
pub proof fn lemma_loaded_sprites(data: Seq<u8>, listing: Seq<Seq<char>>, table: Seq<FileTable>)
    requires
        load_outcome(data, listing, table) is Ok,
    ensures
        images_of(load_outcome(data, listing, table)->Ok_0) == table_sprites(table),
        forall|m: int|
            0 <= m < load_outcome(data, listing, table)->Ok_0.len() ==> (
            #[trigger] load_outcome(data, listing, table)->Ok_0[m]).wf(),
        forall|i: int|
            0 <= i < table.len() ==> resolved(listing, (#[trigger] table[i]).filename) is Some,
    decreases table.len(),
{
    if table.len() == 0 {
        assert(images_of(load_outcome(data, listing, table)->Ok_0) =~= table_sprites(table));
    } else {
        let rest = table.drop_last();
        lemma_loaded_sprites(data, listing, rest);
        let before = load_outcome(data, listing, rest)->Ok_0;
        let sprites = file_outcome(data, listing, table.last())->Ok_0;
        assert(images_of(before + sprites) =~= table_sprites(table));
        assert forall|i: int| 0 <= i < table.len() implies resolved(
            listing,
            (#[trigger] table[i]).filename,
        ) is Some by {
            if i < rest.len() {
                assert(rest[i] == table[i]);
            }
        }
    }
}

/// The identifiers under which a bundle holds sprites are those of the
/// sprites it was made of.
pub proof fn lemma_bundle_keys(sprites: Seq<SpriteModel>)
    ensures
        bundle_of(sprites).dom() == images_of(sprites).to_set(),
    decreases sprites.len(),
{
    if sprites.len() == 0 {
        assert(bundle_of(sprites).dom() =~= images_of(sprites).to_set());
    } else {
        let rest = sprites.drop_last();
        lemma_bundle_keys(rest);
        assert forall|s: SkinImage|
            bundle_of(sprites).dom().contains(s) == images_of(sprites).to_set().contains(s) by {
            if images_of(sprites).contains(s) {
                let m = choose|m: int| 0 <= m < sprites.len() && images_of(sprites)[m] == s;
                if m < rest.len() {
                    assert(images_of(rest)[m] == s);
                }
            }
            if images_of(rest).contains(s) {
                let m = choose|m: int| 0 <= m < rest.len() && images_of(rest)[m] == s;
                assert(images_of(sprites)[m] == s);
            }
            if s == sprites.last().image {
                assert(images_of(sprites)[sprites.len() - 1] == s);
            }
        }
        assert(bundle_of(sprites).dom() =~= images_of(sprites).to_set());
    }
}

/// A bundle holds, under the identifier of a sprite that no later sprite
/// shares, that sprite.
pub proof fn lemma_bundle_holds_last(sprites: Seq<SpriteModel>, m: int)
    requires
        0 <= m < sprites.len(),
        forall|n: int| m < n < sprites.len() ==> sprites[n].image != sprites[m].image,
    ensures
        bundle_of(sprites).dom().contains(sprites[m].image),
        bundle_of(sprites)[sprites[m].image] == sprites[m],
    decreases sprites.len(),
{
    if m < sprites.len() - 1 {
        let rest = sprites.drop_last();
        assert(rest[m] == sprites[m]);
        assert forall|n: int| m < n < rest.len() implies rest[n].image != rest[m].image by {
            assert(rest[n] == sprites[n]);
        }
        lemma_bundle_holds_last(rest, m);
        assert(sprites.last() == sprites[sprites.len() - 1]);
    }
}

/// The decoded atlas of the entry that a line of the table resolves to.
pub open spec fn atlas_of(data: Seq<u8>, listing: Seq<Seq<char>>, file: FileTable) -> AtlasModel {
    let entry = resolved(listing, file.filename)->Some_0;
    let bytes = archive_entry(data, entry)->Unpacked_0;
    decoded_model(bytes)->Some_0
}

/// In a load that succeeds the lines before line `i` load, line `i` loads,
/// and the sprite of its region `j` follows the sprites of the lines before.
pub proof fn lemma_sprite_at(data: Seq<u8>, listing: Seq<Seq<char>>, table: Seq<FileTable>, i: int, j: int)
    requires
        load_outcome(data, listing, table) is Ok,
        0 <= i < table.len(),
        0 <= j < table[i].regions.len(),
    ensures
        load_outcome(data, listing, table.take(i)) is Ok,
        table[i].regions[j].fits(
            atlas_of(data, listing, table[i]).width,
            atlas_of(data, listing, table[i]).height,
        ),
        load_outcome(data, listing, table.take(i))->Ok_0.len() + j < load_outcome(
            data,
            listing,
            table,
        )->Ok_0.len(),
        load_outcome(data, listing, table)->Ok_0[load_outcome(data, listing, table.take(i))->Ok_0.len()
            + j] == cropped(atlas_of(data, listing, table[i]), table[i].regions[j]),
    decreases table.len(),
{
    let rest = table.drop_last();
    if i == table.len() - 1 {
        assert(table.take(i) =~= rest);
        lemma_sliced_sizes(atlas_of(data, listing, table[i]), table[i].regions, j);
    } else {
        assert(rest.take(i) =~= table.take(i));
        assert(rest[i] == table[i]);
        lemma_sprite_at(data, listing, rest, i, j);
    }
}

/// Where no two regions of the table name the same sprite, a load that
/// succeeds stores for each region the sprite cut out of the decoded atlas of
/// the entry that the region's file resolves to.
pub proof fn lemma_loaded_region(data: Seq<u8>, listing: Seq<Seq<char>>, table: Seq<FileTable>, i: int, j: int)
    requires
        load_outcome(data, listing, table) is Ok,
        table_sprites(table).no_duplicates(),
        0 <= i < table.len(),
        0 <= j < table[i].regions.len(),
    ensures
        bundle_of(load_outcome(data, listing, table)->Ok_0).dom().contains(
            table[i].regions[j].image,
        ),
        bundle_of(load_outcome(data, listing, table)->Ok_0)[table[i].regions[j].image] == cropped(
            atlas_of(data, listing, table[i]),
            table[i].regions[j],
        ),
{
    let sprites = load_outcome(data, listing, table)->Ok_0;
    lemma_sprite_at(data, listing, table, i, j);
    lemma_loaded_sprites(data, listing, table);
    let m = load_outcome(data, listing, table.take(i))->Ok_0.len() + j;
    assert forall|n: int| m < n < sprites.len() implies sprites[n].image != sprites[m].image by {
        assert(images_of(sprites)[n] == sprites[n].image);
        assert(images_of(sprites)[m] == sprites[m].image);
    }
    lemma_bundle_holds_last(sprites, m);
}

/// After a load that succeeds the bundle holds a sprite for exactly the
/// sprite identifiers that the regions of the table name.
pub proof fn lemma_loaded_keys(data: Seq<u8>, listing: Seq<Seq<char>>, table: Seq<FileTable>)
    requires
        load_outcome(data, listing, table) is Ok,
    ensures
        bundle_of(load_outcome(data, listing, table)->Ok_0).dom() == table_sprites(
            table,
        ).to_set(),
{
    lemma_loaded_sprites(data, listing, table);
    lemma_bundle_keys(load_outcome(data, listing, table)->Ok_0);
}

/// A table with a file that the listing does not hold in any case does not
/// load.
pub proof fn lemma_missing_file_fails(data: Seq<u8>, listing: Seq<Seq<char>>, table: Seq<FileTable>, i: int)
    requires
        0 <= i < table.len(),
        resolved(listing, table[i].filename) is None,
    ensures
        load_outcome(data, listing, table) is Err,
{
    if load_outcome(data, listing, table) is Ok {
        lemma_loaded_sprites(data, listing, table);
    }
}

/// Where the lines before line `i` load and line `i` names a file that the
/// listing does not hold in any case, the load fails with that file's name.
pub proof fn lemma_first_missing_file(data: Seq<u8>, listing: Seq<Seq<char>>, table: Seq<FileTable>, i: int)
    requires
        0 <= i < table.len(),
        load_outcome(data, listing, table.take(i)) is Ok,
        resolved(listing, table[i].filename) is None,
    ensures
        load_outcome(data, listing, table) == Err::<Seq<SpriteModel>, SkinFailure>(
            SkinFailure::ExpectedFileMissing(table[i].filename),
        ),
    decreases table.len(),
{
    if i == table.len() - 1 {
        assert(table.take(i) =~= table.drop_last());
    } else {
        let rest = table.drop_last();
        assert(rest.take(i) =~= table.take(i));
        assert(rest[i] == table[i]);
        lemma_first_missing_file(data, listing, rest, i);
    }
}

/// A load that fails for a missing file names a file of the table that the
/// listing does not hold in any case.
pub proof fn lemma_missing_file_named(data: Seq<u8>, listing: Seq<Seq<char>>, table: Seq<FileTable>, name: Seq<char>)
    requires
        load_outcome(data, listing, table) == Err::<Seq<SpriteModel>, SkinFailure>(
            SkinFailure::ExpectedFileMissing(name),
        ),
    ensures
        exists|i: int|
            0 <= i < table.len() && (#[trigger] table[i]).filename == name && resolved(
                listing,
                name,
            ) is None,
    decreases table.len(),
{
    if table.len() > 0 {
        let rest = table.drop_last();
        if load_outcome(data, listing, rest) is Err {
            lemma_missing_file_named(data, listing, rest, name);
            let i = choose|i: int|
                0 <= i < rest.len() && (#[trigger] rest[i]).filename == name && resolved(
                    listing,
                    name,
                ) is None;
            assert(table[i] == rest[i]);
        } else {
            assert(table[table.len() - 1] == table.last());
        }
    }
}

} // verus!
