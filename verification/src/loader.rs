//! Loading a packaged skin against a load table.

use crate::archive::{archive_entry, lists, package_names, EntryRead, SkinPackage};
use crate::atlas::{RectLoadSpec, SpriteModel};
use crate::bundle::WinampSkin;
use crate::decode::{decode_atlas, decoded_model};
use crate::skin::{load_image_slices_from_data, sliced, sprite_models, SkinError, SkinFailure};
use crate::sprites::SkinImage;
use crate::text::{eq_ignoring_case, same_ignoring_case, strings};
use vstd::prelude::*;

verus! {

/// One line of the load table: an atlas file and the regions to cut from it,
/// in declaration order.
#[derive(Debug)]
pub struct FileLoadSpec<'a> {
    pub filename: &'a str,
    pub regions: Vec<RectLoadSpec>,
}

/// What a line of the load table says.
pub struct FileTable {
    pub filename: Seq<char>,
    pub regions: Seq<RectLoadSpec>,
}

impl<'a> View for FileLoadSpec<'a> {
    type V = FileTable;

    open spec fn view(&self) -> FileTable {
        FileTable { filename: self.filename@, regions: self.regions@ }
    }
}

/// What a load table says, line by line.
pub open spec fn table_of(specs: Seq<FileLoadSpec>) -> Seq<FileTable> {
    Seq::new(specs.len(), |i: int| specs[i]@)
}

/// The entry that a file name resolves to: the last name of the listing that
/// is the same without regard to ASCII case.
pub open spec fn resolved(listing: Seq<Seq<char>>, filename: Seq<char>) -> Option<Seq<char>>
    decreases listing.len(),
{
    if listing.len() == 0 {
        None
    } else if same_ignoring_case(listing.last(), filename) {
        Some(listing.last())
    } else {
        resolved(listing.drop_last(), filename)
    }
}

/// What loading one line of the table gives: the sprites of its regions in
/// order, or the first thing that goes wrong on the way from the file name
/// to the entry, its bytes, the decoded image and the slices.
pub open spec fn file_outcome(data: Seq<u8>, listing: Seq<Seq<char>>, file: FileTable) -> Result<
    Seq<SpriteModel>,
    SkinFailure,
> {
    match resolved(listing, file.filename) {
        None => Err(SkinFailure::ExpectedFileMissing(file.filename)),
        Some(entry) => match archive_entry(data, entry) {
            EntryRead::Refused => Err(SkinFailure::Zip),
            EntryRead::Unreadable => Err(SkinFailure::Io),
            EntryRead::Unpacked(bytes) => match decoded_model(bytes) {
                None => Err(SkinFailure::Image),
                Some(atlas) => sliced(atlas, file.regions),
            },
        },
    }
}

/// What loading a table gives: the sprites of all its lines in table order,
/// or the failure of the first line that fails.
pub open spec fn load_outcome(data: Seq<u8>, listing: Seq<Seq<char>>, table: Seq<FileTable>) -> Result<
    Seq<SpriteModel>,
    SkinFailure,
>
    decreases table.len(),
{
    if table.len() == 0 {
        Ok(Seq::empty())
    } else {
        match load_outcome(data, listing, table.drop_last()) {
            Err(e) => Err(e),
            Ok(before) => match file_outcome(data, listing, table.last()) {
                Err(e) => Err(e),
                Ok(sprites) => Ok(before + sprites),
            },
        }
    }
}

/// The bundle that a run of sprites makes: each stored under its own
/// identifier, a later one in place of an earlier one.
pub open spec fn bundle_of(sprites: Seq<SpriteModel>) -> Map<SkinImage, SpriteModel>
    decreases sprites.len(),
{
    if sprites.len() == 0 {
        Map::empty()
    } else {
        bundle_of(sprites.drop_last()).insert(sprites.last().image, sprites.last())
    }
}

/// `result` is what `load_outcome` says for the listing.
pub open spec fn agrees(
    result: Result<WinampSkin, SkinError>,
    data: Seq<u8>,
    listing: Seq<Seq<char>>,
    table: Seq<FileTable>,
) -> bool {
    match result {
        Ok(skin) => load_outcome(data, listing, table) matches Ok(sprites) && skin@ == bundle_of(
            sprites,
        ),
        Err(e) => load_outcome(data, listing, table) == Err::<Seq<SpriteModel>, SkinFailure>(e@),
    }
}

/// Finds the entry of a listing for a file name of the load table, without
/// regard to ASCII case. Of several such entries the last one listed counts.
pub fn resolve_filename(names: &Vec<String>, filename: &str) -> (result: Result<String, SkinError>)
    ensures
        match result {
            Ok(entry) => resolved(strings(names@), filename@) == Some(entry@),
            Err(e) => resolved(strings(names@), filename@) is None && e@
                == SkinFailure::ExpectedFileMissing(filename@),
        },
{
    let ghost listing = strings(names@);
    let mut i: usize = names.len();
    assert(listing.take(i as int) =~= listing);
    while i > 0
        invariant
            i <= names.len(),
            listing == strings(names@),
            resolved(listing, filename@) == resolved(listing.take(i as int), filename@),
        decreases i,
    {
        i = i - 1;
        proof {
            let upto = listing.take(i + 1);
            assert(upto.last() == names[i as int]@);
            assert(upto.drop_last() =~= listing.take(i as int));
        }
        if eq_ignoring_case(names[i].as_str(), filename) {
            return Ok(names[i].clone());
        }
    }
    Err(SkinError::ExpectedFileMissing(filename.to_owned()))
}

/// Once a line of the table has failed, the lines after it change nothing.
proof fn lemma_failure_stays(data: Seq<u8>, listing: Seq<Seq<char>>, table: Seq<FileTable>, k: int)
    requires
        0 <= k <= table.len(),
        load_outcome(data, listing, table.take(k)) is Err,
    ensures
        load_outcome(data, listing, table) == load_outcome(data, listing, table.take(k)),
    decreases table.len(),
{
    if k == table.len() {
        assert(table.take(k) =~= table);
    } else {
        assert(table.drop_last().take(k) =~= table.take(k));
        lemma_failure_stays(data, listing, table.drop_last(), k);
    }
}

/// Loads every line of `specs` from a package whose entries are listed in
/// `names`, and stores the sprites by identifier. The first failure ends the
/// load.
pub fn load_listed(package: &mut SkinPackage, names: &Vec<String>, specs: &Vec<FileLoadSpec>) -> (result:
    Result<WinampSkin, SkinError>)
    ensures
        final(package)@ == old(package)@,
        agrees(result, old(package)@, strings(names@), table_of(specs@)),
{
    let ghost data = package@;
    let ghost listing = strings(names@);
    let ghost table = table_of(specs@);
    let ghost mut done: Seq<SpriteModel> = Seq::empty();
    let mut skin = WinampSkin::new();
    let mut i: usize = 0;
    while i < specs.len()
        invariant
            i <= specs.len(),
            listing == strings(names@),
            table == table_of(specs@),
            package@ == data,
            data == old(package)@,
            load_outcome(data, listing, table.take(i as int)) == Ok::<
                Seq<SpriteModel>,
                SkinFailure,
            >(done),
            skin@ == bundle_of(done),
        decreases specs.len() - i,
    {
        let file = &specs[i];
        proof {
            let upto = table.take(i + 1);
            assert(upto.last() == file@);
            assert(upto.drop_last() =~= table.take(i as int));
        }
        let entry = match resolve_filename(names, file.filename) {
            Ok(entry) => entry,
            Err(e) => {
                proof {
                    lemma_failure_stays(data, listing, table, i + 1);
                }
                return Err(e);
            },
        };
        let bytes = match package.read(entry.as_str()) {
            Ok(bytes) => bytes,
            Err(e) => {
                proof {
                    lemma_failure_stays(data, listing, table, i + 1);
                }
                return Err(e);
            },
        };
        let atlas = match decode_atlas(bytes.as_slice()) {
            Ok(atlas) => atlas,
            Err(e) => {
                proof {
                    lemma_failure_stays(data, listing, table, i + 1);
                }
                return Err(e);
            },
        };
        let images = match load_image_slices_from_data(&atlas, &file.regions) {
            Ok(images) => images,
            Err(e) => {
                proof {
                    lemma_failure_stays(data, listing, table, i + 1);
                }
                return Err(e);
            },
        };
        let ghost sprites = sprite_models(images@);
        let ghost before = done;
        assert(before + sprites.take(0) =~= before);
        for image in it: images.into_iter()
            invariant
                it.seq() == images@,
                sprites == sprite_models(images@),
                skin@ == bundle_of(before + sprites.take(it.index())),
        {
            proof {
                let grown = before + sprites.take(it.index() + 1);
                assert(grown.last() == image@);
                assert(grown.drop_last() =~= before + sprites.take(it.index()));
            }
            skin.insert(image);
        }
        proof {
            assert(sprites.take(sprites.len() as int) =~= sprites);
            done = before + sprites;
        }
        i = i + 1;
    }
    assert(table.take(i as int) =~= table);
    Ok(skin)
}

/// Loads a skin from the bytes of a package against a load table: opens the
/// archive, and for each line of the table in order finds the entry without
/// regard to case, unpacks it, decodes it and cuts out its regions. The first
/// failure ends the load, and no sprites are handed back then.
///
/// Bytes that ask for a 64-bit entry offset are refused as an archive, and a
/// run-length bitmap past the decoder's first buffer as an image, before the
/// outside code sees them.
///
/// The archive lists its entries in no fixed order, and of two entries whose
/// names differ in case only, the one listed last is read. The outcome is
/// the one that `load_outcome` gives for some listing of the archive's names.
pub fn load_skin(data: &[u8], specs: &Vec<FileLoadSpec>) -> (result: Result<WinampSkin, SkinError>)
    ensures
        match package_names(data@) {
            None => result matches Err(e) && e@ == SkinFailure::Zip,
            Some(names) => exists|listing: Seq<Seq<char>>| #[trigger]
                lists(listing, names) && agrees(result, data@, listing, table_of(specs@)),
        },
{
    match SkinPackage::open(data) {
        Err(e) => Err(e),
        Ok(mut package) => {
            let names = package.file_names();
            let result = load_listed(&mut package, &names, specs);
            assert(lists(strings(names@), package_names(data@).unwrap()));
            result
        },
    }
}

} // verus!
