//! Compiling a catalog: the enumeration of its sprite names, which must be
//! free of duplicates, and its regions numbered by their sprite.

use crate::catalog::{catalog_of, FileDecl, RegionDecl, SkinFile};
use crate::text::strings;
use vstd::prelude::*;

verus! {

/// The names of a run of region declarations, in order.
pub open spec fn region_names(regions: Seq<RegionDecl>) -> Seq<Seq<char>> {
    Seq::new(regions.len(), |j: int| regions[j].name)
}

/// The sprite names of a catalog: the names of all regions of all files, in
/// declaration order.
pub open spec fn names_in(catalog: Seq<FileDecl>) -> Seq<Seq<char>>
    decreases catalog.len(),
{
    if catalog.len() == 0 {
        Seq::empty()
    } else {
        names_in(catalog.drop_last()) + region_names(catalog.last().regions)
    }
}

/// How many regions the files before file `i` declare.
pub open spec fn regions_before(catalog: Seq<FileDecl>, i: int) -> nat {
    names_in(catalog.take(i)).len()
}

/// A rectangle of an atlas and the position of its sprite in the
/// enumeration of sprite names.
#[derive(Debug, Copy, Clone, PartialEq, Eq, Structural)]
pub struct IndexedRegion {
    pub top_left_x: u32,
    pub top_left_y: u32,
    pub bottom_right_x: u32,
    pub bottom_right_y: u32,
    pub sprite: usize,
}

/// An atlas file and its numbered regions, in declaration order.
#[derive(Debug)]
pub struct IndexedFile {
    pub filename: String,
    pub regions: Vec<IndexedRegion>,
}

/// What an `IndexedFile` says.
pub struct IndexedFileModel {
    pub filename: Seq<char>,
    pub regions: Seq<IndexedRegion>,
}

impl View for IndexedFile {
    type V = IndexedFileModel;

    open spec fn view(&self) -> IndexedFileModel {
        IndexedFileModel { filename: self.filename@, regions: self.regions@ }
    }
}

/// What a run of indexed files says, one by one.
pub open spec fn indexed_files(files: Seq<IndexedFile>) -> Seq<IndexedFileModel> {
    Seq::new(files.len(), |i: int| files[i]@)
}

/// A declared region with the position `sprite` in place of its name.
pub open spec fn numbered(region: RegionDecl, sprite: int) -> IndexedRegion {
    IndexedRegion {
        top_left_x: region.top_left_x as u32,
        top_left_y: region.top_left_y as u32,
        bottom_right_x: region.bottom_right_x as u32,
        bottom_right_y: region.bottom_right_y as u32,
        sprite: sprite as usize,
    }
}

/// The regions of a file, numbered from `first` on.
pub open spec fn numbered_from(regions: Seq<RegionDecl>, first: int) -> Seq<IndexedRegion> {
    Seq::new(regions.len(), |j: int| numbered(regions[j], first + j))
}

/// The load table of a catalog: its files in order, each region with the
/// position that its name has in the catalog's sprite names.
pub open spec fn indexed(catalog: Seq<FileDecl>) -> Seq<IndexedFileModel> {
    Seq::new(
        catalog.len(),
        |i: int|
            IndexedFileModel {
                filename: catalog[i].filename,
                regions: numbered_from(catalog[i].regions, regions_before(catalog, i) as int),
            },
    )
}

/// The name at index `k` also stands at an earlier index, and no name before
/// index `k` does.
pub open spec fn first_duplicate_at(names: Seq<Seq<char>>, k: int) -> bool {
    &&& 0 <= k < names.len()
    &&& exists|j: int| 0 <= j < k && names[j] == names[k]
    &&& names.take(k).no_duplicates()
}

/// Why a catalog could not be compiled.
#[derive(Debug)]
pub enum CatalogError {
    /// Two regions of the catalog have this name.
    DuplicateName(String),
}

/// What a compiled catalog holds: the enumeration of sprite names, and the
/// load table whose regions refer to it by position.
#[derive(Debug)]
pub struct CompiledCatalog {
    pub names: Vec<String>,
    pub files: Vec<IndexedFile>,
}

/// The sprite names of a catalog, in declaration order.
pub fn enum_names(catalog: &Vec<SkinFile>) -> (names: Vec<String>)
    ensures
        strings(names@) == names_in(catalog_of(catalog@)),
{
    let ghost decls = catalog_of(catalog@);
    let mut names: Vec<String> = Vec::new();
    let mut i: usize = 0;
    assert(strings(names@) =~= names_in(decls.take(0)));
    while i < catalog.len()
        invariant
            i <= catalog.len(),
            decls == catalog_of(catalog@),
            strings(names@) == names_in(decls.take(i as int)),
        decreases catalog.len() - i,
    {
        let file = &catalog[i];
        let ghost before = strings(names@);
        let mut j: usize = 0;
        while j < file.regions.len()
            invariant
                j <= file.regions.len(),
                strings(names@) == before + region_names(file@.regions).take(j as int),
            decreases file.regions.len() - j,
        {
            let ghost sofar = strings(names@);
            names.push(file.regions[j].enum_name.clone());
            proof {
                let added = region_names(file@.regions).take(j + 1);
                assert(added.last() == file.regions[j as int].enum_name@);
                assert(added.drop_last() =~= region_names(file@.regions).take(j as int));
                assert(strings(names@) =~= sofar.push(file.regions[j as int].enum_name@));
                assert(strings(names@) =~= before + added);
            }
            j = j + 1;
        }
        proof {
            let upto = decls.take(i + 1);
            assert(upto.last() == file@);
            assert(upto.drop_last() =~= decls.take(i as int));
            assert(region_names(file@.regions).take(j as int) =~= region_names(file@.regions));
        }
        i = i + 1;
    }
    assert(decls.take(i as int) =~= decls);
    names
}

/// The regions of a catalog, numbered by the position of their names.
pub fn index_catalog(catalog: &Vec<SkinFile>) -> (files: Vec<IndexedFile>)
    requires
        names_in(catalog_of(catalog@)).len() <= usize::MAX,
    ensures
        indexed_files(files@) == indexed(catalog_of(catalog@)),
{
    let ghost decls = catalog_of(catalog@);
    let mut files: Vec<IndexedFile> = Vec::new();
    let mut next: usize = 0;
    let mut i: usize = 0;
    while i < catalog.len()
        invariant
            i <= catalog.len(),
            decls == catalog_of(catalog@),
            names_in(decls).len() <= usize::MAX,
            next == regions_before(decls, i as int),
            files.len() == i,
            forall|k: int| 0 <= k < i ==> (#[trigger] files[k])@ == indexed(decls)[k],
        decreases catalog.len() - i,
    {
        let file = &catalog[i];
        proof {
            let upto = decls.take(i + 1);
            assert(upto.last() == file@);
            assert(upto.drop_last() =~= decls.take(i as int));
            lemma_names_grow(decls, i + 1);
        }
        let first = next;
        let mut regions: Vec<IndexedRegion> = Vec::new();
        let mut j: usize = 0;
        while j < file.regions.len()
            invariant
                j <= file.regions.len(),
                first + file.regions.len() <= usize::MAX,
                next == first + j,
                regions.len() == j,
                forall|k: int|
                    0 <= k < j ==> #[trigger] regions[k] == numbered(file@.regions[k], first + k),
            decreases file.regions.len() - j,
        {
            let region = &file.regions[j];
            regions.push(
                IndexedRegion {
                    top_left_x: region.top_left_x,
                    top_left_y: region.top_left_y,
                    bottom_right_x: region.bottom_right_x,
                    bottom_right_y: region.bottom_right_y,
                    sprite: next,
                },
            );
            next = next + 1;
            j = j + 1;
        }
        assert(regions@ =~= numbered_from(file@.regions, first as int));
        files.push(IndexedFile { filename: file.filename.clone(), regions });
        i = i + 1;
    }
    assert(indexed_files(files@) =~= indexed(decls));
    files
}

/// A catalog has at least as many names as any of its beginnings.
pub proof fn lemma_names_grow(catalog: Seq<FileDecl>, k: int)
    requires
        0 <= k <= catalog.len(),
    ensures
        names_in(catalog.take(k)).len() <= names_in(catalog).len(),
    decreases catalog.len(),
{
    if k == catalog.len() {
        assert(catalog.take(k) =~= catalog);
    } else {
        assert(catalog.drop_last().take(k) =~= catalog.take(k));
        lemma_names_grow(catalog.drop_last(), k);
    }
}

/// The regions before file `i + 1` are those before file `i` and those of
/// file `i`; none come before the first file, and all before the end.
pub proof fn lemma_regions_before(catalog: Seq<FileDecl>, i: int)
    requires
        0 <= i < catalog.len(),
    ensures
        regions_before(catalog, 0) == 0,
        regions_before(catalog, i + 1) == regions_before(catalog, i) + catalog[i].regions.len(),
        regions_before(catalog, catalog.len() as int) == names_in(catalog).len(),
        regions_before(catalog, i + 1) <= names_in(catalog).len(),
{
    let upto = catalog.take(i + 1);
    assert(upto.last() == catalog[i]);
    assert(upto.drop_last() =~= catalog.take(i));
    assert(catalog.take(catalog.len() as int) =~= catalog);
    assert(names_in(catalog.take(0)) =~= Seq::<Seq<char>>::empty());
    lemma_names_grow(catalog, i + 1);
}

/// Region `j` of file `i` has, in the catalog's sprite names, the position
/// that the load table gives it.
pub proof fn lemma_name_at(catalog: Seq<FileDecl>, i: int, j: int)
    requires
        0 <= i < catalog.len(),
        0 <= j < catalog[i].regions.len(),
    ensures
        regions_before(catalog, i) + j < names_in(catalog).len(),
        names_in(catalog)[regions_before(catalog, i) + j] == catalog[i].regions[j].name,
    decreases catalog.len(),
{
    lemma_regions_before(catalog, i);
    if i == catalog.len() - 1 {
        assert(catalog.take(i) =~= catalog.drop_last());
    } else {
        assert(catalog.drop_last().take(i) =~= catalog.take(i));
        lemma_name_at(catalog.drop_last(), i, j);
    }
}

/// The first index whose name also stands at an earlier index, if any.
pub fn find_duplicate(names: &Vec<String>) -> (found: Option<usize>)
    ensures
        match found {
            Some(k) => first_duplicate_at(strings(names@), k as int),
            None => strings(names@).no_duplicates(),
        },
{
    let ghost all = strings(names@);
    let mut k: usize = 0;
    while k < names.len()
        invariant
            k <= names.len(),
            all == strings(names@),
            all.take(k as int).no_duplicates(),
        decreases names.len() - k,
    {
        let mut j: usize = 0;
        while j < k
            invariant
                j <= k,
                k < names.len(),
                all == strings(names@),
                all.take(k as int).no_duplicates(),
                forall|m: int| 0 <= m < j ==> all[m] != all[k as int],
            decreases k - j,
        {
            if names[j] == names[k] {
                assert(all[j as int] == all[k as int]);
                return Some(k);
            }
            j = j + 1;
        }
        assert(all.take(k + 1).no_duplicates());
        k = k + 1;
    }
    assert(all.take(k as int) =~= all);
    None
}

/// Compiles a catalog into the enumeration of its sprite names and the load
/// table that refers to them. Fails on the first name that repeats an
/// earlier one.
pub fn compile(catalog: &Vec<SkinFile>) -> (result: Result<CompiledCatalog, CatalogError>)
    ensures
        result is Ok <==> names_in(catalog_of(catalog@)).no_duplicates(),
        match result {
            Ok(compiled) => {
                &&& names_in(catalog_of(catalog@)).no_duplicates()
                &&& strings(compiled.names@) == names_in(catalog_of(catalog@))
                &&& indexed_files(compiled.files@) == indexed(catalog_of(catalog@))
            },
            Err(CatalogError::DuplicateName(name)) => exists|k: int|
                first_duplicate_at(names_in(catalog_of(catalog@)), k) && name@ == names_in(
                    catalog_of(catalog@),
                )[k],
        },
{
    let names = enum_names(catalog);
    assert(strings(names@).len() == names.len());
    match find_duplicate(&names) {
        Some(k) => {
            proof {
                let all = strings(names@);
                let j = choose|j: int| 0 <= j < k && all[j] == all[k as int];
                assert(all[j] == all[k as int] && j != k);
            }
            Err(CatalogError::DuplicateName(names[k].clone()))
        },
        None => {
            let files = index_catalog(catalog);
            Ok(CompiledCatalog { names, files })
        },
    }
}

} // verus!
