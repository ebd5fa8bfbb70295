//! Loaded sprites, the errors of a load, and the slicing of an atlas.

use crate::atlas::{cropped, crop, AtlasImage, AtlasModel, RectLoadSpec, SpriteModel};
use crate::sprites::SkinImage;
use vstd::prelude::*;

verus! {

#[verifier::external_type_specification]
#[verifier::external_body]
pub struct ExIoError(std::io::Error);

#[verifier::external_type_specification]
#[verifier::external_body]
pub struct ExZipError(zip::result::ZipError);

#[verifier::external_type_specification]
#[verifier::external_body]
pub struct ExImageError(image::ImageError);

/// Why a skin could not be loaded.
#[derive(Debug)]
pub enum SkinError {
    /// The package could not be read, or the bytes of one of its entries
    /// could not be unpacked.
    Io(std::io::Error),
    /// The package is not an archive that can be opened, it asks for a
    /// 64-bit entry offset, or the reading of one of its entries cannot be
    /// set up.
    Zip(zip::result::ZipError),
    /// An atlas is not an image that can be decoded, or it is a run-length
    /// bitmap that declares more pixels than the decoder's buffer starts
    /// with.
    Image(image::ImageError),
    /// The package has no entry for this file of the load table, whatever the
    /// case of its letters.
    ExpectedFileMissing(String),
    /// This region is empty or reaches past its atlas, whose width and height
    /// follow.
    RegionOutOfBounds(RectLoadSpec, (u32, u32)),
}

/// What a `SkinError` says, without the outside error values it may carry.
pub enum SkinFailure {
    /// Bytes could not be read or unpacked.
    Io,
    /// The archive or one of its entries could not be opened.
    Zip,
    /// An atlas could not be decoded.
    Image,
    /// The package has no entry for the file of this name.
    ExpectedFileMissing(Seq<char>),
    /// The region does not fit its atlas of the given width and height.
    RegionOutOfBounds(RectLoadSpec, (u32, u32)),
}

impl View for SkinError {
    type V = SkinFailure;

    open spec fn view(&self) -> SkinFailure {
        match self {
            SkinError::Io(_) => SkinFailure::Io,
            SkinError::Zip(_) => SkinFailure::Zip,
            SkinError::Image(_) => SkinFailure::Image,
            SkinError::ExpectedFileMissing(name) => SkinFailure::ExpectedFileMissing(name@),
            SkinError::RegionOutOfBounds(region, size) => SkinFailure::RegionOutOfBounds(
                *region,
                *size,
            ),
        }
    }
}

impl SkinError {
    /// A short description of the error.
    pub fn message(&self) -> (text: String)
        ensures
            text@ == match self@ {
                SkinFailure::Io => "IO error"@,
                SkinFailure::Zip => "Zip"@,
                SkinFailure::Image => "Image"@,
                SkinFailure::ExpectedFileMissing(name) => "Expected file missing "@ + name,
                SkinFailure::RegionOutOfBounds(_, _) => "Region out of bounds"@,
            },
    {
        match self {
            SkinError::Io(_) => "IO error".to_owned(),
            SkinError::Zip(_) => "Zip".to_owned(),
            SkinError::Image(_) => "Image".to_owned(),
            SkinError::ExpectedFileMissing(name) => {
                let mut text = "Expected file missing ".to_owned();
                text.append(name.as_str());
                text
            },
            SkinError::RegionOutOfBounds(_, _) => "Region out of bounds".to_owned(),
        }
    }
}

/// One sprite cut out of an atlas: its pixels as straight RGBA8, row by row,
/// its width and height, and the sprite it stands for.
#[derive(Debug)]
pub struct LoadedImage {
    pub pixels: Vec<u8>,
    pub size: (usize, usize),
    pub image: SkinImage,
}

impl View for LoadedImage {
    type V = SpriteModel;

    open spec fn view(&self) -> SpriteModel {
        SpriteModel {
            image: self.image,
            width: self.size.0 as nat,
            height: self.size.1 as nat,
            pixels: self.pixels@,
        }
    }
}

/// The first region of `regions` that does not fit an image of the given
/// size sits at index `i`.
pub open spec fn first_misfit_at(regions: Seq<RectLoadSpec>, width: nat, height: nat, i: int) -> bool {
    &&& 0 <= i < regions.len()
    &&& !regions[i].fits(width, height)
    &&& forall|j: int| 0 <= j < i ==> (#[trigger] regions[j]).fits(width, height)
}

/// Every region fits an image of the given size.
pub open spec fn all_fit(regions: Seq<RectLoadSpec>, width: nat, height: nat) -> bool {
    forall|j: int| 0 <= j < regions.len() ==> (#[trigger] regions[j]).fits(width, height)
}

/// What slicing `atlas` by `regions` gives: one sprite per region, in the
/// order of the regions, or the first region that does not fit.
pub open spec fn sliced(atlas: AtlasModel, regions: Seq<RectLoadSpec>) -> Result<
    Seq<SpriteModel>,
    SkinFailure,
> {
    if all_fit(regions, atlas.width, atlas.height) {
        Ok(Seq::new(regions.len(), |i: int| cropped(atlas, regions[i])))
    } else {
        let i = choose|i: int| first_misfit_at(regions, atlas.width, atlas.height, i);
        Err(SkinFailure::RegionOutOfBounds(regions[i], (atlas.width as u32, atlas.height as u32)))
    }
}

/// The views of loaded sprites, one by one.
pub open spec fn sprite_models(images: Seq<LoadedImage>) -> Seq<SpriteModel> {
    Seq::new(images.len(), |i: int| images[i]@)
}

/// Only one index can hold the first region that does not fit.
pub proof fn lemma_first_misfit_unique(regions: Seq<RectLoadSpec>, width: nat, height: nat, i: int, k: int)
    requires
        first_misfit_at(regions, width, height, i),
        first_misfit_at(regions, width, height, k),
    ensures
        i == k,
{
    if i < k {
        assert(regions[i].fits(width, height));
    } else if k < i {
        assert(regions[k].fits(width, height));
    }
}

/// Crops `data` into one sprite per region of `rect_specs`, in their order.
/// Stops at the first region that is empty or reaches past the image.
pub fn load_image_slices_from_data(data: &AtlasImage, rect_specs: &Vec<RectLoadSpec>) -> (result:
    Result<Vec<LoadedImage>, SkinError>)
    ensures
        match result {
            Ok(images) => sliced(data@, rect_specs@) == Ok::<Seq<SpriteModel>, SkinFailure>(
                sprite_models(images@),
            ),
            Err(e) => sliced(data@, rect_specs@) == Err::<Seq<SpriteModel>, SkinFailure>(e@),
        },
        result matches Ok(images) ==> forall|i: int|
            0 <= i < images.len() ==> (#[trigger] images[i]@).wf(),
{
    let mut result: Vec<LoadedImage> = Vec::new();
    let width = data.width();
    let height = data.height();
    let mut n: usize = 0;
    while n < rect_specs.len()
        invariant
            n <= rect_specs.len(),
            width == data@.width,
            height == data@.height,
            result.len() == n,
            forall|j: int| 0 <= j < n ==> (#[trigger] rect_specs[j]).fits(data@.width, data@.height),
            forall|j: int| 0 <= j < n ==> (#[trigger] result[j])@ == cropped(data@, rect_specs[j]),
            forall|j: int| 0 <= j < n ==> (#[trigger] result[j]@).wf(),
        decreases rect_specs.len() - n,
    {
        let r = rect_specs[n];
        if !(r.top_left_x < r.bottom_right_x && r.top_left_y < r.bottom_right_y
            && r.bottom_right_x <= width && r.bottom_right_y <= height) {
            proof {
                assert(first_misfit_at(rect_specs@, data@.width, data@.height, n as int));
                let i = choose|i: int| first_misfit_at(rect_specs@, data@.width, data@.height, i);
                lemma_first_misfit_unique(rect_specs@, data@.width, data@.height, i, n as int);
            }
            return Err(SkinError::RegionOutOfBounds(r, (width, height)));
        }
        let pixels = crop(data, &r);
        let size = ((r.bottom_right_x - r.top_left_x) as usize, (r.bottom_right_y - r.top_left_y) as usize);
        result.push(LoadedImage { pixels, size, image: r.image });
        n = n + 1;
    }
    proof {
        assert(all_fit(rect_specs@, data@.width, data@.height));
        assert(sprite_models(result@) =~= Seq::new(
            rect_specs@.len(),
            |i: int| cropped(data@, rect_specs@[i]),
        ));
    }
    Ok(result)
}

} // verus!
