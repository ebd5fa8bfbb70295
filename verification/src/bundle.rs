//! The sprites of one loaded skin, keyed by sprite identifier.

use crate::atlas::SpriteModel;
use crate::skin::LoadedImage;
use crate::sprites::SkinImage;
use vstd::prelude::*;

verus! {

/// The sprites of one loaded skin. Built while a package loads and read-only
/// afterwards.
#[verifier::external_body]
pub struct WinampSkin {
    images: fixed_map::Map<usize, LoadedImage>,
}

/// What the map inside a skin holds: for each position of a sprite
/// identifier that has a sprite, that sprite.
pub uninterp spec fn skin_contents(skin: WinampSkin) -> Map<usize, LoadedImage>;

/// `fixed_map::Map::new`: a map that holds nothing.
#[verifier::external_body]
fn map_new() -> (skin: WinampSkin)
    ensures
        skin_contents(skin) =~= Map::empty(),
{
    WinampSkin { images: fixed_map::Map::new() }
}

/// `fixed_map::Map::insert`: the value is stored under the key, in place of
/// what was stored there, which is handed back.
#[verifier::external_body]
fn map_insert(skin: &mut WinampSkin, key: usize, value: LoadedImage) -> (previous: Option<LoadedImage>)
    ensures
        skin_contents(*final(skin)) == skin_contents(*old(skin)).insert(key, value),
        previous == (if skin_contents(*old(skin)).dom().contains(key) {
            Some(skin_contents(*old(skin))[key])
        } else {
            None
        }),
{
    skin.images.insert(key, value)
}

/// `fixed_map::Map::get`: the value stored under the key, if there is one.
#[verifier::external_body]
fn map_get(skin: &WinampSkin, key: usize) -> (found: Option<&LoadedImage>)
    ensures
        found is Some <==> skin_contents(*skin).dom().contains(key),
        found matches Some(value) ==> *value == skin_contents(*skin)[key],
{
    skin.images.get(key)
}

impl View for WinampSkin {
    type V = Map<SkinImage, SpriteModel>;

    /// The sprite stored for each sprite identifier that has one.
    open spec fn view(&self) -> Map<SkinImage, SpriteModel> {
        Map::new(
            |s: SkinImage| skin_contents(*self).dom().contains(s.spec_index() as usize),
            |s: SkinImage| skin_contents(*self)[s.spec_index() as usize]@,
        )
    }
}

impl WinampSkin {
    /// A skin without sprites.
    pub fn new() -> (skin: WinampSkin)
        ensures
            skin@ == Map::<SkinImage, SpriteModel>::empty(),
    {
        let skin = map_new();
        assert(skin@ =~= Map::<SkinImage, SpriteModel>::empty());
        skin
    }

    /// Stores a sprite under its own identifier, in place of one stored
    /// there before.
    pub fn insert(&mut self, image: LoadedImage)
        ensures
            final(self)@ == old(self)@.insert(image.image, image@),
    {
        let key = image.image.index();
        let ghost id = image.image;
        let ghost model = image@;
        let _ = map_insert(self, key, image);
        proof {
            assert forall|s: SkinImage| s.spec_index() == id.spec_index() implies s == id by {
                SkinImage::lemma_index_injective(s, id);
            }
            assert(self@ =~= old(self)@.insert(id, model));
        }
    }

    /// The sprite stored for an identifier, if there is one.
    pub fn get(&self, sprite: SkinImage) -> (found: Option<&LoadedImage>)
        ensures
            found is Some <==> self@.dom().contains(sprite),
            found matches Some(image) ==> image@ == self@[sprite],
    {
        map_get(self, sprite.index())
    }
}

} // verus!
