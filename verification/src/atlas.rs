//! Decoded atlas images and the rectangles cut out of them.

use crate::sprites::SkinImage;
use vstd::arithmetic::div_mod::lemma_fundamental_div_mod_converse;
use vstd::prelude::*;

verus! {

/// A rectangle of an atlas, in absolute pixel coordinates, and the sprite it
/// holds. The corner `(bottom_right_x, bottom_right_y)` lies just outside the
/// rectangle.
#[derive(Debug, Copy, Clone, PartialEq, Eq, Structural)]
pub struct RectLoadSpec {
    pub top_left_x: u32,
    pub top_left_y: u32,
    pub bottom_right_x: u32,
    pub bottom_right_y: u32,
    pub image: SkinImage,
}

impl RectLoadSpec {
    /// The rectangle is not empty: its bottom-right corner lies strictly
    /// below and to the right of its top-left corner.
    pub open spec fn wf(self) -> bool {
        self.top_left_x < self.bottom_right_x && self.top_left_y < self.bottom_right_y
    }

    /// Width in pixels.
    pub open spec fn width(self) -> nat {
        (self.bottom_right_x - self.top_left_x) as nat
    }

    /// Height in pixels.
    pub open spec fn height(self) -> nat {
        (self.bottom_right_y - self.top_left_y) as nat
    }

    /// The rectangle is not empty and lies within an image of the given size.
    pub open spec fn fits(self, width: nat, height: nat) -> bool {
        self.wf() && self.bottom_right_x <= width && self.bottom_right_y <= height
    }
}

/// What an atlas image is: its size and its pixels as straight RGBA8, row by
/// row from the top, four bytes per pixel.
pub struct AtlasModel {
    pub width: nat,
    pub height: nat,
    pub pixels: Seq<u8>,
}

impl AtlasModel {
    /// The buffer holds exactly four bytes per pixel.
    pub open spec fn wf(self) -> bool {
        self.pixels.len() == self.width * self.height * 4
    }

    /// Channel `c` of the pixel in column `x` of row `y`.
    pub open spec fn channel(self, x: int, y: int, c: int) -> u8 {
        self.pixels[(y * self.width + x) * 4 + c]
    }
}

/// What a sprite is: the sprite it stands for, its size, and its pixels as
/// straight RGBA8.
pub struct SpriteModel {
    pub image: SkinImage,
    pub width: nat,
    pub height: nat,
    pub pixels: Seq<u8>,
}

impl SpriteModel {
    /// The buffer holds exactly four bytes per pixel.
    pub open spec fn wf(self) -> bool {
        self.pixels.len() == self.width * self.height * 4
    }
}

/// The bytes of the region `r` of `atlas`: byte `k` is channel `k % 4` of the
/// region's pixel `k / 4`, counted row by row; that pixel sits in column
/// `(k / 4) % w` and row `(k / 4) / w` of the region, `w` being its width.
pub open spec fn cropped_pixels(atlas: AtlasModel, r: RectLoadSpec) -> Seq<u8> {
    let w = r.width() as int;
    Seq::new(
        r.width() * r.height() * 4,
        |k: int| atlas.channel(r.top_left_x + (k / 4) % w, r.top_left_y + (k / 4) / w, k % 4),
    )
}

/// The sprite that the region `r` of `atlas` holds.
pub open spec fn cropped(atlas: AtlasModel, r: RectLoadSpec) -> SpriteModel {
    SpriteModel {
        image: r.image,
        width: r.width(),
        height: r.height(),
        pixels: cropped_pixels(atlas, r),
    }
}

/// A decoded atlas image in straight RGBA8.
#[derive(Debug)]
pub struct AtlasImage {
    width: u32,
    height: u32,
    pixels: Vec<u8>,
}

impl View for AtlasImage {
    type V = AtlasModel;

    closed spec fn view(&self) -> AtlasModel {
        AtlasModel { width: self.width as nat, height: self.height as nat, pixels: self.pixels@ }
    }
}

impl AtlasImage {
    #[verifier::type_invariant]
    spec fn inv(self) -> bool {
        self.pixels@.len() == self.width * self.height * 4
    }

    /// An image of the given size over the given bytes; `None` unless there
    /// are exactly four bytes per pixel.
    pub fn new(width: u32, height: u32, pixels: Vec<u8>) -> (r: Option<AtlasImage>)
        ensures
            r is Some <==> pixels@.len() == width * height * 4,
            r matches Some(a) ==> a@ == (AtlasModel {
                width: width as nat,
                height: height as nat,
                pixels: pixels@,
            }),
    {
        assert(width * height * 4 <= 0xffff_ffff * 0xffff_ffff * 4) by (nonlinear_arith)
            requires
                width <= 0xffff_ffff,
                height <= 0xffff_ffff,
        ;
        let n: u128 = (width as u128) * (height as u128) * 4;
        if pixels.len() as u128 == n {
            Some(AtlasImage { width, height, pixels })
        } else {
            None
        }
    }

    /// An image of the given size over bytes that are known to be four per
    /// pixel.
    pub(crate) fn from_rgba8(width: u32, height: u32, pixels: Vec<u8>) -> (a: AtlasImage)
        requires
            pixels@.len() == width * height * 4,
        ensures
            a@ == (AtlasModel { width: width as nat, height: height as nat, pixels: pixels@ }),
    {
        AtlasImage { width, height, pixels }
    }

    /// Width in pixels.
    pub fn width(&self) -> (w: u32)
        ensures
            w == self@.width,
    {
        self.width
    }

    /// Height in pixels.
    pub fn height(&self) -> (h: u32)
        ensures
            h == self@.height,
    {
        self.height
    }

    /// The pixels as straight RGBA8, row by row.
    pub fn pixels(&self) -> (p: &Vec<u8>)
        ensures
            p@ == self@.pixels,
            self@.wf(),
    {
        proof {
            use_type_invariant(self);
        }
        &self.pixels
    }
}

/// Where byte `(row * w + col) * 4 + c` of a region of width `w` comes from.
proof fn lemma_crop_index(w: int, row: int, col: int, c: int)
    requires
        0 <= col < w,
        0 <= row,
        0 <= c < 4,
    ensures
        ((row * w + col) * 4 + c) / 4 == row * w + col,
        ((row * w + col) * 4 + c) % 4 == c,
        (row * w + col) / w == row,
        (row * w + col) % w == col,
{
    lemma_fundamental_div_mod_converse((row * w + col) * 4 + c, 4, row * w + col, c);
    lemma_fundamental_div_mod_converse(row * w + col, w, row, col);
}

/// A pixel of a region that fits lies within the atlas buffer.
proof fn lemma_crop_bounds(aw: int, ah: int, w: int, h: int, x: int, y: int, row: int, col: int)
    requires
        0 <= x,
        0 <= y,
        0 <= col < w,
        0 <= row < h,
        x + w <= aw,
        y + h <= ah,
    ensures
        0 <= ((y + row) * aw + x + col) * 4,
        ((y + row) * aw + x + col) * 4 + 3 < aw * ah * 4,
        (row * w + col) * 4 + 4 <= w * h * 4,
        0 <= (row * w + col) * 4,
        0 <= (y + row) * aw,
        (y + row) * aw + x + col < aw * ah,
{
    assert((y + row) * aw + aw <= ah * aw) by (nonlinear_arith)
        requires
            y + row + 1 <= ah,
            0 <= aw,
    ;
    assert(0 <= (y + row) * aw) by (nonlinear_arith)
        requires
            0 <= y + row,
            0 <= aw,
    ;
    assert(ah * aw == aw * ah) by (nonlinear_arith);
    assert(row * w + w <= h * w) by (nonlinear_arith)
        requires
            row + 1 <= h,
            0 <= w,
    ;
    assert(0 <= row * w) by (nonlinear_arith)
        requires
            0 <= row,
            0 <= w,
    ;
    assert(h * w == w * h) by (nonlinear_arith);
}

/// Cuts the region `r` out of `atlas`.
pub fn crop(atlas: &AtlasImage, r: &RectLoadSpec) -> (out: Vec<u8>)
    requires
        r.fits(atlas@.width, atlas@.height),
    ensures
        out@ == cropped_pixels(atlas@, *r),
        out@.len() == r.width() * r.height() * 4,
{
    let src = atlas.pixels();
    let total: usize = src.len();
    let aw: usize = atlas.width() as usize;
    let x: usize = r.top_left_x as usize;
    let y: usize = r.top_left_y as usize;
    let w: usize = (r.bottom_right_x - r.top_left_x) as usize;
    let h: usize = (r.bottom_right_y - r.top_left_y) as usize;
    let ghost goal = cropped_pixels(atlas@, *r);
    let ghost ah = atlas@.height as int;
    let mut out: Vec<u8> = Vec::new();
    let mut row: usize = 0;
    while row < h
        invariant
            src@ == atlas@.pixels,
            src@.len() == total,
            atlas@.wf(),
            aw == atlas@.width,
            ah == atlas@.height,
            x == r.top_left_x,
            y == r.top_left_y,
            w == r.width(),
            h == r.height(),
            x + w <= aw,
            y + h <= ah,
            goal == cropped_pixels(atlas@, *r),
            row <= h,
            out@.len() == row * w * 4,
            out@ == goal.take(row * w * 4),
        decreases h - row,
    {
        let mut col: usize = 0;
        while col < w
            invariant
                src@ == atlas@.pixels,
                src@.len() == total,
                atlas@.wf(),
                aw == atlas@.width,
                ah == atlas@.height,
                x == r.top_left_x,
                y == r.top_left_y,
                w == r.width(),
                h == r.height(),
                x + w <= aw,
                y + h <= ah,
                goal == cropped_pixels(atlas@, *r),
                row < h,
                col <= w,
                out@.len() == (row * w + col) * 4,
                out@ == goal.take((row * w + col) * 4),
            decreases w - col,
        {
            proof {
                lemma_crop_bounds(aw as int, ah, w as int, h as int, x as int, y as int, row as int, col as int);
                lemma_crop_index(w as int, row as int, col as int, 0);
                lemma_crop_index(w as int, row as int, col as int, 1);
                lemma_crop_index(w as int, row as int, col as int, 2);
                lemma_crop_index(w as int, row as int, col as int, 3);
            }
            let base: usize = ((y + row) * aw + x + col) * 4;
            let ghost k = (row * w + col) * 4;
            out.push(src[base]);
            out.push(src[base + 1]);
            out.push(src[base + 2]);
            out.push(src[base + 3]);
            proof {
                assert(goal.len() == w * h * 4);
                assert(goal[k] == src@[base as int]);
                assert(goal[k + 1] == src@[base + 1]);
                assert(goal[k + 2] == src@[base + 2]);
                assert(goal[k + 3] == src@[base + 3]);
                assert(out@ =~= goal.take(k + 4));
                assert((row * w + (col + 1)) * 4 == k + 4) by (nonlinear_arith)
                    requires
                        k == (row * w + col) * 4,
                ;
            }
            col = col + 1;
        }
        proof {
            assert((row + 1) * w * 4 == (row * w + w) * 4) by (nonlinear_arith);
            assert(row * w * 4 == (row * w + 0) * 4);
        }
        row = row + 1;
    }
    proof {
        assert(h * w * 4 == w * h * 4) by (nonlinear_arith);
        assert(goal.take(goal.len() as int) =~= goal);
    }
    out
}

} // verus!
