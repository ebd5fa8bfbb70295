//! What the widgets decide from plain values.

use crate::sprites::SkinImage;
use vstd::prelude::*;

verus! {

/// Which way a bar runs.
#[derive(Debug, Copy, Clone, PartialEq, Eq, Structural)]
pub enum BarOrientation {
    Vertical,
    Horizontal,
}

/// Which of its three images a button shows.
#[derive(Debug, Copy, Clone, PartialEq, Eq, Structural)]
pub enum ButtonFace {
    Normal,
    Hover,
    Click,
}

/// The image a button shows: the clicked one while it is clicked, held down
/// or selected, else the hover one while the pointer is over it, else the
/// normal one.
pub fn button_face(clicked: bool, pointer_down: bool, selected: bool, hovered: bool) -> (face:
    ButtonFace)
    ensures
        face == if clicked || pointer_down || selected {
            ButtonFace::Click
        } else if hovered {
            ButtonFace::Hover
        } else {
            ButtonFace::Normal
        },
{
    if clicked || pointer_down {
        ButtonFace::Click
    } else if selected {
        ButtonFace::Click
    } else if hovered {
        ButtonFace::Hover
    } else {
        ButtonFace::Normal
    }
}

/// Where a control button sits in the main window, and its three images.
#[derive(Debug, Copy, Clone, PartialEq, Eq, Structural)]
pub struct ImageButtonSpec {
    pub x: u32,
    pub y: u32,
    pub texture: SkinImage,
    pub hover_texture: SkinImage,
    pub click_texture: SkinImage,
}

/// The row in which the control buttons sit.
pub const CONTROL_BUTTON_ROW: u32 = 88;

/// The column of each control button, left to right.
pub open spec fn control_button_columns() -> Seq<u32> {
    seq![16, 39, 62, 85, 108, 136]
}

/// The six control buttons, left to right: button `k` sits in its column of
/// the button row, shows sprite `k` at rest and under the pointer, and
/// sprite `6 + k`, its pressed face, while clicked.
pub fn control_buttons() -> (buttons: Vec<ImageButtonSpec>)
    ensures
        buttons.len() == 6,
        forall|k: int|
            0 <= k < 6 ==> {
                &&& (#[trigger] buttons[k]).x == control_button_columns()[k]
                &&& buttons[k].y == CONTROL_BUTTON_ROW
                &&& buttons[k].texture.spec_index() == k
                &&& buttons[k].hover_texture == buttons[k].texture
                &&& buttons[k].click_texture.spec_index() == 6 + k
            },
{
    let mut buttons: Vec<ImageButtonSpec> = Vec::new();
    buttons.push(placed_button(16, SkinImage::ButtonPrev, SkinImage::ButtonPrevPressed));
    buttons.push(placed_button(39, SkinImage::ButtonPlay, SkinImage::ButtonPlayPressed));
    buttons.push(placed_button(62, SkinImage::ButtonPause, SkinImage::ButtonPausePressed));
    buttons.push(placed_button(85, SkinImage::ButtonStop, SkinImage::ButtonStopPressed));
    buttons.push(placed_button(108, SkinImage::ButtonNext, SkinImage::ButtonNextPressed));
    buttons.push(placed_button(136, SkinImage::ButtonEject, SkinImage::ButtonEjectPressed));
    buttons
}

/// A button of the button row in column `x`.
fn placed_button(x: u32, texture: SkinImage, click_texture: SkinImage) -> (button: ImageButtonSpec)
    ensures
        button == (ImageButtonSpec {
            x,
            y: CONTROL_BUTTON_ROW,
            texture,
            hover_texture: texture,
            click_texture,
        }),
{
    ImageButtonSpec { x, y: CONTROL_BUTTON_ROW, texture, hover_texture: texture, click_texture }
}

} // verus!
