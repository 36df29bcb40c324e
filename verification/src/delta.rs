//! The per-frame texture delta: which textures the toolkit sets, fully or in
//! part, and which it releases.

use vstd::prelude::*;
use crate::texture::{Color32, TextureId, TextureOptions};

verus! {

/// A new image for a texture, or for a region of it.
#[derive(Debug)]
pub struct ImageDelta {
    /// Width and height of the image in texels.
    pub size: [usize; 2],
    /// The texels, row by row.
    pub pixels: Vec<Color32>,
    /// The sampling options of the texture that a full image creates.
    pub options: TextureOptions,
    /// Where the image goes inside the existing texture; `None` for an image
    /// that replaces the whole texture.
    pub pos: Option<[usize; 2]>,
}

/// What an [`ImageDelta`] says.
pub struct ImageDeltaView {
    pub size: (nat, nat),
    pub pixels: Seq<Color32>,
    pub options: TextureOptions,
    pub pos: Option<(nat, nat)>,
}

impl View for ImageDelta {
    type V = ImageDeltaView;

    open spec fn view(&self) -> ImageDeltaView {
        ImageDeltaView {
            size: (self.size[0] as nat, self.size[1] as nat),
            pixels: self.pixels@,
            options: self.options,
            pos: match self.pos {
                Some(pos) => Some((pos[0] as nat, pos[1] as nat)),
                None => None,
            },
        }
    }
}

/// The texture changes of one frame.
#[derive(Debug)]
pub struct TexturesDelta {
    /// Images to set, in the order in which they apply.
    pub set: Vec<(TextureId, ImageDelta)>,
    /// Textures to release once the frame is painted.
    pub free: Vec<TextureId>,
}

/// The images of a delta as the contracts see them.
pub open spec fn set_views(set: Seq<(TextureId, ImageDelta)>) -> Seq<(TextureId, ImageDeltaView)> {
    Seq::new(set.len(), |i: int| (set[i].0, set[i].1@))
}

/// The gamma with which the coverage values of a font image become sRGBA
/// texels before they are handed to the renderer.
#[derive(Clone, Copy, Debug, PartialEq, Eq, Structural)]
pub enum FontGamma {
    /// Gamma 1.0, for an update of a region of the atlas.
    Update,
    /// Gamma 0.4, for a full atlas.
    Atlas,
}

impl FontGamma {
    /// The gamma in tenths.
    pub fn tenths(self) -> (tenths: u8)
        ensures
            tenths == match self {
                FontGamma::Update => 10u8,
                FontGamma::Atlas => 4u8,
            },
    {
        match self {
            FontGamma::Update => 10,
            FontGamma::Atlas => 4,
        }
    }
}

/// The gamma for a font image that goes to `pos`.
pub fn font_gamma(pos: Option<[usize; 2]>) -> (gamma: FontGamma)
    ensures
        gamma == if pos.is_some() {
            FontGamma::Update
        } else {
            FontGamma::Atlas
        },
{
    match pos {
        Some(_) => FontGamma::Update,
        None => FontGamma::Atlas,
    }
}

} // verus!
