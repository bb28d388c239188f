//! Plain-value model of the texture data that flows from the GUI toolkit to a
//! rendering backend: texture identifiers, the readable content of one texture
//! update, and a frame's worth of texture updates and frees.

use vstd::prelude::*;

verus! {

/// Identifier of a texture, mirroring the toolkit's two id namespaces:
/// toolkit-managed textures (the font atlas is `Managed(0)`) and
/// user-allocated textures.
#[derive(Clone, Copy, PartialEq, Eq, Structural, Debug, Hash)]
pub enum TextureId {
    Managed(u64),
    User(u64),
}

/// Texel position of a partial texture update.
#[derive(Clone, Copy, PartialEq, Eq, Structural, Debug)]
pub struct UpdatePos {
    pub x: usize,
    pub y: usize,
}

/// The content of one texture upload: the image dimensions in texels, an
/// optional position (`None` means the whole texture is replaced, `Some`
/// means a sub-region starting there is updated), and the pixel bytes in
/// RGBA order, row by row.
pub struct TextureImage {
    pub width: usize,
    pub height: usize,
    pub pos: Option<UpdatePos>,
    pub bytes: Vec<u8>,
}

/// Mathematical value of a [`TextureImage`].
pub struct TextureImageView {
    pub width: int,
    pub height: int,
    pub pos: Option<(int, int)>,
    pub bytes: Seq<u8>,
}

impl View for TextureImage {
    type V = TextureImageView;

    open spec fn view(&self) -> TextureImageView {
        TextureImageView {
            width: self.width as int,
            height: self.height as int,
            pos: match self.pos {
                Some(p) => Some((p.x as int, p.y as int)),
                None => None,
            },
            bytes: self.bytes@,
        }
    }
}

impl TextureImage {
    /// The image carries four bytes for each texel it covers.
    pub open spec fn wf(self) -> bool {
        self@.bytes.len() == 4 * self@.width * self@.height
    }
}

/// A frame's texture reconciliation work, already lowered to plain values:
/// the uploads to apply before painting, in order, and the identifiers to
/// free after painting.
pub struct TextureDeltas {
    pub set: Vec<(TextureId, TextureImage)>,
    pub free: Vec<TextureId>,
}

} // verus!
