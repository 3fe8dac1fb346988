//! Texture identities and the textures they name.

use crate::geometry::Size;
use vstd::prelude::*;

verus! {

/// Identity of a texture. Identities are handed out by [`TextureIds`] in
/// increasing order and never twice.
#[derive(Clone, Copy, Debug, PartialEq, Eq, PartialOrd, Ord, Hash)]
pub struct TextureId(pub u32);

/// Why a texture, a sprite or a tile set could not be made.
#[derive(Clone, Copy, Debug, PartialEq, Eq)]
pub enum TextureError {
    /// The pixel buffer does not hold exactly `4 * width * height` bytes.
    InvalidImageData,
    /// A tile is zero pixels wide or zero pixels high.
    DegenerateTileSize,
}

/// The source of texture identities. It starts at 0 and counts upwards; keep
/// one per process.
#[derive(Debug)]
pub struct TextureIds {
    next: u32,
}

impl TextureIds {
    /// How many identities have been handed out; also the next one.
    pub closed spec fn issued(self) -> nat {
        self.next as nat
    }

    /// No identity is left to hand out.
    pub open spec fn exhausted(self) -> bool {
        self.issued() >= u32::MAX
    }

    /// The source after one more identity has been handed out.
    pub closed spec fn advanced(self) -> TextureIds {
        TextureIds { next: (self.next + 1) as u32 }
    }

    pub fn new() -> (ids: TextureIds)
        ensures
            ids.issued() == 0,
    {
        TextureIds { next: 0 }
    }

    pub fn is_exhausted(&self) -> (exhausted: bool)
        ensures
            exhausted == self.exhausted(),
    {
        self.next == u32::MAX
    }

    /// Hands out the next identity.
    pub fn allocate(&mut self) -> (id: TextureId)
        requires
            !old(self).exhausted(),
        ensures
            id.0 == old(self).issued(),
            *final(self) == old(self).advanced(),
            final(self).issued() == old(self).issued() + 1,
    {
        let id = TextureId(self.next);
        self.next = self.next + 1;
        id
    }

    /// The source after `count` more identities have been handed out.
    pub open spec fn advanced_by(self, count: nat) -> TextureIds
        decreases count,
    {
        if count == 0 {
            self
        } else {
            self.advanced_by((count - 1) as nat).advanced()
        }
    }

    /// Identities are handed out in strictly increasing order and never
    /// twice: the identity that comes after `count` others is larger by
    /// `count` than the one that comes now.
    pub proof fn lemma_identities_increase(self, count: nat)
        requires
            self.issued() + count <= u32::MAX,
        ensures
            self.advanced_by(count).issued() == self.issued() + count,
            count > 0 ==> self.advanced_by(count).issued() > self.issued(),
        decreases count,
    {
        if count > 0 {
            self.lemma_identities_increase((count - 1) as nat);
        }
    }
}

/// How the pixels of a texture are laid out for the copy to the device.
#[derive(Clone, Copy, Debug, PartialEq, Eq)]
pub struct TextureUpload {
    pub width: u32,
    pub height: u32,
    pub depth_or_array_layers: u32,
    pub mip_level_count: u32,
    pub sample_count: u32,
    /// Where the first row starts in the pixel buffer.
    pub offset: u64,
    /// Distance in bytes from one row to the next.
    pub bytes_per_row: u64,
    pub rows_per_image: u32,
}

/// One image with its identity. A texture is shared by every sprite and tile
/// set made from it.
#[derive(Debug, PartialEq, Eq)]
pub struct Texture {
    pub id: TextureId,
    pub dimensions: Size,
}

impl Texture {
    /// A texture for `rgba`, an image of `dimensions` pixels with four bytes
    /// per pixel, row after row without padding. A buffer of any other length
    /// is refused, and then no identity is used up.
    pub fn new(ids: &mut TextureIds, rgba: &[u8], dimensions: Size) -> (result: Result<
        Texture,
        TextureError,
    >)
        requires
            !old(ids).exhausted(),
        ensures
            result is Ok <==> rgba@.len() == dimensions.rgba8_len(),
            result matches Ok(texture) ==> {
                &&& texture.id.0 == old(ids).issued()
                &&& texture.dimensions == dimensions
                &&& *final(ids) == old(ids).advanced()
                &&& final(ids).issued() == old(ids).issued() + 1
            },
            result matches Err(error) ==> {
                &&& error == TextureError::InvalidImageData
                &&& *final(ids) == *old(ids)
            },
    {
        let width: u128 = dimensions.width as u128;
        let height: u128 = dimensions.height as u128;
        assert(width * height <= 0xFFFF_FFFF * 0xFFFF_FFFF) by (nonlinear_arith)
            requires
                width <= 0xFFFF_FFFF,
                height <= 0xFFFF_FFFF,
        ;
        let expected: u128 = 4 * (width * height);
        if rgba.len() as u128 != expected {
            return Err(TextureError::InvalidImageData);
        }
        let id = ids.allocate();
        Ok(Texture { id, dimensions })
    }

    /// The layout of the upload: one layer, one mip level, rows of
    /// `4 * width` bytes starting at the front of the buffer.
    pub fn upload(&self) -> (upload: TextureUpload)
        ensures
            upload == (TextureUpload {
                width: self.dimensions.width,
                height: self.dimensions.height,
                depth_or_array_layers: 1,
                mip_level_count: 1,
                sample_count: 1,
                offset: 0,
                bytes_per_row: (4 * self.dimensions.width) as u64,
                rows_per_image: self.dimensions.height,
            }),
    {
        TextureUpload {
            width: self.dimensions.width,
            height: self.dimensions.height,
            depth_or_array_layers: 1,
            mip_level_count: 1,
            sample_count: 1,
            offset: 0,
            bytes_per_row: 4 * (self.dimensions.width as u64),
            rows_per_image: self.dimensions.height,
        }
    }
}

} // verus!
