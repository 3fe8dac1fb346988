//! Sprites and tile sets: rectangular parts of a texture.

use crate::geometry::{Ratio, Rect, Size};
use crate::outside::share;
use crate::texture::{Texture, TextureError, TextureIds};
use std::rc::Rc;
use vstd::prelude::*;

verus! {

/// What a decoder made of an image file.
#[derive(Debug, PartialEq, Eq)]
pub struct DecodedImage {
    pub dimensions: Size,
    /// The pixels, where the image holds four 8-bit channels per pixel, red,
    /// green, blue and alpha; otherwise nothing.
    pub rgba8: Option<Vec<u8>>,
}

/// A rectangular part of a texture, `dimensions` pixels large.
#[derive(Debug, PartialEq)]
pub struct Sprite {
    pub dimensions: Size,
    pub tex_coords: Rect<Ratio>,
    pub texture: Rc<Texture>,
}

impl Sprite {
    /// A sprite that shows the whole of a new texture made from `rgba`.
    pub fn load_data(ids: &mut TextureIds, rgba: &[u8], dimensions: Size) -> (result: Result<
        Sprite,
        TextureError,
    >)
        requires
            !old(ids).exhausted(),
        ensures
            result is Ok <==> rgba@.len() == dimensions.rgba8_len(),
            result matches Ok(sprite) ==> {
                &&& sprite.dimensions == dimensions
                &&& sprite.tex_coords == Rect::<Ratio>::full()
                &&& sprite.texture.id.0 == old(ids).issued()
                &&& sprite.texture.dimensions == dimensions
                &&& *final(ids) == old(ids).advanced()
                &&& final(ids).issued() == old(ids).issued() + 1
            },
            result matches Err(error) ==> {
                &&& error == TextureError::InvalidImageData
                &&& *final(ids) == *old(ids)
            },
    {
        match Texture::new(ids, rgba, dimensions) {
            Ok(texture) => Ok(
                Sprite { dimensions, tex_coords: Rect::<Ratio>::full(), texture: Rc::new(texture) },
            ),
            Err(error) => Err(error),
        }
    }

    /// A sprite that shows the whole of a decoded image. There is none where
    /// decoding failed, where the image is not 8-bit RGBA, or where its pixel
    /// buffer does not match its dimensions.
    pub fn load_image(ids: &mut TextureIds, image: Option<&DecodedImage>) -> (result: Option<
        Sprite,
    >)
        requires
            !old(ids).exhausted(),
        ensures
            result is Some <==> is_loadable(image),
            result matches Some(sprite) ==> {
                &&& sprite.dimensions == image->0.dimensions
                &&& sprite.tex_coords == Rect::<Ratio>::full()
                &&& sprite.texture.id.0 == old(ids).issued()
                &&& sprite.texture.dimensions == image->0.dimensions
                &&& *final(ids) == old(ids).advanced()
                &&& final(ids).issued() == old(ids).issued() + 1
            },
            result is None ==> *final(ids) == *old(ids),
    {
        match image {
            Some(DecodedImage { dimensions, rgba8: Some(rgba) }) => {
                match Sprite::load_data(ids, rgba.as_slice(), *dimensions) {
                    Ok(sprite) => Some(sprite),
                    Err(_) => None,
                }
            },
            _ => None,
        }
    }
}

/// The image was decoded, holds 8-bit RGBA pixels, and its pixel buffer is as
/// long as its dimensions say.
pub open spec fn is_loadable(image: Option<&DecodedImage>) -> bool {
    &&& image matches Some(decoded)
    &&& decoded.rgba8 matches Some(rgba)
    &&& rgba@.len() == decoded.dimensions.rgba8_len()
}

/// A texture cut into a grid of tiles of equal size, counted from the top
/// left. Tiles are never zero pixels wide or high.
#[derive(Debug, PartialEq)]
pub struct TileSet {
    dimensions: Size,
    tile_dimensions: Size,
    texture: Rc<Texture>,
}

/// What a [`TileSet`] holds.
pub ghost struct TileSetView {
    /// Size of the whole sheet.
    pub dimensions: Size,
    /// Size of one tile.
    pub tile_dimensions: Size,
    pub texture: Rc<Texture>,
}

impl TileSetView {
    /// No tile is zero pixels wide or high.
    pub open spec fn wf(self) -> bool {
        self.tile_dimensions.width > 0 && self.tile_dimensions.height > 0
    }

    /// The tiles fill the sheet with nothing left over.
    pub open spec fn divides_evenly(self) -> bool {
        &&& self.dimensions.width % self.tile_dimensions.width == 0
        &&& self.dimensions.height % self.tile_dimensions.height == 0
    }

    /// Number of whole tiles in a row and in a column.
    pub open spec fn tile_count(self) -> (int, int) {
        (
            self.dimensions.width as int / self.tile_dimensions.width as int,
            self.dimensions.height as int / self.tile_dimensions.height as int,
        )
    }

    /// The part of the sheet that tile `(x, y)` covers.
    pub open spec fn tile_coords(self, x: u32, y: u32) -> Rect<Ratio> {
        Rect {
            left: Ratio {
                num: (x * self.tile_dimensions.width) as u64,
                den: self.dimensions.width,
            },
            top: Ratio {
                num: (y * self.tile_dimensions.height) as u64,
                den: self.dimensions.height,
            },
            right: Ratio {
                num: ((x + 1) * self.tile_dimensions.width) as u64,
                den: self.dimensions.width,
            },
            bottom: Ratio {
                num: ((y + 1) * self.tile_dimensions.height) as u64,
                den: self.dimensions.height,
            },
        }
    }
}

impl View for TileSet {
    type V = TileSetView;

    closed spec fn view(&self) -> TileSetView {
        TileSetView {
            dimensions: self.dimensions,
            tile_dimensions: self.tile_dimensions,
            texture: self.texture,
        }
    }
}

/// `(a + 1) * b` for 32-bit `a` and `b` fits in 64 bits.
proof fn lemma_edge_fits(a: u32, b: u32)
    ensures
        a * b <= (a + 1) * b <= u64::MAX,
{
    assert(a * b <= (a + 1) * b <= 0x1_0000_0000 * 0xFFFF_FFFF) by (nonlinear_arith)
        requires
            0 <= a <= 0xFFFF_FFFF,
            0 <= b <= 0xFFFF_FFFF,
    ;
}

/// Below the tile count the far edge of a tile is still on the sheet.
proof fn lemma_edge_on_sheet(a: int, tile: int, sheet: int)
    requires
        0 <= a < sheet / tile,
        0 < tile,
        0 <= sheet,
    ensures
        a * tile <= (a + 1) * tile <= sheet,
        0 < sheet,
{
    assert((a + 1) * tile <= (sheet / tile) * tile) by (nonlinear_arith)
        requires
            a + 1 <= sheet / tile,
            0 < tile,
    ;
    assert((sheet / tile) * tile <= sheet) by (nonlinear_arith)
        requires
            0 < tile,
            0 <= sheet,
    ;
    assert(a * tile <= (a + 1) * tile) by (nonlinear_arith)
        requires
            0 < tile,
    ;
}

/// With tiles that fill the sheet, edge number `a` lies at `a / count` of
/// the sheet.
proof fn lemma_cell_edge(a: int, tile: int, sheet: int)
    requires
        0 < tile,
        0 <= sheet,
        sheet % tile == 0,
    ensures
        (a * tile) * (sheet / tile) == a * sheet,
{
    assert(sheet == tile * (sheet / tile)) by (nonlinear_arith)
        requires
            0 < tile,
            sheet % tile == 0,
    ;
    assert((a * tile) * (sheet / tile) == a * (tile * (sheet / tile))) by (nonlinear_arith);
}

impl TileSet {
    #[verifier::type_invariant]
    spec fn tiles_are_not_empty(self) -> bool {
        self@.wf()
    }

    /// A tile set over a new texture made from `rgba`, cut into tiles of
    /// `tile_dimensions`.
    pub fn load_data(
        ids: &mut TextureIds,
        rgba: &[u8],
        dimensions: Size,
        tile_dimensions: Size,
    ) -> (result: Result<TileSet, TextureError>)
        requires
            !old(ids).exhausted(),
        ensures
            result is Ok <==> tile_dimensions.width > 0 && tile_dimensions.height > 0 && rgba@.len()
                == dimensions.rgba8_len(),
            result matches Ok(set) ==> {
                &&& set@.wf()
                &&& set@.dimensions == dimensions
                &&& set@.tile_dimensions == tile_dimensions
                &&& set@.texture.id.0 == old(ids).issued()
                &&& set@.texture.dimensions == dimensions
                &&& *final(ids) == old(ids).advanced()
                &&& final(ids).issued() == old(ids).issued() + 1
            },
            result matches Err(error) ==> {
                &&& error == TextureError::DegenerateTileSize <==> tile_dimensions.width == 0
                    || tile_dimensions.height == 0
                &&& error == TextureError::InvalidImageData <==> tile_dimensions.width > 0
                    && tile_dimensions.height > 0
                &&& *final(ids) == *old(ids)
            },
    {
        if tile_dimensions.width == 0 || tile_dimensions.height == 0 {
            return Err(TextureError::DegenerateTileSize);
        }
        match Texture::new(ids, rgba, dimensions) {
            Ok(texture) => Ok(TileSet { dimensions, tile_dimensions, texture: Rc::new(texture) }),
            Err(error) => Err(error),
        }
    }

    /// A tile set over a decoded image. There is none where decoding failed,
    /// where the image is not 8-bit RGBA, where its pixel buffer does not
    /// match its dimensions, or where a tile would be empty.
    pub fn load_image(
        ids: &mut TextureIds,
        image: Option<&DecodedImage>,
        tile_dimensions: Size,
    ) -> (result: Option<TileSet>)
        requires
            !old(ids).exhausted(),
        ensures
            result is Some <==> is_loadable(image) && tile_dimensions.width > 0
                && tile_dimensions.height > 0,
            result matches Some(set) ==> {
                &&& set@.wf()
                &&& set@.dimensions == image->0.dimensions
                &&& set@.tile_dimensions == tile_dimensions
                &&& set@.texture.id.0 == old(ids).issued()
                &&& set@.texture.dimensions == image->0.dimensions
                &&& *final(ids) == old(ids).advanced()
                &&& final(ids).issued() == old(ids).issued() + 1
            },
            result is None ==> *final(ids) == *old(ids),
    {
        match image {
            Some(DecodedImage { dimensions, rgba8: Some(rgba) }) => {
                match TileSet::load_data(ids, rgba.as_slice(), *dimensions, tile_dimensions) {
                    Ok(set) => Some(set),
                    Err(_) => None,
                }
            },
            _ => None,
        }
    }

    /// Size of the whole sheet.
    pub fn dimensions(&self) -> (dimensions: Size)
        ensures
            dimensions == self@.dimensions,
    {
        self.dimensions
    }

    /// Size of one tile.
    pub fn tile_dimensions(&self) -> (dimensions: Size)
        ensures
            dimensions == self@.tile_dimensions,
            self@.wf(),
    {
        proof {
            use_type_invariant(self);
        }
        self.tile_dimensions
    }

    /// The texture of the whole sheet.
    pub fn texture(&self) -> (texture: &Rc<Texture>)
        ensures
            *texture == self@.texture,
    {
        &self.texture
    }

    /// Number of whole tiles in a row and in a column. What is left over at
    /// the right and at the bottom belongs to no tile.
    pub fn tile_count(&self) -> (count: (u32, u32))
        ensures
            count.0 == self@.dimensions.width / self@.tile_dimensions.width,
            count.1 == self@.dimensions.height / self@.tile_dimensions.height,
            (count.0 as int, count.1 as int) == self@.tile_count(),
    {
        proof {
            use_type_invariant(self);
        }
        (
            self.dimensions.width / self.tile_dimensions.width,
            self.dimensions.height / self.tile_dimensions.height,
        )
    }

    /// The sprite of tile `(x, y)`, sharing the texture of the sheet. The
    /// indices are not checked: outside the grid the sprite reaches beyond
    /// the texture.
    pub fn sprite(&self, x: u32, y: u32) -> (sprite: Sprite)
        ensures
            sprite.dimensions == self@.tile_dimensions,
            sprite.tex_coords == self@.tile_coords(x, y),
            sprite.texture == self@.texture,
            x < self@.tile_count().0 && y < self@.tile_count().1
                ==> sprite.tex_coords.is_normalized(),
    {
        proof {
            use_type_invariant(self);
            lemma_edge_fits(x, self.tile_dimensions.width);
            lemma_edge_fits(y, self.tile_dimensions.height);
            if x < self@.tile_count().0 && y < self@.tile_count().1 {
                self@.lemma_tile_is_normalized(x, y);
            }
        }
        let tile_width = self.tile_dimensions.width as u64;
        let tile_height = self.tile_dimensions.height as u64;
        let tex_coords = Rect {
            left: Ratio { num: (x as u64) * tile_width, den: self.dimensions.width },
            top: Ratio { num: (y as u64) * tile_height, den: self.dimensions.height },
            right: Ratio { num: (x as u64 + 1) * tile_width, den: self.dimensions.width },
            bottom: Ratio { num: (y as u64 + 1) * tile_height, den: self.dimensions.height },
        };
        Sprite { dimensions: self.tile_dimensions, tex_coords, texture: share(&self.texture) }
    }
}

impl TileSetView {
    /// Where the tiles fill the sheet with nothing left over, tile `(x, y)`
    /// of a grid of `columns` by `rows` tiles spans from `x / columns` to
    /// `(x + 1) / columns` and from `y / rows` to `(y + 1) / rows`, all of
    /// them within `[0, 1]`.
    pub proof fn lemma_tile_spans_its_cell(self, x: u32, y: u32)
        requires
            self.wf(),
            self.divides_evenly(),
            x < self.tile_count().0,
            y < self.tile_count().1,
        ensures
            ({
                let coords = self.tile_coords(x, y);
                let (columns, rows) = self.tile_count();
                &&& coords.left.equals(x as int, columns)
                &&& coords.right.equals(x + 1, columns)
                &&& coords.top.equals(y as int, rows)
                &&& coords.bottom.equals(y + 1, rows)
                &&& coords.left.in_unit_interval()
                &&& coords.right.in_unit_interval()
                &&& coords.top.in_unit_interval()
                &&& coords.bottom.in_unit_interval()
            }),
    {
        let (tile_width, tile_height) = (
            self.tile_dimensions.width as int,
            self.tile_dimensions.height as int,
        );
        let (width, height) = (self.dimensions.width as int, self.dimensions.height as int);
        let (columns, rows) = self.tile_count();
        lemma_edge_fits(x, self.tile_dimensions.width);
        lemma_edge_fits(y, self.tile_dimensions.height);
        lemma_edge_on_sheet(x as int, tile_width, width);
        lemma_edge_on_sheet(y as int, tile_height, height);
        lemma_cell_edge(x as int, tile_width, width);
        lemma_cell_edge(x + 1, tile_width, width);
        lemma_cell_edge(y as int, tile_height, height);
        lemma_cell_edge(y + 1, tile_height, height);
    }

    /// A tile inside the grid lies inside the texture.
    pub proof fn lemma_tile_is_normalized(self, x: u32, y: u32)
        requires
            self.wf(),
            x < self.tile_count().0,
            y < self.tile_count().1,
        ensures
            self.tile_coords(x, y).is_normalized(),
    {
        let coords = self.tile_coords(x, y);
        let (tile_width, tile_height) = (
            self.tile_dimensions.width as int,
            self.tile_dimensions.height as int,
        );
        let (width, height) = (self.dimensions.width as int, self.dimensions.height as int);
        lemma_edge_fits(x, self.tile_dimensions.width);
        lemma_edge_fits(y, self.tile_dimensions.height);
        lemma_edge_on_sheet(x as int, tile_width, width);
        lemma_edge_on_sheet(y as int, tile_height, height);
        assert(coords.left.num * width <= coords.right.num * width) by (nonlinear_arith)
            requires
                coords.left.num <= coords.right.num,
                0 < width,
        ;
        assert(coords.top.num * height <= coords.bottom.num * height) by (nonlinear_arith)
            requires
                coords.top.num <= coords.bottom.num,
                0 < height,
        ;
    }
}

} // verus!
