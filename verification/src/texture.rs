//! Images as they are uploaded for textures: eight-bit RGBA, with the bottom
//! row first.

use vstd::prelude::*;

verus! {

/// How the GPU filters a texture.
#[derive(Clone, Copy, Debug, PartialEq, Eq)]
pub enum Filter {
    /// Blend the nearest texels.
    Linear,
    /// Blend the nearest texels of the two nearest mipmap levels.
    LinearMipmapLinear,
}

/// How a texture is sampled: the filters for shrinking and for magnifying,
/// and whether mipmaps are generated for it. Textures repeat in both
/// directions.
#[derive(Clone, Copy, Debug, PartialEq, Eq)]
pub struct Sampling {
    pub min_filter: Filter,
    pub mag_filter: Filter,
    pub mipmaps: bool,
}

impl Sampling {
    /// The sampling of the decal that is shared by all satellites: linear
    /// both ways, no mipmaps.
    pub fn decal() -> (sampling: Sampling)
        ensures
            sampling == (Sampling {
                min_filter: Filter::Linear,
                mag_filter: Filter::Linear,
                mipmaps: false,
            }),
    {
        Sampling { min_filter: Filter::Linear, mag_filter: Filter::Linear, mipmaps: false }
    }

    /// The sampling of the textures of an imported mesh: mipmaps, blended
    /// when shrinking.
    pub fn material() -> (sampling: Sampling)
        ensures
            sampling == (Sampling {
                min_filter: Filter::LinearMipmapLinear,
                mag_filter: Filter::Linear,
                mipmaps: true,
            }),
    {
        Sampling {
            min_filter: Filter::LinearMipmapLinear,
            mag_filter: Filter::Linear,
            mipmaps: true,
        }
    }
}

/// Why an image cannot be used as a texture.
#[derive(Clone, Copy, Debug, PartialEq, Eq)]
pub enum TextureError {
    /// The bytes are no image that the decoder reads.
    Undecodable,
    /// The pixel data does not hold four bytes for each pixel.
    SizeMismatch,
}

/// An image ready for upload: `width` by `height` pixels of four bytes each,
/// row after row.
#[derive(Debug, PartialEq, Eq)]
pub struct Texture {
    pub width: u32,
    pub height: u32,
    pub pixels: Vec<u8>,
}

impl Texture {
    /// The pixel data holds four bytes for each pixel.
    pub open spec fn wf(&self) -> bool {
        self.pixels@.len() == 4 * self.width * self.height
    }
}

/// The rows of an image in the opposite order: `pixels` holds `rows` rows of
/// `row_bytes` bytes each.
pub open spec fn flipped_rows(pixels: Seq<u8>, row_bytes: int, rows: int) -> Seq<u8> {
    Seq::new(
        pixels.len(),
        |i: int| pixels[(rows - 1 - i / row_bytes) * row_bytes + i % row_bytes],
    )
}

/// The texture that a decoded image gives, if any: its rows flipped, since
/// the GPU takes the bottom row first.
pub open spec fn texture_of(decoded: Option<(u32, u32, Vec<u8>)>) -> Result<
    (u32, u32, Seq<u8>),
    TextureError,
> {
    match decoded {
        None => Err(TextureError::Undecodable),
        Some((width, height, pixels)) => if pixels@.len() != 4 * width * height {
            Err(TextureError::SizeMismatch)
        } else {
            Ok((width, height, flipped_rows(pixels@, 4 * width, height as int)))
        },
    }
}

proof fn lemma_row_within(row: int, rows: int, row_bytes: int, column: int)
    by (nonlinear_arith)
    requires
        0 <= row < rows,
        0 <= column < row_bytes,
    ensures
        0 <= row * row_bytes + column < rows * row_bytes,
        (row * row_bytes + column) / row_bytes == row,
        (row * row_bytes + column) % row_bytes == column,
        (row + 1) * row_bytes == row * row_bytes + row_bytes,
{
    vstd::arithmetic::div_mod::lemma_fundamental_div_mod_converse(
        row * row_bytes + column,
        row_bytes,
        row,
        column,
    );
}

/// Reverses the order of the rows of an image of `rows` rows of `row_bytes`
/// bytes each.
pub fn flip_rows(pixels: &Vec<u8>, row_bytes: usize, rows: usize) -> (flipped: Vec<u8>)
    requires
        pixels@.len() == rows * row_bytes,
    ensures
        flipped@ == flipped_rows(pixels@, row_bytes as int, rows as int),
{
    let total = pixels.len();
    let mut flipped: Vec<u8> = Vec::with_capacity(total);
    let mut row: usize = 0;
    while row < rows
        invariant
            row <= rows,
            pixels@.len() == rows * row_bytes <= usize::MAX,
            flipped@.len() == row * row_bytes,
            forall|i: int|
                0 <= i < flipped@.len() ==> flipped@[i] == flipped_rows(
                    pixels@,
                    row_bytes as int,
                    rows as int,
                )[i],
        decreases rows - row,
    {
        let source = rows - 1 - row;
        let mut column: usize = 0;
        while column < row_bytes
            invariant
                row < rows,
                source == rows - 1 - row,
                column <= row_bytes,
                pixels@.len() == rows * row_bytes <= usize::MAX,
                flipped@.len() == row * row_bytes + column,
                forall|i: int|
                    0 <= i < flipped@.len() ==> flipped@[i] == flipped_rows(
                        pixels@,
                        row_bytes as int,
                        rows as int,
                    )[i],
            decreases row_bytes - column,
        {
            proof {
                lemma_row_within(source as int, rows as int, row_bytes as int, column as int);
                lemma_row_within(row as int, rows as int, row_bytes as int, column as int);
                assert(0 <= source * row_bytes) by (nonlinear_arith)
                    requires
                        0 <= source,
                        0 <= row_bytes,
                ;
            }
            let byte = pixels[source * row_bytes + column];
            flipped.push(byte);
            column = column + 1;
        }
        proof {
            if row_bytes > 0 {
                lemma_row_within(row as int, rows as int, row_bytes as int, 0);
            } else {
                assert(row * row_bytes == 0 && (row + 1) * row_bytes == 0) by (nonlinear_arith)
                    requires
                        row_bytes == 0,
                ;
            }
        }
        row = row + 1;
    }
    assert(flipped@ =~= flipped_rows(pixels@, row_bytes as int, rows as int));
    flipped
}

/// Flipping the rows of an image twice gives the image back.
pub proof fn lemma_flip_twice(pixels: Seq<u8>, row_bytes: int, rows: int)
    requires
        0 <= rows,
        0 <= row_bytes,
        pixels.len() == rows * row_bytes,
    ensures
        flipped_rows(flipped_rows(pixels, row_bytes, rows), row_bytes, rows) == pixels,
{
    let once = flipped_rows(pixels, row_bytes, rows);
    let twice = flipped_rows(once, row_bytes, rows);
    assert forall|i: int| 0 <= i < pixels.len() implies twice[i] == pixels[i] by {
        assert(row_bytes > 0 && rows > 0) by (nonlinear_arith)
            requires
                0 <= i < rows * row_bytes,
                0 <= rows,
                0 <= row_bytes,
        ;
        let row = i / row_bytes;
        let column = i % row_bytes;
        vstd::arithmetic::div_mod::lemma_fundamental_div_mod(i, row_bytes);
        assert(i == row_bytes * row + column);
        assert(row_bytes * row == row * row_bytes) by (nonlinear_arith);
        assert(0 <= row < rows) by (nonlinear_arith)
            requires
                0 <= i < rows * row_bytes,
                i == row * row_bytes + column,
                0 <= column < row_bytes,
        ;
        lemma_row_within(rows - 1 - row, rows, row_bytes, column);
    }
    assert(twice =~= pixels);
}

/// The texture that a decoded image gives: the image of `width` by `height`
/// pixels, four bytes each in `pixels`, with its rows flipped.
pub fn texture_from_decoded(decoded: Option<(u32, u32, Vec<u8>)>) -> (result: Result<
    Texture,
    TextureError,
>)
    ensures
        match result {
            Ok(texture) => texture.wf() && texture_of(decoded) == Ok::<
                (u32, u32, Seq<u8>),
                TextureError,
            >((texture.width, texture.height, texture.pixels@)),
            Err(error) => texture_of(decoded) == Err::<(u32, u32, Seq<u8>), TextureError>(error),
        },
{
    match decoded {
        None => Err(TextureError::Undecodable),
        Some((width, height, pixels)) => {
            assert(4 * width * height <= 4 * 0xffff_ffff * 0xffff_ffff) by (nonlinear_arith)
                requires
                    0 <= width <= 0xffff_ffff,
                    0 <= height <= 0xffff_ffff,
            ;
            let expected: u128 = 4u128 * (width as u128) * (height as u128);
            if pixels.len() as u128 != expected {
                return Err(TextureError::SizeMismatch);
            }
            if height == 0 {
                assert(4 * width * height == 0) by (nonlinear_arith)
                    requires
                        height == 0,
                ;
                assert(pixels@ =~= flipped_rows(pixels@, 4 * width, 0));
                return Ok(Texture { width, height, pixels });
            }
            assert(4 * width <= pixels@.len()) by (nonlinear_arith)
                requires
                    pixels@.len() == 4 * width * height,
                    height >= 1,
            ;
            assert(4 * width * height == height * (4 * width)) by (nonlinear_arith);
            let row_bytes: usize = 4 * (width as usize);
            let flipped = flip_rows(&pixels, row_bytes, height as usize);
            Ok(Texture { width, height, pixels: flipped })
        },
    }
}

/// Decodes `bytes` with `image::load_from_memory` and hands out the width,
/// the height and the pixels as eight-bit RGBA (`DynamicImage::to_rgba8`), or
/// nothing where they are not decoded. The decoder asks hooks that any code in
/// the process may register, so nothing is claimed of what comes back.
#[verifier::external_body]
fn decode_rgba8(bytes: &[u8]) -> (decoded: Option<(u32, u32, Vec<u8>)>) {
    match image::load_from_memory(bytes) {
        Ok(decoded) => Some((decoded.width(), decoded.height(), decoded.to_rgba8().into_raw())),
        Err(_) => None,
    }
}

/// Decodes the image in `bytes` and prepares it for upload. Whatever the
/// decoder makes of the bytes, a texture that comes back holds four bytes for
/// each of its pixels; [`texture_from_decoded`] says how it follows from the
/// decoded image.
pub fn load_texture(bytes: &[u8]) -> (result: Result<Texture, TextureError>)
    ensures
        result matches Ok(texture) ==> texture.wf(),
{
    texture_from_decoded(decode_rgba8(bytes))
}

} // verus!
