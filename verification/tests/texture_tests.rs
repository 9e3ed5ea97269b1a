use cosmic_ant::texture::{
    flip_rows, load_texture, texture_from_decoded, Filter, Sampling, Texture, TextureError,
};

fn png_of(width: u32, height: u32, pixels: Vec<u8>) -> Vec<u8> {
    let image = image::RgbaImage::from_raw(width, height, pixels).unwrap();
    let mut bytes: Vec<u8> = Vec::new();
    image.write_to(&mut std::io::Cursor::new(&mut bytes), image::ImageFormat::Png).unwrap();
    bytes
}

fn sample_pixels() -> Vec<u8> {
    vec![
        1, 2, 3, 4, 5, 6, 7, 8, // top row
        9, 10, 11, 12, 13, 14, 15, 16, // middle row
        17, 18, 19, 20, 21, 22, 23, 24, // bottom row
    ]
}

#[test]
fn flip_rows_reverses_the_rows() {
    let flipped = flip_rows(&sample_pixels(), 8, 3);
    assert_eq!(
        flipped,
        vec![
            17, 18, 19, 20, 21, 22, 23, 24, //
            9, 10, 11, 12, 13, 14, 15, 16, //
            1, 2, 3, 4, 5, 6, 7, 8,
        ]
    );
}

#[test]
fn flip_rows_twice_gives_the_image_back() {
    let pixels = sample_pixels();
    assert_eq!(flip_rows(&flip_rows(&pixels, 8, 3), 8, 3), pixels);
    assert_eq!(flip_rows(&flip_rows(&pixels, 4, 6), 4, 6), pixels);
    assert_eq!(flip_rows(&flip_rows(&pixels, 24, 1), 24, 1), pixels);
}

#[test]
fn flip_rows_of_one_row_or_none_changes_nothing() {
    let pixels = sample_pixels();
    assert_eq!(flip_rows(&pixels, 24, 1), pixels);
    let empty: Vec<u8> = Vec::new();
    assert!(flip_rows(&empty, 0, 5).is_empty());
    assert!(flip_rows(&empty, 5, 0).is_empty());
    assert!(flip_rows(&empty, 0, 0).is_empty());
}

#[test]
fn decoded_image_becomes_a_flipped_texture() {
    let texture = texture_from_decoded(Some((2, 3, sample_pixels()))).unwrap();
    assert_eq!(texture.width, 2);
    assert_eq!(texture.height, 3);
    assert_eq!(texture.pixels, flip_rows(&sample_pixels(), 8, 3));
    assert_eq!(&texture.pixels[0..4], &[17, 18, 19, 20]);
}

#[test]
fn decoded_image_without_pixels_is_an_empty_texture() {
    assert_eq!(
        texture_from_decoded(Some((0, 0, Vec::new()))),
        Ok(Texture { width: 0, height: 0, pixels: Vec::new() })
    );
    assert_eq!(
        texture_from_decoded(Some((7, 0, Vec::new()))),
        Ok(Texture { width: 7, height: 0, pixels: Vec::new() })
    );
    assert_eq!(
        texture_from_decoded(Some((u32::MAX, 0, Vec::new()))),
        Ok(Texture { width: u32::MAX, height: 0, pixels: Vec::new() })
    );
    assert_eq!(
        texture_from_decoded(Some((0, 9, Vec::new()))),
        Ok(Texture { width: 0, height: 9, pixels: Vec::new() })
    );
}

#[test]
fn undecoded_image_is_no_texture() {
    assert_eq!(texture_from_decoded(None), Err(TextureError::Undecodable));
}

#[test]
fn pixel_data_of_the_wrong_length_is_no_texture() {
    assert_eq!(texture_from_decoded(Some((2, 2, sample_pixels()))), Err(TextureError::SizeMismatch));
    assert_eq!(texture_from_decoded(Some((2, 3, vec![0; 23]))), Err(TextureError::SizeMismatch));
    assert_eq!(texture_from_decoded(Some((1, 1, Vec::new()))), Err(TextureError::SizeMismatch));
    assert_eq!(
        texture_from_decoded(Some((u32::MAX, u32::MAX, vec![0; 4]))),
        Err(TextureError::SizeMismatch)
    );
}

#[test]
fn load_texture_decodes_and_flips_a_png() {
    let bytes = png_of(2, 3, sample_pixels());
    let texture = load_texture(&bytes).unwrap();
    assert_eq!(texture.width, 2);
    assert_eq!(texture.height, 3);
    assert_eq!(texture.pixels.len(), 24);
    assert_eq!(texture.pixels, flip_rows(&sample_pixels(), 8, 3));
    assert_ne!(texture.pixels, bytes);
}

#[test]
fn load_texture_agrees_with_flipping_before_conversion() {
    let bytes = png_of(3, 2, sample_pixels());
    let expected = image::load_from_memory(&bytes).unwrap().flipv().to_rgba8().into_raw();
    let texture = load_texture(&bytes).unwrap();
    assert_eq!((texture.width, texture.height), (3, 2));
    assert_eq!(texture.pixels, expected);
}

#[test]
fn load_texture_widens_grey_images_to_four_channels() {
    let grey = image::GrayImage::from_raw(2, 2, vec![10, 20, 30, 40]).unwrap();
    let mut bytes: Vec<u8> = Vec::new();
    grey.write_to(&mut std::io::Cursor::new(&mut bytes), image::ImageFormat::Png).unwrap();
    let texture = load_texture(&bytes).unwrap();
    assert_eq!((texture.width, texture.height), (2, 2));
    assert_eq!(
        texture.pixels,
        vec![30, 30, 30, 255, 40, 40, 40, 255, 10, 10, 10, 255, 20, 20, 20, 255]
    );
}

#[test]
fn load_texture_rejects_what_is_no_image() {
    assert_eq!(load_texture(b"this is no image"), Err(TextureError::Undecodable));
    assert_eq!(load_texture(&[]), Err(TextureError::Undecodable));
    let mut truncated = png_of(2, 3, sample_pixels());
    truncated.truncate(20);
    assert_eq!(load_texture(&truncated), Err(TextureError::Undecodable));
}

#[test]
fn decal_is_sampled_linearly_without_mipmaps() {
    assert_eq!(
        Sampling::decal(),
        Sampling { min_filter: Filter::Linear, mag_filter: Filter::Linear, mipmaps: false }
    );
}

#[test]
fn material_textures_are_sampled_with_mipmaps() {
    assert_eq!(
        Sampling::material(),
        Sampling {
            min_filter: Filter::LinearMipmapLinear,
            mag_filter: Filter::Linear,
            mipmaps: true
        }
    );
}
