use sr::color::Rgba8;
use sr::texture::{ETextureFormat, ETextureType, Texture, TextureDescriptor};

fn descriptor(width: usize, height: usize) -> TextureDescriptor {
    TextureDescriptor {
        width,
        height,
        array_size: 1,
        format: ETextureFormat::R8g8b8a8Unorm,
        texture_type: ETextureType::Dim2D,
    }
}

fn counting(width: usize, height: usize) -> Texture {
    let bytes: Vec<u8> = (0..4 * width * height).map(|k| k as u8).collect();
    Texture::from_buffers(vec![Box::new(bytes)], descriptor(width, height))
}

#[test]
fn new_texture_is_zeroed() {
    let texture = Texture::new(descriptor(3, 2));
    assert_eq!(texture.descriptor.width, 3);
    assert_eq!(texture.descriptor.height, 2);
    assert_eq!(texture.get_buffers().len(), 1);
    assert_eq!(texture.get_buffers()[0].len(), 24);
    assert!(texture.get_buffers()[0].iter().all(|b| *b == 0));
    assert_eq!(texture.get_channels(), 4);
}

#[test]
fn descriptor_validation() {
    assert!(descriptor(1, 1).validate());
    assert!(descriptor(640, 480).validate());
    assert!(!descriptor(0, 4).validate());
    assert!(!descriptor(4, 0).validate());
    let mut two_layers = descriptor(4, 4);
    two_layers.array_size = 2;
    assert!(!two_layers.validate());
    let mut no_layer = descriptor(4, 4);
    no_layer.array_size = 0;
    assert!(!no_layer.validate());
    assert!(!descriptor(usize::MAX, 2).validate());
    assert!(!descriptor(usize::MAX / 4 + 1, 1).validate());
    assert!(descriptor(usize::MAX / 4, 1).validate());
}

#[test]
fn buffers_are_held_against_the_descriptor() {
    let good: Vec<Box<Vec<u8>>> = vec![Box::new(vec![0u8; 24])];
    let short: Vec<Box<Vec<u8>>> = vec![Box::new(vec![0u8; 23])];
    let two: Vec<Box<Vec<u8>>> = vec![Box::new(vec![0u8; 24]), Box::new(vec![0u8; 24])];
    let none: Vec<Box<Vec<u8>>> = vec![];
    assert!(Texture::buffers_fit(&good, &descriptor(3, 2)));
    assert!(Texture::buffers_fit(&good, &descriptor(2, 3)));
    assert!(!Texture::buffers_fit(&good, &descriptor(3, 3)));
    assert!(!Texture::buffers_fit(&short, &descriptor(3, 2)));
    assert!(!Texture::buffers_fit(&two, &descriptor(3, 2)));
    assert!(!Texture::buffers_fit(&none, &descriptor(3, 2)));
    assert!(!Texture::buffers_fit(&none, &descriptor(0, 2)));
}

#[test]
fn from_buffers_keeps_the_bytes() {
    let texture = counting(3, 2);
    let expected: Vec<u8> = (0u8..24).collect();
    assert_eq!(**texture.get_buffers().get(0).unwrap(), expected);
    assert_eq!(texture.descriptor.array_size, 1);
}

#[test]
fn sample_reads_the_corners() {
    let texture = counting(3, 2);
    // UV (0, 0) scales to (0, 0), UV (1, 1) to (width, height).
    assert_eq!(texture.sample(0, 0, 0), Rgba8::new(0, 1, 2, 3));
    assert_eq!(texture.sample(3, 2, 0), Rgba8::new(20, 21, 22, 23));
}

#[test]
fn sample_reads_the_nearest_texel() {
    let texture = counting(3, 2);
    assert_eq!(texture.sample(1, 0, 0), Rgba8::new(4, 5, 6, 7));
    assert_eq!(texture.sample(2, 0, 0), Rgba8::new(8, 9, 10, 11));
    assert_eq!(texture.sample(0, 1, 0), Rgba8::new(12, 13, 14, 15));
    assert_eq!(texture.sample(1, 1, 0), Rgba8::new(16, 17, 18, 19));
}

#[test]
fn sample_holds_coordinates_to_the_last_column_and_row() {
    let texture = counting(3, 2);
    assert_eq!(texture.sample(7, 0, 0), Rgba8::new(8, 9, 10, 11));
    assert_eq!(texture.sample(0, 9, 0), Rgba8::new(12, 13, 14, 15));
    assert_eq!(texture.sample(usize::MAX, usize::MAX, 0), Rgba8::new(20, 21, 22, 23));
}

#[test]
fn set_pixel_writes_four_bytes() {
    let mut texture = Texture::new(descriptor(2, 2));
    texture.set_pixel(2, &Rgba8::new(9, 8, 7, 6));
    assert_eq!(
        **texture.get_buffers().get(0).unwrap(),
        vec![0, 0, 0, 0, 0, 0, 0, 0, 9, 8, 7, 6, 0, 0, 0, 0]
    );
    assert_eq!(texture.sample(0, 1, 0), Rgba8::new(9, 8, 7, 6));
}

#[test]
fn set_pixel_skips_an_index_past_the_end() {
    let mut texture = Texture::new(descriptor(2, 2));
    texture.set_pixel(4, &Rgba8::new(9, 8, 7, 6));
    texture.set_pixel(usize::MAX, &Rgba8::new(9, 8, 7, 6));
    assert!(texture.get_buffers()[0].iter().all(|b| *b == 0));
}

#[test]
fn get_mut_buffers_reaches_the_bytes() {
    let mut texture = Texture::new(descriptor(2, 1));
    texture.get_mut_buffers().get_mut(0).unwrap()[5] = 77;
    assert_eq!(texture.sample(1, 0, 0), Rgba8::new(0, 77, 0, 0));
}

#[test]
fn from_image_keeps_the_rows() {
    let bytes: Vec<u8> = (0u8..24).collect();
    let texture = Texture::from_image(3, 2, bytes.clone(), false).unwrap();
    assert_eq!(texture.descriptor.width, 3);
    assert_eq!(texture.descriptor.height, 2);
    assert_eq!(texture.descriptor.array_size, 1);
    assert_eq!(**texture.get_buffers().get(0).unwrap(), bytes);
}

#[test]
fn from_image_flips_the_rows() {
    let bytes: Vec<u8> = (0u8..24).collect();
    let texture = Texture::from_image(3, 2, bytes, true).unwrap();
    let expected: Vec<u8> = (12u8..24).chain(0u8..12).collect();
    assert_eq!(**texture.get_buffers().get(0).unwrap(), expected);
    assert_eq!(texture.sample(0, 0, 0), Rgba8::new(12, 13, 14, 15));
}

#[test]
fn from_image_flips_three_rows() {
    let bytes: Vec<u8> = (0u8..12).collect();
    let texture = Texture::from_image(1, 3, bytes, true).unwrap();
    assert_eq!(
        **texture.get_buffers().get(0).unwrap(),
        vec![8, 9, 10, 11, 4, 5, 6, 7, 0, 1, 2, 3]
    );
}

#[test]
fn from_image_refuses_what_is_no_image() {
    assert!(Texture::from_image(0, 2, vec![], false).is_none());
    assert!(Texture::from_image(2, 0, vec![], true).is_none());
    assert!(Texture::from_image(2, 2, vec![0u8; 15], false).is_none());
    assert!(Texture::from_image(2, 2, vec![0u8; 17], true).is_none());
    assert!(Texture::from_image(u32::MAX, u32::MAX, vec![0u8; 4], true).is_none());
    assert!(Texture::from_image(2, 2, vec![0u8; 16], true).is_some());
}
