use image::{DynamicImage, Rgb, RgbImage};
use raytracer::texture::{Texture, TextureError};

fn six_pixels() -> DynamicImage {
    let mut img = RgbImage::new(3, 2);
    img.put_pixel(0, 0, Rgb([10, 20, 30]));
    img.put_pixel(1, 0, Rgb([40, 50, 60]));
    img.put_pixel(2, 0, Rgb([70, 80, 90]));
    img.put_pixel(0, 1, Rgb([100, 110, 120]));
    img.put_pixel(1, 1, Rgb([130, 140, 150]));
    img.put_pixel(2, 1, Rgb([160, 170, 180]));
    DynamicImage::ImageRgb8(img)
}

#[test]
fn texture_records_image_size() {
    let t = Texture::from_image(six_pixels()).unwrap();
    assert_eq!((t.width, t.height), (3, 2));
}

#[test]
fn empty_image_is_refused() {
    let r = Texture::from_image(DynamicImage::new_rgb8(0, 0));
    assert_eq!(r.err(), Some(TextureError::EmptyImage));
    let r = Texture::from_image(DynamicImage::new_rgb8(4, 0));
    assert_eq!(r.err(), Some(TextureError::EmptyImage));
    let r = Texture::from_image(DynamicImage::new_rgb8(0, 4));
    assert_eq!(r.err(), Some(TextureError::EmptyImage));
}

#[test]
fn texel_reads_the_pixel_as_rgba() {
    let t = Texture::from_image(six_pixels()).unwrap();
    assert_eq!(t.texel(0, 0), [10, 20, 30, 255]);
    assert_eq!(t.texel(2, 0), [70, 80, 90, 255]);
    assert_eq!(t.texel(1, 1), [130, 140, 150, 255]);
}

#[test]
fn texel_wraps_past_the_edges() {
    let t = Texture::from_image(six_pixels()).unwrap();
    assert_eq!(t.texel(3, 0), [10, 20, 30, 255]);
    assert_eq!(t.texel(4, 3), [130, 140, 150, 255]);
    assert_eq!(t.texel(u32::MAX, u32::MAX), t.texel(u32::MAX % 3, 1));
}
