use vstd::prelude::*;

verus! {

#[verifier::external_type_specification]
#[verifier::external_body]
pub struct ExDynamicImage(image::DynamicImage);

/// The pixels of an image as 8-bit RGBA, one sequence per row, top row first.
pub uninterp spec fn image_pixels(img: image::DynamicImage) -> Seq<Seq<[u8; 4]>>;

/// Relies on `GenericImageView::dimensions` for `DynamicImage`: width and height
/// of the pixel grid.
#[verifier::external_body]
fn image_dimensions(img: &image::DynamicImage) -> (r: (u32, u32))
    ensures
        r.1 == image_pixels(*img).len(),
        forall|j: int| 0 <= j < r.1 ==> (#[trigger] image_pixels(*img)[j]).len() == r.0,
{
    image::GenericImageView::dimensions(img)
}

/// Relies on `GenericImageView::get_pixel` for `DynamicImage`: the pixel in
/// column `x` of row `y`, converted to 8-bit RGBA; it panics out of bounds.
#[verifier::external_body]
fn image_pixel(img: &image::DynamicImage, x: u32, y: u32) -> (r: [u8; 4])
    requires
        y < image_pixels(*img).len(),
        x < image_pixels(*img)[y as int].len(),
    ensures
        r == image_pixels(*img)[y as int][x as int],
{
    image::GenericImageView::get_pixel(img, x, y).0
}

/// Why an image cannot serve as a texture.
#[derive(Clone, Copy, Debug, PartialEq, Eq, Structural)]
pub enum TextureError {
    /// The image has no pixels.
    EmptyImage,
}

/// An image sampled by nearest-pixel lookup with wraparound.
pub struct Texture {
    pub image: image::DynamicImage,
    pub width: u32,
    pub height: u32,
}

impl Texture {
    /// The recorded size is the image's size, and the image has pixels.
    pub open spec fn wf(&self) -> bool {
        &&& self.width > 0
        &&& self.height > 0
        &&& image_pixels(self.image).len() == self.height
        &&& forall|j: int|
            0 <= j < self.height ==> (#[trigger] image_pixels(self.image)[j]).len() == self.width
    }

    /// The pixel at column `i` and row `j`, each taken modulo the image's size.
    pub open spec fn texel_at(&self, i: nat, j: nat) -> [u8; 4] {
        image_pixels(self.image)[(j % self.height as nat) as int][(i % self.width as nat) as int]
    }

    /// Makes a texture of an image; an image without pixels is refused.
    pub fn from_image(image: image::DynamicImage) -> (r: Result<Texture, TextureError>)
        ensures
            image_pixels(image).len() == 0 || image_pixels(image)[0].len() == 0 <==> r is Err,
            r matches Ok(t) ==> t.wf() && t.image == image,
    {
        let (width, height) = image_dimensions(&image);
        if width == 0 || height == 0 {
            Err(TextureError::EmptyImage)
        } else {
            Ok(Texture { image, width, height })
        }
    }

    /// Nearest-pixel lookup at integer pixel coordinates; coordinates past the
    /// image's edge wrap around.
    pub fn texel(&self, i: u32, j: u32) -> (r: [u8; 4])
        requires
            self.wf(),
        ensures
            r == self.texel_at(i as nat, j as nat),
    {
        let x = i % self.width;
        let y = j % self.height;
        image_pixel(&self.image, x, y)
    }
}

} // verus!
