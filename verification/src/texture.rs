//! Textures: decoding an encoded image and describing the texture that
//! holds it.

use crate::surface::{TextureFormat, TextureUsages};
use vstd::prelude::*;

verus! {

/// A decoded image: `height` rows of `width` pixels, three bytes to a pixel,
/// red first.
#[derive(Debug, PartialEq, Eq)]
pub struct RgbImage {
    pub width: u32,
    pub height: u32,
    pub pixels: Vec<u8>,
}

/// The extent of a texture.
#[derive(Clone, Copy, Debug, PartialEq, Eq, Structural)]
pub struct Extent3d {
    pub width: u32,
    pub height: u32,
    pub depth_or_array_layers: u32,
}

/// The number of dimensions of a texture.
#[derive(Clone, Copy, Debug, PartialEq, Eq, Structural)]
pub enum TextureDimension {
    D1,
    D2,
    D3,
}

/// A texture to be created.
#[derive(Clone, Copy, Debug, PartialEq, Eq)]
pub struct TextureDescriptor {
    pub label: &'static str,
    pub size: Extent3d,
    pub mip_level_count: u32,
    pub sample_count: u32,
    pub dimension: TextureDimension,
    pub format: TextureFormat,
    pub usage: TextureUsages,
}

/// A decoded image with the texture that is to hold it.
#[derive(Debug, PartialEq, Eq)]
pub struct LoadedTexture {
    pub image: RgbImage,
    pub descriptor: TextureDescriptor,
    /// The width and the height of the image.
    pub dimensions: (u32, u32),
    pub size: Extent3d,
}

/// What `image::load_from_memory` makes of `bytes`, brought to three bytes
/// a pixel: the width, the height and the pixels, or `None` where the bytes
/// are no image that it can decode.
pub uninterp spec fn decoded(bytes: Seq<u8>) -> Option<(u32, u32, Seq<u8>)>;

/// `image::load_from_memory`, which guesses the format of the bytes and
/// decodes them, followed by `DynamicImage::to_rgb8`, which copies the image
/// out with three bytes a pixel; the width and the height are those that
/// the decoded image reports. The result is a function of the bytes alone,
/// and the copy holds three bytes for each pixel of the image. The decoder
/// refuses an image of more than 512 MiB, so the length of the copy always
/// fits and the copy can be made.
#[verifier::external_body]
fn decode(bytes: &[u8]) -> (image: Option<RgbImage>)
    ensures
        match image {
            Some(image) => {
                &&& decoded(bytes@) == Some((image.width, image.height, image.pixels@))
                &&& image.pixels@.len() == 3 * image.width * image.height
            },
            None => decoded(bytes@) is None,
        },
{
    match image::load_from_memory(bytes) {
        Ok(image) => Some(
            RgbImage {
                width: image.width(),
                height: image.height(),
                pixels: image.to_rgb8().into_raw(),
            },
        ),
        Err(_) => None,
    }
}

/// The extent of the texture that holds an image of the given width and
/// height: a single layer of that size.
pub open spec fn extent_of(width: u32, height: u32) -> Extent3d {
    Extent3d { width, height, depth_or_array_layers: 1 }
}

impl TextureDescriptor {
    /// The descriptor is that of a texture for an image of the given width
    /// and height: two-dimensional, of that size, with one mip level and one
    /// sample, of the format of four 8-bit channels in sRGB, to be copied
    /// into and to be sampled.
    pub open spec fn describes(self, width: u32, height: u32) -> bool {
        &&& self.label@ == "image texture"@
        &&& self.size == extent_of(width, height)
        &&& self.mip_level_count == 1
        &&& self.sample_count == 1
        &&& self.dimension == TextureDimension::D2
        &&& self.format == TextureFormat::Rgba8UnormSrgb
        &&& self.usage == (TextureUsages {
            copy_src: false,
            copy_dst: true,
            texture_binding: true,
            storage_binding: false,
            render_attachment: false,
        })
    }
}

impl LoadedTexture {
    /// The texture is the one made for `image`.
    pub open spec fn made_of(self, image: RgbImage) -> bool {
        &&& self.image == image
        &&& self.dimensions == (image.width, image.height)
        &&& self.size == extent_of(image.width, image.height)
        &&& self.descriptor.describes(image.width, image.height)
    }
}

/// Describes the texture that is to hold `image`.
pub fn texture_of(image: RgbImage) -> (texture: LoadedTexture)
    ensures
        texture.made_of(image),
{
    let dimensions = (image.width, image.height);
    let texture_size = Extent3d {
        width: dimensions.0,
        height: dimensions.1,
        depth_or_array_layers: 1,
    };
    let descriptor = TextureDescriptor {
        label: "image texture",
        size: texture_size,
        mip_level_count: 1,
        sample_count: 1,
        dimension: TextureDimension::D2,
        format: TextureFormat::Rgba8UnormSrgb,
        usage: TextureUsages {
            copy_src: false,
            copy_dst: true,
            texture_binding: true,
            storage_binding: false,
            render_attachment: false,
        },
    };
    LoadedTexture { image, descriptor, dimensions, size: texture_size }
}

/// Decodes an encoded image and describes the texture that is to hold it.
/// There is a texture exactly where the bytes decode to an image.
pub fn load_tree_texture(diffuse_bytes: &[u8]) -> (texture: Option<LoadedTexture>)
    ensures
        match texture {
            Some(texture) => {
                &&& decoded(diffuse_bytes@) == Some(
                    (texture.image.width, texture.image.height, texture.image.pixels@),
                )
                &&& texture.image.pixels@.len() == 3 * texture.image.width * texture.image.height
                &&& texture.made_of(texture.image)
            },
            None => decoded(diffuse_bytes@) is None,
        },
{
    match decode(diffuse_bytes) {
        Some(image) => Some(texture_of(image)),
        None => None,
    }
}

} // verus!
