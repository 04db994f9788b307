//! Converting an image between the formats the `image` crate converts.

use vstd::prelude::*;

use crate::codec::{convertible_channels, converted_pixel_bytes, converted_pixels, is_convertible_format};
use crate::texture::{texel_pixel_size, Image};

verus! {

/// Whether `format` is one an image is converted from and to.
pub fn is_convertible(format: &wgpu::TextureFormat) -> (convertible: bool)
    ensures
        convertible == is_convertible_format(*format),
{
    match format {
        wgpu::TextureFormat::R8Unorm | wgpu::TextureFormat::Rg8Unorm | wgpu::TextureFormat::Rgba8UnormSrgb => true,
        _ => false,
    }
}

impl Image {
    /// Whether the `image` crate holds the first `width` times `height`
    /// pixels of the data in the image's format.
    pub open spec fn first_layer_fits(self) -> bool {
        self.extent().width * self.extent().height * convertible_channels(self.format()) <= self.data@.len()
    }

    /// Converting to `to` can run to its end: where both formats convert and
    /// the data holds the first layer, the converted pixels fit in a `usize`,
    /// and data kept in its own format has exactly one layer's length.
    pub open spec fn conversion_defined(self, to: wgpu::TextureFormat) -> bool {
        let pixels = self.extent().width * self.extent().height;
        is_convertible_format(self.format()) && is_convertible_format(to) && self.first_layer_fits() ==> {
            &&& pixels * convertible_channels(to) <= usize::MAX
            &&& self.format() == to ==> self.data@.len() == pixels * convertible_channels(to)
        }
    }

    /// Convert a texture from a format to another. Only a few formats are
    /// supported as input and output:
    /// - `TextureFormat::R8Unorm`
    /// - `TextureFormat::Rg8Unorm`
    /// - `TextureFormat::Rgba8UnormSrgb`
    ///
    /// The result is a 2D image of the width and height of this one, holding
    /// the `image` crate's conversion of its pixels; none where a format is
    /// not one of these or the data is shorter than one layer.
    pub fn convert(&self, new_format: wgpu::TextureFormat) -> (converted: Option<Image>)
        requires
            self.conversion_defined(new_format),
        ensures
            !(is_convertible_format(new_format) && is_convertible_format(self.format())) ==> converted is None,
            is_convertible_format(new_format) && is_convertible_format(self.format())
                ==> (converted is Some <==> self.first_layer_fits()),
            converted matches Some(o) ==> {
                &&& o.descriptor_is(
                    wgpu::Extent3d {
                        width: self.extent().width,
                        height: self.extent().height,
                        depth_or_array_layers: 1,
                    },
                    wgpu::TextureDimension::D2,
                    new_format,
                )
                &&& o.sampler is Default
                &&& self.format() == new_format ==> o.data@ == self.data@
                &&& Some(o.data@) == converted_pixels(
                    self.data@,
                    self.extent().width,
                    self.extent().height,
                    self.format(),
                    new_format,
                )
            },
    {
        let from = self.texture_descriptor.format;
        if !is_convertible(&from) || !is_convertible(&new_format) {
            return None;
        }
        let width = self.width();
        let height = self.height();
        let pixels = match converted_pixel_bytes(self.data.as_slice(), width, height, from, new_format) {
            Some(p) => p,
            None => return None,
        };
        let size = wgpu::Extent3d { width, height, depth_or_array_layers: 1 };
        let pixel_size = texel_pixel_size(&new_format);
        assert(pixels.len() == pixels@.len());
        Some(Image::new(size, wgpu::TextureDimension::D2, pixels, new_format))
    }
}

} // verus!
