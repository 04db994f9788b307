//! Images: their pixel data and texture descriptor, the pixel size of a
//! format, the volume of an extent, and texel access.

use vstd::prelude::*;

use crate::compressed::has_feature_bits;
use crate::error::TextureAccessError;
use crate::gpu::{
    binding_and_copy_dst_bits, texture_usages_from_bits, texture_usage_bits, block_dimensions, block_size, compression_feature_bits,
    coordinates_message, coordinates_text, is_texel_color_format, required_feature_bits,
    texture_block_dimensions, texture_block_size, texture_format_debug, texture_format_name,
    texture_required_feature_bits,
};
use crate::sampler::ImageSampler;
use crate::texel::{
    decode_texel, encode_texel, format_texel_layout, lemma_encode_texel_len,
    lemma_texel_round_trip, read_texel, splice, stored_values, texel_layout, values_fit,
    write_texel, ChannelValues, TexelValue,
};

verus! {

/// The index of the texture among an image asset's sub-assets.
pub const TEXTURE_ASSET_INDEX: u64 = 0;

/// The index of the sampler among an image asset's sub-assets.
pub const SAMPLER_ASSET_INDEX: u64 = 1;

/// Used to calculate the volume of an item.
pub trait Volume {
    /// Whether the volume fits in a `usize`.
    spec fn volume_fits(&self) -> bool;

    /// The volume.
    spec fn spec_volume(&self) -> nat;

    fn volume(&self) -> (volume: usize)
        requires
            self.volume_fits(),
        ensures
            volume == self.spec_volume(),
    ;
}

impl Volume for wgpu::Extent3d {
    /// Width times height times depth fits in a `usize`.
    open spec fn volume_fits(&self) -> bool {
        self.spec_volume() <= usize::MAX
    }

    open spec fn spec_volume(&self) -> nat {
        (self.width * self.height * self.depth_or_array_layers) as nat
    }

    /// Width times height times depth (or array layers).
    fn volume(&self) -> (volume: usize) {
        let product = extent_product(self);
        product as usize
    }
}

/// Width times height times depth of `size`, computed without overflow.
fn extent_product(size: &wgpu::Extent3d) -> (product: u128)
    ensures
        product == size.spec_volume(),
{
    let w = size.width as u128;
    let h = size.height as u128;
    let d = size.depth_or_array_layers as u128;
    assert(w * h <= 0xffff_ffff_ffff_ffff_u128 && w * h * d <= 0xffff_ffff_ffff_ffff_ffff_ffff_u128) by (nonlinear_arith)
        requires
            w <= 0xffff_ffff_u128,
            h <= 0xffff_ffff_u128,
            d <= 0xffff_ffff_u128,
    ;
    w * h * d
}

/// Extends the wgpu `TextureFormat` with information about the pixel.
pub trait TextureFormatPixelInfo {
    /// Whether the format has a size per pixel.
    spec fn has_pixel_size(&self) -> bool;

    /// The size of a pixel in bytes.
    spec fn spec_pixel_size(&self) -> nat;

    /// Returns the size of a pixel in bytes of the format.
    fn pixel_size(&self) -> (size: usize)
        requires
            self.has_pixel_size(),
        ensures
            size == self.spec_pixel_size(),
            size > 0,
    ;
}

impl TextureFormatPixelInfo for wgpu::TextureFormat {
    /// A format has a pixel size where its texel blocks are one texel wide and
    /// high and have a byte size; wgpu gives every format the library reads
    /// texel by texel such blocks.
    open spec fn has_pixel_size(&self) -> bool {
        ||| is_texel_color_format(*self)
        ||| texture_block_dimensions(*self) == (1u32, 1u32) && texture_block_size(*self) is Some
    }

    /// The byte size of the format's one-texel block.
    open spec fn spec_pixel_size(&self) -> nat {
        texture_block_size(*self).unwrap() as nat
    }

    fn pixel_size(&self) -> (size: usize) {
        let bytes = block_size(self);
        bytes.unwrap() as usize
    }
}

/// The pixel size of a format where it has one; none for compressed
/// formats and for those without a single block size.
pub fn checked_pixel_size(format: &wgpu::TextureFormat) -> (size: Option<usize>)
    ensures
        size == (if format.has_pixel_size() {
            Some(format.spec_pixel_size() as usize)
        } else {
            None
        }),
{
    let dims = block_dimensions(format);
    let bytes = block_size(format);
    if dims.0 == 1 && dims.1 == 1 {
        match bytes {
            Some(b) => Some(b as usize),
            None => None,
        }
    } else {
        None
    }
}

/// The pixel size of a format the library reads texel by texel is the byte
/// length of its texel layout.
pub fn texel_pixel_size(format: &wgpu::TextureFormat) -> (size: usize)
    requires
        format_texel_layout(*format) is Some,
    ensures
        format.has_pixel_size(),
        size == format.spec_pixel_size(),
        size == format_texel_layout(*format).unwrap().byte_len(),
{
    let _layout = texel_layout(format);
    let _bytes = block_size(format);
    format.pixel_size()
}

/// An image: its pixel data, its texture descriptor, its sampler and an
/// optional texture view descriptor.
#[derive(Debug, Clone)]
pub struct Image {
    pub data: Vec<u8>,
    pub texture_descriptor: wgpu::TextureDescriptor<'static>,
    /// The `ImageSampler` to use during rendering.
    pub sampler: ImageSampler,
    pub texture_view_descriptor: Option<wgpu::TextureViewDescriptor<'static>>,
}

/// `d` with its size replaced by `size`.
pub open spec fn with_size(d: wgpu::TextureDescriptor<'static>, size: wgpu::Extent3d) -> wgpu::TextureDescriptor<'static> {
    wgpu_types::TextureDescriptor { size, ..d }
}

/// The settings a fresh image's descriptor has besides its size, dimension
/// and format: no label, one mip level, one sample, the usages
/// `TEXTURE_BINDING | COPY_DST`, no view formats.
pub open spec fn fresh_descriptor(d: wgpu::TextureDescriptor<'static>) -> bool {
    &&& d.label is None
    &&& texture_usage_bits(d.usage) == binding_and_copy_dst_bits()
    &&& d.mip_level_count == 1
    &&& d.sample_count == 1
    &&& d.view_formats@.len() == 0
}

/// `s` cut to `n` bytes, or lengthened to `n` with zero bytes.
pub open spec fn resized(s: Seq<u8>, n: nat) -> Seq<u8> {
    if n <= s.len() {
        s.take(n as int)
    } else {
        s + Seq::new((n - s.len()) as nat, |i: int| 0u8)
    }
}

/// The data of an image of `n` bytes filled with `pixel` from a default
/// image: every whole repetition of `pixel` that fits is written; the bytes
/// after it keep the default image's four bytes of 255 and the zeros
/// appended behind them.
pub open spec fn filled(n: nat, pixel: Seq<u8>) -> Seq<u8> {
    let whole = (n / pixel.len()) * pixel.len();
    Seq::new(n, |i: int| if i < whole { pixel[i % pixel.len() as int] } else if i < 4 { 255u8 } else { 0u8 })
}

/// Whether the feature bits `bits` hold the ASTC, the BC or the ETC2
/// compression feature of `wgpu`.
pub open spec fn needs_compression_feature(bits: u64) -> bool {
    ||| has_feature_bits(bits, 1u64 << 27u64)
    ||| has_feature_bits(bits, 1u64 << 25u64)
    ||| has_feature_bits(bits, 1u64 << 26u64)
}

impl Image {
    /// The texture format.
    pub open spec fn format(self) -> wgpu::TextureFormat {
        self.texture_descriptor.format
    }

    /// The size of the texture.
    pub open spec fn extent(self) -> wgpu::Extent3d {
        self.texture_descriptor.size
    }

    /// The index of the pixel at `c` among the image's pixels, or none where
    /// a coordinate the dimension uses is out of bounds (at or past the size).
    pub open spec fn pixel_index(self, c: bevy_math::UVec3) -> Option<int> {
        let w = self.extent().width as int;
        let h = self.extent().height as int;
        let d = self.extent().depth_or_array_layers as int;
        match self.texture_descriptor.dimension {
            wgpu::TextureDimension::D3 => if c.x >= w || c.y >= h || c.z >= d {
                None
            } else {
                Some(c.z * h * w + c.y * w + c.x)
            },
            wgpu::TextureDimension::D2 => if c.x >= w || c.y >= h {
                None
            } else {
                Some(c.y * w + c.x)
            },
            wgpu::TextureDimension::D1 => if c.x >= w {
                None
            } else {
                Some(c.x as int)
            },
        }
    }

    /// The byte offset of the pixel at `c`.
    pub open spec fn spec_pixel_data_offset(self, c: bevy_math::UVec3) -> Option<int> {
        match self.pixel_index(c) {
            Some(i) => Some(i * self.format().spec_pixel_size()),
            None => None,
        }
    }

    /// The offset of the pixel at `c` can be computed: the format has a pixel
    /// size, and the index and offset of an in-bounds pixel fit in `u32` and
    /// `usize`, the index's partial product `z * height` included.
    pub open spec fn offset_computable(self, c: bevy_math::UVec3) -> bool {
        let w = self.extent().width as int;
        let h = self.extent().height as int;
        &&& self.format().has_pixel_size()
        &&& self.pixel_index(c) matches Some(i) ==> {
            &&& i <= u32::MAX
            &&& i * self.format().spec_pixel_size() <= usize::MAX
            &&& self.texture_descriptor.dimension is D3 ==> c.z * h <= u32::MAX
        }
    }

    /// The offset of the pixel at `c` can be computed and its bytes lie in the data.
    pub open spec fn pixel_accessible(self, c: bevy_math::UVec3) -> bool {
        &&& self.offset_computable(c)
        &&& self.spec_pixel_data_offset(c) matches Some(o) ==> o + self.format().spec_pixel_size() <= self.data@.len()
    }

    /// The bytes of the pixel at `c`.
    pub open spec fn spec_pixel_bytes(self, c: bevy_math::UVec3) -> Option<Seq<u8>> {
        match self.spec_pixel_data_offset(c) {
            Some(o) => Some(self.data@.subrange(o, o + self.format().spec_pixel_size())),
            None => None,
        }
    }

    /// The image's descriptor is a fresh one of `size`, `dimension` and
    /// `format`, and the image has no texture view descriptor.
    pub open spec fn descriptor_is(self, size: wgpu::Extent3d, dimension: wgpu::TextureDimension, format: wgpu::TextureFormat) -> bool {
        &&& self.texture_descriptor.size == size
        &&& self.texture_descriptor.dimension == dimension
        &&& self.texture_descriptor.format == format
        &&& fresh_descriptor(self.texture_descriptor)
        &&& self.texture_view_descriptor is None
    }

    /// Whether the image's format needs one of the `wgpu` features of the
    /// compressed families ASTC, BC or ETC2.
    pub fn is_compressed(&self) -> (compressed: bool)
        ensures
            compressed == needs_compression_feature(texture_required_feature_bits(self.format())),
            compressed == is_block_compressed_family(self.format()),
    {
        proof {
            lemma_compressed_formats(self.format());
        }
        let format_description = self.texture_descriptor.format;
        let required = required_feature_bits(&format_description);
        let (astc, bc, etc2) = compression_feature_bits();
        required & astc == astc || required & bc == bc || required & etc2 == etc2
    }

    /// Whether the byte offset of the pixel at `coords` can be computed: the
    /// format has a pixel size, and the index and offset of an in-bounds
    /// pixel fit in `u32` and `usize`.
    pub fn can_compute_pixel_offset(&self, coords: bevy_math::UVec3) -> (computable: bool)
        ensures
            computable == self.offset_computable(coords),
    {
        let pixel_size = match checked_pixel_size(&self.texture_descriptor.format) {
            Some(p) => p,
            None => return false,
        };
        let w = self.texture_descriptor.size.width as u128;
        let h = self.texture_descriptor.size.height as u128;
        let d = self.texture_descriptor.size.depth_or_array_layers as u128;
        let x = coords.x as u128;
        let y = coords.y as u128;
        let z = coords.z as u128;
        let max = u32::MAX as u128;
        proof {
            assert(w * h <= max * max && y * w <= max * max && z * h <= max * max) by (nonlinear_arith)
                requires
                    w <= max,
                    h <= max,
                    y <= max,
                    z <= max,
            ;
        }
        let index = match self.texture_descriptor.dimension {
            wgpu::TextureDimension::D3 => {
                if x >= w || y >= h || z >= d {
                    return true;
                }
                let zh = z * h;
                if zh > max {
                    return false;
                }
                assert(zh * w <= max * max) by (nonlinear_arith)
                    requires
                        zh <= max,
                        w <= max,
                ;
                zh * w + y * w + x
            },
            wgpu::TextureDimension::D2 => {
                if x >= w || y >= h {
                    return true;
                }
                y * w + x
            },
            wgpu::TextureDimension::D1 => {
                if x >= w {
                    return true;
                }
                x
            },
        };
        if index > max {
            return false;
        }
        assert(index * (pixel_size as u128) <= max * (u64::MAX as u128)) by (nonlinear_arith)
            requires
                index <= max,
                pixel_size <= u64::MAX,
        ;
        index * (pixel_size as u128) <= usize::MAX as u128
    }

    /// Whether the pixel at `coords` can be read and written: its offset can
    /// be computed, and where the coordinates are in bounds, its bytes lie in
    /// the data.
    pub fn can_access_pixel(&self, coords: bevy_math::UVec3) -> (accessible: bool)
        ensures
            accessible == self.pixel_accessible(coords),
    {
        if !self.can_compute_pixel_offset(coords) {
            return false;
        }
        let pixel_size = self.texture_descriptor.format.pixel_size();
        match self.pixel_data_offset(coords) {
            Some(offset) => offset <= self.data.len() && pixel_size <= self.data.len() - offset,
            None => true,
        }
    }

    /// Returns the width of a 2D image.
    pub fn width(&self) -> (width: u32)
        ensures
            width == self.extent().width,
    {
        self.texture_descriptor.size.width
    }

    /// Returns the height of a 2D image.
    pub fn height(&self) -> (height: u32)
        ensures
            height == self.extent().height,
    {
        self.texture_descriptor.size.height
    }

    /// Returns the size of a 2D image.
    pub fn size(&self) -> (size: bevy_math::UVec2)
        ensures
            size.x == self.extent().width,
            size.y == self.extent().height,
    {
        bevy_math::UVec2 { x: self.width(), y: self.height() }
    }
}

/// The byte length of the data of an image of `size` and `format`, where
/// it can be computed: the format has a pixel size and the volume and the
/// length fit in `usize`; none otherwise.
pub fn checked_data_len(size: wgpu::Extent3d, format: &wgpu::TextureFormat) -> (len: Option<usize>)
    ensures
        len == (if size.volume_fits() && format.has_pixel_size()
            && size.spec_volume() * format.spec_pixel_size() <= usize::MAX {
            Some((size.spec_volume() * format.spec_pixel_size()) as usize)
        } else {
            None
        }),
{
    let pixel_size = match checked_pixel_size(format) {
        Some(p) => p,
        None => return None,
    };
    let volume = extent_product(&size);
    if volume > usize::MAX as u128 {
        return None;
    }
    assert(volume * (pixel_size as u128) <= 0xffff_ffff_ffff_ffff_ffff_ffff_ffff_ffffu128) by (nonlinear_arith)
        requires
            volume <= usize::MAX,
            pixel_size <= usize::MAX,
            usize::MAX <= u64::MAX,
    ;
    let len = volume * (pixel_size as u128);
    if len > usize::MAX as u128 {
        return None;
    }
    Some(len as usize)
}

/// The bits of `TEXTURE_BINDING | COPY_DST`, the usages of a fresh image.
fn binding_and_copy_dst_bits_value() -> (bits: u32)
    ensures
        bits == binding_and_copy_dst_bits(),
        bits & 0x1fu32 == bits,
{
    let bits: u32 = (1u32 << 2u32) | (1u32 << 1u32);
    assert(bits & 0x1fu32 == bits) by (bit_vector)
        requires
            bits == (1u32 << 2u32) | (1u32 << 1u32),
    ;
    bits
}

impl Default for Image {
    /// A 1x1x1 two-dimensional `Rgba8UnormSrgb` image whose four bytes are 255.
    fn default() -> (image: Self)
        ensures
            image.descriptor_is(
                wgpu::Extent3d { width: 1, height: 1, depth_or_array_layers: 1 },
                wgpu::TextureDimension::D2,
                wgpu::TextureFormat::Rgba8UnormSrgb,
            ),
            image.sampler is Default,
            image.data@ == Seq::new(4, |i: int| 255u8),
    {
        let format = wgpu::TextureFormat::Rgba8UnormSrgb;
        let size = texel_pixel_size(&format);
        let data = vec![255u8; size];
        let image = Image {
            data,
            texture_descriptor: wgpu_types::TextureDescriptor {
                size: wgpu::Extent3d { width: 1, height: 1, depth_or_array_layers: 1 },
                format,
                dimension: wgpu::TextureDimension::D2,
                label: None,
                mip_level_count: 1,
                sample_count: 1,
                usage: texture_usages_from_bits(binding_and_copy_dst_bits_value()),
                view_formats: &[],
            },
            sampler: ImageSampler::Default,
            texture_view_descriptor: None,
        };
        assert(image.data@ =~= Seq::new(4, |i: int| 255u8));
        image
    }
}

impl Image {
    /// Creates a new image from raw binary data and the corresponding metadata.
    ///
    /// The length of `data` must be the volume of `size` times the pixel size
    /// of `format`.
    pub fn new(
        size: wgpu::Extent3d,
        dimension: wgpu::TextureDimension,
        data: Vec<u8>,
        format: wgpu::TextureFormat,
    ) -> (image: Self)
        requires
            size.volume_fits(),
            format.has_pixel_size(),
            size.spec_volume() * format.spec_pixel_size() <= usize::MAX,
            data@.len() == size.spec_volume() * format.spec_pixel_size(),
        ensures
            image.descriptor_is(size, dimension, format),
            image.sampler is Default,
            image.data@ == data@,
    {
        let defaults = Image::default();
        let mut image = Image {
            data,
            texture_descriptor: defaults.texture_descriptor,
            sampler: defaults.sampler,
            texture_view_descriptor: defaults.texture_view_descriptor,
        };
        image.texture_descriptor.dimension = dimension;
        image.texture_descriptor.size = size;
        image.texture_descriptor.format = format;
        image
    }

    /// Creates a new image from raw binary data and the corresponding
    /// metadata, by filling the image data with the `pixel` data repeated
    /// multiple times.
    ///
    /// The length of `pixel` must be a non-zero multiple of the format's pixel
    /// size, at most the image's byte length.
    pub fn new_fill(
        size: wgpu::Extent3d,
        dimension: wgpu::TextureDimension,
        pixel: &[u8],
        format: wgpu::TextureFormat,
    ) -> (image: Self)
        requires
            size.volume_fits(),
            format.has_pixel_size(),
            size.spec_volume() * format.spec_pixel_size() <= usize::MAX,
            pixel@.len() > 0,
            pixel@.len() % format.spec_pixel_size() == 0,
            pixel@.len() <= size.spec_volume() * format.spec_pixel_size(),
        ensures
            image.descriptor_is(size, dimension, format),
            image.sampler is Default,
            image.data@ == filled(size.spec_volume() * format.spec_pixel_size(), pixel@),
            image.data@.len() == size.spec_volume() * format.spec_pixel_size(),
            forall|i: int|
                0 <= i < (image.data@.len() / pixel@.len()) * pixel@.len()
                    ==> #[trigger] image.data@[i] == pixel@[i % pixel@.len() as int],
    {
        let mut value = Image::default();
        value.texture_descriptor.format = format;
        value.texture_descriptor.dimension = dimension;
        value.resize(size);

        let p = pixel.len();
        let n = value.data.len();
        let count = n / p;
        let ghost base = value.data@;
        let ghost resized_image = value;
        proof {
            assert forall|i: int| 0 <= i < n implies #[trigger] base[i] == (if i < 4 { 255u8 } else { 0u8 }) by {
                if n > 4 {
                    assert(base[i] == resized(Seq::new(4, |k: int| 255u8), n as nat)[i]);
                }
            }
            assert(count * p <= n) by (nonlinear_arith)
                requires
                    count == n / p,
                    p > 0,
            ;
        }
        let mut c: usize = 0;
        while c < count
            invariant
                p == pixel@.len(),
                p > 0,
                count == n / p,
                count * p <= n,
                c <= count,
                value.data@.len() == n,
                value == (Image { data: value.data, ..resized_image }),
                forall|i: int| 0 <= i < c * p ==> #[trigger] value.data@[i] == pixel@[i % p as int],
                forall|i: int| c * p <= i < n ==> #[trigger] value.data@[i] == base[i],
            decreases count - c,
        {
            assert((c + 1) * p <= count * p && c * p + p == (c + 1) * p) by (nonlinear_arith)
                requires
                    c < count,
                    p > 0,
            ;
            let start = c * p;
            let mut j: usize = 0;
            while j < p
                invariant
                    p == pixel@.len(),
                    p > 0,
                    start == c * p,
                    start + p <= n,
                    j <= p,
                    value.data@.len() == n,
                    value == (Image { data: value.data, ..resized_image }),
                    forall|i: int| 0 <= i < c * p ==> #[trigger] value.data@[i] == pixel@[i % p as int],
                    forall|i: int| c * p <= i < c * p + j ==> #[trigger] value.data@[i] == pixel@[i - c * p],
                    forall|i: int| c * p + j <= i < n ==> #[trigger] value.data@[i] == base[i],
                decreases p - j,
            {
                value.data.set(start + j, pixel[j]);
                j = j + 1;
            }
            proof {
                assert forall|i: int| 0 <= i < (c + 1) * p implies #[trigger] value.data@[i] == pixel@[i % p as int] by {
                    if i >= c * p {
                        vstd::arithmetic::div_mod::lemma_fundamental_div_mod_converse(i, p as int, c as int, i - c * p);
                    }
                }
            }
            c = c + 1;
        }
        proof {
            assert(value.data@ =~= filled(n as nat, pixel@));
        }
        value
    }

    /// Resizes the image to the new size, by removing information or appending
    /// 0 to the `data`. Does not properly resize the contents of the image,
    /// but only its internal `data` buffer.
    pub fn resize(&mut self, size: wgpu::Extent3d)
        requires
            size.volume_fits(),
            old(self).format().has_pixel_size(),
            size.spec_volume() * old(self).format().spec_pixel_size() <= usize::MAX,
        ensures
            final(self).texture_descriptor == with_size(old(self).texture_descriptor, size),
            final(self).data@ == resized(old(self).data@, size.spec_volume() * old(self).format().spec_pixel_size()),
            final(self).sampler == old(self).sampler,
            final(self).texture_view_descriptor == old(self).texture_view_descriptor,
    {
        self.texture_descriptor.size = size;
        let n = size.volume() * self.texture_descriptor.format.pixel_size();
        let ghost before = self.data@;
        self.data.resize(n, 0);
        proof {
            if n > before.len() {
                assert forall|i: int| before.len() <= i < n implies #[trigger] self.data@[i] == 0u8 by {
                    assert(cloned::<u8>(0u8, self.data@[i]));
                }
                assert(self.data@ =~= resized(before, n as nat));
            }
        }
    }

    /// Changes the `size`, keeping the total number of data elements (pixels):
    /// the new size must have the volume of the old one.
    pub fn reinterpret_size(&mut self, new_size: wgpu::Extent3d)
        requires
            new_size.volume_fits(),
            old(self).extent().volume_fits(),
            new_size.spec_volume() == old(self).extent().spec_volume(),
        ensures
            *final(self) == (Image {
                texture_descriptor: with_size(old(self).texture_descriptor, new_size),
                ..*old(self)
            }),
    {
        self.texture_descriptor.size = new_size;
    }

    /// Compute the byte offset where the data of a specific pixel is stored.
    ///
    /// Returns `None` if the provided coordinates are out of bounds. For 2D
    /// textures, Z is ignored. For 1D textures, Y and Z are ignored.
    pub fn pixel_data_offset(&self, coords: bevy_math::UVec3) -> (offset: Option<usize>)
        requires
            self.offset_computable(coords),
        ensures
            match self.spec_pixel_data_offset(coords) {
                Some(o) => offset == Some(o as usize),
                None => offset is None,
            },
    {
        let width = self.texture_descriptor.size.width;
        let height = self.texture_descriptor.size.height;
        let depth = self.texture_descriptor.size.depth_or_array_layers;

        let pixel_size = self.texture_descriptor.format.pixel_size();
        let pixel_offset = match self.texture_descriptor.dimension {
            wgpu::TextureDimension::D3 => {
                if coords.x >= width || coords.y >= height || coords.z >= depth {
                    return None;
                }
                proof {
                    let zh = coords.z * height;
                    assert(zh * width <= zh * width + coords.y * width + coords.x) by (nonlinear_arith)
                        requires
                            zh >= 0,
                            coords.y * width >= 0,
                    ;
                }
                coords.z * height * width + coords.y * width + coords.x
            },
            wgpu::TextureDimension::D2 => {
                if coords.x >= width || coords.y >= height {
                    return None;
                }
                coords.y * width + coords.x
            },
            wgpu::TextureDimension::D1 => {
                if coords.x >= width {
                    return None;
                }
                coords.x
            },
        };

        Some(pixel_offset as usize * pixel_size)
    }

    /// The bytes where the pixel at `coords` is stored, or `None` if the
    /// coordinates are out of bounds.
    pub fn pixel_bytes(&self, coords: bevy_math::UVec3) -> (bytes: Option<&[u8]>)
        requires
            self.pixel_accessible(coords),
        ensures
            match self.spec_pixel_bytes(coords) {
                Some(b) => bytes matches Some(s) && s@ == b,
                None => bytes is None,
            },
    {
        let len = self.texture_descriptor.format.pixel_size();
        assert(self.data.len() == self.data@.len());
        match self.pixel_data_offset(coords) {
            Some(start) => Some(&self.data[start..(start + len)]),
            None => None,
        }
    }

    /// The bytes where the pixel at `coords` is stored, to be changed in
    /// place, or `None` if the coordinates are out of bounds.
    pub fn pixel_bytes_mut(&mut self, coords: bevy_math::UVec3) -> (bytes: Option<&mut [u8]>)
        requires
            old(self).pixel_accessible(coords),
        ensures
            match old(self).spec_pixel_bytes(coords) {
                None => bytes is None && *final(self) == *old(self),
                Some(b) => {
                    &&& bytes is Some
                    &&& bytes.unwrap()@ == b
                    &&& final(self).data@ == old(self).data@.take(old(self).spec_pixel_data_offset(coords).unwrap())
                        + final(bytes.unwrap())@
                        + old(self).data@.skip(old(self).spec_pixel_data_offset(coords).unwrap() + b.len())
                    &&& *final(self) == (Image { data: final(self).data, ..*old(self) })
                },
            },
    {
        let len = self.texture_descriptor.format.pixel_size();
        assert(self.data.len() == self.data@.len());
        match self.pixel_data_offset(coords) {
            Some(start) => {
                let all = self.data.as_mut_slice();
                let (_front, rest) = all.split_at_mut(start);
                let (pixel, _back) = rest.split_at_mut(len);
                Some(pixel)
            },
            None => None,
        }
    }

    /// Reads the colour of the pixel at `coords`: the layout of the image's
    /// format and the channel values stored there.
    ///
    /// The formats read are 8-bit RGBA and BGRA (sRGB or linear), 16- and
    /// 32-bit unsigned RGBA, 32-bit float RGBA, and the one- and two-channel
    /// formats of 8, 16 and 32 bits; any other format is unsupported.
    pub fn get_color_at(&self, coords: bevy_math::UVec3) -> (result: Result<TexelValue, TextureAccessError>)
        requires
            self.pixel_accessible(coords),
        ensures
            match self.spec_pixel_data_offset(coords) {
                None => result matches Err(TextureAccessError::OutOfBounds(s))
                    && s@ == coordinates_text(coords.x, coords.y, coords.z),
                Some(o) => match format_texel_layout(self.format()) {
                    None => result matches Err(TextureAccessError::UnsupportedTextureFormat(s))
                        && s@ == texture_format_debug(self.format()),
                    Some(l) => {
                        &&& self.format().spec_pixel_size() == l.byte_len()
                        &&& result matches Ok(t)
                        &&& t == (TexelValue {
                            layout: l,
                            values: decode_texel(l, self.data@.subrange(o, o + l.byte_len())),
                        })
                    },
                },
            },
    {
        let bytes = match self.pixel_bytes(coords) {
            Some(b) => b,
            None => {
                return Err(TextureAccessError::OutOfBounds(coordinates_message(coords.x, coords.y, coords.z)));
            },
        };
        let format = self.texture_descriptor.format;
        match texel_layout(&format) {
            Some(layout) => {
                let size = texel_pixel_size(&format);
                assert(bytes@.subrange(0, layout.byte_len() as int) =~= bytes@);
                Ok(TexelValue { layout, values: read_texel(bytes, 0, layout) })
            },
            None => Err(TextureAccessError::UnsupportedTextureFormat(texture_format_name(&format))),
        }
    }

    /// Writes a colour into the pixel at `coords`: each channel the image's
    /// format stores is written from `values`, little-endian, cut to its width.
    /// Red and green only are written to two-channel formats, red only to
    /// one-channel formats; BGRA formats store blue, green, red, alpha.
    pub fn set_color_at(&mut self, coords: bevy_math::UVec3, values: ChannelValues) -> (result: Result<(), TextureAccessError>)
        requires
            old(self).pixel_accessible(coords),
        ensures
            match old(self).spec_pixel_data_offset(coords) {
                None => {
                    &&& result matches Err(TextureAccessError::OutOfBounds(s))
                    &&& s@ == coordinates_text(coords.x, coords.y, coords.z)
                    &&& *final(self) == *old(self)
                },
                Some(o) => match format_texel_layout(old(self).format()) {
                    None => {
                        &&& result matches Err(TextureAccessError::UnsupportedTextureFormat(s))
                        &&& s@ == texture_format_debug(old(self).format())
                        &&& *final(self) == *old(self)
                    },
                    Some(l) => {
                        &&& old(self).format().spec_pixel_size() == l.byte_len()
                        &&& result is Ok
                        &&& final(self).data@ == splice(old(self).data@, o, encode_texel(l, values))
                        &&& *final(self) == (Image { data: final(self).data, ..*old(self) })
                    },
                },
            },
    {
        let format = self.texture_descriptor.format;
        let start = match self.pixel_data_offset(coords) {
            Some(o) => o,
            None => {
                return Err(TextureAccessError::OutOfBounds(coordinates_message(coords.x, coords.y, coords.z)));
            },
        };
        match texel_layout(&format) {
            Some(layout) => {
                let size = texel_pixel_size(&format);
                write_texel(&mut self.data, start, layout, values);
                Ok(())
            },
            None => Err(TextureAccessError::UnsupportedTextureFormat(texture_format_name(&format))),
        }
    }

    /// Takes a 2D image containing vertically stacked images of the same size,
    /// and reinterprets it as a 2D array texture, where each of the stacked
    /// images becomes one layer of the array.
    ///
    /// The texture must be 2D, have one layer, and have a height that
    /// `layers` divides.
    pub fn reinterpret_stacked_2d_as_array(&mut self, layers: u32)
        requires
            old(self).texture_descriptor.dimension is D2,
            old(self).extent().depth_or_array_layers == 1,
            layers != 0,
            old(self).extent().height % layers == 0,
            old(self).extent().volume_fits(),
        ensures
            *final(self) == (Image {
                texture_descriptor: with_size(
                    old(self).texture_descriptor,
                    wgpu::Extent3d {
                        width: old(self).extent().width,
                        height: (old(self).extent().height / layers) as u32,
                        depth_or_array_layers: layers,
                    },
                ),
                ..*old(self)
            }),
    {
        let width = self.width();
        let height = self.height();
        let new_size = wgpu::Extent3d {
            width,
            height: height / layers,
            depth_or_array_layers: layers,
        };
        proof {
            let q = (height / layers) as int;
            let l = layers as int;
            let w = width as int;
            assert(q * l == height) by (nonlinear_arith)
                requires
                    height % layers == 0,
                    l == layers,
                    q == height / layers,
                    layers != 0,
            ;
            assert(w * q * l == w * height) by (nonlinear_arith)
                requires
                    q * l == height,
            ;
            assert(w * q <= w * height) by (nonlinear_arith)
                requires
                    q * l == height,
                    l >= 1,
                    q >= 0,
                    w >= 0,
            ;
        }
        self.reinterpret_size(new_size);
    }
}

/// The formats of the BC, ETC2 and EAC families, and ASTC formats other
/// than HDR ones.
pub open spec fn is_block_compressed_family(format: wgpu::TextureFormat) -> bool {
    match format {
        wgpu::TextureFormat::Bc1RgbaUnorm | wgpu::TextureFormat::Bc1RgbaUnormSrgb
        | wgpu::TextureFormat::Bc2RgbaUnorm | wgpu::TextureFormat::Bc2RgbaUnormSrgb
        | wgpu::TextureFormat::Bc3RgbaUnorm | wgpu::TextureFormat::Bc3RgbaUnormSrgb
        | wgpu::TextureFormat::Bc4RUnorm | wgpu::TextureFormat::Bc4RSnorm | wgpu::TextureFormat::Bc5RgUnorm
        | wgpu::TextureFormat::Bc5RgSnorm | wgpu::TextureFormat::Bc6hRgbUfloat
        | wgpu::TextureFormat::Bc6hRgbFloat | wgpu::TextureFormat::Bc7RgbaUnorm
        | wgpu::TextureFormat::Bc7RgbaUnormSrgb | wgpu::TextureFormat::Etc2Rgb8Unorm
        | wgpu::TextureFormat::Etc2Rgb8UnormSrgb | wgpu::TextureFormat::Etc2Rgb8A1Unorm
        | wgpu::TextureFormat::Etc2Rgb8A1UnormSrgb | wgpu::TextureFormat::Etc2Rgba8Unorm
        | wgpu::TextureFormat::Etc2Rgba8UnormSrgb | wgpu::TextureFormat::EacR11Unorm
        | wgpu::TextureFormat::EacR11Snorm | wgpu::TextureFormat::EacRg11Unorm
        | wgpu::TextureFormat::EacRg11Snorm => true,
        wgpu::TextureFormat::Astc { channel, .. } => !(channel is Hdr),
        _ => false,
    }
}

/// A format counts as compressed exactly where it belongs to the BC, ETC2
/// or EAC family or is a non-HDR ASTC format: HDR ASTC needs a feature of
/// its own, which is not one of the three that are checked.
pub proof fn lemma_compressed_formats(format: wgpu::TextureFormat)
    ensures
        needs_compression_feature(texture_required_feature_bits(format)) <==> is_block_compressed_family(format),
{
    let b = texture_required_feature_bits(format);
    assert(b == 0 || b == 1u64 << 24u64 || b == 1u64 << 25u64 || b == 1u64 << 26u64
        || b == 1u64 << 27u64 || b == 1u64 << 29u64 || b == 1u64 << 30u64);
    assert((b == 0 || b == 1u64 << 24u64 || b == 1u64 << 25u64 || b == 1u64 << 26u64
        || b == 1u64 << 27u64 || b == 1u64 << 29u64 || b == 1u64 << 30u64) ==> (
        (b & (1u64 << 27u64) == 1u64 << 27u64 || b & (1u64 << 25u64) == 1u64 << 25u64
            || b & (1u64 << 26u64) == 1u64 << 26u64)
        <==> (b == 1u64 << 25u64 || b == 1u64 << 26u64 || b == 1u64 << 27u64))) by (bit_vector);
    assert(0u64 != 1u64 << 25u64 && 0u64 != 1u64 << 26u64 && 0u64 != 1u64 << 27u64
        && 1u64 << 24u64 != 1u64 << 25u64 && 1u64 << 24u64 != 1u64 << 26u64 && 1u64 << 24u64 != 1u64 << 27u64
        && 1u64 << 29u64 != 1u64 << 25u64 && 1u64 << 29u64 != 1u64 << 26u64 && 1u64 << 29u64 != 1u64 << 27u64
        && 1u64 << 30u64 != 1u64 << 25u64 && 1u64 << 30u64 != 1u64 << 26u64 && 1u64 << 30u64 != 1u64 << 27u64)
        by (bit_vector);
}

/// Filling `n` bytes with a pixel writes the pixel into every whole chunk
/// of its length, the first chunk included, however many chunks there are.
pub proof fn lemma_filled_repeats_pixel(n: nat, pixel: Seq<u8>)
    requires
        pixel.len() > 0,
    ensures
        filled(n, pixel).len() == n,
        forall|i: int| 0 <= i < (n / pixel.len()) * pixel.len() ==> #[trigger] filled(n, pixel)[i] == pixel[i % pixel.len() as int],
        n >= pixel.len() ==> filled(n, pixel).take(pixel.len() as int) == pixel,
{
    let p = pixel.len();
    assert((n / p) * p <= n) by (nonlinear_arith)
        requires
            p > 0,
    ;
    if n >= p {
        assert(p <= (n / p) * p) by (nonlinear_arith)
            requires
                n >= p,
                p > 0,
        ;
        assert forall|i: int| 0 <= i < p implies #[trigger] filled(n, pixel).take(p as int)[i] == pixel[i] by {
            vstd::arithmetic::div_mod::lemma_small_mod(i as nat, p);
        }
        assert(filled(n, pixel).take(p as int) =~= pixel);
    }
}

/// Resizing leaves exactly as many bytes as asked for, and keeps the bytes
/// that were there up to that length.
pub proof fn lemma_resized(s: Seq<u8>, n: nat)
    ensures
        resized(s, n).len() == n,
        forall|i: int| 0 <= i < n && i < s.len() ==> #[trigger] resized(s, n)[i] == s[i],
{
}

/// For a 2D texture the Z coordinate is ignored, and for a 1D texture the Y
/// and Z coordinates are.
pub proof fn lemma_unused_coordinates_ignored(image: Image, c: bevy_math::UVec3, other: bevy_math::UVec3)
    ensures
        image.texture_descriptor.dimension is D2 && c.x == other.x && c.y == other.y
            ==> image.pixel_index(c) == image.pixel_index(other),
        image.texture_descriptor.dimension is D1 && c.x == other.x
            ==> image.pixel_index(c) == image.pixel_index(other),
{
}

impl Image {
    /// Every pixel the dimension can address lies within the volume: a 2D
    /// image with pixels has at least one layer, and a 1D image with pixels
    /// has a height and a depth of at least one.
    pub open spec fn addressed_within_volume(self) -> bool {
        let w = self.extent().width;
        let h = self.extent().height;
        let d = self.extent().depth_or_array_layers;
        match self.texture_descriptor.dimension {
            wgpu::TextureDimension::D3 => true,
            wgpu::TextureDimension::D2 => w == 0 || h == 0 || d >= 1,
            wgpu::TextureDimension::D1 => w == 0 || (h >= 1 && d >= 1),
        }
    }
}

/// In an image whose data holds one pixel for each texel of its volume, and
/// whose volume fits in `u32`, every pixel can be read and written: the
/// offset of an in-bounds pixel can be computed and its bytes lie within the
/// data. Out-of-bounds coordinates, those at or past the size, have no offset.
pub proof fn lemma_pixel_within_data(image: Image, c: bevy_math::UVec3)
    requires
        image.format().has_pixel_size(),
        image.extent().spec_volume() <= u32::MAX,
        image.data@.len() == image.extent().spec_volume() * image.format().spec_pixel_size(),
        image.addressed_within_volume(),
    ensures
        image.pixel_accessible(c),
        image.spec_pixel_data_offset(c) matches Some(o) ==> {
            &&& 0 <= o
            &&& o + image.format().spec_pixel_size() <= image.data@.len()
        },
{
    let w = image.extent().width as int;
    let h = image.extent().height as int;
    let d = image.extent().depth_or_array_layers as int;
    let p = image.format().spec_pixel_size() as int;
    let x = c.x as int;
    let y = c.y as int;
    let z = c.z as int;
    let len = image.data@.len() as int;
    assert(len == w * h * d * p);
    if let Some(i) = image.pixel_index(c) {
        match image.texture_descriptor.dimension {
            wgpu::TextureDimension::D3 => {
                assert(i + 1 <= w * h * d && z * h <= w * h * d && i >= 0) by (nonlinear_arith)
                    requires
                        i == z * h * w + y * w + x,
                        0 <= x < w,
                        0 <= y < h,
                        0 <= z < d,
                ;
            },
            wgpu::TextureDimension::D2 => {
                assert(i + 1 <= w * h * d && i >= 0) by (nonlinear_arith)
                    requires
                        i == y * w + x,
                        0 <= x < w,
                        0 <= y < h,
                        d >= 1,
                ;
            },
            wgpu::TextureDimension::D1 => {
                assert(i + 1 <= w * h * d) by (nonlinear_arith)
                    requires
                        i == x,
                        0 <= x < w,
                        h >= 1,
                        d >= 1,
                ;
            },
        }
        assert(i * p + p <= w * h * d * p && i * p >= 0) by (nonlinear_arith)
            requires
                i + 1 <= w * h * d,
                i >= 0,
                p >= 0,
        ;
        assert(image.data.len() == len);
    }
}

/// Writing a colour with `set_color_at` and reading the same pixel with
/// `get_color_at` gives back the channels the format stores, as long as
/// each value fits its channel, whatever order the format stores its
/// channels in; and the write leaves every byte outside that pixel as it was.
///
/// `before` and `after` are an image before and after a successful
/// `set_color_at(coords, values)`, as that function states them.
pub proof fn lemma_get_after_set(before: Image, after: Image, coords: bevy_math::UVec3, values: ChannelValues)
    requires
        before.pixel_accessible(coords),
        before.spec_pixel_data_offset(coords) is Some,
        format_texel_layout(before.format()) is Some,
        values_fit(format_texel_layout(before.format()).unwrap(), values),
        before.format().spec_pixel_size() == format_texel_layout(before.format()).unwrap().byte_len(),
        after.data@ == splice(
            before.data@,
            before.spec_pixel_data_offset(coords).unwrap(),
            encode_texel(format_texel_layout(before.format()).unwrap(), values),
        ),
        after == (Image { data: after.data, ..before }),
    ensures
        after.pixel_accessible(coords),
        after.spec_pixel_data_offset(coords) == before.spec_pixel_data_offset(coords),
        ({
            let l = format_texel_layout(after.format()).unwrap();
            let o = after.spec_pixel_data_offset(coords).unwrap();
            decode_texel(l, after.data@.subrange(o, o + l.byte_len())) == stored_values(l, values)
        }),
        after.data@.len() == before.data@.len(),
        forall|i: int|
            0 <= i < before.data@.len() && !(before.spec_pixel_data_offset(coords).unwrap() <= i
                < before.spec_pixel_data_offset(coords).unwrap() + before.format().spec_pixel_size())
                ==> #[trigger] after.data@[i] == before.data@[i],
{
    let l = format_texel_layout(before.format()).unwrap();
    let o = before.spec_pixel_data_offset(coords).unwrap();
    let e = encode_texel(l, values);
    lemma_texel_round_trip(l, values, before.data@, o);
    lemma_encode_texel_len(l, values);
}

} // verus!
