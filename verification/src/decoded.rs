//! Turning a decoded image into a texture: the texture format that keeps
//! its channels, and an alpha channel added where it has none.

use vstd::prelude::*;

use image::ColorType;

use crate::codec::{color_bytes_per_pixel, sample_width, swapped_samples};
use crate::texel::u32_le_bytes;
use crate::texture::{texel_pixel_size, Image, Volume};

verus! {

/// The texture format of a decoded image of colour type `color`: 8-bit luma
/// and luma-alpha stay one- and two-channel, 16-bit ones become unsigned
/// integer textures, RGB gains an alpha channel, and floats become 32-bit
/// float RGBA. 8-bit colour is sRGB where `is_srgb`. These ten are all the
/// colour types of the `image` crate; the last arm only completes the match
/// over its non-exhaustive enum.
pub open spec fn decoded_texture_format(color: ColorType, is_srgb: bool) -> wgpu::TextureFormat {
    match color {
        ColorType::L8 => wgpu::TextureFormat::R8Unorm,
        ColorType::La8 => wgpu::TextureFormat::Rg8Unorm,
        ColorType::Rgb8 | ColorType::Rgba8 => if is_srgb {
            wgpu::TextureFormat::Rgba8UnormSrgb
        } else {
            wgpu::TextureFormat::Rgba8Unorm
        },
        ColorType::L16 => wgpu::TextureFormat::R16Uint,
        ColorType::La16 => wgpu::TextureFormat::Rg16Uint,
        ColorType::Rgb16 | ColorType::Rgba16 => wgpu::TextureFormat::Rgba16Unorm,
        ColorType::Rgb32F | ColorType::Rgba32F => wgpu::TextureFormat::Rgba32Float,
        _ => wgpu::TextureFormat::Rgba8UnormSrgb,
    }
}

/// The bytes of one texel of a decoded image of colour type `color`.
pub open spec fn texel_bytes(color: ColorType) -> nat {
    match color {
        ColorType::Rgb8 => 4,
        ColorType::Rgb16 => 8,
        ColorType::Rgb32F => 16,
        _ => color_bytes_per_pixel(color),
    }
}

/// The first `n` pixels of `bytes`, `k` bytes each, each followed by the
/// bytes `alpha`.
pub open spec fn with_alpha(bytes: Seq<u8>, k: nat, alpha: Seq<u8>, n: nat) -> Seq<u8>
    decreases n,
{
    if n == 0 {
        Seq::empty()
    } else {
        with_alpha(bytes, k, alpha, (n - 1) as nat) + bytes.subrange((n - 1) * k, (n * k) as int) + alpha
    }
}

/// The data of the texture made of `n` pixels of colour type `color` whose
/// samples are `bytes`: RGB gains an alpha after each pixel (`one`, the
/// bytes of a float one, for float RGB); every other type keeps its bytes.
pub open spec fn decoded_texture_data(color: ColorType, bytes: Seq<u8>, n: nat, one: Seq<u8>) -> Seq<u8> {
    match color {
        ColorType::Rgb8 => with_alpha(bytes, 3, seq![255u8], n),
        ColorType::Rgb16 => with_alpha(bytes, 6, seq![255u8, 255u8], n),
        ColorType::Rgb32F => with_alpha(bytes, 12, one, n),
        _ => bytes,
    }
}

/// `samples` in the machine's byte order: as they are where it is
/// little-endian or a sample has one byte, each sample reversed otherwise.
pub open spec fn in_byte_order(samples: Seq<u8>, width: nat, little: bool) -> Seq<u8> {
    if little || width == 1 {
        samples
    } else {
        swapped_samples(samples, width)
    }
}

/// The bytes of an `f32` of value one, in one byte order or the other.
pub open spec fn is_f32_one_bytes(b: Seq<u8>) -> bool {
    b == u32_le_bytes(0x3f80_0000) || b == u32_le_bytes(0x3f80_0000).reverse()
}

/// `u32::to_ne_bytes`: the bytes of `v` in the machine's byte order, which
/// is little- or big-endian.
#[verifier::external_body]
fn u32_native_bytes(v: u32) -> (bytes: [u8; 4])
    ensures
        bytes@ == u32_le_bytes(v) || bytes@ == u32_le_bytes(v).reverse(),
{
    v.to_ne_bytes()
}

/// Adding `alpha` after each pixel lengthens the bytes by its length per pixel.
proof fn lemma_with_alpha_len(bytes: Seq<u8>, k: nat, alpha: Seq<u8>, n: nat)
    requires
        bytes.len() >= n * k,
    ensures
        with_alpha(bytes, k, alpha, n).len() == n * (k + alpha.len()),
    decreases n,
{
    if n > 0 {
        assert(0 <= (n - 1) * k <= n * k && n * k <= bytes.len() && (n - 1) * k + k == n * k) by (nonlinear_arith)
            requires
                n > 0,
                bytes.len() >= n * k,
        ;
        lemma_with_alpha_len(bytes, k, alpha, (n - 1) as nat);
        let prev = with_alpha(bytes, k, alpha, (n - 1) as nat);
        let pixel = bytes.subrange((n - 1) * k, (n * k) as int);
        assert(pixel.len() == k);
        assert(prev.len() == (n - 1) * (k + alpha.len()));
        assert(with_alpha(bytes, k, alpha, n) == prev + pixel + alpha);
        assert((n - 1) * (k + alpha.len()) + k + alpha.len() == n * (k + alpha.len())) by (nonlinear_arith)
            requires
                n > 0,
        ;
        assert((prev + pixel + alpha).len() == prev.len() + pixel.len() + alpha.len());
    } else {
        assert(with_alpha(bytes, k, alpha, n).len() == 0);
    }
}

/// The first `n` pixels of `bytes`, `k` bytes each, each followed by `alpha`.
fn append_alpha(bytes: &[u8], k: usize, alpha: &[u8], n: usize) -> (out: Vec<u8>)
    requires
        bytes@.len() == n * k,
        n * (k + alpha@.len()) <= usize::MAX,
    ensures
        out@ == with_alpha(bytes@, k as nat, alpha@, n as nat),
{
    assert(bytes.len() == bytes@.len());
    let mut out: Vec<u8> = Vec::new();
    let mut p: usize = 0;
    while p < n
        invariant
            p <= n,
            bytes@.len() == n * k,
            n * k <= usize::MAX,
            n * (k + alpha@.len()) <= usize::MAX,
            out@ == with_alpha(bytes@, k as nat, alpha@, p as nat),
        decreases n - p,
    {
        assert(p * k + k <= n * k && (p + 1) * k == p * k + k && 0 <= p * k <= n * k) by (nonlinear_arith)
            requires
                p < n,
        ;
        assert(k <= n * (k + alpha@.len())) by (nonlinear_arith)
            requires
                p < n,
        ;
        let start = p * k;
        let ghost before = out@;
        let mut j: usize = 0;
        while j < k
            invariant
                j <= k,
                start == p * k,
                start + k <= bytes@.len(),
                start + k <= usize::MAX,
                out@ == before + bytes@.subrange(start as int, start + j),
            decreases k - j,
        {
            out.push(bytes[start + j]);
            j = j + 1;
            assert(out@ =~= before + bytes@.subrange(start as int, start + j));
        }
        let ghost middle = out@;
        let mut a: usize = 0;
        while a < alpha.len()
            invariant
                a <= alpha@.len(),
                out@ == middle + alpha@.take(a as int),
            decreases alpha@.len() - a,
        {
            out.push(alpha[a]);
            a = a + 1;
            assert(out@ =~= middle + alpha@.take(a as int));
        }
        assert(alpha@.take(alpha@.len() as int) =~= alpha@);
        p = p + 1;
        assert(out@ =~= with_alpha(bytes@, k as nat, alpha@, p as nat));
    }
    out
}

impl Image {
    /// Makes a 2D texture of a `width` by `height` image that the `image`
    /// crate decoded with colour type `color` into the sample bytes `bytes`.
    ///
    /// 8-bit luma and luma-alpha images become `R8Unorm` and `Rg8Unorm`
    /// textures, 16-bit ones `R16Uint` and `Rg16Uint`, and their bytes are
    /// kept. RGBA images keep their bytes in an `Rgba8Unorm` (sRGB where
    /// `is_srgb`), `Rgba16Unorm` or `Rgba32Float` texture. RGB images gain an
    /// alpha channel, as the `image` crate's `into_rgba8` and `into_rgba16`
    /// give one: every pixel is followed by an opaque alpha, the bytes 255 or
    /// 255, 255; float RGB pixels are followed by the bytes of one.
    pub fn from_decoded(color: ColorType, width: u32, height: u32, bytes: Vec<u8>, is_srgb: bool) -> (image: Image)
        requires
            bytes@.len() == width * height * color_bytes_per_pixel(color),
            bytes@.len() <= isize::MAX,
        ensures
            image.descriptor_is(
                wgpu::Extent3d { width, height, depth_or_array_layers: 1 },
                wgpu::TextureDimension::D2,
                decoded_texture_format(color, is_srgb),
            ),
            image.sampler is Default,
            image.data@.len() == width * height * texel_bytes(color),
            !(color is Rgb32F) ==> image.data@ == decoded_texture_data(color, bytes@, (width * height) as nat, seq![]),
            exists|one: Seq<u8>|
                is_f32_one_bytes(one) && image.data@ == #[trigger] decoded_texture_data(
                    color,
                    bytes@,
                    (width * height) as nat,
                    one,
                ),
    {
        let ghost n = (width * height) as nat;
        let ghost bpp = color_bytes_per_pixel(color) as int;
        let ghost texel = texel_bytes(color) as int;
        assert(usize::MAX == 2 * isize::MAX + 1);
        assert(width * height <= bytes@.len() && n * texel <= usize::MAX) by (nonlinear_arith)
            requires
                n == width * height,
                bytes@.len() == n * bpp,
                1 <= bpp,
                texel <= bpp + 4,
                4 * texel <= 6 * bpp,
                bytes@.len() <= isize::MAX,
                usize::MAX == 2 * isize::MAX + 1,
        ;
        let format = match color {
            ColorType::L8 => wgpu::TextureFormat::R8Unorm,
            ColorType::La8 => wgpu::TextureFormat::Rg8Unorm,
            ColorType::Rgb8 | ColorType::Rgba8 => if is_srgb {
                wgpu::TextureFormat::Rgba8UnormSrgb
            } else {
                wgpu::TextureFormat::Rgba8Unorm
            },
            ColorType::L16 => wgpu::TextureFormat::R16Uint,
            ColorType::La16 => wgpu::TextureFormat::Rg16Uint,
            ColorType::Rgb16 | ColorType::Rgba16 => wgpu::TextureFormat::Rgba16Unorm,
            ColorType::Rgb32F | ColorType::Rgba32F => wgpu::TextureFormat::Rgba32Float,
            _ => wgpu::TextureFormat::Rgba8UnormSrgb,
        };
        let pixels = (width as usize) * (height as usize);
        let data = match color {
            ColorType::Rgb8 => {
                let alpha = [255u8];
                assert(alpha@ =~= seq![255u8]);
                proof {
                    lemma_with_alpha_len(bytes@, 3, alpha@, n);
                }
                append_alpha(bytes.as_slice(), 3, &alpha, pixels)
            },
            ColorType::Rgb16 => {
                let alpha = [255u8, 255u8];
                assert(alpha@ =~= seq![255u8, 255u8]);
                proof {
                    lemma_with_alpha_len(bytes@, 6, alpha@, n);
                }
                append_alpha(bytes.as_slice(), 6, &alpha, pixels)
            },
            ColorType::Rgb32F => {
                let one = u32_native_bytes(0x3f80_0000);
                proof {
                    lemma_with_alpha_len(bytes@, 12, one@, n);
                }
                let data = append_alpha(bytes.as_slice(), 12, &one, pixels);
                assert(is_f32_one_bytes(one@) && data@ == decoded_texture_data(color, bytes@, n, one@));
                data
            },
            _ => bytes,
        };
        let size = wgpu::Extent3d { width, height, depth_or_array_layers: 1 };
        let pixel_size = texel_pixel_size(&format);
        assert(data@.len() == n * texel);
        assert(size.width * size.height * size.depth_or_array_layers == width * height) by (nonlinear_arith)
            requires
                size.width == width,
                size.height == height,
                size.depth_or_array_layers == 1,
        ;
        assert(size.spec_volume() == n);
        assert(pixel_size == texel);
        proof {
            if !(color is Rgb32F) {
                let one = u32_le_bytes(0x3f80_0000);
                assert(is_f32_one_bytes(one));
                assert(data@ == decoded_texture_data(color, bytes@, n, one));
                assert(data@ == decoded_texture_data(color, bytes@, n, seq![]));
            }
        }
        Image::new(size, wgpu::TextureDimension::D2, data, format)
    }
}

/// RGB and RGBA images of the same sample type get the same texture format,
/// a four-channel one whose pixel takes the bytes of an RGBA pixel; the
/// unsigned-integer formats are only for 16-bit luma; only 8-bit colour
/// follows `is_srgb`; and every decoded image's texel takes the bytes that
/// wgpu gives a block of its format.
pub proof fn lemma_decoded_formats(color: ColorType, is_srgb: bool)
    ensures
        decoded_texture_format(ColorType::Rgb8, is_srgb) == decoded_texture_format(ColorType::Rgba8, is_srgb),
        decoded_texture_format(ColorType::Rgb16, is_srgb) == decoded_texture_format(ColorType::Rgba16, is_srgb),
        decoded_texture_format(ColorType::Rgb32F, is_srgb) == decoded_texture_format(ColorType::Rgba32F, is_srgb),
        crate::gpu::texture_block_size(decoded_texture_format(color, is_srgb)) == Some(texel_bytes(color) as u32),
        (color is Rgb8 || color is Rgba8 || color is Rgb16 || color is Rgba16 || color is Rgb32F || color is Rgba32F)
            ==> texel_bytes(color) == 4 * sample_width(color),
        (decoded_texture_format(color, is_srgb) is R16Uint || decoded_texture_format(color, is_srgb) is Rg16Uint
            || decoded_texture_format(color, is_srgb) is Rgba16Uint || decoded_texture_format(color, is_srgb) is R8Uint
            || decoded_texture_format(color, is_srgb) is Rg8Uint || decoded_texture_format(color, is_srgb) is Rgba8Uint)
            ==> (color is L16 || color is La16),
        decoded_texture_format(color, is_srgb) is Rgba8UnormSrgb
            <==> ((color is Rgb8 || color is Rgba8) && is_srgb),
{
}

} // verus!
