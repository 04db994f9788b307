//! The `wgpu` and `bevy_math` types the library works with, and the calls
//! into `wgpu` that the library makes.

use vstd::prelude::*;
use vstd::string::StringExecFns;

verus! {

/// `wgpu::AstcBlock`; Verus reads its variants.
#[verifier::external_type_specification]
pub struct ExAstcBlock(wgpu::AstcBlock);

/// `wgpu::AstcChannel`; Verus reads its variants.
#[verifier::external_type_specification]
pub struct ExAstcChannel(wgpu::AstcChannel);

/// `wgpu::TextureFormat`; Verus reads its variants.
#[verifier::external_type_specification]
pub struct ExTextureFormat(wgpu::TextureFormat);

/// `wgpu::TextureDimension`; Verus reads its variants.
#[verifier::external_type_specification]
pub struct ExTextureDimension(wgpu::TextureDimension);

/// `wgpu::Extent3d`; Verus reads its fields.
#[verifier::external_type_specification]
pub struct ExExtent3d(wgpu::Extent3d);

/// `wgpu::TextureUsages`, carried as it is.
#[verifier::external_type_specification]
#[verifier::external_body]
pub struct ExTextureUsages(wgpu::TextureUsages);

/// `wgpu::Features`, carried as it is.
#[verifier::external_type_specification]
#[verifier::external_body]
pub struct ExFeatures(wgpu::Features);

/// `wgpu::TextureViewDescriptor`, carried as it is.
#[verifier::external_type_specification]
#[verifier::external_body]
pub struct ExTextureViewDescriptor<'a>(wgpu::TextureViewDescriptor<'a>);

/// `wgpu::Sampler`, carried as it is.
#[verifier::external_type_specification]
#[verifier::external_body]
pub struct ExSampler(wgpu::Sampler);

/// The descriptor behind `wgpu::TextureDescriptor`; Verus reads its fields.
#[verifier::external_type_specification]
#[verifier::reject_recursive_types(L)]
#[verifier::reject_recursive_types(V)]
pub struct ExTextureDescriptor<L, V>(wgpu_types::TextureDescriptor<L, V>);

/// The derived `Clone` of the descriptor behind `wgpu::TextureDescriptor`,
/// which clones field by field: the plain fields come out equal, the label
/// and the view formats as clones. `Image`'s derived `Clone` calls it.
pub assume_specification<L: Clone, V: Clone>[ <wgpu_types::TextureDescriptor<L, V> as Clone>::clone ](
    d: &wgpu_types::TextureDescriptor<L, V>,
) -> (c: wgpu_types::TextureDescriptor<L, V>)
    ensures
        cloned(d.label, c.label),
        c.size == d.size,
        c.mip_level_count == d.mip_level_count,
        c.sample_count == d.sample_count,
        c.dimension == d.dimension,
        c.format == d.format,
        c.usage == d.usage,
        cloned(d.view_formats, c.view_formats),
;

/// `wgpu::AddressMode`; Verus reads its variants.
#[verifier::external_type_specification]
pub struct ExAddressMode(wgpu::AddressMode);

/// `wgpu::FilterMode`; Verus reads its variants.
#[verifier::external_type_specification]
pub struct ExFilterMode(wgpu::FilterMode);

/// `wgpu::CompareFunction`; Verus reads its variants.
#[verifier::external_type_specification]
pub struct ExCompareFunction(wgpu::CompareFunction);

/// `wgpu::SamplerBorderColor`; Verus reads its variants.
#[verifier::external_type_specification]
pub struct ExSamplerBorderColor(wgpu::SamplerBorderColor);

/// `bevy_math::UVec2`; Verus reads its fields.
#[verifier::external_type_specification]
pub struct ExUVec2(bevy_math::UVec2);

/// `bevy_math::UVec3`; Verus reads its fields.
#[verifier::external_type_specification]
pub struct ExUVec3(bevy_math::UVec3);

/// What `wgpu::TextureFormat::block_dimensions` returns for a format, as
/// wgpu's source lists it: four by four texels for the BC, ETC2 and EAC
/// formats, the block's size for ASTC, one texel for every other format.
pub open spec fn texture_block_dimensions(format: wgpu::TextureFormat) -> (u32, u32) {
    match format {
        wgpu::TextureFormat::Bc1RgbaUnorm | wgpu::TextureFormat::Bc1RgbaUnormSrgb
        | wgpu::TextureFormat::Bc2RgbaUnorm | wgpu::TextureFormat::Bc2RgbaUnormSrgb
        | wgpu::TextureFormat::Bc3RgbaUnorm | wgpu::TextureFormat::Bc3RgbaUnormSrgb
        | wgpu::TextureFormat::Bc4RUnorm | wgpu::TextureFormat::Bc4RSnorm | wgpu::TextureFormat::Bc5RgUnorm
        | wgpu::TextureFormat::Bc5RgSnorm | wgpu::TextureFormat::Bc6hRgbUfloat
        | wgpu::TextureFormat::Bc6hRgbFloat | wgpu::TextureFormat::Bc7RgbaUnorm
        | wgpu::TextureFormat::Bc7RgbaUnormSrgb | wgpu::TextureFormat::Etc2Rgb8Unorm
        | wgpu::TextureFormat::Etc2Rgb8UnormSrgb | wgpu::TextureFormat::Etc2Rgb8A1Unorm
        | wgpu::TextureFormat::Etc2Rgb8A1UnormSrgb | wgpu::TextureFormat::Etc2Rgba8Unorm
        | wgpu::TextureFormat::Etc2Rgba8UnormSrgb | wgpu::TextureFormat::EacR11Unorm
        | wgpu::TextureFormat::EacR11Snorm | wgpu::TextureFormat::EacRg11Unorm
        | wgpu::TextureFormat::EacRg11Snorm => (4, 4),
        wgpu::TextureFormat::Astc { block, .. } => match block {
            wgpu::AstcBlock::B4x4 => (4, 4),
            wgpu::AstcBlock::B5x4 => (5, 4),
            wgpu::AstcBlock::B5x5 => (5, 5),
            wgpu::AstcBlock::B6x5 => (6, 5),
            wgpu::AstcBlock::B6x6 => (6, 6),
            wgpu::AstcBlock::B8x5 => (8, 5),
            wgpu::AstcBlock::B8x6 => (8, 6),
            wgpu::AstcBlock::B8x8 => (8, 8),
            wgpu::AstcBlock::B10x5 => (10, 5),
            wgpu::AstcBlock::B10x6 => (10, 6),
            wgpu::AstcBlock::B10x8 => (10, 8),
            wgpu::AstcBlock::B10x10 => (10, 10),
            wgpu::AstcBlock::B12x10 => (12, 10),
            wgpu::AstcBlock::B12x12 => (12, 12),
        },
        _ => (1, 1),
    }
}

/// What `wgpu::TextureFormat::block_size(None)` returns for a format, as
/// wgpu's source lists it: the byte size of a block of texels, none for
/// `Depth24Plus` and the two combined depth-stencil formats.
pub open spec fn texture_block_size(format: wgpu::TextureFormat) -> Option<u32> {
    match format {
        wgpu::TextureFormat::R8Unorm | wgpu::TextureFormat::R8Snorm | wgpu::TextureFormat::R8Uint
        | wgpu::TextureFormat::R8Sint | wgpu::TextureFormat::Stencil8 => Some(1),
        wgpu::TextureFormat::Rg8Unorm | wgpu::TextureFormat::Rg8Snorm | wgpu::TextureFormat::Rg8Uint
        | wgpu::TextureFormat::Rg8Sint | wgpu::TextureFormat::R16Unorm | wgpu::TextureFormat::R16Snorm
        | wgpu::TextureFormat::R16Uint | wgpu::TextureFormat::R16Sint | wgpu::TextureFormat::R16Float
        | wgpu::TextureFormat::Depth16Unorm => Some(2),
        wgpu::TextureFormat::Rgba8Unorm | wgpu::TextureFormat::Rgba8UnormSrgb
        | wgpu::TextureFormat::Rgba8Snorm | wgpu::TextureFormat::Rgba8Uint | wgpu::TextureFormat::Rgba8Sint
        | wgpu::TextureFormat::Bgra8Unorm | wgpu::TextureFormat::Bgra8UnormSrgb
        | wgpu::TextureFormat::Rg16Unorm | wgpu::TextureFormat::Rg16Snorm | wgpu::TextureFormat::Rg16Uint
        | wgpu::TextureFormat::Rg16Sint | wgpu::TextureFormat::Rg16Float | wgpu::TextureFormat::R32Uint
        | wgpu::TextureFormat::R32Sint | wgpu::TextureFormat::R32Float
        | wgpu::TextureFormat::Rgb9e5Ufloat | wgpu::TextureFormat::Rgb10a2Unorm
        | wgpu::TextureFormat::Rg11b10Float | wgpu::TextureFormat::Depth32Float => Some(4),
        wgpu::TextureFormat::Rgba16Unorm | wgpu::TextureFormat::Rgba16Snorm
        | wgpu::TextureFormat::Rgba16Uint | wgpu::TextureFormat::Rgba16Sint
        | wgpu::TextureFormat::Rgba16Float | wgpu::TextureFormat::Rg32Uint | wgpu::TextureFormat::Rg32Sint
        | wgpu::TextureFormat::Rg32Float | wgpu::TextureFormat::Bc1RgbaUnorm
        | wgpu::TextureFormat::Bc1RgbaUnormSrgb | wgpu::TextureFormat::Bc4RUnorm
        | wgpu::TextureFormat::Bc4RSnorm | wgpu::TextureFormat::Etc2Rgb8Unorm
        | wgpu::TextureFormat::Etc2Rgb8UnormSrgb | wgpu::TextureFormat::Etc2Rgb8A1Unorm
        | wgpu::TextureFormat::Etc2Rgb8A1UnormSrgb | wgpu::TextureFormat::EacR11Unorm
        | wgpu::TextureFormat::EacR11Snorm => Some(8),
        wgpu::TextureFormat::Depth24Plus | wgpu::TextureFormat::Depth24PlusStencil8
        | wgpu::TextureFormat::Depth32FloatStencil8 => None,
        _ => Some(16),
    }
}

/// The bits of what `wgpu::TextureFormat::required_features` returns for a
/// format, as wgpu's source lists them: `DEPTH32FLOAT_STENCIL8` (bit 24),
/// `TEXTURE_FORMAT_16BIT_NORM` (bit 29), `TEXTURE_COMPRESSION_BC` (bit 25),
/// `TEXTURE_COMPRESSION_ETC2` (bit 26), `TEXTURE_COMPRESSION_ASTC` (bit 27)
/// or, for HDR ASTC, `TEXTURE_COMPRESSION_ASTC_HDR` (bit 30); no feature for
/// every other format.
pub open spec fn texture_required_feature_bits(format: wgpu::TextureFormat) -> u64 {
    match format {
        wgpu::TextureFormat::Depth32FloatStencil8 => 1u64 << 24u64,
        wgpu::TextureFormat::R16Unorm | wgpu::TextureFormat::R16Snorm | wgpu::TextureFormat::Rg16Unorm
        | wgpu::TextureFormat::Rg16Snorm | wgpu::TextureFormat::Rgba16Unorm
        | wgpu::TextureFormat::Rgba16Snorm => 1u64 << 29u64,
        wgpu::TextureFormat::Bc1RgbaUnorm | wgpu::TextureFormat::Bc1RgbaUnormSrgb
        | wgpu::TextureFormat::Bc2RgbaUnorm | wgpu::TextureFormat::Bc2RgbaUnormSrgb
        | wgpu::TextureFormat::Bc3RgbaUnorm | wgpu::TextureFormat::Bc3RgbaUnormSrgb
        | wgpu::TextureFormat::Bc4RUnorm | wgpu::TextureFormat::Bc4RSnorm | wgpu::TextureFormat::Bc5RgUnorm
        | wgpu::TextureFormat::Bc5RgSnorm | wgpu::TextureFormat::Bc6hRgbUfloat
        | wgpu::TextureFormat::Bc6hRgbFloat | wgpu::TextureFormat::Bc7RgbaUnorm
        | wgpu::TextureFormat::Bc7RgbaUnormSrgb => 1u64 << 25u64,
        wgpu::TextureFormat::Etc2Rgb8Unorm | wgpu::TextureFormat::Etc2Rgb8UnormSrgb
        | wgpu::TextureFormat::Etc2Rgb8A1Unorm | wgpu::TextureFormat::Etc2Rgb8A1UnormSrgb
        | wgpu::TextureFormat::Etc2Rgba8Unorm | wgpu::TextureFormat::Etc2Rgba8UnormSrgb
        | wgpu::TextureFormat::EacR11Unorm | wgpu::TextureFormat::EacR11Snorm
        | wgpu::TextureFormat::EacRg11Unorm | wgpu::TextureFormat::EacRg11Snorm => 1u64 << 26u64,
        wgpu::TextureFormat::Astc { channel, .. } => match channel {
            wgpu::AstcChannel::Hdr => 1u64 << 30u64,
            _ => 1u64 << 27u64,
        },
        _ => 0,
    }
}

/// What `wgpu::Features::bits` returns for a feature set.
pub uninterp spec fn feature_bits(features: wgpu::Features) -> u64;

/// What `wgpu::TextureUsages::bits` returns for a set of usages.
pub uninterp spec fn texture_usage_bits(usages: wgpu::TextureUsages) -> u32;

/// The bits of `TEXTURE_BINDING | COPY_DST`: bit 2 and bit 1.
pub open spec fn binding_and_copy_dst_bits() -> u32 {
    (1u32 << 2u32) | (1u32 << 1u32)
}

/// The text that `Debug` writes for a texture format.
pub uninterp spec fn texture_format_debug(format: wgpu::TextureFormat) -> Seq<char>;

/// The decimal digits of `n`, most significant first, with no leading zero.
pub open spec fn decimal_text(n: nat) -> Seq<char>
    decreases n,
{
    let digit = ((n % 10) + 48) as char;
    if n < 10 {
        seq![digit]
    } else {
        decimal_text(n / 10).push(digit)
    }
}

/// The text `"x: {}, y: {}, z: {}"` written for three coordinates, each in
/// decimal.
pub open spec fn coordinates_text(x: u32, y: u32, z: u32) -> Seq<char> {
    "x: "@ + decimal_text(x as nat) + ", y: "@ + decimal_text(y as nat) + ", z: "@ + decimal_text(z as nat)
}

/// The uncompressed colour formats whose texels the library reads and writes.
pub open spec fn is_texel_color_format(format: wgpu::TextureFormat) -> bool {
    ||| format is R8Unorm || format is R8Uint
    ||| format is R16Unorm || format is R16Uint
    ||| format is R32Uint || format is R32Float
    ||| format is Rg8Unorm || format is Rg8Uint
    ||| format is Rg16Unorm || format is Rg16Uint
    ||| format is Rg32Uint || format is Rg32Float
    ||| format is Rgba8Unorm || format is Rgba8UnormSrgb || format is Rgba8Uint
    ||| format is Bgra8Unorm || format is Bgra8UnormSrgb
    ||| format is Rgba16Unorm || format is Rgba16Uint
    ||| format is Rgba32Uint || format is Rgba32Float
}

/// `wgpu::TextureFormat::block_dimensions`: the width and height of a block
/// of texels.
#[verifier::external_body]
pub(crate) fn block_dimensions(format: &wgpu::TextureFormat) -> (dims: (u32, u32))
    ensures
        dims == texture_block_dimensions(*format),
{
    format.block_dimensions()
}

/// `wgpu::TextureFormat::block_size(None)`: the byte size of a block of
/// texels, none where the format has no single size.
#[verifier::external_body]
pub(crate) fn block_size(format: &wgpu::TextureFormat) -> (size: Option<u32>)
    ensures
        size == texture_block_size(*format),
{
    format.block_size(None)
}

/// `wgpu::TextureFormat::required_features`, taken by its bits: the bits
/// wgpu's source gives each format.
#[verifier::external_body]
pub(crate) fn required_feature_bits(format: &wgpu::TextureFormat) -> (bits: u64)
    ensures
        bits == texture_required_feature_bits(*format),
{
    format.required_features().bits()
}

/// `wgpu::Features::bits`.
#[verifier::external_body]
pub(crate) fn features_bits(features: &wgpu::Features) -> (bits: u64)
    ensures
        bits == feature_bits(*features),
{
    features.bits()
}

/// The bits of `wgpu::Features::TEXTURE_COMPRESSION_ASTC`, `..._BC` and
/// `..._ETC2`, which wgpu's source defines as bits 27, 25 and 26.
#[verifier::external_body]
pub(crate) fn compression_feature_bits() -> (bits: (u64, u64, u64))
    ensures
        bits == (1u64 << 27u64, 1u64 << 25u64, 1u64 << 26u64),
{
    (
        wgpu::Features::TEXTURE_COMPRESSION_ASTC.bits(),
        wgpu::Features::TEXTURE_COMPRESSION_BC.bits(),
        wgpu::Features::TEXTURE_COMPRESSION_ETC2.bits(),
    )
}

/// `wgpu::TextureUsages::from_bits_truncate`: the usages whose bits are
/// set in `bits`, the bits past the five usages wgpu defines (bits 0 to 4)
/// dropped.
#[verifier::external_body]
pub(crate) fn texture_usages_from_bits(bits: u32) -> (usages: wgpu::TextureUsages)
    ensures
        texture_usage_bits(usages) == bits & 0x1fu32,
{
    wgpu::TextureUsages::from_bits_truncate(bits)
}

/// The `Debug` text of a texture format.
#[verifier::external_body]
pub(crate) fn texture_format_name(format: &wgpu::TextureFormat) -> (name: String)
    ensures
        name@ == texture_format_debug(*format),
{
    format!("{:?}", format)
}

/// The text of the decimal digit `d`.
fn digit_text(d: u32) -> (text: &'static str)
    requires
        d < 10,
    ensures
        text@ == seq![(d + 48) as char],
{
    proof {
        reveal_strlit("0");
        reveal_strlit("1");
        reveal_strlit("2");
        reveal_strlit("3");
        reveal_strlit("4");
        reveal_strlit("5");
        reveal_strlit("6");
        reveal_strlit("7");
        reveal_strlit("8");
        reveal_strlit("9");
    }
    match d {
        0 => "0",
        1 => "1",
        2 => "2",
        3 => "3",
        4 => "4",
        5 => "5",
        6 => "6",
        7 => "7",
        8 => "8",
        _ => "9",
    }
}

/// Appends the decimal digits of `n` to `text`.
fn append_decimal(text: &mut String, n: u32)
    ensures
        final(text)@ == old(text)@ + decimal_text(n as nat),
    decreases n,
{
    if n >= 10 {
        append_decimal(text, n / 10);
    }
    text.append(digit_text(n % 10));
}

/// The text `"x: {x}, y: {y}, z: {z}"`, each coordinate in decimal.
pub fn coordinates_message(x: u32, y: u32, z: u32) -> (text: String)
    ensures
        text@ == coordinates_text(x, y, z),
{
    let mut text = String::from_str("x: ");
    append_decimal(&mut text, x);
    text.append(", y: ");
    append_decimal(&mut text, y);
    text.append(", z: ");
    append_decimal(&mut text, z);
    text
}

} // verus!
