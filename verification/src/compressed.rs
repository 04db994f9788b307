//! Which families of compressed texture formats a GPU supports.

use vstd::prelude::*;

use crate::gpu::{compression_feature_bits, feature_bits, features_bits, texture_required_feature_bits};

verus! {

/// A set of compressed texture format families: ASTC (low dynamic range),
/// BC and ETC2, one bit each.
#[derive(Clone, Copy, Debug, PartialEq, Eq, Structural)]
pub struct CompressedImageFormats {
    bits: u32,
}

impl View for CompressedImageFormats {
    type V = u32;

    /// The bits of the set.
    closed spec fn view(&self) -> u32 {
        self.bits
    }
}

/// The bit of the ASTC family.
pub const ASTC_LDR_BIT: u32 = 1;

/// The bit of the BC family.
pub const BC_BIT: u32 = 2;

/// The bit of the ETC2 family.
pub const ETC2_BIT: u32 = 4;

/// The family bit that a texture format needs: the BC bit for the BC
/// formats, the ETC2 bit for the ETC2 and EAC formats, the ASTC bit for the
/// ASTC formats, none for every other format.
pub open spec fn compression_family(format: wgpu::TextureFormat) -> Option<u32> {
    match format {
        wgpu::TextureFormat::Bc1RgbaUnorm
        | wgpu::TextureFormat::Bc1RgbaUnormSrgb
        | wgpu::TextureFormat::Bc2RgbaUnorm
        | wgpu::TextureFormat::Bc2RgbaUnormSrgb
        | wgpu::TextureFormat::Bc3RgbaUnorm
        | wgpu::TextureFormat::Bc3RgbaUnormSrgb
        | wgpu::TextureFormat::Bc4RUnorm
        | wgpu::TextureFormat::Bc4RSnorm
        | wgpu::TextureFormat::Bc5RgUnorm
        | wgpu::TextureFormat::Bc5RgSnorm
        | wgpu::TextureFormat::Bc6hRgbUfloat
        | wgpu::TextureFormat::Bc6hRgbFloat
        | wgpu::TextureFormat::Bc7RgbaUnorm
        | wgpu::TextureFormat::Bc7RgbaUnormSrgb => Some(BC_BIT),
        wgpu::TextureFormat::Etc2Rgb8Unorm
        | wgpu::TextureFormat::Etc2Rgb8UnormSrgb
        | wgpu::TextureFormat::Etc2Rgb8A1Unorm
        | wgpu::TextureFormat::Etc2Rgb8A1UnormSrgb
        | wgpu::TextureFormat::Etc2Rgba8Unorm
        | wgpu::TextureFormat::Etc2Rgba8UnormSrgb
        | wgpu::TextureFormat::EacR11Unorm
        | wgpu::TextureFormat::EacR11Snorm
        | wgpu::TextureFormat::EacRg11Unorm
        | wgpu::TextureFormat::EacRg11Snorm => Some(ETC2_BIT),
        wgpu::TextureFormat::Astc { .. } => Some(ASTC_LDR_BIT),
        _ => None,
    }
}

/// Whether the set of bits `bits` holds every bit of `flag`.
pub open spec fn has_bits(bits: u32, flag: u32) -> bool {
    bits & flag == flag
}

/// Whether the feature bits `bits` hold every bit of `flag`.
pub open spec fn has_feature_bits(bits: u64, flag: u64) -> bool {
    bits & flag == flag
}

/// The set of families whose `wgpu` compression feature is among `bits`.
pub open spec fn formats_of_feature_bits(bits: u64) -> u32 {
    (if has_feature_bits(bits, 1u64 << 27u64) { ASTC_LDR_BIT } else { 0u32 })
        | (if has_feature_bits(bits, 1u64 << 25u64) { BC_BIT } else { 0u32 })
        | (if has_feature_bits(bits, 1u64 << 26u64) { ETC2_BIT } else { 0u32 })
}

impl Default for CompressedImageFormats {
    fn default() -> (formats: Self)
        ensures
            formats@ == 0,
    {
        CompressedImageFormats { bits: 0 }
    }
}

impl CompressedImageFormats {
    /// No family.
    pub fn none() -> (formats: Self)
        ensures
            formats@ == 0,
    {
        CompressedImageFormats { bits: 0 }
    }

    /// The ASTC (low dynamic range) family.
    pub fn astc_ldr() -> (formats: Self)
        ensures
            formats@ == ASTC_LDR_BIT,
    {
        CompressedImageFormats { bits: ASTC_LDR_BIT }
    }

    /// The BC family.
    pub fn bc() -> (formats: Self)
        ensures
            formats@ == BC_BIT,
    {
        CompressedImageFormats { bits: BC_BIT }
    }

    /// The ETC2 family.
    pub fn etc2() -> (formats: Self)
        ensures
            formats@ == ETC2_BIT,
    {
        CompressedImageFormats { bits: ETC2_BIT }
    }

    /// The bits of the set.
    pub fn bits(&self) -> (bits: u32)
        ensures
            bits == self@,
    {
        self.bits
    }

    /// The set of the known families among `bits`; other bits are dropped.
    pub fn from_bits_truncate(bits: u32) -> (formats: Self)
        ensures
            formats@ == bits & 7u32,
    {
        CompressedImageFormats { bits: bits & 7 }
    }

    /// Whether every family of `other` is in this set.
    pub fn contains(&self, other: CompressedImageFormats) -> (contained: bool)
        ensures
            contained == has_bits(self@, other@),
    {
        self.bits & other.bits == other.bits
    }

    /// Adds the families of `other` to this set.
    pub fn insert(&mut self, other: CompressedImageFormats)
        ensures
            final(self)@ == old(self)@ | other@,
    {
        self.bits = self.bits | other.bits;
    }

    /// The families whose compression feature is among `features`.
    pub fn from_features(features: wgpu::Features) -> (formats: Self)
        ensures
            formats@ == formats_of_feature_bits(feature_bits(features)),
    {
        let bits = features_bits(&features);
        let (astc, bc, etc2) = compression_feature_bits();
        let ghost a: u32 = if has_feature_bits(bits, astc) { ASTC_LDR_BIT } else { 0u32 };
        let ghost b: u32 = if has_feature_bits(bits, bc) { BC_BIT } else { 0u32 };
        let ghost e: u32 = if has_feature_bits(bits, etc2) { ETC2_BIT } else { 0u32 };
        assert(forall|x: u32| #[trigger] (x | 0u32) == x) by (bit_vector);
        assert(0u32 | 1u32 == 1u32) by (bit_vector);
        let mut supported_compressed_formats = Self::default();
        if bits & astc == astc {
            supported_compressed_formats.insert(Self::astc_ldr());
        }
        assert(supported_compressed_formats@ == a);
        if bits & bc == bc {
            supported_compressed_formats.insert(Self::bc());
        }
        assert(supported_compressed_formats@ == a | b);
        if bits & etc2 == etc2 {
            supported_compressed_formats.insert(Self::etc2());
        }
        assert(supported_compressed_formats@ == (a | b) | e);
        supported_compressed_formats
    }

    /// Whether a texture of `format` can be used with this set: a compressed
    /// format needs its family in the set, every other format can be used.
    pub fn supports(&self, format: wgpu::TextureFormat) -> (supported: bool)
        ensures
            supported == match compression_family(format) {
                Some(flag) => has_bits(self@, flag),
                None => true,
            },
            texture_required_feature_bits(format) == 1u64 << 25u64 ==> supported == has_bits(self@, BC_BIT),
            texture_required_feature_bits(format) == 1u64 << 26u64 ==> supported == has_bits(self@, ETC2_BIT),
            (texture_required_feature_bits(format) == 1u64 << 27u64 || texture_required_feature_bits(format)
                == 1u64 << 30u64) ==> supported == has_bits(self@, ASTC_LDR_BIT),
    {
        proof {
            lemma_family_of_required_feature(format);
        }
        match format {
            wgpu::TextureFormat::Bc1RgbaUnorm
            | wgpu::TextureFormat::Bc1RgbaUnormSrgb
            | wgpu::TextureFormat::Bc2RgbaUnorm
            | wgpu::TextureFormat::Bc2RgbaUnormSrgb
            | wgpu::TextureFormat::Bc3RgbaUnorm
            | wgpu::TextureFormat::Bc3RgbaUnormSrgb
            | wgpu::TextureFormat::Bc4RUnorm
            | wgpu::TextureFormat::Bc4RSnorm
            | wgpu::TextureFormat::Bc5RgUnorm
            | wgpu::TextureFormat::Bc5RgSnorm
            | wgpu::TextureFormat::Bc6hRgbUfloat
            | wgpu::TextureFormat::Bc6hRgbFloat
            | wgpu::TextureFormat::Bc7RgbaUnorm
            | wgpu::TextureFormat::Bc7RgbaUnormSrgb => self.contains(CompressedImageFormats::bc()),
            wgpu::TextureFormat::Etc2Rgb8Unorm
            | wgpu::TextureFormat::Etc2Rgb8UnormSrgb
            | wgpu::TextureFormat::Etc2Rgb8A1Unorm
            | wgpu::TextureFormat::Etc2Rgb8A1UnormSrgb
            | wgpu::TextureFormat::Etc2Rgba8Unorm
            | wgpu::TextureFormat::Etc2Rgba8UnormSrgb
            | wgpu::TextureFormat::EacR11Unorm
            | wgpu::TextureFormat::EacR11Snorm
            | wgpu::TextureFormat::EacRg11Unorm
            | wgpu::TextureFormat::EacRg11Snorm => self.contains(CompressedImageFormats::etc2()),
            wgpu::TextureFormat::Astc { .. } => self.contains(CompressedImageFormats::astc_ldr()),
            _ => true,
        }
    }
}

/// A larger set supports every format a smaller one does.
pub proof fn lemma_supports_monotone(small: CompressedImageFormats, large: CompressedImageFormats, format: wgpu::TextureFormat)
    requires
        has_bits(large@, small@),
    ensures
        (match compression_family(format) {
            Some(flag) => has_bits(small@, flag),
            None => true,
        }) ==> (match compression_family(format) {
            Some(flag) => has_bits(large@, flag),
            None => true,
        }),
{
    let s = small@;
    let l = large@;
    if let Some(flag) = compression_family(format) {
        assert((l & s == s && s & flag == flag) ==> l & flag == flag) by (bit_vector);
    }
}

/// The set made from a GPU's features holds a family exactly when the
/// features hold that family's compression feature; so it supports a
/// compressed format exactly when the GPU has its feature.
pub proof fn lemma_from_features_families(feature_set: u64)
    ensures
        has_bits(formats_of_feature_bits(feature_set), ASTC_LDR_BIT) == has_feature_bits(feature_set, 1u64 << 27u64),
        has_bits(formats_of_feature_bits(feature_set), BC_BIT) == has_feature_bits(feature_set, 1u64 << 25u64),
        has_bits(formats_of_feature_bits(feature_set), ETC2_BIT) == has_feature_bits(feature_set, 1u64 << 26u64),
{
    let a: u32 = if has_feature_bits(feature_set, 1u64 << 27u64) { 1u32 } else { 0u32 };
    let b: u32 = if has_feature_bits(feature_set, 1u64 << 25u64) { 2u32 } else { 0u32 };
    let e: u32 = if has_feature_bits(feature_set, 1u64 << 26u64) { 4u32 } else { 0u32 };
    assert(((a == 1u32 || a == 0u32) && (b == 2u32 || b == 0u32) && (e == 4u32 || e == 0u32)) ==> {
        &&& (((a | b) | e) & 1u32 == 1u32) == (a == 1u32)
        &&& (((a | b) | e) & 2u32 == 2u32) == (b == 2u32)
        &&& (((a | b) | e) & 4u32 == 4u32) == (e == 4u32)
    }) by (bit_vector);
}

/// A format needs the family of the `wgpu` compression feature it requires:
/// the BC family exactly where wgpu requires `TEXTURE_COMPRESSION_BC`
/// (bit 25), the ETC2 family exactly where it requires
/// `TEXTURE_COMPRESSION_ETC2` (bit 26), the ASTC family exactly where it
/// requires one of the two ASTC features (bits 27 and 30); every format
/// that needs none of these needs no family.
pub proof fn lemma_family_of_required_feature(format: wgpu::TextureFormat)
    ensures
        compression_family(format) == Some(BC_BIT) <==> texture_required_feature_bits(format) == 1u64 << 25u64,
        compression_family(format) == Some(ETC2_BIT) <==> texture_required_feature_bits(format) == 1u64 << 26u64,
        compression_family(format) == Some(ASTC_LDR_BIT) <==> (texture_required_feature_bits(format) == 1u64 << 27u64
            || texture_required_feature_bits(format) == 1u64 << 30u64),
        compression_family(format) is None <==> !(texture_required_feature_bits(format) == 1u64 << 25u64
            || texture_required_feature_bits(format) == 1u64 << 26u64
            || texture_required_feature_bits(format) == 1u64 << 27u64
            || texture_required_feature_bits(format) == 1u64 << 30u64),
{
    assert(0u64 != 1u64 << 25u64 && 0u64 != 1u64 << 26u64 && 0u64 != 1u64 << 27u64 && 0u64 != 1u64 << 30u64
        && 1u64 << 24u64 != 1u64 << 25u64 && 1u64 << 24u64 != 1u64 << 26u64 && 1u64 << 24u64 != 1u64 << 27u64
        && 1u64 << 24u64 != 1u64 << 30u64 && 1u64 << 29u64 != 1u64 << 25u64 && 1u64 << 29u64 != 1u64 << 26u64
        && 1u64 << 29u64 != 1u64 << 27u64 && 1u64 << 29u64 != 1u64 << 30u64 && 1u64 << 25u64 != 1u64 << 26u64
        && 1u64 << 25u64 != 1u64 << 27u64 && 1u64 << 25u64 != 1u64 << 30u64 && 1u64 << 26u64 != 1u64 << 27u64
        && 1u64 << 26u64 != 1u64 << 30u64 && 1u64 << 27u64 != 1u64 << 30u64) by (bit_vector);
}

} // verus!
