//! How an image is sampled: the library's sampler settings and their
//! exchange with `wgpu`'s sampler enums.

use vstd::prelude::*;

verus! {

/// How edges should be handled in texture addressing; mirrors `wgpu::AddressMode`.
#[derive(Clone, Copy, Debug, PartialEq, Eq, Structural)]
pub enum ImageAddressMode {
    /// Clamp the value to the edge of the texture.
    ClampToEdge,
    /// Repeat the texture in a tiling fashion.
    Repeat,
    /// Repeat the texture, mirroring it every repeat.
    MirrorRepeat,
    /// Clamp the value to the border of the texture.
    ClampToBorder,
}

impl Default for ImageAddressMode {
    fn default() -> (mode: Self)
        ensures
            mode == ImageAddressMode::ClampToEdge,
    {
        ImageAddressMode::ClampToEdge
    }
}

/// Texel mixing mode when sampling between texels; mirrors `wgpu::FilterMode`.
#[derive(Clone, Copy, Debug, PartialEq, Eq, Structural)]
pub enum ImageFilterMode {
    /// Nearest neighbor sampling.
    Nearest,
    /// Linear interpolation.
    Linear,
}

impl Default for ImageFilterMode {
    fn default() -> (mode: Self)
        ensures
            mode == ImageFilterMode::Nearest,
    {
        ImageFilterMode::Nearest
    }
}

/// Comparison function used for depth and stencil operations; mirrors
/// `wgpu::CompareFunction`.
#[derive(Clone, Copy, Debug, PartialEq, Eq, Structural)]
pub enum ImageCompareFunction {
    Never,
    Less,
    Equal,
    LessEqual,
    Greater,
    NotEqual,
    GreaterEqual,
    Always,
}

/// Color to use when the address mode is `ClampToBorder`; mirrors
/// `wgpu::SamplerBorderColor`.
#[derive(Clone, Copy, Debug, PartialEq, Eq, Structural)]
pub enum ImageSamplerBorderColor {
    TransparentBlack,
    OpaqueBlack,
    OpaqueWhite,
    Zero,
}

/// The `wgpu` address mode of the same name.
pub open spec fn address_mode_to_wgpu(m: ImageAddressMode) -> wgpu::AddressMode {
    match m {
        ImageAddressMode::ClampToEdge => wgpu::AddressMode::ClampToEdge,
        ImageAddressMode::Repeat => wgpu::AddressMode::Repeat,
        ImageAddressMode::MirrorRepeat => wgpu::AddressMode::MirrorRepeat,
        ImageAddressMode::ClampToBorder => wgpu::AddressMode::ClampToBorder,
    }
}

/// The library's address mode of the same name.
pub open spec fn address_mode_from_wgpu(m: wgpu::AddressMode) -> ImageAddressMode {
    match m {
        wgpu::AddressMode::ClampToEdge => ImageAddressMode::ClampToEdge,
        wgpu::AddressMode::Repeat => ImageAddressMode::Repeat,
        wgpu::AddressMode::MirrorRepeat => ImageAddressMode::MirrorRepeat,
        wgpu::AddressMode::ClampToBorder => ImageAddressMode::ClampToBorder,
    }
}

/// The `wgpu` filter mode of the same name.
pub open spec fn filter_mode_to_wgpu(m: ImageFilterMode) -> wgpu::FilterMode {
    match m {
        ImageFilterMode::Nearest => wgpu::FilterMode::Nearest,
        ImageFilterMode::Linear => wgpu::FilterMode::Linear,
    }
}

/// The library's filter mode of the same name.
pub open spec fn filter_mode_from_wgpu(m: wgpu::FilterMode) -> ImageFilterMode {
    match m {
        wgpu::FilterMode::Nearest => ImageFilterMode::Nearest,
        wgpu::FilterMode::Linear => ImageFilterMode::Linear,
    }
}

/// The `wgpu` compare function of the same name.
pub open spec fn compare_function_to_wgpu(f: ImageCompareFunction) -> wgpu::CompareFunction {
    match f {
        ImageCompareFunction::Never => wgpu::CompareFunction::Never,
        ImageCompareFunction::Less => wgpu::CompareFunction::Less,
        ImageCompareFunction::Equal => wgpu::CompareFunction::Equal,
        ImageCompareFunction::LessEqual => wgpu::CompareFunction::LessEqual,
        ImageCompareFunction::Greater => wgpu::CompareFunction::Greater,
        ImageCompareFunction::NotEqual => wgpu::CompareFunction::NotEqual,
        ImageCompareFunction::GreaterEqual => wgpu::CompareFunction::GreaterEqual,
        ImageCompareFunction::Always => wgpu::CompareFunction::Always,
    }
}

/// The library's compare function of the same name.
pub open spec fn compare_function_from_wgpu(f: wgpu::CompareFunction) -> ImageCompareFunction {
    match f {
        wgpu::CompareFunction::Never => ImageCompareFunction::Never,
        wgpu::CompareFunction::Less => ImageCompareFunction::Less,
        wgpu::CompareFunction::Equal => ImageCompareFunction::Equal,
        wgpu::CompareFunction::LessEqual => ImageCompareFunction::LessEqual,
        wgpu::CompareFunction::Greater => ImageCompareFunction::Greater,
        wgpu::CompareFunction::NotEqual => ImageCompareFunction::NotEqual,
        wgpu::CompareFunction::GreaterEqual => ImageCompareFunction::GreaterEqual,
        wgpu::CompareFunction::Always => ImageCompareFunction::Always,
    }
}

/// The `wgpu` border color of the same name.
pub open spec fn border_color_to_wgpu(c: ImageSamplerBorderColor) -> wgpu::SamplerBorderColor {
    match c {
        ImageSamplerBorderColor::TransparentBlack => wgpu::SamplerBorderColor::TransparentBlack,
        ImageSamplerBorderColor::OpaqueBlack => wgpu::SamplerBorderColor::OpaqueBlack,
        ImageSamplerBorderColor::OpaqueWhite => wgpu::SamplerBorderColor::OpaqueWhite,
        ImageSamplerBorderColor::Zero => wgpu::SamplerBorderColor::Zero,
    }
}

/// The library's border color of the same name.
pub open spec fn border_color_from_wgpu(c: wgpu::SamplerBorderColor) -> ImageSamplerBorderColor {
    match c {
        wgpu::SamplerBorderColor::TransparentBlack => ImageSamplerBorderColor::TransparentBlack,
        wgpu::SamplerBorderColor::OpaqueBlack => ImageSamplerBorderColor::OpaqueBlack,
        wgpu::SamplerBorderColor::OpaqueWhite => ImageSamplerBorderColor::OpaqueWhite,
        wgpu::SamplerBorderColor::Zero => ImageSamplerBorderColor::Zero,
    }
}

impl From<ImageAddressMode> for wgpu::AddressMode {
    fn from(value: ImageAddressMode) -> (mode: Self) {
        match value {
            ImageAddressMode::ClampToEdge => wgpu::AddressMode::ClampToEdge,
            ImageAddressMode::Repeat => wgpu::AddressMode::Repeat,
            ImageAddressMode::MirrorRepeat => wgpu::AddressMode::MirrorRepeat,
            ImageAddressMode::ClampToBorder => wgpu::AddressMode::ClampToBorder,
        }
    }
}

impl vstd::std_specs::convert::FromSpecImpl<ImageAddressMode> for wgpu::AddressMode {
    open spec fn obeys_from_spec() -> bool {
        true
    }

    open spec fn from_spec(value: ImageAddressMode) -> Self {
        address_mode_to_wgpu(value)
    }
}

impl From<ImageFilterMode> for wgpu::FilterMode {
    fn from(value: ImageFilterMode) -> (mode: Self) {
        match value {
            ImageFilterMode::Nearest => wgpu::FilterMode::Nearest,
            ImageFilterMode::Linear => wgpu::FilterMode::Linear,
        }
    }
}

impl vstd::std_specs::convert::FromSpecImpl<ImageFilterMode> for wgpu::FilterMode {
    open spec fn obeys_from_spec() -> bool {
        true
    }

    open spec fn from_spec(value: ImageFilterMode) -> Self {
        filter_mode_to_wgpu(value)
    }
}

impl From<ImageCompareFunction> for wgpu::CompareFunction {
    fn from(value: ImageCompareFunction) -> (function: Self) {
        match value {
            ImageCompareFunction::Never => wgpu::CompareFunction::Never,
            ImageCompareFunction::Less => wgpu::CompareFunction::Less,
            ImageCompareFunction::Equal => wgpu::CompareFunction::Equal,
            ImageCompareFunction::LessEqual => wgpu::CompareFunction::LessEqual,
            ImageCompareFunction::Greater => wgpu::CompareFunction::Greater,
            ImageCompareFunction::NotEqual => wgpu::CompareFunction::NotEqual,
            ImageCompareFunction::GreaterEqual => wgpu::CompareFunction::GreaterEqual,
            ImageCompareFunction::Always => wgpu::CompareFunction::Always,
        }
    }
}

impl vstd::std_specs::convert::FromSpecImpl<ImageCompareFunction> for wgpu::CompareFunction {
    open spec fn obeys_from_spec() -> bool {
        true
    }

    open spec fn from_spec(value: ImageCompareFunction) -> Self {
        compare_function_to_wgpu(value)
    }
}

impl From<ImageSamplerBorderColor> for wgpu::SamplerBorderColor {
    fn from(value: ImageSamplerBorderColor) -> (color: Self) {
        match value {
            ImageSamplerBorderColor::TransparentBlack => wgpu::SamplerBorderColor::TransparentBlack,
            ImageSamplerBorderColor::OpaqueBlack => wgpu::SamplerBorderColor::OpaqueBlack,
            ImageSamplerBorderColor::OpaqueWhite => wgpu::SamplerBorderColor::OpaqueWhite,
            ImageSamplerBorderColor::Zero => wgpu::SamplerBorderColor::Zero,
        }
    }
}

impl vstd::std_specs::convert::FromSpecImpl<ImageSamplerBorderColor> for wgpu::SamplerBorderColor {
    open spec fn obeys_from_spec() -> bool {
        true
    }

    open spec fn from_spec(value: ImageSamplerBorderColor) -> Self {
        border_color_to_wgpu(value)
    }
}

impl From<wgpu::AddressMode> for ImageAddressMode {
    fn from(value: wgpu::AddressMode) -> (mode: Self) {
        match value {
            wgpu::AddressMode::ClampToEdge => ImageAddressMode::ClampToEdge,
            wgpu::AddressMode::Repeat => ImageAddressMode::Repeat,
            wgpu::AddressMode::MirrorRepeat => ImageAddressMode::MirrorRepeat,
            wgpu::AddressMode::ClampToBorder => ImageAddressMode::ClampToBorder,
        }
    }
}

impl vstd::std_specs::convert::FromSpecImpl<wgpu::AddressMode> for ImageAddressMode {
    open spec fn obeys_from_spec() -> bool {
        true
    }

    open spec fn from_spec(value: wgpu::AddressMode) -> Self {
        address_mode_from_wgpu(value)
    }
}

impl From<wgpu::FilterMode> for ImageFilterMode {
    fn from(value: wgpu::FilterMode) -> (mode: Self) {
        match value {
            wgpu::FilterMode::Nearest => ImageFilterMode::Nearest,
            wgpu::FilterMode::Linear => ImageFilterMode::Linear,
        }
    }
}

impl vstd::std_specs::convert::FromSpecImpl<wgpu::FilterMode> for ImageFilterMode {
    open spec fn obeys_from_spec() -> bool {
        true
    }

    open spec fn from_spec(value: wgpu::FilterMode) -> Self {
        filter_mode_from_wgpu(value)
    }
}

impl From<wgpu::CompareFunction> for ImageCompareFunction {
    fn from(value: wgpu::CompareFunction) -> (function: Self) {
        match value {
            wgpu::CompareFunction::Never => ImageCompareFunction::Never,
            wgpu::CompareFunction::Less => ImageCompareFunction::Less,
            wgpu::CompareFunction::Equal => ImageCompareFunction::Equal,
            wgpu::CompareFunction::LessEqual => ImageCompareFunction::LessEqual,
            wgpu::CompareFunction::Greater => ImageCompareFunction::Greater,
            wgpu::CompareFunction::NotEqual => ImageCompareFunction::NotEqual,
            wgpu::CompareFunction::GreaterEqual => ImageCompareFunction::GreaterEqual,
            wgpu::CompareFunction::Always => ImageCompareFunction::Always,
        }
    }
}

impl vstd::std_specs::convert::FromSpecImpl<wgpu::CompareFunction> for ImageCompareFunction {
    open spec fn obeys_from_spec() -> bool {
        true
    }

    open spec fn from_spec(value: wgpu::CompareFunction) -> Self {
        compare_function_from_wgpu(value)
    }
}

impl From<wgpu::SamplerBorderColor> for ImageSamplerBorderColor {
    fn from(value: wgpu::SamplerBorderColor) -> (color: Self) {
        match value {
            wgpu::SamplerBorderColor::TransparentBlack => ImageSamplerBorderColor::TransparentBlack,
            wgpu::SamplerBorderColor::OpaqueBlack => ImageSamplerBorderColor::OpaqueBlack,
            wgpu::SamplerBorderColor::OpaqueWhite => ImageSamplerBorderColor::OpaqueWhite,
            wgpu::SamplerBorderColor::Zero => ImageSamplerBorderColor::Zero,
        }
    }
}

impl vstd::std_specs::convert::FromSpecImpl<wgpu::SamplerBorderColor> for ImageSamplerBorderColor {
    open spec fn obeys_from_spec() -> bool {
        true
    }

    open spec fn from_spec(value: wgpu::SamplerBorderColor) -> Self {
        border_color_from_wgpu(value)
    }
}

/// Converting an address mode to `wgpu`'s and back gives it unchanged, and
/// so does converting a `wgpu` address mode to the library's and back.
pub proof fn lemma_address_mode_round_trip(m: ImageAddressMode, w: wgpu::AddressMode)
    ensures
        address_mode_from_wgpu(address_mode_to_wgpu(m)) == m,
        address_mode_to_wgpu(address_mode_from_wgpu(w)) == w,
{
}

/// Converting a filter mode to `wgpu`'s and back gives it unchanged, and
/// so does converting a `wgpu` filter mode to the library's and back.
pub proof fn lemma_filter_mode_round_trip(m: ImageFilterMode, w: wgpu::FilterMode)
    ensures
        filter_mode_from_wgpu(filter_mode_to_wgpu(m)) == m,
        filter_mode_to_wgpu(filter_mode_from_wgpu(w)) == w,
{
}

/// Converting a compare function to `wgpu`'s and back gives it unchanged,
/// and so does converting a `wgpu` compare function to the library's and back.
pub proof fn lemma_compare_function_round_trip(f: ImageCompareFunction, w: wgpu::CompareFunction)
    ensures
        compare_function_from_wgpu(compare_function_to_wgpu(f)) == f,
        compare_function_to_wgpu(compare_function_from_wgpu(w)) == w,
{
}

/// Converting a border color to `wgpu`'s and back gives it unchanged, and
/// so does converting a `wgpu` border color to the library's and back.
pub proof fn lemma_border_color_round_trip(c: ImageSamplerBorderColor, w: wgpu::SamplerBorderColor)
    ensures
        border_color_from_wgpu(border_color_to_wgpu(c)) == c,
        border_color_to_wgpu(border_color_from_wgpu(w)) == w,
{
}

/// How an image should be sampled.
///
/// The two level-of-detail clamps are `f32` values; the library carries
/// them by their IEEE-754 bits (`f32::to_bits`), and never computes with them.
#[derive(Clone, Debug)]
pub struct ImageSamplerDescriptor {
    pub label: Option<String>,
    /// How to deal with out of bounds accesses in the u (i.e. x) direction.
    pub address_mode_u: ImageAddressMode,
    /// How to deal with out of bounds accesses in the v (i.e. y) direction.
    pub address_mode_v: ImageAddressMode,
    /// How to deal with out of bounds accesses in the w (i.e. z) direction.
    pub address_mode_w: ImageAddressMode,
    /// How to filter the texture when it needs to be magnified (made larger).
    pub mag_filter: ImageFilterMode,
    /// How to filter the texture when it needs to be minified (made smaller).
    pub min_filter: ImageFilterMode,
    /// How to filter between mip map levels.
    pub mipmap_filter: ImageFilterMode,
    /// The bits of the minimum level of detail (i.e. mip level) to use.
    pub lod_min_clamp_bits: u32,
    /// The bits of the maximum level of detail (i.e. mip level) to use.
    pub lod_max_clamp_bits: u32,
    /// If this is enabled, this is a comparison sampler using the given comparison function.
    pub compare: Option<ImageCompareFunction>,
    /// Must be at least 1. If this is not 1, all filter modes must be linear.
    pub anisotropy_clamp: u16,
    /// Border color to use when an address mode is `ClampToBorder`.
    pub border_color: Option<ImageSamplerBorderColor>,
}

/// The bits of `0.0f32`.
pub const LOD_MIN_CLAMP_DEFAULT_BITS: u32 = 0x0000_0000;

/// The bits of `32.0f32`.
pub const LOD_MAX_CLAMP_DEFAULT_BITS: u32 = 0x4200_0000;

/// The descriptor whose three filters are `filter` and whose other settings
/// are the defaults: clamp to edge, levels of detail 0 to 32, no comparison,
/// anisotropy clamp 1, no border color, no label.
pub open spec fn descriptor_with_filters(filter: ImageFilterMode) -> ImageSamplerDescriptor {
    ImageSamplerDescriptor {
        label: None,
        address_mode_u: ImageAddressMode::ClampToEdge,
        address_mode_v: ImageAddressMode::ClampToEdge,
        address_mode_w: ImageAddressMode::ClampToEdge,
        mag_filter: filter,
        min_filter: filter,
        mipmap_filter: filter,
        lod_min_clamp_bits: LOD_MIN_CLAMP_DEFAULT_BITS,
        lod_max_clamp_bits: LOD_MAX_CLAMP_DEFAULT_BITS,
        compare: None,
        anisotropy_clamp: 1,
        border_color: None,
    }
}

impl Default for ImageSamplerDescriptor {
    fn default() -> (descriptor: Self)
        ensures
            descriptor == descriptor_with_filters(ImageFilterMode::Nearest),
    {
        ImageSamplerDescriptor {
            address_mode_u: ImageAddressMode::default(),
            address_mode_v: ImageAddressMode::default(),
            address_mode_w: ImageAddressMode::default(),
            mag_filter: ImageFilterMode::default(),
            min_filter: ImageFilterMode::default(),
            mipmap_filter: ImageFilterMode::default(),
            lod_min_clamp_bits: LOD_MIN_CLAMP_DEFAULT_BITS,
            lod_max_clamp_bits: LOD_MAX_CLAMP_DEFAULT_BITS,
            compare: None,
            anisotropy_clamp: 1,
            border_color: None,
            label: None,
        }
    }
}

impl ImageSamplerDescriptor {
    /// A descriptor with linear min, mag and mipmap filters and default settings otherwise.
    pub fn linear() -> (descriptor: ImageSamplerDescriptor)
        ensures
            descriptor == descriptor_with_filters(ImageFilterMode::Linear),
    {
        let d = ImageSamplerDescriptor::default();
        ImageSamplerDescriptor {
            mag_filter: ImageFilterMode::Linear,
            min_filter: ImageFilterMode::Linear,
            mipmap_filter: ImageFilterMode::Linear,
            ..d
        }
    }

    /// A descriptor with nearest min, mag and mipmap filters and default settings otherwise.
    pub fn nearest() -> (descriptor: ImageSamplerDescriptor)
        ensures
            descriptor == descriptor_with_filters(ImageFilterMode::Nearest),
    {
        let d = ImageSamplerDescriptor::default();
        ImageSamplerDescriptor {
            mag_filter: ImageFilterMode::Nearest,
            min_filter: ImageFilterMode::Nearest,
            mipmap_filter: ImageFilterMode::Nearest,
            ..d
        }
    }
}

/// The linear descriptor is the default descriptor with its min, mag and
/// mipmap filters made linear, and nothing else changed.
pub proof fn lemma_linear_is_default_with_linear_filters()
    ensures
        descriptor_with_filters(ImageFilterMode::Linear) == (ImageSamplerDescriptor {
            mag_filter: ImageFilterMode::Linear,
            min_filter: ImageFilterMode::Linear,
            mipmap_filter: ImageFilterMode::Linear,
            ..descriptor_with_filters(ImageFilterMode::Nearest)
        }),
{
}

/// Which sampler an image is drawn with.
#[derive(Debug, Clone)]
pub enum ImageSampler {
    /// The default sampler of the renderer.
    Default,
    /// A sampler of its own for this image, overriding the default.
    Descriptor(ImageSamplerDescriptor),
}

impl Default for ImageSampler {
    fn default() -> (sampler: Self)
        ensures
            sampler is Default,
    {
        ImageSampler::Default
    }
}

impl ImageSampler {
    /// A sampler of its own with linear min and mag filters.
    pub fn linear() -> (sampler: ImageSampler)
        ensures
            sampler == ImageSampler::Descriptor(descriptor_with_filters(ImageFilterMode::Linear)),
    {
        ImageSampler::Descriptor(ImageSamplerDescriptor::linear())
    }

    /// A sampler of its own with nearest min and mag filters.
    pub fn nearest() -> (sampler: ImageSampler)
        ensures
            sampler == ImageSampler::Descriptor(descriptor_with_filters(ImageFilterMode::Nearest)),
    {
        ImageSampler::Descriptor(ImageSamplerDescriptor::nearest())
    }
}

/// The default image sampler of the renderer, set during its initialization;
/// shared between the images that use it.
pub struct DefaultImageSampler(pub std::sync::Arc<wgpu::Sampler>);

impl core::ops::Deref for DefaultImageSampler {
    type Target = std::sync::Arc<wgpu::Sampler>;

    fn deref(&self) -> (sampler: &std::sync::Arc<wgpu::Sampler>)
        ensures
            *sampler == self.0,
    {
        &self.0
    }
}

} // verus!
