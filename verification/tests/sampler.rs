use texture_image::sampler::{DefaultImageSampler, LOD_MAX_CLAMP_DEFAULT_BITS};
use texture_image::{
    ImageAddressMode, ImageCompareFunction, ImageFilterMode, ImageSampler, ImageSamplerBorderColor,
    ImageSamplerDescriptor,
};

fn assert_defaults_except_filters(d: &ImageSamplerDescriptor, filter: ImageFilterMode) {
    assert!(d.label.is_none());
    assert_eq!(d.address_mode_u, ImageAddressMode::ClampToEdge);
    assert_eq!(d.address_mode_v, ImageAddressMode::ClampToEdge);
    assert_eq!(d.address_mode_w, ImageAddressMode::ClampToEdge);
    assert_eq!(d.mag_filter, filter);
    assert_eq!(d.min_filter, filter);
    assert_eq!(d.mipmap_filter, filter);
    assert_eq!(f32::from_bits(d.lod_min_clamp_bits), 0.0);
    assert_eq!(f32::from_bits(d.lod_max_clamp_bits), 32.0);
    assert_eq!(d.compare, None);
    assert_eq!(d.anisotropy_clamp, 1);
    assert_eq!(d.border_color, None);
}

#[test]
fn default_descriptor() {
    assert_defaults_except_filters(&ImageSamplerDescriptor::default(), ImageFilterMode::Nearest);
    assert_eq!(LOD_MAX_CLAMP_DEFAULT_BITS, 32.0f32.to_bits());
}

#[test]
fn linear_and_nearest_descriptors() {
    assert_defaults_except_filters(&ImageSamplerDescriptor::linear(), ImageFilterMode::Linear);
    assert_defaults_except_filters(&ImageSamplerDescriptor::nearest(), ImageFilterMode::Nearest);
    match ImageSampler::linear() {
        ImageSampler::Descriptor(d) => assert_defaults_except_filters(&d, ImageFilterMode::Linear),
        ImageSampler::Default => panic!("expected a descriptor"),
    }
    match ImageSampler::nearest() {
        ImageSampler::Descriptor(d) => assert_defaults_except_filters(&d, ImageFilterMode::Nearest),
        ImageSampler::Default => panic!("expected a descriptor"),
    }
    assert!(matches!(ImageSampler::default(), ImageSampler::Default));
    assert_eq!(ImageAddressMode::default(), ImageAddressMode::ClampToEdge);
    assert_eq!(ImageFilterMode::default(), ImageFilterMode::Nearest);
}

#[test]
fn address_modes_round_trip() {
    for (mode, wgpu_mode) in [
        (ImageAddressMode::ClampToEdge, wgpu::AddressMode::ClampToEdge),
        (ImageAddressMode::Repeat, wgpu::AddressMode::Repeat),
        (ImageAddressMode::MirrorRepeat, wgpu::AddressMode::MirrorRepeat),
        (ImageAddressMode::ClampToBorder, wgpu::AddressMode::ClampToBorder),
    ] {
        assert_eq!(wgpu::AddressMode::from(mode), wgpu_mode);
        assert_eq!(ImageAddressMode::from(wgpu_mode), mode);
    }
}

#[test]
fn filter_modes_round_trip() {
    for (mode, wgpu_mode) in [
        (ImageFilterMode::Nearest, wgpu::FilterMode::Nearest),
        (ImageFilterMode::Linear, wgpu::FilterMode::Linear),
    ] {
        assert_eq!(wgpu::FilterMode::from(mode), wgpu_mode);
        assert_eq!(ImageFilterMode::from(wgpu_mode), mode);
    }
}

#[test]
fn compare_functions_round_trip() {
    for (f, w) in [
        (ImageCompareFunction::Never, wgpu::CompareFunction::Never),
        (ImageCompareFunction::Less, wgpu::CompareFunction::Less),
        (ImageCompareFunction::Equal, wgpu::CompareFunction::Equal),
        (ImageCompareFunction::LessEqual, wgpu::CompareFunction::LessEqual),
        (ImageCompareFunction::Greater, wgpu::CompareFunction::Greater),
        (ImageCompareFunction::NotEqual, wgpu::CompareFunction::NotEqual),
        (ImageCompareFunction::GreaterEqual, wgpu::CompareFunction::GreaterEqual),
        (ImageCompareFunction::Always, wgpu::CompareFunction::Always),
    ] {
        assert_eq!(wgpu::CompareFunction::from(f), w);
        assert_eq!(ImageCompareFunction::from(w), f);
    }
}

#[test]
fn border_colors_round_trip() {
    for (c, w) in [
        (ImageSamplerBorderColor::TransparentBlack, wgpu::SamplerBorderColor::TransparentBlack),
        (ImageSamplerBorderColor::OpaqueBlack, wgpu::SamplerBorderColor::OpaqueBlack),
        (ImageSamplerBorderColor::OpaqueWhite, wgpu::SamplerBorderColor::OpaqueWhite),
        (ImageSamplerBorderColor::Zero, wgpu::SamplerBorderColor::Zero),
    ] {
        assert_eq!(wgpu::SamplerBorderColor::from(c), w);
        assert_eq!(ImageSamplerBorderColor::from(w), c);
    }
}

#[test]
fn default_image_sampler_is_a_type() {
    fn takes(_: Option<&DefaultImageSampler>) {}
    takes(None);
}
