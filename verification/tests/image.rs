use bevy_math::{UVec3, Vec2};
use texture_image::{
    checked_pixel_size, ChannelType, ChannelValues, Channels, Image, TextureAccessError,
    TextureFormatPixelInfo, Volume,
};
use wgpu::{Extent3d, TextureDimension, TextureFormat};

fn extent(width: u32, height: u32, depth: u32) -> Extent3d {
    Extent3d { width, height, depth_or_array_layers: depth }
}

#[test]
fn image_size() {
    let size = Extent3d {
        width: 200,
        height: 100,
        depth_or_array_layers: 1,
    };
    let image = Image::new_fill(
        size,
        TextureDimension::D2,
        &[0, 0, 0, 255],
        TextureFormat::Rgba8Unorm,
    );
    assert_eq!(
        Vec2::new(size.width as f32, size.height as f32),
        Vec2::new(image.width() as f32, image.height() as f32)
    );
}

#[test]
fn image_default_size() {
    let image = Image::default();
    assert_eq!(Vec2::ONE, Vec2::new(image.width() as f32, image.height() as f32));
}

#[test]
fn default_image_is_one_white_srgb_pixel() {
    let image = Image::default();
    assert_eq!(image.data, vec![255u8; 4]);
    assert_eq!(image.texture_descriptor.size, extent(1, 1, 1));
    assert_eq!(image.texture_descriptor.format, TextureFormat::Rgba8UnormSrgb);
    assert_eq!(image.texture_descriptor.dimension, TextureDimension::D2);
    assert_eq!(image.texture_descriptor.mip_level_count, 1);
    assert_eq!(image.texture_descriptor.sample_count, 1);
    assert!(image.texture_descriptor.label.is_none());
    assert!(image.texture_descriptor.view_formats.is_empty());
    assert_eq!(
        image.texture_descriptor.usage,
        wgpu::TextureUsages::TEXTURE_BINDING | wgpu::TextureUsages::COPY_DST
    );
    assert!(matches!(image.sampler, texture_image::ImageSampler::Default));
    assert!(image.texture_view_descriptor.is_none());
    let size = image.size();
    assert_eq!((size.x, size.y), (1, 1));
}

#[test]
fn new_keeps_data_and_metadata() {
    let image = Image::new(extent(2, 1, 1), TextureDimension::D1, vec![1, 2, 3, 4, 5, 6, 7, 8], TextureFormat::Rgba8Uint);
    assert_eq!(image.data, vec![1, 2, 3, 4, 5, 6, 7, 8]);
    assert_eq!(image.texture_descriptor.size, extent(2, 1, 1));
    assert_eq!(image.texture_descriptor.dimension, TextureDimension::D1);
    assert_eq!(image.texture_descriptor.format, TextureFormat::Rgba8Uint);
}

#[test]
fn new_fill_repeats_pixel() {
    let image = Image::new_fill(extent(3, 1, 1), TextureDimension::D2, &[1, 2, 3, 4], TextureFormat::Rgba8Unorm);
    assert_eq!(image.data, vec![1, 2, 3, 4, 1, 2, 3, 4, 1, 2, 3, 4]);
}

#[test]
fn new_fill_leaves_partial_tail() {
    // Two-pixel pattern on a three-pixel single-byte image: the last byte
    // keeps the default image's 255.
    let image = Image::new_fill(extent(3, 1, 1), TextureDimension::D2, &[7, 8], TextureFormat::R8Unorm);
    assert_eq!(image.data, vec![7, 8, 255]);
    // Two-pixel pattern on a three-pixel four-byte image: the tail past the
    // default image's four bytes is zero.
    let image = Image::new_fill(extent(3, 1, 1), TextureDimension::D2, &[1, 2, 3, 4, 5, 6, 7, 8], TextureFormat::Rgba8Unorm);
    assert_eq!(image.data, vec![1, 2, 3, 4, 5, 6, 7, 8, 0, 0, 0, 0]);
}

#[test]
fn resize_grows_with_zeros_and_shrinks_by_cutting() {
    let mut image = Image::default();
    image.resize(extent(2, 1, 1));
    assert_eq!(image.data, vec![255, 255, 255, 255, 0, 0, 0, 0]);
    assert_eq!(image.texture_descriptor.size, extent(2, 1, 1));
    image.data[5] = 9;
    image.resize(extent(1, 1, 1));
    assert_eq!(image.data, vec![255, 255, 255, 255]);
}

#[test]
fn reinterpret_size_keeps_data() {
    let mut image = Image::new_fill(extent(4, 2, 1), TextureDimension::D2, &[1, 2, 3, 4], TextureFormat::Rgba8Unorm);
    let data = image.data.clone();
    image.reinterpret_size(extent(2, 4, 1));
    assert_eq!(image.texture_descriptor.size, extent(2, 4, 1));
    assert_eq!(image.data, data);
}

#[test]
fn stacked_image_becomes_array() {
    let mut image = Image::new_fill(extent(2, 6, 1), TextureDimension::D2, &[9, 9, 9, 9], TextureFormat::Rgba8Unorm);
    image.reinterpret_stacked_2d_as_array(3);
    assert_eq!(image.texture_descriptor.size, extent(2, 2, 3));
    assert_eq!(image.data.len(), 48);
}

#[test]
fn volume_and_pixel_size() {
    assert_eq!(extent(2, 3, 4).volume(), 24);
    // The product is not limited to `u32`.
    assert_eq!(extent(1 << 16, 1 << 16, 4).volume(), 1usize << 34);
    assert_eq!(extent(u32::MAX, 2, 1).volume(), 2 * u32::MAX as usize);
    assert_eq!(TextureFormat::Rgba8Unorm.pixel_size(), 4);
    assert_eq!(TextureFormat::Rgba32Float.pixel_size(), 16);
    assert_eq!(TextureFormat::R16Uint.pixel_size(), 2);
    assert_eq!(checked_pixel_size(&TextureFormat::Rgba16Float), Some(8));
    assert_eq!(checked_pixel_size(&TextureFormat::Bc1RgbaUnorm), None);
    assert_eq!(checked_pixel_size(&TextureFormat::Depth24Plus), None);
}

#[test]
fn pixel_offsets_by_dimension() {
    let d2 = Image::new_fill(extent(4, 4, 1), TextureDimension::D2, &[0, 0, 0, 0], TextureFormat::Rgba8Unorm);
    assert_eq!(d2.pixel_data_offset(UVec3::new(1, 2, 0)), Some((2 * 4 + 1) * 4));
    assert_eq!(d2.pixel_data_offset(UVec3::new(1, 2, 7)), Some((2 * 4 + 1) * 4));
    assert_eq!(d2.pixel_data_offset(UVec3::new(5, 0, 0)), None);
    assert_eq!(d2.pixel_data_offset(UVec3::new(0, 5, 0)), None);
    // A coordinate equal to the size is out of bounds.
    assert_eq!(d2.pixel_data_offset(UVec3::new(4, 0, 0)), None);
    assert_eq!(d2.pixel_data_offset(UVec3::new(0, 4, 0)), None);
    assert_eq!(d2.pixel_data_offset(UVec3::new(3, 3, 0)), Some(60));

    let d3 = Image::new_fill(extent(2, 2, 2), TextureDimension::D3, &[0], TextureFormat::R8Unorm);
    assert_eq!(d3.pixel_data_offset(UVec3::new(1, 1, 1)), Some(4 + 2 + 1));
    assert_eq!(d3.pixel_data_offset(UVec3::new(0, 0, 3)), None);
    assert_eq!(d3.pixel_data_offset(UVec3::new(0, 0, 2)), None);
    assert_eq!(d3.pixel_data_offset(UVec3::new(0, 2, 0)), None);

    let d1 = Image::new_fill(extent(8, 1, 1), TextureDimension::D1, &[0, 0], TextureFormat::R16Uint);
    assert_eq!(d1.pixel_data_offset(UVec3::new(3, 9, 9)), Some(6));
    assert_eq!(d1.pixel_data_offset(UVec3::new(9, 0, 0)), None);
    assert_eq!(d1.pixel_data_offset(UVec3::new(8, 0, 0)), None);
    assert_eq!(d1.pixel_data_offset(UVec3::new(7, 0, 0)), Some(14));
}

#[test]
fn pixel_bytes_read_and_write() {
    let mut image = Image::new(extent(2, 1, 1), TextureDimension::D2, vec![1, 2, 3, 4, 5, 6, 7, 8], TextureFormat::Rgba8Unorm);
    assert_eq!(image.pixel_bytes(UVec3::new(1, 0, 0)), Some(&[5u8, 6, 7, 8][..]));
    assert_eq!(image.pixel_bytes(UVec3::new(3, 0, 0)), None);
    assert_eq!(image.pixel_bytes(UVec3::new(2, 0, 0)), None);
    if let Some(bytes) = image.pixel_bytes_mut(UVec3::new(0, 0, 0)) {
        bytes[0] = 42;
    }
    assert_eq!(image.data, vec![42, 2, 3, 4, 5, 6, 7, 8]);
    assert!(image.pixel_bytes_mut(UVec3::new(3, 0, 0)).is_none());
    assert!(image.pixel_bytes_mut(UVec3::new(2, 0, 0)).is_none());
}

fn values(r: u32, g: u32, b: u32, a: u32) -> ChannelValues {
    ChannelValues { r, g, b, a }
}

#[test]
fn set_then_get_rgba8_srgb() {
    let mut image = Image::new_fill(extent(2, 2, 1), TextureDimension::D2, &[0, 0, 0, 0], TextureFormat::Rgba8UnormSrgb);
    image.set_color_at(UVec3::new(1, 1, 0), values(10, 20, 30, 40)).unwrap();
    assert_eq!(image.data[12..16], [10, 20, 30, 40]);
    assert_eq!(image.data[0..12], [0u8; 12]);
    let texel = image.get_color_at(UVec3::new(1, 1, 0)).unwrap();
    assert_eq!(texel.values, values(10, 20, 30, 40));
    assert_eq!(texel.layout.channel_type, ChannelType::U8);
    assert_eq!(texel.layout.channels, Channels::Rgba);
    assert!(texel.layout.srgb);
    assert!(!texel.layout.bgra);
}

#[test]
fn bgra_stores_blue_first_and_reads_it_back() {
    let mut image = Image::new_fill(extent(1, 1, 1), TextureDimension::D2, &[0, 0, 0, 0], TextureFormat::Bgra8Unorm);
    image.set_color_at(UVec3::new(0, 0, 0), values(10, 20, 30, 40)).unwrap();
    assert_eq!(image.data, vec![30, 20, 10, 40]);
    let texel = image.get_color_at(UVec3::new(0, 0, 0)).unwrap();
    assert_eq!(texel.values, values(10, 20, 30, 40));
    assert!(texel.layout.bgra);

    // Byte 0 is blue, 1 green, 2 red, 3 alpha.
    let image = Image::new(extent(1, 1, 1), TextureDimension::D2, vec![0, 0, 255, 255], TextureFormat::Bgra8Unorm);
    assert_eq!(image.get_color_at(UVec3::new(0, 0, 0)).unwrap().values, values(255, 0, 0, 255));
    let srgb = Image::new(extent(1, 1, 1), TextureDimension::D2, vec![1, 2, 3, 4], TextureFormat::Bgra8UnormSrgb);
    let texel = srgb.get_color_at(UVec3::new(0, 0, 0)).unwrap();
    assert_eq!(texel.values, values(3, 2, 1, 4));
    assert!(texel.layout.srgb);
}

#[test]
fn sixteen_and_thirty_two_bit_channels_are_little_endian() {
    let mut image = Image::new_fill(extent(1, 1, 1), TextureDimension::D2, &[0, 0], TextureFormat::R16Uint);
    image.set_color_at(UVec3::new(0, 0, 0), values(0x1234, 7, 7, 7)).unwrap();
    assert_eq!(image.data, vec![0x34, 0x12]);
    assert_eq!(image.get_color_at(UVec3::new(0, 0, 0)).unwrap().values, values(0x1234, 0, 0, 0));

    let mut image = Image::new_fill(extent(1, 1, 1), TextureDimension::D2, &[0; 8], TextureFormat::Rg32Float);
    let one = 1.0f32.to_bits();
    let half = 0.5f32.to_bits();
    image.set_color_at(UVec3::new(0, 0, 0), values(one, half, 0, 0)).unwrap();
    assert_eq!(image.data[0..4], 1.0f32.to_le_bytes());
    assert_eq!(image.data[4..8], 0.5f32.to_le_bytes());
    let texel = image.get_color_at(UVec3::new(0, 0, 0)).unwrap();
    assert_eq!(f32::from_bits(texel.values.g), 0.5);
    assert_eq!(texel.layout.channel_type, ChannelType::F32);

    let mut image = Image::new_fill(extent(1, 1, 1), TextureDimension::D2, &[0; 16], TextureFormat::Rgba32Uint);
    image.set_color_at(UVec3::new(0, 0, 0), values(0x0102_0304, u32::MAX, 0, 5)).unwrap();
    assert_eq!(image.data[0..4], [4, 3, 2, 1]);
    assert_eq!(image.get_color_at(UVec3::new(0, 0, 0)).unwrap().values, values(0x0102_0304, u32::MAX, 0, 5));
}

#[test]
fn eight_bit_channels_keep_the_low_byte() {
    let mut image = Image::new_fill(extent(1, 1, 1), TextureDimension::D2, &[0, 0], TextureFormat::Rg8Uint);
    image.set_color_at(UVec3::new(0, 0, 0), values(0x1ff, 3, 9, 9)).unwrap();
    assert_eq!(image.data, vec![0xff, 3]);
}

#[test]
fn color_access_errors() {
    let mut image = Image::new_fill(extent(2, 2, 1), TextureDimension::D2, &[0, 0, 0, 0], TextureFormat::Rgba8Unorm);
    match image.get_color_at(UVec3::new(9, 0, 0)) {
        Err(TextureAccessError::OutOfBounds(text)) => assert_eq!(text, "x: 9, y: 0, z: 0"),
        other => panic!("unexpected {:?}", other),
    }
    match image.set_color_at(UVec3::new(0, 3, 1), values(1, 1, 1, 1)) {
        Err(TextureAccessError::OutOfBounds(text)) => assert_eq!(text, "x: 0, y: 3, z: 1"),
        other => panic!("unexpected {:?}", other),
    }
    // Coordinates equal to the width or the height are out of bounds, and
    // nothing is written.
    match image.set_color_at(UVec3::new(2, 0, 0), values(255, 255, 255, 255)) {
        Err(TextureAccessError::OutOfBounds(text)) => assert_eq!(text, "x: 2, y: 0, z: 0"),
        other => panic!("unexpected {:?}", other),
    }
    assert_eq!(image.data, vec![0u8; 16]);
    match image.get_color_at(UVec3::new(0, 2, 0)) {
        Err(TextureAccessError::OutOfBounds(text)) => assert_eq!(text, "x: 0, y: 2, z: 0"),
        other => panic!("unexpected {:?}", other),
    }
    let mut snorm = Image::new_fill(extent(1, 1, 1), TextureDimension::D2, &[0], TextureFormat::R8Snorm);
    match snorm.get_color_at(UVec3::new(0, 0, 0)) {
        Err(TextureAccessError::UnsupportedTextureFormat(text)) => assert_eq!(text, "R8Snorm"),
        other => panic!("unexpected {:?}", other),
    }
    match snorm.set_color_at(UVec3::new(0, 0, 0), values(1, 1, 1, 1)) {
        Err(TextureAccessError::UnsupportedTextureFormat(text)) => assert_eq!(text, "R8Snorm"),
        other => panic!("unexpected {:?}", other),
    }
    assert_eq!(snorm.data, vec![0]);
}

#[test]
fn compression_is_read_from_required_features() {
    let mut image = Image::default();
    assert!(!image.is_compressed());
    image.texture_descriptor.format = TextureFormat::Bc1RgbaUnorm;
    assert!(image.is_compressed());
    image.texture_descriptor.format = TextureFormat::Etc2Rgb8Unorm;
    assert!(image.is_compressed());
    image.texture_descriptor.format = TextureFormat::Astc { block: wgpu::AstcBlock::B4x4, channel: wgpu::AstcChannel::Unorm };
    assert!(image.is_compressed());
    image.texture_descriptor.format = TextureFormat::R16Unorm;
    assert!(!image.is_compressed());
    // HDR ASTC needs its own feature, which is not one of the three checked.
    image.texture_descriptor.format = TextureFormat::Astc { block: wgpu::AstcBlock::B4x4, channel: wgpu::AstcChannel::Hdr };
    assert!(!image.is_compressed());
}

#[test]
fn pixel_access_and_data_length_checks() {
    let image = Image::new_fill(extent(2, 2, 1), TextureDimension::D2, &[0, 0, 0, 0], TextureFormat::Rgba8Unorm);
    assert!(image.can_access_pixel(UVec3::new(1, 1, 0)));
    // Out of bounds: nothing to read, so nothing that could fail.
    assert!(image.can_access_pixel(UVec3::new(3, 0, 0)));
    assert!(image.can_access_pixel(UVec3::new(2, 2, 0)));
    // In bounds but past the end of data that was cut short.
    let mut short = image.clone();
    short.data.truncate(12);
    assert!(short.can_access_pixel(UVec3::new(0, 1, 0)));
    assert!(!short.can_access_pixel(UVec3::new(1, 1, 0)));
    let mut compressed = image.clone();
    compressed.texture_descriptor.format = TextureFormat::Bc1RgbaUnorm;
    assert!(!compressed.can_access_pixel(UVec3::new(0, 0, 0)));

    assert_eq!(texture_image::checked_data_len(extent(4, 2, 3), &TextureFormat::Rgba16Uint), Some(4 * 2 * 3 * 8));
    assert_eq!(texture_image::checked_data_len(extent(1 << 16, 1 << 16, 2), &TextureFormat::R8Unorm), Some(1usize << 33));
    assert_eq!(texture_image::checked_data_len(extent(u32::MAX, u32::MAX, u32::MAX), &TextureFormat::R8Unorm), None);
    assert_eq!(texture_image::checked_data_len(extent(u32::MAX, u32::MAX, 1), &TextureFormat::Rgba32Float), None);
    assert_eq!(texture_image::checked_data_len(extent(4, 4, 1), &TextureFormat::Bc1RgbaUnorm), None);
    assert_eq!(texture_image::texel_pixel_size(&TextureFormat::Rg16Unorm), 4);
}

#[test]
fn every_in_bounds_pixel_lies_within_the_data() {
    for (dimension, size) in [
        (TextureDimension::D2, extent(3, 2, 1)),
        (TextureDimension::D3, extent(3, 2, 2)),
        (TextureDimension::D1, extent(5, 1, 1)),
    ] {
        let image = Image::new_fill(size, dimension, &[0, 0], TextureFormat::Rg8Unorm);
        for z in 0..4 {
            for y in 0..4 {
                for x in 0..7 {
                    let c = UVec3::new(x, y, z);
                    assert!(image.can_access_pixel(c));
                    if let Some(o) = image.pixel_data_offset(c) {
                        assert!(o + 2 <= image.data.len());
                    }
                }
            }
        }
    }
}

#[test]
fn default_and_new_images_bind_and_copy() {
    let usage = wgpu::TextureUsages::TEXTURE_BINDING | wgpu::TextureUsages::COPY_DST;
    assert_eq!(usage.bits(), 6);
    assert_eq!(Image::default().texture_descriptor.usage, usage);
    let image = Image::new(extent(1, 1, 1), TextureDimension::D2, vec![0, 0], TextureFormat::Rg8Unorm);
    assert_eq!(image.texture_descriptor.usage, usage);
}

#[test]
fn convert_between_luma_and_rgba() {
    let grey = Image::new(extent(2, 1, 1), TextureDimension::D2, vec![50, 50, 50, 128, 9, 9, 9, 255], TextureFormat::Rgba8UnormSrgb);
    let luma = grey.convert(TextureFormat::R8Unorm).unwrap();
    assert_eq!(luma.data, vec![50, 9]);
    assert_eq!(luma.texture_descriptor.format, TextureFormat::R8Unorm);
    assert_eq!(luma.texture_descriptor.size, extent(2, 1, 1));
    assert_eq!(luma.texture_descriptor.dimension, TextureDimension::D2);
    assert!(matches!(luma.sampler, texture_image::ImageSampler::Default));

    let luma_alpha = grey.convert(TextureFormat::Rg8Unorm).unwrap();
    assert_eq!(luma_alpha.data, vec![50, 128, 9, 255]);
    assert_eq!(luma_alpha.texture_descriptor.format, TextureFormat::Rg8Unorm);

    let same = grey.convert(TextureFormat::Rgba8UnormSrgb).unwrap();
    assert_eq!(same.data, grey.data);

    let back = luma.convert(TextureFormat::Rgba8UnormSrgb).unwrap();
    assert_eq!(back.data, vec![50, 50, 50, 255, 9, 9, 9, 255]);
    assert_eq!(back.texture_descriptor.format, TextureFormat::Rgba8UnormSrgb);
}

#[test]
fn convert_refuses_other_formats_and_short_data() {
    let rgba = Image::new(extent(1, 1, 1), TextureDimension::D2, vec![1, 2, 3, 4], TextureFormat::Rgba8UnormSrgb);
    assert!(rgba.convert(TextureFormat::Rgba8Unorm).is_none());
    assert!(rgba.convert(TextureFormat::Bgra8UnormSrgb).is_none());
    let linear = Image::new(extent(1, 1, 1), TextureDimension::D2, vec![1, 2, 3, 4], TextureFormat::Rgba8Unorm);
    assert!(linear.convert(TextureFormat::R8Unorm).is_none());
    let mut short = Image::new(extent(2, 1, 1), TextureDimension::D2, vec![1, 2], TextureFormat::R8Unorm);
    short.data.truncate(1);
    assert!(short.convert(TextureFormat::Rg8Unorm).is_none());
}

#[test]
fn convert_takes_the_first_layer() {
    let layers = Image::new(extent(1, 1, 2), TextureDimension::D2, vec![7, 8], TextureFormat::R8Unorm);
    let rgba = layers.convert(TextureFormat::Rgba8UnormSrgb).unwrap();
    assert_eq!(rgba.data, vec![7, 7, 7, 255]);
    assert_eq!(rgba.texture_descriptor.size, extent(1, 1, 1));
}

#[test]
fn convert_weights_colour_channels_for_luma() {
    let red = Image::new(extent(2, 1, 1), TextureDimension::D2, vec![255, 0, 0, 255, 10, 200, 30, 7], TextureFormat::Rgba8UnormSrgb);
    let luma = red.convert(TextureFormat::R8Unorm).unwrap();
    assert_eq!(luma.data, vec![(2126 * 255 / 10000) as u8, ((2126 * 10 + 7152 * 200 + 722 * 30) / 10000) as u8]);
    let luma_alpha = red.convert(TextureFormat::Rg8Unorm).unwrap();
    assert_eq!(luma_alpha.data, vec![54, 255, 147, 7]);

    let grey_alpha = Image::new(extent(1, 1, 1), TextureDimension::D2, vec![7, 99], TextureFormat::Rg8Unorm);
    assert_eq!(grey_alpha.convert(TextureFormat::Rgba8UnormSrgb).unwrap().data, vec![7, 7, 7, 99]);
    assert_eq!(grey_alpha.convert(TextureFormat::R8Unorm).unwrap().data, vec![7]);
}
