use std::io::Cursor;

use texture_image::format::ImageType;
use texture_image::{CompressedImageFormats, Image, ImageFormat, ImageSampler, TextureError};

fn encode_png(image: image::DynamicImage) -> Vec<u8> {
    let mut bytes = Vec::new();
    image.write_to(&mut Cursor::new(&mut bytes), image::ImageOutputFormat::Png).unwrap();
    bytes
}

fn load_png(bytes: &[u8], is_srgb: bool) -> Image {
    Image::from_buffer(bytes, ImageType::Extension("png"), CompressedImageFormats::none(), is_srgb, ImageSampler::Default).unwrap()
}

fn png_bytes(width: u32, height: u32) -> Vec<u8> {
    let mut img = image::RgbaImage::new(width, height);
    for (x, y, p) in img.enumerate_pixels_mut() {
        *p = image::Rgba([x as u8, y as u8, 7, 255]);
    }
    let mut bytes = Vec::new();
    img.write_to(&mut Cursor::new(&mut bytes), image::ImageOutputFormat::Png).unwrap();
    bytes
}

#[test]
fn loads_png_as_rgba8() {
    let bytes = png_bytes(2, 3);
    let image = Image::from_buffer(
        &bytes,
        ImageType::Extension("png"),
        CompressedImageFormats::none(),
        true,
        ImageSampler::linear(),
    )
    .unwrap();
    assert_eq!(image.texture_descriptor.size, wgpu::Extent3d { width: 2, height: 3, depth_or_array_layers: 1 });
    assert_eq!(image.texture_descriptor.format, wgpu::TextureFormat::Rgba8UnormSrgb);
    assert_eq!(image.texture_descriptor.dimension, wgpu::TextureDimension::D2);
    assert_eq!(image.data.len(), 2 * 3 * 4);
    assert_eq!(image.data[4..8], [1, 0, 7, 255]);
    assert!(matches!(image.sampler, ImageSampler::Descriptor(_)));

    let linear = Image::from_buffer(&bytes, ImageType::MimeType("image/png"), CompressedImageFormats::none(), false, ImageSampler::Default).unwrap();
    assert_eq!(linear.texture_descriptor.format, wgpu::TextureFormat::Rgba8Unorm);
}

#[test]
fn loading_errors() {
    let bytes = png_bytes(1, 1);
    match Image::from_buffer(&bytes, ImageType::Extension("nope"), CompressedImageFormats::none(), true, ImageSampler::Default) {
        Err(TextureError::InvalidImageExtension(s)) => assert_eq!(s, "nope"),
        other => panic!("unexpected {:?}", other.map(|_| ())),
    }
    match Image::from_buffer(&bytes, ImageType::Format(ImageFormat::Basis), CompressedImageFormats::none(), true, ImageSampler::Default) {
        Err(TextureError::UnsupportedTextureFormat(s)) => assert_eq!(s, "Basis"),
        other => panic!("unexpected {:?}", other.map(|_| ())),
    }
    match Image::from_buffer(&[1, 2, 3], ImageType::Format(ImageFormat::Png), CompressedImageFormats::none(), true, ImageSampler::Default) {
        Err(TextureError::ImageError(e)) => {
            // The decoder's own error, passed on as it is.
            let direct = image::load_from_memory_with_format(&[1, 2, 3], image::ImageFormat::Png).unwrap_err();
            assert_eq!(e.to_string(), direct.to_string());
        }
        other => panic!("unexpected {:?}", other.map(|_| ())),
    }
}

#[test]
fn compressed_formats_from_features() {
    let formats = CompressedImageFormats::from_features(wgpu::Features::TEXTURE_COMPRESSION_BC | wgpu::Features::DEPTH_CLIP_CONTROL);
    assert_eq!(formats.bits(), 2);
    assert!(formats.contains(CompressedImageFormats::bc()));
    assert!(!formats.contains(CompressedImageFormats::etc2()));
    assert!(formats.supports(wgpu::TextureFormat::Bc7RgbaUnorm));
    assert!(!formats.supports(wgpu::TextureFormat::Etc2Rgb8Unorm));
    assert!(!formats.supports(wgpu::TextureFormat::Astc { block: wgpu::AstcBlock::B8x8, channel: wgpu::AstcChannel::Hdr }));
    assert!(formats.supports(wgpu::TextureFormat::Rgba8Unorm));

    let all = CompressedImageFormats::from_features(
        wgpu::Features::TEXTURE_COMPRESSION_ASTC | wgpu::Features::TEXTURE_COMPRESSION_BC | wgpu::Features::TEXTURE_COMPRESSION_ETC2,
    );
    assert_eq!(all.bits(), 7);
    assert!(all.supports(wgpu::TextureFormat::EacRg11Snorm));
    assert!(all.supports(wgpu::TextureFormat::Astc { block: wgpu::AstcBlock::B4x4, channel: wgpu::AstcChannel::Unorm }));

    let none = CompressedImageFormats::from_features(wgpu::Features::empty());
    assert_eq!(none, CompressedImageFormats::none());
    assert_eq!(none, CompressedImageFormats::default());
    assert!(!none.supports(wgpu::TextureFormat::Bc1RgbaUnorm));
    assert!(none.supports(wgpu::TextureFormat::Depth32Float));

    let mut set = CompressedImageFormats::none();
    set.insert(CompressedImageFormats::astc_ldr());
    set.insert(CompressedImageFormats::etc2());
    assert_eq!(set.bits(), 5);
    assert_eq!(CompressedImageFormats::from_bits_truncate(0xff).bits(), 7);
}

#[test]
fn grey_pngs_keep_one_or_two_channels() {
    let grey = image::GrayImage::from_raw(2, 1, vec![10, 200]).unwrap();
    let image = load_png(&encode_png(image::DynamicImage::ImageLuma8(grey)), true);
    assert_eq!(image.texture_descriptor.format, wgpu::TextureFormat::R8Unorm);
    assert_eq!(image.texture_descriptor.size, wgpu::Extent3d { width: 2, height: 1, depth_or_array_layers: 1 });
    assert_eq!(image.data, vec![10, 200]);

    let grey_alpha = image::GrayAlphaImage::from_raw(1, 1, vec![7, 99]).unwrap();
    let image = load_png(&encode_png(image::DynamicImage::ImageLumaA8(grey_alpha)), true);
    assert_eq!(image.texture_descriptor.format, wgpu::TextureFormat::Rg8Unorm);
    assert_eq!(image.data, vec![7, 99]);
}

#[test]
fn rgb_pngs_gain_an_opaque_alpha() {
    let rgb = image::RgbImage::from_raw(2, 1, vec![1, 2, 3, 4, 5, 6]).unwrap();
    let bytes = encode_png(image::DynamicImage::ImageRgb8(rgb));
    let image = load_png(&bytes, true);
    assert_eq!(image.texture_descriptor.format, wgpu::TextureFormat::Rgba8UnormSrgb);
    assert_eq!(image.data, vec![1, 2, 3, 255, 4, 5, 6, 255]);
    let linear = load_png(&bytes, false);
    assert_eq!(linear.texture_descriptor.format, wgpu::TextureFormat::Rgba8Unorm);

    let rgb16: image::ImageBuffer<image::Rgb<u16>, Vec<u16>> = image::ImageBuffer::from_raw(1, 1, vec![0x0102, 0x0304, 0x0506]).unwrap();
    let image = load_png(&encode_png(image::DynamicImage::ImageRgb16(rgb16)), true);
    assert_eq!(image.texture_descriptor.format, wgpu::TextureFormat::Rgba16Unorm);
    let mut expected = Vec::new();
    for v in [0x0102u16, 0x0304, 0x0506, 0xffff] {
        expected.extend_from_slice(&v.to_ne_bytes());
    }
    assert_eq!(image.data, expected);
}

#[test]
fn sixteen_bit_grey_pngs_become_integer_textures() {
    let grey16: image::ImageBuffer<image::Luma<u16>, Vec<u16>> = image::ImageBuffer::from_raw(2, 1, vec![0x1234, 0xabcd]).unwrap();
    let image = load_png(&encode_png(image::DynamicImage::ImageLuma16(grey16)), true);
    assert_eq!(image.texture_descriptor.format, wgpu::TextureFormat::R16Uint);
    let mut expected = 0x1234u16.to_ne_bytes().to_vec();
    expected.extend_from_slice(&0xabcdu16.to_ne_bytes());
    assert_eq!(image.data, expected);

    let grey_alpha16: image::ImageBuffer<image::LumaA<u16>, Vec<u16>> = image::ImageBuffer::from_raw(1, 1, vec![1, 2]).unwrap();
    let image = load_png(&encode_png(image::DynamicImage::ImageLumaA16(grey_alpha16)), true);
    assert_eq!(image.texture_descriptor.format, wgpu::TextureFormat::Rg16Uint);
    assert_eq!(image.data.len(), 4);
}

#[test]
fn decoded_float_images_become_float_rgba() {
    let mut bytes = Vec::new();
    for v in [0.25f32, 0.5, 0.75] {
        bytes.extend_from_slice(&v.to_ne_bytes());
    }
    let image = Image::from_decoded(image::ColorType::Rgb32F, 1, 1, bytes.clone(), true);
    assert_eq!(image.texture_descriptor.format, wgpu::TextureFormat::Rgba32Float);
    let mut expected = bytes.clone();
    expected.extend_from_slice(&1.0f32.to_ne_bytes());
    assert_eq!(image.data, expected);
    assert!(matches!(image.sampler, ImageSampler::Default));

    expected.truncate(12);
    expected.extend_from_slice(&0.5f32.to_ne_bytes());
    let rgba = Image::from_decoded(image::ColorType::Rgba32F, 1, 1, expected.clone(), false);
    assert_eq!(rgba.texture_descriptor.format, wgpu::TextureFormat::Rgba32Float);
    assert_eq!(rgba.data, expected);

    let rgba8 = Image::from_decoded(image::ColorType::Rgba8, 1, 1, vec![1, 2, 3, 4], false);
    assert_eq!(rgba8.texture_descriptor.format, wgpu::TextureFormat::Rgba8Unorm);
    assert_eq!(rgba8.data, vec![1, 2, 3, 4]);
}
