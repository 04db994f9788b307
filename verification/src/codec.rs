use vstd::prelude::*;
use image::ImageFormat as CodecFormat;
use image::{ColorType, DynamicImage, ImageBuffer};
use wgpu::TextureFormat;

verus! {

/// The `image` crate's list of file formats; Verus reads its variants.
#[verifier::external_type_specification]
pub struct ExImageCrateFormat(CodecFormat);

/// An error of the `image` crate, carried as it is.
#[verifier::external_type_specification]
#[verifier::external_body]
pub struct ExImageCrateError(image::ImageError);

/// The `image` crate's colour types; Verus reads its variants.
#[verifier::external_type_specification]
pub struct ExImageCrateColorType(ColorType);

/// The bytes of one pixel of a colour type, as `ColorType::bytes_per_pixel`
/// gives them.
pub open spec fn color_bytes_per_pixel(color: ColorType) -> nat {
    match color {
        ColorType::L8 => 1,
        ColorType::La8 | ColorType::L16 => 2,
        ColorType::Rgb8 => 3,
        ColorType::Rgba8 | ColorType::La16 => 4,
        ColorType::Rgb16 => 6,
        ColorType::Rgba16 => 8,
        ColorType::Rgb32F => 12,
        _ => 16,
    }
}

/// The bytes of one sample of a colour type: one for 8-bit types, two for
/// 16-bit ones, four for floats.
pub open spec fn sample_width(color: ColorType) -> nat {
    match color {
        ColorType::L8 | ColorType::La8 | ColorType::Rgb8 | ColorType::Rgba8 => 1,
        ColorType::L16 | ColorType::La16 | ColorType::Rgb16 | ColorType::Rgba16 => 2,
        _ => 4,
    }
}

/// `samples` with the bytes of each sample of `width` bytes in reverse order.
pub open spec fn swapped_samples(samples: Seq<u8>, width: nat) -> Seq<u8> {
    Seq::new(samples.len(), |i: int| samples[i - i % (width as int) + (width - 1 - i % (width as int))])
}

/// What the `image` crate decodes from `buffer` read as `format`: the
/// colour type of the decoded image, its width, its height and its samples,
/// each sample's bytes little-endian; or the crate's error where decoding
/// fails.
pub uninterp spec fn decoded_image(buffer: Seq<u8>, format: CodecFormat) -> Result<(ColorType, u32, u32, Seq<u8>), image::ImageError>;

/// Decodes `buffer` as `format` with the `image` crate's reader, with no
/// size limits, and returns the decoded image's colour type, width, height
/// and raw sample bytes (`DynamicImage::into_bytes`), or the crate's error.
/// The samples of 16-bit and float images are in the machine's byte order:
/// the named samples as they are on a little-endian machine, each sample's
/// bytes reversed on a big-endian one. As the crate's
/// source shows, the decoder fills a buffer of exactly width times height
/// times the bytes per pixel, after checking that this is at most
/// `isize::MAX`.
#[verifier::external_body]
pub(crate) fn decode_image(buffer: &[u8], format: CodecFormat) -> (decoded: Result<(ColorType, u32, u32, Vec<u8>), image::ImageError>)
    ensures
        decoded matches Ok((color, w, h, bytes)) ==> {
            &&& decoded_image(buffer@, format) matches Ok(r) && r.0 == color && r.1 == w && r.2 == h
                && (bytes@ == r.3 || bytes@ == swapped_samples(r.3, sample_width(color)))
                && (sample_width(color) == 1 ==> bytes@ == r.3)
            &&& bytes@.len() == w * h * color_bytes_per_pixel(color)
            &&& bytes@.len() <= isize::MAX
        },
        decoded matches Err(e) ==> (decoded_image(buffer@, format) matches Err(f) && f == e),
{
    let mut reader = image::io::Reader::new(std::io::Cursor::new(buffer));
    reader.set_format(format);
    reader.no_limits();
    let image = reader.decode()?;
    Ok((image.color(), image.width(), image.height(), image.into_bytes()))
}

/// The formats an image is converted from and to: 8-bit luma, 8-bit luma
/// with alpha, and 8-bit sRGB RGBA.
pub open spec fn is_convertible_format(format: TextureFormat) -> bool {
    format is R8Unorm || format is Rg8Unorm || format is Rgba8UnormSrgb
}

/// The number of one-byte channels of a pixel of a convertible format.
pub open spec fn convertible_channels(format: TextureFormat) -> nat {
    match format {
        TextureFormat::R8Unorm => 1,
        TextureFormat::Rg8Unorm => 2,
        _ => 4,
    }
}

/// The grey value of a pixel `p` of the format `from`: its luma, or for RGBA
/// the `image` crate's weighting (2126 red, 7152 green, 722 blue, over 10000).
pub open spec fn pixel_luma(from: TextureFormat, p: Seq<u8>) -> u8 {
    match from {
        TextureFormat::R8Unorm | TextureFormat::Rg8Unorm => p[0],
        _ => ((2126 * p[0] + 7152 * p[1] + 722 * p[2]) / 10000) as u8,
    }
}

/// The alpha of a pixel `p` of the format `from`: opaque for luma.
pub open spec fn pixel_alpha(from: TextureFormat, p: Seq<u8>) -> u8 {
    match from {
        TextureFormat::R8Unorm => 255u8,
        TextureFormat::Rg8Unorm => p[1],
        _ => p[3],
    }
}

/// A pixel `p` of the format `from` converted to the format `to`: its grey
/// value, with its alpha, or repeated in red, green and blue with its alpha.
pub open spec fn converted_pixel(from: TextureFormat, to: TextureFormat, p: Seq<u8>) -> Seq<u8> {
    let l = pixel_luma(from, p);
    match to {
        TextureFormat::R8Unorm => seq![l],
        TextureFormat::Rg8Unorm => seq![l, pixel_alpha(from, p)],
        _ => seq![l, l, l, pixel_alpha(from, p)],
    }
}

/// What the `image` crate gives for the raw pixels `data` of a `width` by
/// `height` image in the format `from`, converted to the format `to`: none
/// where `data` is shorter than the image; `data` itself where the formats
/// are the same; otherwise each of the image's pixels converted.
pub open spec fn converted_pixels(data: Seq<u8>, width: u32, height: u32, from: TextureFormat, to: TextureFormat) -> Option<Seq<u8>> {
    let n = width * height;
    let cf = convertible_channels(from) as int;
    let ct = convertible_channels(to) as int;
    if n * cf > data.len() {
        None
    } else if from == to {
        Some(data)
    } else {
        Some(Seq::new((n * ct) as nat, |j: int| converted_pixel(from, to, data.subrange((j / ct) * cf, (j / ct) * cf + cf))[j % ct]))
    }
}

/// Wraps `data` in an `image::ImageBuffer` of `width` by `height` pixels of
/// the format `from` (`ImageBuffer::from_raw`, as a `DynamicImage` of luma,
/// luma-alpha or RGBA pixels), converts it with `into_luma8`,
/// `into_luma_alpha8` or `into_rgba8` for `to`, and returns the raw bytes.
/// As the crate's source shows, `from_raw` refuses a buffer shorter than
/// the image; a buffer already in the target format is returned as it is,
/// and a conversion fills a new buffer of exactly the image's size, pixel
/// by pixel with the crate's `FromColor` conversions.
/// `ImageBuffer::new` panics where that size overflows `usize`, which
/// `requires` leaves out.
#[verifier::external_body]
pub(crate) fn converted_pixel_bytes(data: &[u8], width: u32, height: u32, from: TextureFormat, to: TextureFormat) -> (pixels: Option<Vec<u8>>)
    requires
        is_convertible_format(from),
        is_convertible_format(to),
        width * height * convertible_channels(from) <= data@.len()
            ==> width * height * convertible_channels(to) <= usize::MAX,
    ensures
        pixels is None ==> converted_pixels(data@, width, height, from, to) is None,
        pixels matches Some(p) ==> converted_pixels(data@, width, height, from, to) == Some(p@),
{
    let raw = data.to_vec();
    let image = match from {
        TextureFormat::R8Unorm => ImageBuffer::from_raw(width, height, raw).map(DynamicImage::ImageLuma8),
        TextureFormat::Rg8Unorm => ImageBuffer::from_raw(width, height, raw).map(DynamicImage::ImageLumaA8),
        _ => ImageBuffer::from_raw(width, height, raw).map(DynamicImage::ImageRgba8),
    }?;
    Some(match to {
        TextureFormat::R8Unorm => image.into_luma8().into_raw(),
        TextureFormat::Rg8Unorm => image.into_luma_alpha8().into_raw(),
        _ => image.into_rgba8().into_raw(),
    })
}

} // verus!
