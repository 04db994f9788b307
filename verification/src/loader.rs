//! Loading an image from the bytes of an image file.

use vstd::prelude::*;

use crate::codec::{decode_image, decoded_image};
use crate::codec::sample_width;
use crate::decoded::{decoded_texture_data, decoded_texture_format, in_byte_order, is_f32_one_bytes, texel_bytes};
use crate::compressed::CompressedImageFormats;
use crate::error::TextureError;
use crate::format::{image_crate_format, image_type_error, image_type_format, ImageFormat, ImageType};
use crate::sampler::ImageSampler;
use crate::texture::Image;

verus! {

/// The name of a format in error messages.
pub open spec fn format_name(format: ImageFormat) -> Seq<char> {
    match format {
        ImageFormat::Avif => "Avif"@,
        ImageFormat::Basis => "Basis"@,
        ImageFormat::Bmp => "Bmp"@,
        ImageFormat::Dds => "Dds"@,
        ImageFormat::Farbfeld => "Farbfeld"@,
        ImageFormat::Gif => "Gif"@,
        ImageFormat::OpenExr => "OpenExr"@,
        ImageFormat::Hdr => "Hdr"@,
        ImageFormat::Ico => "Ico"@,
        ImageFormat::Jpeg => "Jpeg"@,
        ImageFormat::Ktx2 => "Ktx2"@,
        ImageFormat::Png => "Png"@,
        ImageFormat::Pnm => "Pnm"@,
        ImageFormat::Tga => "Tga"@,
        ImageFormat::Tiff => "Tiff"@,
        ImageFormat::WebP => "WebP"@,
    }
}

impl ImageFormat {
    /// The name of the format, as `Debug` writes it.
    pub fn name(&self) -> (name: String)
        ensures
            name@ == format_name(*self),
    {
        broadcast use vstd::string::group_string_axioms;

        let s = match self {
            ImageFormat::Avif => "Avif",
            ImageFormat::Basis => "Basis",
            ImageFormat::Bmp => "Bmp",
            ImageFormat::Dds => "Dds",
            ImageFormat::Farbfeld => "Farbfeld",
            ImageFormat::Gif => "Gif",
            ImageFormat::OpenExr => "OpenExr",
            ImageFormat::Hdr => "Hdr",
            ImageFormat::Ico => "Ico",
            ImageFormat::Jpeg => "Jpeg",
            ImageFormat::Ktx2 => "Ktx2",
            ImageFormat::Png => "Png",
            ImageFormat::Pnm => "Pnm",
            ImageFormat::Tga => "Tga",
            ImageFormat::Tiff => "Tiff",
            ImageFormat::WebP => "WebP",
        };
        s.to_string()
    }
}

impl Image {
    /// Loads an image from the bytes of an image file whose type `image_type`
    /// names: the `image` crate decodes it, `from_decoded` makes it a 2D
    /// texture in the format that keeps its channels (8-bit colour in sRGB
    /// where `is_srgb`, an alpha channel added to RGB), and it is drawn with
    /// `image_sampler`.
    ///
    /// Errors, in this order: the type names no format; the format is Basis
    /// or KTX2, which this loader does not read; the `image` crate fails to
    /// decode, and its error is passed on.
    pub fn from_buffer(
        buffer: &[u8],
        image_type: ImageType,
        supported_compressed_formats: CompressedImageFormats,
        is_srgb: bool,
        image_sampler: ImageSampler,
    ) -> (result: Result<Image, TextureError>)
        ensures
            match image_type_format(image_type) {
                None => result matches Err(e) && image_type_error(image_type, e),
                Some(f) => match image_crate_format(f) {
                    None => result matches Err(TextureError::UnsupportedTextureFormat(s))
                        && s@ == format_name(f),
                    Some(codec_format) => match decoded_image(buffer@, codec_format) {
                        Err(e) => result matches Err(TextureError::ImageError(err)) && err == e,
                        Ok((color, w, h, samples)) => {
                            &&& result matches Ok(image)
                            &&& image.descriptor_is(
                                wgpu::Extent3d { width: w, height: h, depth_or_array_layers: 1 },
                                wgpu::TextureDimension::D2,
                                decoded_texture_format(color, is_srgb),
                            )
                            &&& image.data@.len() == w * h * texel_bytes(color)
                            &&& sample_width(color) == 1 ==> image.data@ == decoded_texture_data(
                                color,
                                samples,
                                (w * h) as nat,
                                seq![],
                            )
                            &&& exists|little: bool, one: Seq<u8>|
                                is_f32_one_bytes(one) && image.data@ == #[trigger] decoded_texture_data(
                                    color,
                                    in_byte_order(samples, sample_width(color), little),
                                    (w * h) as nat,
                                    one,
                                )
                        },
                    },
                },
            },
            result matches Ok(image) ==> image.sampler == image_sampler,
    {
        broadcast use vstd::string::group_string_axioms;

        let format = match image_type.to_image_format() {
            Ok(f) => f,
            Err(e) => return Err(e),
        };
        let codec_format = match format.as_image_crate_format() {
            Some(f) => f,
            None => return Err(TextureError::UnsupportedTextureFormat(format.name())),
        };
        let (color, width, height, bytes) = match decode_image(buffer, codec_format) {
            Ok(decoded) => decoded,
            Err(e) => return Err(TextureError::ImageError(e)),
        };
        let ghost decoded = bytes@;
        let mut image = Image::from_decoded(color, width, height, bytes, is_srgb);
        proof {
            let samples = decoded_image(buffer@, codec_format)->Ok_0.3;
            let n = (width * height) as nat;
            let one = choose|one: Seq<u8>|
                is_f32_one_bytes(one) && image.data@ == #[trigger] decoded_texture_data(color, decoded, n, one);
            let little = decoded == samples;
            assert(decoded == in_byte_order(samples, sample_width(color), little));
            assert(is_f32_one_bytes(one)
                && image.data@ == decoded_texture_data(color, in_byte_order(samples, sample_width(color), little), n, one));
        }
        image.sampler = image_sampler;
        Ok(image)
    }
}

/// The name of a file format of the `image` crate, as its derived `Debug`
/// writes it.
pub open spec fn image_crate_format_name(format: image::ImageFormat) -> Seq<char> {
    match format {
        image::ImageFormat::Png => "Png"@,
        image::ImageFormat::Jpeg => "Jpeg"@,
        image::ImageFormat::Gif => "Gif"@,
        image::ImageFormat::WebP => "WebP"@,
        image::ImageFormat::Pnm => "Pnm"@,
        image::ImageFormat::Tiff => "Tiff"@,
        image::ImageFormat::Tga => "Tga"@,
        image::ImageFormat::Dds => "Dds"@,
        image::ImageFormat::Bmp => "Bmp"@,
        image::ImageFormat::Ico => "Ico"@,
        image::ImageFormat::Hdr => "Hdr"@,
        image::ImageFormat::OpenExr => "OpenExr"@,
        image::ImageFormat::Farbfeld => "Farbfeld"@,
        image::ImageFormat::Avif => "Avif"@,
        _ => "Qoi"@,
    }
}

/// Every format that the `image` crate decodes is handed to the `image`
/// crate's format of the same name, so that two different formats never go
/// to the same decoder; only Basis and KTX2 have none.
pub proof fn lemma_image_crate_format_same_name(format: ImageFormat, other: ImageFormat)
    ensures
        image_crate_format(format) is None <==> (format is Basis || format is Ktx2),
        image_crate_format(format) matches Some(g) ==> image_crate_format_name(g) == format_name(format),
        image_crate_format(format) is Some && image_crate_format(format) == image_crate_format(other) ==> format == other,
{
    reveal_strlit("Avif");
    reveal_strlit("Bmp");
    reveal_strlit("Dds");
    reveal_strlit("Farbfeld");
    reveal_strlit("Gif");
    reveal_strlit("OpenExr");
    reveal_strlit("Hdr");
    reveal_strlit("Ico");
    reveal_strlit("Jpeg");
    reveal_strlit("Png");
    reveal_strlit("Pnm");
    reveal_strlit("Tga");
    reveal_strlit("Tiff");
    reveal_strlit("WebP");
    reveal_strlit("Qoi");
    reveal_strlit("Basis");
    reveal_strlit("Ktx2");
}

} // verus!
