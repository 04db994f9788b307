use vstd::prelude::*;

use crate::error::TextureError;
use crate::strings::{ascii_lowercase, lemma_ascii_lowercase_idempotent, str_eq, to_ascii_lowercase};

verus! {

/// The file formats an image can be loaded from.
#[derive(Debug, Copy, Clone, PartialEq, Eq, Structural)]
pub enum ImageFormat {
    Avif,
    Basis,
    Bmp,
    Dds,
    Farbfeld,
    Gif,
    OpenExr,
    Hdr,
    Ico,
    Jpeg,
    Ktx2,
    Png,
    Pnm,
    Tga,
    Tiff,
    WebP,
}

/// The format named by a MIME type, compared without regard to ASCII case.
pub open spec fn mime_type_format(mime_type: Seq<char>) -> Option<ImageFormat> {
    let m = ascii_lowercase(mime_type);
    if m == "image/bmp"@ || m == "image/x-bmp"@ {
        Some(ImageFormat::Bmp)
    } else if m == "image/vnd-ms.dds"@ {
        Some(ImageFormat::Dds)
    } else if m == "image/jpeg"@ {
        Some(ImageFormat::Jpeg)
    } else if m == "image/ktx2"@ {
        Some(ImageFormat::Ktx2)
    } else if m == "image/png"@ {
        Some(ImageFormat::Png)
    } else if m == "image/x-exr"@ {
        Some(ImageFormat::OpenExr)
    } else if m == "image/x-targa"@ || m == "image/x-tga"@ {
        Some(ImageFormat::Tga)
    } else {
        None
    }
}

/// The format named by a file extension, compared without regard to ASCII case.
pub open spec fn extension_format(extension: Seq<char>) -> Option<ImageFormat> {
    let e = ascii_lowercase(extension);
    if e == "avif"@ {
        Some(ImageFormat::Avif)
    } else if e == "basis"@ {
        Some(ImageFormat::Basis)
    } else if e == "bmp"@ {
        Some(ImageFormat::Bmp)
    } else if e == "dds"@ {
        Some(ImageFormat::Dds)
    } else if e == "ff"@ || e == "farbfeld"@ {
        Some(ImageFormat::Farbfeld)
    } else if e == "gif"@ {
        Some(ImageFormat::Gif)
    } else if e == "exr"@ {
        Some(ImageFormat::OpenExr)
    } else if e == "hdr"@ {
        Some(ImageFormat::Hdr)
    } else if e == "ico"@ {
        Some(ImageFormat::Ico)
    } else if e == "jpg"@ || e == "jpeg"@ {
        Some(ImageFormat::Jpeg)
    } else if e == "ktx2"@ {
        Some(ImageFormat::Ktx2)
    } else if e == "pbm"@ || e == "pam"@ || e == "ppm"@ || e == "pgm"@ {
        Some(ImageFormat::Pnm)
    } else if e == "png"@ {
        Some(ImageFormat::Png)
    } else if e == "tga"@ {
        Some(ImageFormat::Tga)
    } else if e == "tif"@ || e == "tiff"@ {
        Some(ImageFormat::Tiff)
    } else if e == "webp"@ {
        Some(ImageFormat::WebP)
    } else {
        None
    }
}

/// The format of the `image` crate that decodes `format`; none for the
/// GPU container formats Basis and KTX2, which that crate does not read.
pub open spec fn image_crate_format(format: ImageFormat) -> Option<image::ImageFormat> {
    match format {
        ImageFormat::Avif => Some(image::ImageFormat::Avif),
        ImageFormat::Bmp => Some(image::ImageFormat::Bmp),
        ImageFormat::Dds => Some(image::ImageFormat::Dds),
        ImageFormat::Farbfeld => Some(image::ImageFormat::Farbfeld),
        ImageFormat::Gif => Some(image::ImageFormat::Gif),
        ImageFormat::OpenExr => Some(image::ImageFormat::OpenExr),
        ImageFormat::Hdr => Some(image::ImageFormat::Hdr),
        ImageFormat::Ico => Some(image::ImageFormat::Ico),
        ImageFormat::Jpeg => Some(image::ImageFormat::Jpeg),
        ImageFormat::Png => Some(image::ImageFormat::Png),
        ImageFormat::Pnm => Some(image::ImageFormat::Pnm),
        ImageFormat::Tga => Some(image::ImageFormat::Tga),
        ImageFormat::Tiff => Some(image::ImageFormat::Tiff),
        ImageFormat::WebP => Some(image::ImageFormat::WebP),
        ImageFormat::Basis | ImageFormat::Ktx2 => None,
    }
}

/// Whether the `image` crate lists `extension` among the file extensions of
/// its format `format` (`ImageFormat::extensions_str`).
pub open spec fn image_crate_has_extension(format: image::ImageFormat, extension: Seq<char>) -> bool {
    match format {
        image::ImageFormat::Png => extension == "png"@,
        image::ImageFormat::Jpeg => extension == "jpg"@ || extension == "jpeg"@,
        image::ImageFormat::Gif => extension == "gif"@,
        image::ImageFormat::WebP => extension == "webp"@,
        image::ImageFormat::Pnm => extension == "pbm"@ || extension == "pam"@ || extension == "ppm"@ || extension == "pgm"@,
        image::ImageFormat::Tiff => extension == "tiff"@ || extension == "tif"@,
        image::ImageFormat::Tga => extension == "tga"@,
        image::ImageFormat::Dds => extension == "dds"@,
        image::ImageFormat::Bmp => extension == "bmp"@,
        image::ImageFormat::Ico => extension == "ico"@,
        image::ImageFormat::Hdr => extension == "hdr"@,
        image::ImageFormat::OpenExr => extension == "exr"@,
        image::ImageFormat::Farbfeld => extension == "ff"@,
        image::ImageFormat::Avif => extension == "avif"@,
        _ => extension == "qoi"@,
    }
}

/// Whether the `image` crate names its format `format` by the MIME type
/// `mime_type` (`ImageFormat::from_mime_type`).
pub open spec fn image_crate_has_mime_type(format: image::ImageFormat, mime_type: Seq<char>) -> bool {
    match format {
        image::ImageFormat::Avif => mime_type == "image/avif"@,
        image::ImageFormat::Jpeg => mime_type == "image/jpeg"@,
        image::ImageFormat::Png => mime_type == "image/png"@,
        image::ImageFormat::Gif => mime_type == "image/gif"@,
        image::ImageFormat::WebP => mime_type == "image/webp"@,
        image::ImageFormat::Tiff => mime_type == "image/tiff"@,
        image::ImageFormat::Tga => mime_type == "image/x-targa"@ || mime_type == "image/x-tga"@,
        image::ImageFormat::Dds => mime_type == "image/vnd-ms.dds"@,
        image::ImageFormat::Bmp => mime_type == "image/bmp"@,
        image::ImageFormat::Ico => mime_type == "image/x-icon"@,
        image::ImageFormat::Hdr => mime_type == "image/vnd.radiance"@,
        image::ImageFormat::OpenExr => mime_type == "image/x-exr"@,
        image::ImageFormat::Pnm => mime_type == "image/x-portable-bitmap"@ || mime_type == "image/x-portable-graymap"@
            || mime_type == "image/x-portable-pixmap"@ || mime_type == "image/x-portable-anymap"@,
        _ => mime_type == "image/x-qoi"@,
    }
}

/// A file named by an extension or a MIME type goes to the `image` crate's
/// decoder for the format that the `image` crate itself gives that
/// extension or MIME type (lower-cased). The only names the `image` crate
/// does not know are the extension `farbfeld` and the MIME type
/// `image/x-bmp`, which this library adds for Farbfeld and BMP.
pub proof fn lemma_names_reach_matching_decoder(name: Seq<char>)
    ensures
        extension_format(name) matches Some(f) ==> (image_crate_format(f) matches Some(g) ==> (
            image_crate_has_extension(g, ascii_lowercase(name))
                || (f is Farbfeld && ascii_lowercase(name) == "farbfeld"@))),
        mime_type_format(name) matches Some(f) ==> (image_crate_format(f) matches Some(g) ==> (
            image_crate_has_mime_type(g, ascii_lowercase(name))
                || (f is Bmp && ascii_lowercase(name) == "image/x-bmp"@))),
{
}

/// MIME types and extensions are matched without regard to ASCII case: a
/// text names the same format as its lower-cased form.
pub proof fn lemma_format_names_ignore_case(name: Seq<char>)
    ensures
        mime_type_format(ascii_lowercase(name)) == mime_type_format(name),
        extension_format(ascii_lowercase(name)) == extension_format(name),
{
    lemma_ascii_lowercase_idempotent(name);
}

impl ImageFormat {
    /// The format named by a MIME type such as `"image/png"`, in any ASCII case.
    pub fn from_mime_type(mime_type: &str) -> (format: Option<Self>)
        ensures
            format == mime_type_format(mime_type@),
    {
        let lower = to_ascii_lowercase(mime_type);
        let m = lower.as_str();
        if str_eq(m, "image/bmp") || str_eq(m, "image/x-bmp") {
            Some(ImageFormat::Bmp)
        } else if str_eq(m, "image/vnd-ms.dds") {
            Some(ImageFormat::Dds)
        } else if str_eq(m, "image/jpeg") {
            Some(ImageFormat::Jpeg)
        } else if str_eq(m, "image/ktx2") {
            Some(ImageFormat::Ktx2)
        } else if str_eq(m, "image/png") {
            Some(ImageFormat::Png)
        } else if str_eq(m, "image/x-exr") {
            Some(ImageFormat::OpenExr)
        } else if str_eq(m, "image/x-targa") || str_eq(m, "image/x-tga") {
            Some(ImageFormat::Tga)
        } else {
            None
        }
    }

    /// The format named by a file extension such as `"png"`, in any ASCII case.
    pub fn from_extension(extension: &str) -> (format: Option<Self>)
        ensures
            format == extension_format(extension@),
    {
        let lower = to_ascii_lowercase(extension);
        let e = lower.as_str();
        if str_eq(e, "avif") {
            Some(ImageFormat::Avif)
        } else if str_eq(e, "basis") {
            Some(ImageFormat::Basis)
        } else if str_eq(e, "bmp") {
            Some(ImageFormat::Bmp)
        } else if str_eq(e, "dds") {
            Some(ImageFormat::Dds)
        } else if str_eq(e, "ff") || str_eq(e, "farbfeld") {
            Some(ImageFormat::Farbfeld)
        } else if str_eq(e, "gif") {
            Some(ImageFormat::Gif)
        } else if str_eq(e, "exr") {
            Some(ImageFormat::OpenExr)
        } else if str_eq(e, "hdr") {
            Some(ImageFormat::Hdr)
        } else if str_eq(e, "ico") {
            Some(ImageFormat::Ico)
        } else if str_eq(e, "jpg") || str_eq(e, "jpeg") {
            Some(ImageFormat::Jpeg)
        } else if str_eq(e, "ktx2") {
            Some(ImageFormat::Ktx2)
        } else if str_eq(e, "pbm") || str_eq(e, "pam") || str_eq(e, "ppm") || str_eq(e, "pgm") {
            Some(ImageFormat::Pnm)
        } else if str_eq(e, "png") {
            Some(ImageFormat::Png)
        } else if str_eq(e, "tga") {
            Some(ImageFormat::Tga)
        } else if str_eq(e, "tif") || str_eq(e, "tiff") {
            Some(ImageFormat::Tiff)
        } else if str_eq(e, "webp") {
            Some(ImageFormat::WebP)
        } else {
            None
        }
    }

    /// The format of the `image` crate that decodes this format, if that crate reads it.
    pub fn as_image_crate_format(&self) -> (format: Option<image::ImageFormat>)
        ensures
            format == image_crate_format(*self),
            format is None <==> (*self is Basis || *self is Ktx2),
    {
        match self {
            ImageFormat::Avif => Some(image::ImageFormat::Avif),
            ImageFormat::Bmp => Some(image::ImageFormat::Bmp),
            ImageFormat::Dds => Some(image::ImageFormat::Dds),
            ImageFormat::Farbfeld => Some(image::ImageFormat::Farbfeld),
            ImageFormat::Gif => Some(image::ImageFormat::Gif),
            ImageFormat::OpenExr => Some(image::ImageFormat::OpenExr),
            ImageFormat::Hdr => Some(image::ImageFormat::Hdr),
            ImageFormat::Ico => Some(image::ImageFormat::Ico),
            ImageFormat::Jpeg => Some(image::ImageFormat::Jpeg),
            ImageFormat::Png => Some(image::ImageFormat::Png),
            ImageFormat::Pnm => Some(image::ImageFormat::Pnm),
            ImageFormat::Tga => Some(image::ImageFormat::Tga),
            ImageFormat::Tiff => Some(image::ImageFormat::Tiff),
            ImageFormat::WebP => Some(image::ImageFormat::WebP),
            ImageFormat::Basis | ImageFormat::Ktx2 => None,
        }
    }
}

/// The type of a raw image buffer.
#[derive(Debug)]
pub enum ImageType<'a> {
    /// The MIME type of an image, for example `"image/png"`.
    MimeType(&'a str),
    /// The extension of an image file, for example `"png"`.
    Extension(&'a str),
    /// The direct format of the image.
    Format(ImageFormat),
}

/// The format a buffer type names, if it names one.
pub open spec fn image_type_format(image_type: ImageType) -> Option<ImageFormat> {
    match image_type {
        ImageType::MimeType(m) => mime_type_format(m@),
        ImageType::Extension(e) => extension_format(e@),
        ImageType::Format(f) => Some(f),
    }
}

/// `error` is the error for a buffer type that names no format: an invalid
/// MIME type or an invalid extension, quoting it.
pub open spec fn image_type_error(image_type: ImageType, error: TextureError) -> bool {
    match image_type {
        ImageType::MimeType(m) => error matches TextureError::InvalidImageMimeType(s) && s@ == m@,
        ImageType::Extension(e) => error matches TextureError::InvalidImageExtension(s) && s@ == e@,
        ImageType::Format(_) => false,
    }
}

impl<'a> ImageType<'a> {
    /// The image format this buffer type names; an error that quotes the
    /// MIME type or the extension where it names none.
    pub fn to_image_format(&self) -> (result: Result<ImageFormat, TextureError>)
        ensures
            match image_type_format(*self) {
                Some(f) => result matches Ok(g) && g == f,
                None => result matches Err(e) && image_type_error(*self, e),
            },
    {
        broadcast use vstd::string::group_string_axioms;

        match self {
            ImageType::MimeType(mime_type) => match ImageFormat::from_mime_type(mime_type) {
                Some(f) => Ok(f),
                None => Err(TextureError::InvalidImageMimeType((*mime_type).to_string())),
            },
            ImageType::Extension(extension) => match ImageFormat::from_extension(extension) {
                Some(f) => Ok(f),
                None => Err(TextureError::InvalidImageExtension((*extension).to_string())),
            },
            ImageType::Format(format) => Ok(*format),
        }
    }
}

} // verus!
