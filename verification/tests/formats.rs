use texture_image::format::ImageType;
use texture_image::{ImageFormat, TextureError};

#[test]
fn mime_types_ignore_case() {
    assert_eq!(ImageFormat::from_mime_type("image/png"), Some(ImageFormat::Png));
    assert_eq!(ImageFormat::from_mime_type("IMAGE/PNG"), Some(ImageFormat::Png));
    assert_eq!(ImageFormat::from_mime_type("image/x-bmp"), Some(ImageFormat::Bmp));
    assert_eq!(ImageFormat::from_mime_type("image/bmp"), Some(ImageFormat::Bmp));
    assert_eq!(ImageFormat::from_mime_type("image/vnd-ms.dds"), Some(ImageFormat::Dds));
    assert_eq!(ImageFormat::from_mime_type("image/jpeg"), Some(ImageFormat::Jpeg));
    assert_eq!(ImageFormat::from_mime_type("image/ktx2"), Some(ImageFormat::Ktx2));
    assert_eq!(ImageFormat::from_mime_type("image/x-exr"), Some(ImageFormat::OpenExr));
    assert_eq!(ImageFormat::from_mime_type("Image/X-Targa"), Some(ImageFormat::Tga));
    assert_eq!(ImageFormat::from_mime_type("image/x-tga"), Some(ImageFormat::Tga));
    assert_eq!(ImageFormat::from_mime_type("image/gif"), None);
    assert_eq!(ImageFormat::from_mime_type(""), None);
    assert_eq!(ImageFormat::from_mime_type("image/pngx"), None);
}

#[test]
fn extensions_ignore_case() {
    let cases = [
        ("avif", ImageFormat::Avif),
        ("basis", ImageFormat::Basis),
        ("BMP", ImageFormat::Bmp),
        ("dds", ImageFormat::Dds),
        ("ff", ImageFormat::Farbfeld),
        ("farbfeld", ImageFormat::Farbfeld),
        ("gif", ImageFormat::Gif),
        ("exr", ImageFormat::OpenExr),
        ("hdr", ImageFormat::Hdr),
        ("ico", ImageFormat::Ico),
        ("jpg", ImageFormat::Jpeg),
        ("JPEG", ImageFormat::Jpeg),
        ("ktx2", ImageFormat::Ktx2),
        ("pbm", ImageFormat::Pnm),
        ("pam", ImageFormat::Pnm),
        ("ppm", ImageFormat::Pnm),
        ("pgm", ImageFormat::Pnm),
        ("png", ImageFormat::Png),
        ("tga", ImageFormat::Tga),
        ("tif", ImageFormat::Tiff),
        ("TIFF", ImageFormat::Tiff),
        ("WebP", ImageFormat::WebP),
    ];
    for (extension, format) in cases {
        assert_eq!(ImageFormat::from_extension(extension), Some(format), "{}", extension);
    }
    assert_eq!(ImageFormat::from_extension("svg"), None);
    assert_eq!(ImageFormat::from_extension("pn"), None);
    assert_eq!(ImageFormat::from_extension("ÄVIF"), None);
}

#[test]
fn image_crate_formats() {
    assert_eq!(ImageFormat::Png.as_image_crate_format(), Some(image::ImageFormat::Png));
    assert_eq!(ImageFormat::Jpeg.as_image_crate_format(), Some(image::ImageFormat::Jpeg));
    assert_eq!(ImageFormat::Pnm.as_image_crate_format(), Some(image::ImageFormat::Pnm));
    assert_eq!(ImageFormat::Dds.as_image_crate_format(), Some(image::ImageFormat::Dds));
    assert_eq!(ImageFormat::WebP.as_image_crate_format(), Some(image::ImageFormat::WebP));
    assert_eq!(ImageFormat::Basis.as_image_crate_format(), None);
    assert_eq!(ImageFormat::Ktx2.as_image_crate_format(), None);
}

#[test]
fn image_type_to_format() {
    assert_eq!(ImageType::MimeType("image/png").to_image_format().unwrap(), ImageFormat::Png);
    assert_eq!(ImageType::Extension("tga").to_image_format().unwrap(), ImageFormat::Tga);
    assert_eq!(ImageType::Format(ImageFormat::Hdr).to_image_format().unwrap(), ImageFormat::Hdr);
    match ImageType::MimeType("text/plain").to_image_format() {
        Err(TextureError::InvalidImageMimeType(s)) => assert_eq!(s, "text/plain"),
        other => panic!("unexpected {:?}", other),
    }
    match ImageType::Extension("txt").to_image_format() {
        Err(TextureError::InvalidImageExtension(s)) => assert_eq!(s, "txt"),
        other => panic!("unexpected {:?}", other),
    }
}

#[test]
fn format_names() {
    assert_eq!(ImageFormat::Ktx2.name(), "Ktx2");
    assert_eq!(ImageFormat::OpenExr.name(), format!("{:?}", ImageFormat::OpenExr));
    assert!(texture_image::strings::str_eq("abc", "abc"));
    assert!(!texture_image::strings::str_eq("abc", "abd"));
    assert!(!texture_image::strings::str_eq("abc", "ab"));
}
