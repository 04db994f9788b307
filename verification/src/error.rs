use vstd::prelude::*;

verus! {

/// How the channels of a texture are laid out before transcoding.
#[derive(Clone, Copy, Debug, PartialEq, Eq, Structural)]
pub enum DataFormat {
    Rgb,
    Rgba,
    Rrr,
    Rrrg,
    Rg,
}

/// A format that a texture has to be transcoded from before the GPU can use it.
#[derive(Clone, Copy, Debug, PartialEq, Eq, Structural)]
pub enum TranscodeFormat {
    Etc1s,
    Uastc(DataFormat),
    /// Has to be transcoded to `R8Unorm` for use with `wgpu`.
    R8UnormSrgb,
    /// Has to be transcoded to `Rg8Unorm` for use with `wgpu`.
    Rg8UnormSrgb,
    /// Has to be transcoded to `Rgba8` for use with `wgpu`.
    Rgb8,
}

/// An error that occurs when accessing specific pixels in a texture.
#[derive(Debug)]
pub enum TextureAccessError {
    /// The coordinates lie outside the texture; the text names them.
    OutOfBounds(String),
    /// The texture's format cannot be read or written texel by texel; the text names it.
    UnsupportedTextureFormat(String),
}

/// An error that occurs when loading a texture.
#[derive(Debug)]
pub enum TextureError {
    InvalidImageMimeType(String),
    InvalidImageExtension(String),
    ImageError(image::ImageError),
    UnsupportedTextureFormat(String),
    SuperCompressionNotSupported(String),
    SuperDecompressionError(String),
    InvalidData(String),
    TranscodeError(String),
    FormatRequiresTranscodingError(TranscodeFormat),
    /// Only cubemaps with six faces are supported.
    IncompleteCubemap,
}

} // verus!
