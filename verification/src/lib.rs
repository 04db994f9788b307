//! Texture images: the formats they are loaded from, their sampler settings,
//! their pixel buffers, and the byte layout of a single texel.

pub mod codec;
pub mod compressed;
pub mod conversion;
pub mod decoded;
pub mod error;
pub mod format;
pub mod gpu;
pub mod loader;
pub mod sampler;
pub mod strings;
pub mod texel;
pub mod texture;

pub use compressed::CompressedImageFormats;
pub use error::{DataFormat, TextureAccessError, TextureError, TranscodeFormat};
pub use format::{ImageFormat, ImageType};
pub use sampler::{
    DefaultImageSampler, ImageAddressMode, ImageCompareFunction, ImageFilterMode, ImageSampler, ImageSamplerBorderColor,
    ImageSamplerDescriptor,
};
pub use texel::{ChannelType, ChannelValues, Channels, TexelLayout, TexelValue};
pub use texture::{
    checked_data_len, checked_pixel_size, texel_pixel_size, Image, TextureFormatPixelInfo, Volume,
    SAMPLER_ASSET_INDEX, TEXTURE_ASSET_INDEX,
};
