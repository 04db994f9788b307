# texture_image

Texture images for a `wgpu` renderer, verified with Verus.

`src/` is the verified library:

- `format`: the image file formats, read from MIME types and file
  extensions without regard to ASCII case, and the `image` crate format
  that decodes each.
- `sampler`: sampler settings and their exchange with `wgpu`'s sampler enums.
- `texture`: `Image` (pixel data plus a `wgpu` texture descriptor): creation,
  filling, resizing, reinterpreting its size, pixel offsets and pixel bytes,
  and reading and writing one texel's channels.
- `texel`: the byte layout of one texel of the uncompressed colour formats.
- `compressed`: the families of compressed formats a device supports.
- `loader`: loading an image from the bytes of an image file.
- `decoded`: the texture a decoded image becomes: the format that keeps its
  channels, and an alpha channel added to RGB.
- `conversion`: converting an image between 8-bit luma, luma-alpha and sRGB
  RGBA.
- `gpu`, `codec`, `strings`: the calls into `wgpu`, `image` and `std` that
  the library makes, each with the contract it is trusted to meet.

`app/` holds what stays outside verification: serde, thiserror and bitflags
forms of the library's types, `f32` colours and level-of-detail clamps, and
uploading an image to the GPU.
