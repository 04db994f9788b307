//! The byte layout of one texel of the uncompressed colour formats, and the
//! reading and writing of its channels.

use vstd::prelude::*;

verus! {

/// The value of two little-endian bytes.
pub open spec fn u16_le(b0: u8, b1: u8) -> u16 {
    (b0 as u16) | ((b1 as u16) << 8u16)
}

/// The value of four little-endian bytes.
pub open spec fn u32_le(b0: u8, b1: u8, b2: u8, b3: u8) -> u32 {
    (b0 as u32) | ((b1 as u32) << 8u32) | ((b2 as u32) << 16u32) | ((b3 as u32) << 24u32)
}

/// The two little-endian bytes of a value.
pub open spec fn u16_le_bytes(v: u16) -> Seq<u8> {
    seq![(v & 0xffu16) as u8, ((v >> 8u16) & 0xffu16) as u8]
}

/// The four little-endian bytes of a value.
pub open spec fn u32_le_bytes(v: u32) -> Seq<u8> {
    seq![
        (v & 0xffu32) as u8,
        ((v >> 8u32) & 0xffu32) as u8,
        ((v >> 16u32) & 0xffu32) as u8,
        ((v >> 24u32) & 0xffu32) as u8,
    ]
}

/// The value of two little-endian bytes, as `u16::from_le_bytes` reads them.
fn u16_from_le(b0: u8, b1: u8) -> (v: u16)
    ensures
        v == u16_le(b0, b1),
{
    (b0 as u16) | ((b1 as u16) << 8u16)
}

/// The value of four little-endian bytes, as `u32::from_le_bytes` reads them.
fn u32_from_le(b0: u8, b1: u8, b2: u8, b3: u8) -> (v: u32)
    ensures
        v == u32_le(b0, b1, b2, b3),
{
    (b0 as u32) | ((b1 as u32) << 8u32) | ((b2 as u32) << 16u32) | ((b3 as u32) << 24u32)
}

/// Reading back the bytes written for a value gives the value.
pub proof fn lemma_u16_le_round_trip(v: u16)
    ensures
        u16_le(u16_le_bytes(v)[0], u16_le_bytes(v)[1]) == v,
{
    let b0 = (v & 0xffu16) as u8;
    let b1 = ((v >> 8u16) & 0xffu16) as u8;
    assert(((b0 as u16) | ((b1 as u16) << 8u16)) == v) by (bit_vector)
        requires
            b0 == (v & 0xffu16) as u8,
            b1 == ((v >> 8u16) & 0xffu16) as u8,
    ;
}

/// Reading back the bytes written for a value gives the value.
pub proof fn lemma_u32_le_round_trip(v: u32)
    ensures
        u32_le(u32_le_bytes(v)[0], u32_le_bytes(v)[1], u32_le_bytes(v)[2], u32_le_bytes(v)[3]) == v,
{
    let b0 = (v & 0xffu32) as u8;
    let b1 = ((v >> 8u32) & 0xffu32) as u8;
    let b2 = ((v >> 16u32) & 0xffu32) as u8;
    let b3 = ((v >> 24u32) & 0xffu32) as u8;
    assert(((b0 as u32) | ((b1 as u32) << 8u32) | ((b2 as u32) << 16u32) | ((b3 as u32) << 24u32))
        == v) by (bit_vector)
        requires
            b0 == (v & 0xffu32) as u8,
            b1 == ((v >> 8u32) & 0xffu32) as u8,
            b2 == ((v >> 16u32) & 0xffu32) as u8,
            b3 == ((v >> 24u32) & 0xffu32) as u8,
    ;
}

/// How one channel of a texel is stored.
#[derive(Clone, Copy, Debug, PartialEq, Eq, Structural)]
pub enum ChannelType {
    /// One byte, `0..=255`.
    U8,
    /// Two little-endian bytes, `0..=65535`.
    U16,
    /// Four little-endian bytes, an unsigned integer.
    U32,
    /// Four little-endian bytes, the bits of an `f32`.
    F32,
}

impl ChannelType {
    /// The number of bytes a channel takes.
    pub open spec fn width(self) -> nat {
        match self {
            ChannelType::U8 => 1,
            ChannelType::U16 => 2,
            ChannelType::U32 | ChannelType::F32 => 4,
        }
    }

    /// Whether a value can be stored in a channel of this type unchanged.
    pub open spec fn holds(self, v: u32) -> bool {
        match self {
            ChannelType::U8 => v <= 0xff,
            ChannelType::U16 => v <= 0xffff,
            ChannelType::U32 | ChannelType::F32 => true,
        }
    }

    /// The number of bytes a channel takes.
    pub fn byte_width(&self) -> (w: usize)
        ensures
            w == self.width(),
    {
        match self {
            ChannelType::U8 => 1,
            ChannelType::U16 => 2,
            ChannelType::U32 | ChannelType::F32 => 4,
        }
    }
}

/// Which channels a texel stores.
#[derive(Clone, Copy, Debug, PartialEq, Eq, Structural)]
pub enum Channels {
    /// Red only; read back as a grey value.
    R,
    /// Red and green.
    Rg,
    /// Red, green, blue and alpha.
    Rgba,
}

impl Channels {
    /// The number of channels.
    pub open spec fn count(self) -> nat {
        match self {
            Channels::R => 1,
            Channels::Rg => 2,
            Channels::Rgba => 4,
        }
    }
}

/// The layout of one texel of a format the library reads and writes.
#[derive(Clone, Copy, Debug, PartialEq, Eq, Structural)]
pub struct TexelLayout {
    /// How each channel is stored.
    pub channel_type: ChannelType,
    /// Which channels are stored.
    pub channels: Channels,
    /// Whether the colour channels are sRGB encoded rather than linear.
    pub srgb: bool,
    /// Whether the four channels are stored blue, green, red, alpha.
    pub bgra: bool,
}

impl TexelLayout {
    /// The number of bytes of one texel.
    pub open spec fn byte_len(self) -> nat {
        self.channel_type.width() * self.channels.count()
    }
}

/// The four channel values of a colour, red, green, blue and alpha, each
/// as the integer stored in a channel (an `f32` channel by its bits).
#[derive(Clone, Copy, Debug, PartialEq, Eq, Structural)]
pub struct ChannelValues {
    pub r: u32,
    pub g: u32,
    pub b: u32,
    pub a: u32,
}

/// A texel read from an image: its layout and its channel values.
#[derive(Clone, Copy, Debug, PartialEq, Eq, Structural)]
pub struct TexelValue {
    pub layout: TexelLayout,
    pub values: ChannelValues,
}

/// The layout of a format whose texels the library reads and writes.
pub open spec fn format_texel_layout(format: wgpu::TextureFormat) -> Option<TexelLayout> {
    let l = |t: ChannelType, c: Channels, srgb: bool, bgra: bool|
        Some(TexelLayout { channel_type: t, channels: c, srgb, bgra });
    match format {
        wgpu::TextureFormat::Rgba8UnormSrgb => l(ChannelType::U8, Channels::Rgba, true, false),
        wgpu::TextureFormat::Rgba8Unorm | wgpu::TextureFormat::Rgba8Uint =>
            l(ChannelType::U8, Channels::Rgba, false, false),
        wgpu::TextureFormat::Bgra8UnormSrgb => l(ChannelType::U8, Channels::Rgba, true, true),
        wgpu::TextureFormat::Bgra8Unorm => l(ChannelType::U8, Channels::Rgba, false, true),
        wgpu::TextureFormat::Rgba32Float => l(ChannelType::F32, Channels::Rgba, false, false),
        wgpu::TextureFormat::Rgba16Unorm | wgpu::TextureFormat::Rgba16Uint =>
            l(ChannelType::U16, Channels::Rgba, false, false),
        wgpu::TextureFormat::Rgba32Uint => l(ChannelType::U32, Channels::Rgba, false, false),
        wgpu::TextureFormat::R8Unorm | wgpu::TextureFormat::R8Uint =>
            l(ChannelType::U8, Channels::R, false, false),
        wgpu::TextureFormat::R16Unorm | wgpu::TextureFormat::R16Uint =>
            l(ChannelType::U16, Channels::R, false, false),
        wgpu::TextureFormat::R32Uint => l(ChannelType::U32, Channels::R, false, false),
        wgpu::TextureFormat::R32Float => l(ChannelType::F32, Channels::R, false, false),
        wgpu::TextureFormat::Rg8Unorm | wgpu::TextureFormat::Rg8Uint =>
            l(ChannelType::U8, Channels::Rg, false, false),
        wgpu::TextureFormat::Rg16Unorm | wgpu::TextureFormat::Rg16Uint =>
            l(ChannelType::U16, Channels::Rg, false, false),
        wgpu::TextureFormat::Rg32Uint => l(ChannelType::U32, Channels::Rg, false, false),
        wgpu::TextureFormat::Rg32Float => l(ChannelType::F32, Channels::Rg, false, false),
        _ => None,
    }
}

/// The layout of a format whose texels the library reads and writes; none
/// for every other format.
pub fn texel_layout(format: &wgpu::TextureFormat) -> (layout: Option<TexelLayout>)
    ensures
        layout == format_texel_layout(*format),
        layout is Some ==> crate::gpu::is_texel_color_format(*format),
{
    let l = |t: ChannelType, c: Channels, srgb: bool, bgra: bool| -> (r: Option<TexelLayout>)
        ensures r == Some(TexelLayout { channel_type: t, channels: c, srgb, bgra })
        { Some(TexelLayout { channel_type: t, channels: c, srgb, bgra }) };
    match format {
        wgpu::TextureFormat::Rgba8UnormSrgb => l(ChannelType::U8, Channels::Rgba, true, false),
        wgpu::TextureFormat::Rgba8Unorm | wgpu::TextureFormat::Rgba8Uint =>
            l(ChannelType::U8, Channels::Rgba, false, false),
        wgpu::TextureFormat::Bgra8UnormSrgb => l(ChannelType::U8, Channels::Rgba, true, true),
        wgpu::TextureFormat::Bgra8Unorm => l(ChannelType::U8, Channels::Rgba, false, true),
        wgpu::TextureFormat::Rgba32Float => l(ChannelType::F32, Channels::Rgba, false, false),
        wgpu::TextureFormat::Rgba16Unorm | wgpu::TextureFormat::Rgba16Uint =>
            l(ChannelType::U16, Channels::Rgba, false, false),
        wgpu::TextureFormat::Rgba32Uint => l(ChannelType::U32, Channels::Rgba, false, false),
        wgpu::TextureFormat::R8Unorm | wgpu::TextureFormat::R8Uint =>
            l(ChannelType::U8, Channels::R, false, false),
        wgpu::TextureFormat::R16Unorm | wgpu::TextureFormat::R16Uint =>
            l(ChannelType::U16, Channels::R, false, false),
        wgpu::TextureFormat::R32Uint => l(ChannelType::U32, Channels::R, false, false),
        wgpu::TextureFormat::R32Float => l(ChannelType::F32, Channels::R, false, false),
        wgpu::TextureFormat::Rg8Unorm | wgpu::TextureFormat::Rg8Uint =>
            l(ChannelType::U8, Channels::Rg, false, false),
        wgpu::TextureFormat::Rg16Unorm | wgpu::TextureFormat::Rg16Uint =>
            l(ChannelType::U16, Channels::Rg, false, false),
        wgpu::TextureFormat::Rg32Uint => l(ChannelType::U32, Channels::Rg, false, false),
        wgpu::TextureFormat::Rg32Float => l(ChannelType::F32, Channels::Rg, false, false),
        _ => None,
    }
}

/// The value of channel `k` of the texel whose bytes are `bytes`.
pub open spec fn decode_channel(t: ChannelType, bytes: Seq<u8>, k: int) -> u32 {
    let o = k * t.width();
    match t {
        ChannelType::U8 => bytes[o] as u32,
        ChannelType::U16 => u16_le(bytes[o], bytes[o + 1]) as u32,
        ChannelType::U32 | ChannelType::F32 => u32_le(bytes[o], bytes[o + 1], bytes[o + 2], bytes[o + 3]),
    }
}

/// The colour read from the bytes of a texel: a single channel is read as
/// red, two as red and green; four are read in the order red, green, blue,
/// alpha, or blue, green, red, alpha for a blue-first layout. Channels a
/// layout does not store read as zero.
pub open spec fn decode_texel(l: TexelLayout, bytes: Seq<u8>) -> ChannelValues {
    let t = l.channel_type;
    match l.channels {
        Channels::R => ChannelValues { r: decode_channel(t, bytes, 0), g: 0, b: 0, a: 0 },
        Channels::Rg => ChannelValues {
            r: decode_channel(t, bytes, 0),
            g: decode_channel(t, bytes, 1),
            b: 0,
            a: 0,
        },
        Channels::Rgba => if l.bgra {
            ChannelValues {
                r: decode_channel(t, bytes, 2),
                g: decode_channel(t, bytes, 1),
                b: decode_channel(t, bytes, 0),
                a: decode_channel(t, bytes, 3),
            }
        } else {
            ChannelValues {
                r: decode_channel(t, bytes, 0),
                g: decode_channel(t, bytes, 1),
                b: decode_channel(t, bytes, 2),
                a: decode_channel(t, bytes, 3),
            }
        },
    }
}

/// The bytes stored for one channel value: its low byte, its two low bytes
/// little-endian, or its four bytes little-endian.
pub open spec fn encode_channel(t: ChannelType, v: u32) -> Seq<u8> {
    match t {
        ChannelType::U8 => seq![v as u8],
        ChannelType::U16 => u16_le_bytes(v as u16),
        ChannelType::U32 | ChannelType::F32 => u32_le_bytes(v),
    }
}

/// The bytes stored for a colour: red alone, red and green, or all four
/// channels in the order red, green, blue, alpha (blue, green, red, alpha
/// for a blue-first layout).
pub open spec fn encode_texel(l: TexelLayout, v: ChannelValues) -> Seq<u8> {
    let t = l.channel_type;
    match l.channels {
        Channels::R => encode_channel(t, v.r),
        Channels::Rg => encode_channel(t, v.r) + encode_channel(t, v.g),
        Channels::Rgba => if l.bgra {
            encode_channel(t, v.b) + encode_channel(t, v.g) + encode_channel(t, v.r)
                + encode_channel(t, v.a)
        } else {
            encode_channel(t, v.r) + encode_channel(t, v.g) + encode_channel(t, v.b)
                + encode_channel(t, v.a)
        },
    }
}

/// `s` with the bytes from `start` on replaced by `part`.
pub open spec fn splice(s: Seq<u8>, start: int, part: Seq<u8>) -> Seq<u8> {
    s.take(start) + part + s.skip(start + part.len())
}

/// The value of channel `k` of the texel that starts at `start` in `data`.
fn read_channel(data: &[u8], start: usize, t: ChannelType, k: usize) -> (v: u32)
    requires
        k < 4,
        start + (k + 1) * t.width() <= data@.len(),
    ensures
        v == decode_channel(t, data@.subrange(start as int, data@.len() as int), k as int),
{
    assert(data.len() == data@.len());
    match t {
        ChannelType::U8 => {
            let o = start + k;
            data[o] as u32
        },
        ChannelType::U16 => {
            assert(start + 2 * k + 2 <= data@.len());
            let o = start + 2 * k;
            u16_from_le(data[o], data[o + 1]) as u32
        },
        ChannelType::U32 | ChannelType::F32 => {
            assert(start + 4 * k + 4 <= data@.len());
            let o = start + 4 * k;
            u32_from_le(data[o], data[o + 1], data[o + 2], data[o + 3])
        },
    }
}

/// The colour stored in the texel that starts at `start` in `data`.
pub fn read_texel(data: &[u8], start: usize, layout: TexelLayout) -> (v: ChannelValues)
    requires
        start + layout.byte_len() <= data@.len(),
    ensures
        v == decode_texel(layout, data@.subrange(start as int, start + layout.byte_len())),
{
    let ghost bytes = data@.subrange(start as int, start + layout.byte_len());
    let ghost rest = data@.subrange(start as int, data@.len() as int);
    let t = layout.channel_type;
    proof {
        assert forall|k: int| 0 <= k < layout.channels.count() implies
            #[trigger] decode_channel(t, bytes, k) == decode_channel(t, rest, k) by {
            assert(k * t.width() + t.width() <= layout.byte_len()) by (nonlinear_arith)
                requires
                    0 <= k < layout.channels.count(),
                    layout.byte_len() == t.width() * layout.channels.count(),
            ;
        }
    }
    match layout.channels {
        Channels::R => {
            ChannelValues { r: read_channel(data, start, t, 0), g: 0, b: 0, a: 0 }
        },
        Channels::Rg => {
            ChannelValues {
                r: read_channel(data, start, t, 0),
                g: read_channel(data, start, t, 1),
                b: 0,
                a: 0,
            }
        },
        Channels::Rgba => {
            let c0 = read_channel(data, start, t, 0);
            let c1 = read_channel(data, start, t, 1);
            let c2 = read_channel(data, start, t, 2);
            let c3 = read_channel(data, start, t, 3);
            if layout.bgra {
                ChannelValues { r: c2, g: c1, b: c0, a: c3 }
            } else {
                ChannelValues { r: c0, g: c1, b: c2, a: c3 }
            }
        },
    }
}

/// Splicing `p` at `a` and then `q` right after it splices `p + q` at `a`.
proof fn lemma_splice_then(s: Seq<u8>, a: int, p: Seq<u8>, q: Seq<u8>)
    requires
        0 <= a,
        a + p.len() + q.len() <= s.len(),
    ensures
        splice(splice(s, a, p), a + p.len(), q) == splice(s, a, p + q),
{
    assert(splice(splice(s, a, p), a + p.len(), q) =~= splice(s, a, p + q));
}

/// A channel value takes as many bytes as its channel type says.
proof fn lemma_encode_channel_len(t: ChannelType, v: u32)
    ensures
        encode_channel(t, v).len() == t.width(),
{
}

/// The bytes written for a colour are as many as a texel of the layout has.
pub proof fn lemma_encode_texel_len(l: TexelLayout, values: ChannelValues)
    ensures
        encode_texel(l, values).len() == l.byte_len(),
{
}

/// Stores one channel value at `start` in `data`.
fn write_channel(data: &mut Vec<u8>, start: usize, t: ChannelType, v: u32)
    requires
        start + t.width() <= old(data)@.len(),
    ensures
        final(data)@ == splice(old(data)@, start as int, encode_channel(t, v)),
{
    assert(data.len() == data@.len());
    match t {
        ChannelType::U8 => {
            data.set(start, v as u8);
        },
        ChannelType::U16 => {
            let w = v as u16;
            data.set(start, (w & 0xffu16) as u8);
            data.set(start + 1, ((w >> 8u16) & 0xffu16) as u8);
        },
        ChannelType::U32 | ChannelType::F32 => {
            data.set(start, (v & 0xffu32) as u8);
            data.set(start + 1, ((v >> 8u32) & 0xffu32) as u8);
            data.set(start + 2, ((v >> 16u32) & 0xffu32) as u8);
            data.set(start + 3, ((v >> 24u32) & 0xffu32) as u8);
        },
    }
    assert(data@ =~= splice(old(data)@, start as int, encode_channel(t, v)));
}

/// Stores a colour in the texel that starts at `start` in `data`.
pub fn write_texel(data: &mut Vec<u8>, start: usize, layout: TexelLayout, values: ChannelValues)
    requires
        start + layout.byte_len() <= old(data)@.len(),
    ensures
        final(data)@ == splice(old(data)@, start as int, encode_texel(layout, values)),
{
    let t = layout.channel_type;
    let w = t.byte_width();
    let ghost d0 = data@;
    assert(data.len() == data@.len());
    match layout.channels {
        Channels::R => {
            write_channel(data, start, t, values.r);
        },
        Channels::Rg => {
            assert(layout.byte_len() == w * 2);
            proof {
                lemma_encode_channel_len(t, values.r);
                lemma_encode_channel_len(t, values.g);
            }
            write_channel(data, start, t, values.r);
            write_channel(data, start + w, t, values.g);
            proof {
                lemma_splice_then(d0, start as int, encode_channel(t, values.r), encode_channel(t, values.g));
            }
        },
        Channels::Rgba => {
            let (c0, c1, c2, c3) = if layout.bgra {
                (values.b, values.g, values.r, values.a)
            } else {
                (values.r, values.g, values.b, values.a)
            };
            assert(layout.byte_len() == w * 4);
            let ghost e0 = encode_channel(t, c0);
            let ghost e1 = encode_channel(t, c1);
            let ghost e2 = encode_channel(t, c2);
            let ghost e3 = encode_channel(t, c3);
            proof {
                lemma_encode_channel_len(t, c0);
                lemma_encode_channel_len(t, c1);
                lemma_encode_channel_len(t, c2);
                lemma_encode_channel_len(t, c3);
            }
            write_channel(data, start, t, c0);
            write_channel(data, start + w, t, c1);
            proof {
                lemma_splice_then(d0, start as int, e0, e1);
            }
            write_channel(data, start + 2 * w, t, c2);
            proof {
                lemma_splice_then(d0, start as int, e0 + e1, e2);
            }
            write_channel(data, start + 3 * w, t, c3);
            proof {
                lemma_splice_then(d0, start as int, e0 + e1 + e2, e3);
            }
        },
    }
}

/// Whether every channel a layout stores can hold the value given for it.
pub open spec fn values_fit(l: TexelLayout, v: ChannelValues) -> bool {
    let t = l.channel_type;
    &&& t.holds(v.r)
    &&& l.channels.count() >= 2 ==> t.holds(v.g)
    &&& l.channels.count() == 4 ==> t.holds(v.b) && t.holds(v.a)
}

/// The colour a layout keeps of `v`: the channels it stores, zero for the others.
pub open spec fn stored_values(l: TexelLayout, v: ChannelValues) -> ChannelValues {
    match l.channels {
        Channels::R => ChannelValues { r: v.r, g: 0, b: 0, a: 0 },
        Channels::Rg => ChannelValues { r: v.r, g: v.g, b: 0, a: 0 },
        Channels::Rgba => v,
    }
}

/// A channel value stored after `k` channels reads back as itself.
proof fn lemma_channel_round_trip(t: ChannelType, v: u32, pre: Seq<u8>, post: Seq<u8>, k: int)
    requires
        0 <= k,
        pre.len() == k * t.width(),
        t.holds(v),
    ensures
        decode_channel(t, pre + encode_channel(t, v) + post, k) == v,
{
    let bytes = pre + encode_channel(t, v) + post;
    let o = k * t.width();
    match t {
        ChannelType::U8 => {
            assert(bytes[o] == (v as u8));
        },
        ChannelType::U16 => {
            let w = v as u16;
            lemma_u16_le_round_trip(w);
            assert(bytes[o] == u16_le_bytes(w)[0]);
            assert(bytes[o + 1] == u16_le_bytes(w)[1]);
        },
        ChannelType::U32 | ChannelType::F32 => {
            lemma_u32_le_round_trip(v);
            assert(bytes[o] == u32_le_bytes(v)[0]);
            assert(bytes[o + 1] == u32_le_bytes(v)[1]);
            assert(bytes[o + 2] == u32_le_bytes(v)[2]);
            assert(bytes[o + 3] == u32_le_bytes(v)[3]);
        },
    }
}

/// Reading a texel back right after writing it gives the channels the
/// layout stores, unchanged where each value fits its channel.
pub proof fn lemma_texel_round_trip(l: TexelLayout, values: ChannelValues, data: Seq<u8>, start: int)
    requires
        values_fit(l, values),
        0 <= start,
        start + l.byte_len() <= data.len(),
    ensures
        decode_texel(l, splice(data, start, encode_texel(l, values)).subrange(start, start + l.byte_len()))
            == stored_values(l, values),
{
    let t = l.channel_type;
    let e = encode_texel(l, values);
    lemma_encode_texel_len(l, values);
    let bytes = splice(data, start, e).subrange(start, start + l.byte_len());
    assert(bytes =~= e);
    let empty = Seq::<u8>::empty();
    match l.channels {
        Channels::R => {
            let er = encode_channel(t, values.r);
            assert(bytes =~= empty + er + empty);
            lemma_channel_round_trip(t, values.r, empty, empty, 0);
        },
        Channels::Rg => {
            let er = encode_channel(t, values.r);
            let eg = encode_channel(t, values.g);
            lemma_encode_channel_len(t, values.r);
            assert(bytes =~= empty + er + eg);
            lemma_channel_round_trip(t, values.r, empty, eg, 0);
            assert(bytes =~= er + eg + empty);
            lemma_channel_round_trip(t, values.g, er, empty, 1);
        },
        Channels::Rgba => {
            let (v0, v1, v2, v3) = if l.bgra {
                (values.b, values.g, values.r, values.a)
            } else {
                (values.r, values.g, values.b, values.a)
            };
            let e0 = encode_channel(t, v0);
            let e1 = encode_channel(t, v1);
            let e2 = encode_channel(t, v2);
            let e3 = encode_channel(t, v3);
            lemma_encode_channel_len(t, v0);
            lemma_encode_channel_len(t, v1);
            lemma_encode_channel_len(t, v2);
            assert(bytes =~= empty + e0 + (e1 + e2 + e3));
            lemma_channel_round_trip(t, v0, empty, e1 + e2 + e3, 0);
            assert(bytes =~= e0 + e1 + (e2 + e3));
            lemma_channel_round_trip(t, v1, e0, e2 + e3, 1);
            assert(bytes =~= (e0 + e1) + e2 + e3);
            assert((e0 + e1).len() == 2 * t.width());
            lemma_channel_round_trip(t, v2, e0 + e1, e3, 2);
            assert(bytes =~= (e0 + e1 + e2) + e3 + empty);
            assert((e0 + e1 + e2).len() == 3 * t.width());
            lemma_channel_round_trip(t, v3, e0 + e1 + e2, empty, 3);
        },
    }
}

/// How each format the library reads lays out a texel: the `R` formats
/// store one channel and the `Rg` formats two, the others four; only the
/// two BGRA formats store blue first, only the two sRGB formats are sRGB encoded,
/// only the float formats hold float channels, and a texel takes the bytes
/// of the format's block in wgpu. Four channels are stored red, green,
/// blue, alpha, or blue, green, red, alpha where blue comes first; two are
/// stored red, green; one is red.
pub proof fn lemma_texel_layout_of_formats(format: wgpu::TextureFormat, bytes: Seq<u8>, values: ChannelValues)
    requires
        format_texel_layout(format) is Some,
    ensures
        ({
            let l = format_texel_layout(format).unwrap();
            let t = l.channel_type;
            let w = t.width() as int;
            &&& l.bgra <==> (format is Bgra8Unorm || format is Bgra8UnormSrgb)
            &&& l.srgb <==> (format is Rgba8UnormSrgb || format is Bgra8UnormSrgb)
            &&& t is F32 <==> (format is R32Float || format is Rg32Float || format is Rgba32Float)
            &&& l.channels is R <==> (format is R8Unorm || format is R8Uint || format is R16Unorm
                || format is R16Uint || format is R32Uint || format is R32Float)
            &&& l.channels is Rg <==> (format is Rg8Unorm || format is Rg8Uint || format is Rg16Unorm
                || format is Rg16Uint || format is Rg32Uint || format is Rg32Float)
            &&& crate::gpu::texture_block_size(format) == Some(l.byte_len() as u32)
            &&& decode_texel(l, bytes).r == decode_channel(t, bytes, if l.bgra { 2 } else { 0 })
            &&& l.channels.count() >= 2 ==> decode_texel(l, bytes).g == decode_channel(t, bytes, 1)
            &&& l.channels.count() == 4 ==> decode_texel(l, bytes).b == decode_channel(t, bytes, if l.bgra { 0 } else { 2 })
            &&& l.channels.count() == 4 ==> decode_texel(l, bytes).a == decode_channel(t, bytes, 3)
            &&& encode_texel(l, values).subrange(if l.bgra { 2 * w } else { 0 }, if l.bgra { 3 * w } else { w })
                == encode_channel(t, values.r)
            &&& l.channels.count() == 4 ==> encode_texel(l, values).subrange(if l.bgra { 0 } else { 2 * w }, if l.bgra { w } else { 3 * w })
                == encode_channel(t, values.b)
        }),
{
    let l = format_texel_layout(format).unwrap();
    let t = l.channel_type;
    let w = t.width() as int;
    let er = encode_channel(t, values.r);
    let eg = encode_channel(t, values.g);
    let eb = encode_channel(t, values.b);
    let ea = encode_channel(t, values.a);
    lemma_encode_channel_len(t, values.r);
    lemma_encode_channel_len(t, values.g);
    lemma_encode_channel_len(t, values.b);
    lemma_encode_channel_len(t, values.a);
    match l.channels {
        Channels::R => {
            assert(encode_texel(l, values).subrange(0, w) =~= er);
        },
        Channels::Rg => {
            assert(encode_texel(l, values).subrange(0, w) =~= er);
        },
        Channels::Rgba => {
            if l.bgra {
                assert(encode_texel(l, values).subrange(2 * w, 3 * w) =~= er);
                assert(encode_texel(l, values).subrange(0, w) =~= eb);
            } else {
                assert(encode_texel(l, values).subrange(0, w) =~= er);
                assert(encode_texel(l, values).subrange(2 * w, 3 * w) =~= eb);
            }
        },
    }
}

} // verus!
