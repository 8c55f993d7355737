//! Normaliser that turns decoded samples into the byte layout and the mode that a
//! raster-image library expects.
//!
//! Samples come in four element types, interleaved by channel. A single channel
//! without alpha keeps its full width: two bytes for a 16-bit sample, four bytes for
//! a floating-point one. Every other layout is cast down to one byte per sample.

use crate::ieee754::{half_to_single, scale_to_byte, scaled_byte, widen_half};
use vstd::prelude::*;

verus! {

/// The order in which the bytes of a wider sample are written.
#[derive(Clone, Copy, Debug, PartialEq, Eq, Structural)]
pub enum ByteOrder {
    /// Lowest byte first.
    LittleEndian,
    /// Highest byte first.
    BigEndian,
}

/// Decoded samples, in row-major order and interleaved by channel.
#[derive(Clone, Debug, PartialEq, Eq)]
pub enum SampleBuffer {
    /// Samples of 8 bits.
    UInt8(Vec<u8>),
    /// Samples of 16 bits.
    UInt16(Vec<u16>),
    /// Single-precision samples, each held by its 32-bit pattern.
    Float32(Vec<u32>),
    /// Half-precision samples, each held by its 16-bit pattern.
    Float16(Vec<u16>),
}

/// Mathematical model of a [`SampleBuffer`].
pub enum SampleModel {
    UInt8(Seq<u8>),
    UInt16(Seq<u16>),
    Float32(Seq<u32>),
    Float16(Seq<u16>),
}

impl View for SampleBuffer {
    type V = SampleModel;

    open spec fn view(&self) -> SampleModel {
        match self {
            SampleBuffer::UInt8(samples) => SampleModel::UInt8(samples@),
            SampleBuffer::UInt16(samples) => SampleModel::UInt16(samples@),
            SampleBuffer::Float32(samples) => SampleModel::Float32(samples@),
            SampleBuffer::Float16(samples) => SampleModel::Float16(samples@),
        }
    }
}

impl SampleModel {
    /// The number of samples.
    pub open spec fn len(self) -> nat {
        match self {
            SampleModel::UInt8(samples) => samples.len(),
            SampleModel::UInt16(samples) => samples.len(),
            SampleModel::Float32(samples) => samples.len(),
            SampleModel::Float16(samples) => samples.len(),
        }
    }
}

/// How the samples of a pixel are interleaved.
#[derive(Clone, Copy, Debug, PartialEq, Eq, Structural)]
pub struct ChannelLayout {
    /// Number of colour channels, without the alpha channel: 1 or 3.
    pub num_channels: u32,
    /// Whether an alpha sample follows the colour samples of each pixel.
    pub has_alpha: bool,
}

/// The byte layout of normalised pixels.
#[derive(Clone, Copy, Debug, PartialEq, Eq, Structural)]
pub enum ModeTag {
    /// One byte of luma per pixel.
    Luma,
    /// One byte of luma and one of alpha per pixel.
    LumaAlpha,
    /// Three bytes of colour per pixel.
    Rgb,
    /// Three bytes of colour and one of alpha per pixel.
    Rgba,
    /// Two bytes of luma per pixel.
    Luma16,
    /// One single-precision number of luma per pixel.
    LumaFloat,
}

/// Failure of a normalisation.
#[derive(Clone, Copy, Debug, PartialEq, Eq, Structural)]
pub enum NormalizeError {
    /// The number of colour channels is neither 1 nor 3.
    UnsupportedPixelFormat { num_channels: u32 },
}

/// Description of a decoded image.
#[derive(Clone, Copy, Debug, PartialEq, Eq, Structural)]
pub struct ImageInfo {
    /// Byte layout of the pixels.
    pub mode: ModeTag,
    /// Width of the image.
    pub width: u32,
    /// Height of the image.
    pub height: u32,
    /// Number of colour channels per pixel.
    pub num_channels: u32,
    /// Whether the image has an alpha channel.
    pub has_alpha_channel: bool,
}

impl ModeTag {
    /// The number of bytes that one sample takes in this mode.
    pub open spec fn bytes_per_sample(self) -> nat {
        match self {
            ModeTag::Luma16 => 2,
            ModeTag::LumaFloat => 4,
            _ => 1,
        }
    }

    /// The name of the mode, as a sequence of characters.
    pub open spec fn name_chars(self) -> Seq<char> {
        match self {
            ModeTag::Luma => "L"@,
            ModeTag::LumaAlpha => "LA"@,
            ModeTag::Rgb => "RGB"@,
            ModeTag::Rgba => "RGBA"@,
            ModeTag::Luma16 => "I;16"@,
            ModeTag::LumaFloat => "F"@,
        }
    }

    /// The name by which raster-image libraries know the mode.
    pub fn name(&self) -> (text: &'static str)
        ensures
            text@ == self.name_chars(),
    {
        match self {
            ModeTag::Luma => "L",
            ModeTag::LumaAlpha => "LA",
            ModeTag::Rgb => "RGB",
            ModeTag::Rgba => "RGBA",
            ModeTag::Luma16 => "I;16",
            ModeTag::LumaFloat => "F",
        }
    }
}

/// The mode of an image with the given channels, whose samples are `samples` where
/// it has decoded samples.
pub open spec fn mode_of(
    num_channels: u32,
    has_alpha: bool,
    samples: Option<SampleModel>,
) -> Result<ModeTag, NormalizeError> {
    if num_channels == 3 {
        Ok(
            if has_alpha {
                ModeTag::Rgba
            } else {
                ModeTag::Rgb
            },
        )
    } else if num_channels != 1 {
        Err(NormalizeError::UnsupportedPixelFormat { num_channels })
    } else if has_alpha {
        Ok(ModeTag::LumaAlpha)
    } else {
        Ok(
            match samples {
                Some(SampleModel::UInt16(_)) => ModeTag::Luma16,
                Some(SampleModel::Float32(_)) => ModeTag::LumaFloat,
                Some(SampleModel::Float16(_)) => ModeTag::LumaFloat,
                _ => ModeTag::Luma,
            },
        )
    }
}

impl ImageInfo {
    /// Picks the mode of an image by its channels and the element type of its samples.
    ///
    /// A single channel without alpha keeps the width of its samples; half-precision
    /// samples are written in single precision. Every other layout has one byte per
    /// sample. `pixel_type` is `None` where the image has no decoded samples.
    pub fn mode(
        num_channels: u32,
        has_alpha_channel: bool,
        pixel_type: Option<&SampleBuffer>,
    ) -> (result: Result<ModeTag, NormalizeError>)
        ensures
            result == mode_of(
                num_channels,
                has_alpha_channel,
                match pixel_type {
                    Some(samples) => Some(samples@),
                    None => None,
                },
            ),
            result is Ok <==> (num_channels == 1 || num_channels == 3),
    {
        if num_channels == 3 {
            if has_alpha_channel {
                Ok(ModeTag::Rgba)
            } else {
                Ok(ModeTag::Rgb)
            }
        } else if num_channels != 1 {
            Err(NormalizeError::UnsupportedPixelFormat { num_channels })
        } else if has_alpha_channel {
            Ok(ModeTag::LumaAlpha)
        } else {
            match pixel_type {
                Some(SampleBuffer::UInt16(_)) => Ok(ModeTag::Luma16),
                Some(SampleBuffer::Float32(_)) => Ok(ModeTag::LumaFloat),
                Some(SampleBuffer::Float16(_)) => Ok(ModeTag::LumaFloat),
                _ => Ok(ModeTag::Luma),
            }
        }
    }
}

/// The two bytes of `x` in the given order.
pub open spec fn u16_bytes(x: u16, order: ByteOrder) -> Seq<u8> {
    let low = (x % 0x100) as u8;
    let high = (x / 0x100) as u8;
    match order {
        ByteOrder::LittleEndian => seq![low, high],
        ByteOrder::BigEndian => seq![high, low],
    }
}

/// The four bytes of `x` in the given order.
pub open spec fn u32_bytes(x: u32, order: ByteOrder) -> Seq<u8> {
    let b0 = (x % 0x100) as u8;
    let b1 = ((x / 0x100) % 0x100) as u8;
    let b2 = ((x / 0x1_0000) % 0x100) as u8;
    let b3 = (x / 0x100_0000) as u8;
    match order {
        ByteOrder::LittleEndian => seq![b0, b1, b2, b3],
        ByteOrder::BigEndian => seq![b3, b2, b1, b0],
    }
}

/// The bytes of all of `samples`, two for each, in the given order.
pub open spec fn u16s_bytes(samples: Seq<u16>, order: ByteOrder) -> Seq<u8> {
    Seq::new(2 * samples.len(), |i: int| u16_bytes(samples[i / 2], order)[i % 2])
}

/// The bytes of all of `samples`, four for each, in the given order.
pub open spec fn u32s_bytes(samples: Seq<u32>, order: ByteOrder) -> Seq<u8> {
    Seq::new(4 * samples.len(), |i: int| u32_bytes(samples[i / 4], order)[i % 4])
}

/// The high byte of each of `samples`.
pub open spec fn high_bytes(samples: Seq<u16>) -> Seq<u8> {
    Seq::new(samples.len(), |i: int| (samples[i] / 0x100) as u8)
}

/// Each of the single-precision `samples`, cast down to a byte.
pub open spec fn scaled_bytes(samples: Seq<u32>) -> Seq<u8> {
    Seq::new(samples.len(), |i: int| scaled_byte(samples[i]))
}

/// Each of the half-precision `samples`, widened to single precision.
pub open spec fn widened(samples: Seq<u16>) -> Seq<u32> {
    Seq::new(samples.len(), |i: int| widen_half(samples[i]))
}

/// The bytes of `samples` at their full width.
pub open spec fn exact_bytes(samples: SampleModel, order: ByteOrder) -> Seq<u8> {
    match samples {
        SampleModel::UInt8(s) => s,
        SampleModel::UInt16(s) => u16s_bytes(s, order),
        SampleModel::Float32(s) => u32s_bytes(s, order),
        SampleModel::Float16(s) => u32s_bytes(widened(s), order),
    }
}

/// The bytes of `samples`, each cast down to 8 bits.
pub open spec fn eight_bit_bytes(samples: SampleModel) -> Seq<u8> {
    match samples {
        SampleModel::UInt8(s) => s,
        SampleModel::UInt16(s) => high_bytes(s),
        SampleModel::Float32(s) => scaled_bytes(s),
        SampleModel::Float16(s) => scaled_bytes(widened(s)),
    }
}

/// Whether the samples of a layout keep their full width.
pub open spec fn keeps_width(layout: ChannelLayout) -> bool {
    layout.num_channels == 1 && !layout.has_alpha
}

/// The normalised bytes and the mode of `samples` in the given layout, with wider
/// samples written in the given byte order.
pub open spec fn normalized(
    samples: SampleModel,
    layout: ChannelLayout,
    order: ByteOrder,
) -> Result<(Seq<u8>, ModeTag), NormalizeError> {
    match mode_of(layout.num_channels, layout.has_alpha, Some(samples)) {
        Err(e) => Err(e),
        Ok(mode) => Ok(
            (
                if keeps_width(layout) {
                    exact_bytes(samples, order)
                } else {
                    eight_bit_bytes(samples)
                },
                mode,
            ),
        ),
    }
}

/// The model of a normalisation result.
pub open spec fn normalized_view(result: Result<(Vec<u8>, ModeTag), NormalizeError>) -> Result<
    (Seq<u8>, ModeTag),
    NormalizeError,
> {
    match result {
        Ok((bytes, mode)) => Ok((bytes@, mode)),
        Err(e) => Err(e),
    }
}

/// Writes the two bytes of `x` to the end of `out`.
fn push_u16(out: &mut Vec<u8>, x: u16, order: ByteOrder)
    ensures
        final(out)@ == old(out)@ + u16_bytes(x, order),
{
    let low: u8 = (x % 0x100) as u8;
    let high: u8 = (x / 0x100) as u8;
    let ghost before = out@;
    match order {
        ByteOrder::LittleEndian => {
            out.push(low);
            out.push(high);
        },
        ByteOrder::BigEndian => {
            out.push(high);
            out.push(low);
        },
    }
    assert(out@ =~= before + u16_bytes(x, order));
}

/// Writes the four bytes of `x` to the end of `out`.
fn push_u32(out: &mut Vec<u8>, x: u32, order: ByteOrder)
    ensures
        final(out)@ == old(out)@ + u32_bytes(x, order),
{
    let b0: u8 = (x % 0x100) as u8;
    let b1: u8 = ((x / 0x100) % 0x100) as u8;
    let b2: u8 = ((x / 0x1_0000) % 0x100) as u8;
    let b3: u8 = (x / 0x100_0000) as u8;
    let ghost before = out@;
    match order {
        ByteOrder::LittleEndian => {
            out.push(b0);
            out.push(b1);
            out.push(b2);
            out.push(b3);
        },
        ByteOrder::BigEndian => {
            out.push(b3);
            out.push(b2);
            out.push(b1);
            out.push(b0);
        },
    }
    assert(out@ =~= before + u32_bytes(x, order));
}

/// The bytes of the first `count + 1` samples are those of the first `count`,
/// followed by the bytes of the next one.
proof fn lemma_u16s_bytes_step(samples: Seq<u16>, count: int, order: ByteOrder)
    requires
        0 <= count < samples.len(),
    ensures
        u16s_bytes(samples.take(count + 1), order) == u16s_bytes(samples.take(count), order)
            + u16_bytes(samples[count], order),
{
    assert(u16s_bytes(samples.take(count + 1), order) =~= u16s_bytes(samples.take(count), order)
        + u16_bytes(samples[count], order));
}

/// The bytes of the first `count + 1` samples are those of the first `count`,
/// followed by the bytes of the next one.
proof fn lemma_u32s_bytes_step(samples: Seq<u32>, count: int, order: ByteOrder)
    requires
        0 <= count < samples.len(),
    ensures
        u32s_bytes(samples.take(count + 1), order) == u32s_bytes(samples.take(count), order)
            + u32_bytes(samples[count], order),
{
    assert(u32s_bytes(samples.take(count + 1), order) =~= u32s_bytes(samples.take(count), order)
        + u32_bytes(samples[count], order));
}

/// Turns samples into bytes at their full width.
///
/// Bytes are handed on as they are. A 16-bit sample gives two bytes and a
/// single-precision one gives four, in the given order. A half-precision sample is
/// widened to single precision first.
pub fn pixels_to_bytes(pixels: SampleBuffer, order: ByteOrder) -> (bytes: Vec<u8>)
    ensures
        bytes@ == exact_bytes(pixels@, order),
{
    match pixels {
        SampleBuffer::UInt8(samples) => samples,
        SampleBuffer::UInt16(samples) => {
            let mut result: Vec<u8> = Vec::new();
            let mut i: usize = 0;
            assert(result@ =~= u16s_bytes(samples@.take(0), order));
            while i < samples.len()
                invariant
                    i <= samples.len(),
                    result@ == u16s_bytes(samples@.take(i as int), order),
                decreases samples.len() - i,
            {
                proof {
                    lemma_u16s_bytes_step(samples@, i as int, order);
                }
                push_u16(&mut result, samples[i], order);
                i += 1;
            }
            assert(samples@.take(samples@.len() as int) =~= samples@);
            result
        },
        SampleBuffer::Float32(samples) => {
            let mut result: Vec<u8> = Vec::new();
            let mut i: usize = 0;
            assert(result@ =~= u32s_bytes(samples@.take(0), order));
            while i < samples.len()
                invariant
                    i <= samples.len(),
                    result@ == u32s_bytes(samples@.take(i as int), order),
                decreases samples.len() - i,
            {
                proof {
                    lemma_u32s_bytes_step(samples@, i as int, order);
                }
                push_u32(&mut result, samples[i], order);
                i += 1;
            }
            assert(samples@.take(samples@.len() as int) =~= samples@);
            result
        },
        SampleBuffer::Float16(samples) => {
            let mut result: Vec<u8> = Vec::new();
            let mut i: usize = 0;
            let ghost wide = widened(samples@);
            assert(result@ =~= u32s_bytes(wide.take(0), order));
            while i < samples.len()
                invariant
                    i <= samples.len(),
                    wide == widened(samples@),
                    result@ == u32s_bytes(wide.take(i as int), order),
                decreases samples.len() - i,
            {
                proof {
                    lemma_u32s_bytes_step(wide, i as int, order);
                }
                push_u32(&mut result, half_to_single(samples[i]), order);
                i += 1;
            }
            assert(wide.take(wide.len() as int) =~= wide);
            result
        },
    }
}

/// Turns samples into bytes of 8 bits each.
///
/// Bytes are handed on as they are. A 16-bit sample gives its high byte. A
/// single-precision sample is multiplied by 255 and cut off behind the binary point;
/// a half-precision one is widened to single precision first.
pub fn pixels_to_bytes_8bit(pixels: SampleBuffer) -> (bytes: Vec<u8>)
    ensures
        bytes@ == eight_bit_bytes(pixels@),
{
    match pixels {
        SampleBuffer::UInt8(samples) => samples,
        SampleBuffer::UInt16(samples) => {
            let mut result: Vec<u8> = Vec::new();
            let mut i: usize = 0;
            while i < samples.len()
                invariant
                    i <= samples.len(),
                    result@.len() == i,
                    forall|j: int| 0 <= j < i ==> result@[j] == (samples@[j] / 0x100) as u8,
                decreases samples.len() - i,
            {
                let sample: u16 = samples[i];
                assert(sample >> 8 == sample / 0x100) by (bit_vector);
                result.push((sample >> 8) as u8);
                i += 1;
            }
            assert(result@ =~= high_bytes(samples@));
            result
        },
        SampleBuffer::Float32(samples) => {
            let mut result: Vec<u8> = Vec::new();
            let mut i: usize = 0;
            while i < samples.len()
                invariant
                    i <= samples.len(),
                    result@.len() == i,
                    forall|j: int| 0 <= j < i ==> result@[j] == scaled_byte(samples@[j]),
                decreases samples.len() - i,
            {
                result.push(scale_to_byte(samples[i]));
                i += 1;
            }
            assert(result@ =~= scaled_bytes(samples@));
            result
        },
        SampleBuffer::Float16(samples) => {
            let mut result: Vec<u8> = Vec::new();
            let mut i: usize = 0;
            while i < samples.len()
                invariant
                    i <= samples.len(),
                    result@.len() == i,
                    forall|j: int|
                        0 <= j < i ==> result@[j] == scaled_byte(widen_half(samples@[j])),
                decreases samples.len() - i,
            {
                result.push(scale_to_byte(half_to_single(samples[i])));
                i += 1;
            }
            assert(result@ =~= scaled_bytes(widened(samples@)));
            result
        },
    }
}

/// Calls `u16::to_ne_bytes`, which gives the two bytes of a number in the byte order
/// of the machine: the result is the little-endian or the big-endian form of `x`.
#[verifier::external_body]
fn native_bytes(x: u16) -> (bytes: [u8; 2])
    ensures
        bytes@ == u16_bytes(x, ByteOrder::LittleEndian) || bytes@ == u16_bytes(
            x,
            ByteOrder::BigEndian,
        ),
{
    x.to_ne_bytes()
}

impl ByteOrder {
    /// The byte order in which `probe` holds the number 1: little-endian where the
    /// first byte is the 1, big-endian where it is not.
    pub fn of_one(probe: [u8; 2]) -> (order: ByteOrder)
        ensures
            order == if probe@[0] == 1 {
                ByteOrder::LittleEndian
            } else {
                ByteOrder::BigEndian
            },
            probe@ == u16_bytes(1, ByteOrder::LittleEndian) ==> order == ByteOrder::LittleEndian,
            probe@ == u16_bytes(1, ByteOrder::BigEndian) ==> order == ByteOrder::BigEndian,
    {
        if probe[0] == 1 {
            ByteOrder::LittleEndian
        } else {
            ByteOrder::BigEndian
        }
    }

    /// The byte order of the machine that runs the program, found by looking at how
    /// it lays out the number 1.
    pub fn native() -> ByteOrder {
        ByteOrder::of_one(native_bytes(1))
    }
}

/// Normalises `samples` of the given layout, with wider samples written in the byte
/// order `order`.
///
/// A layout whose number of colour channels is neither 1 nor 3 is refused, and
/// nothing is produced. A single channel without alpha keeps the width of its
/// samples. Every other layout gets one byte per sample.
pub fn normalize_with(samples: SampleBuffer, layout: ChannelLayout, order: ByteOrder) -> (result:
    Result<(Vec<u8>, ModeTag), NormalizeError>)
    ensures
        normalized_view(result) == normalized(samples@, layout, order),
{
    let chosen = ImageInfo::mode(layout.num_channels, layout.has_alpha, Some(&samples));
    let mode: ModeTag = match chosen {
        Ok(mode) => mode,
        Err(e) => {
            return Err(e);
        },
    };
    let bytes: Vec<u8> = if layout.num_channels == 1 && !layout.has_alpha {
        pixels_to_bytes(samples, order)
    } else {
        pixels_to_bytes_8bit(samples)
    };
    Ok((bytes, mode))
}

/// Normalises `samples` of the given layout, with wider samples written in the byte
/// order of the machine.
///
/// The result is that of [`normalize_with`] for one of the two byte orders. Where no
/// sample takes more than one byte, the two agree.
pub fn normalize(samples: SampleBuffer, layout: ChannelLayout) -> (result: Result<
    (Vec<u8>, ModeTag),
    NormalizeError,
>)
    ensures
        normalized_view(result) == normalized(samples@, layout, ByteOrder::LittleEndian)
            || normalized_view(result) == normalized(samples@, layout, ByteOrder::BigEndian),
        layout.num_channels != 1 && layout.num_channels != 3 ==> result == Err::<
            (Vec<u8>, ModeTag),
            NormalizeError,
        >(NormalizeError::UnsupportedPixelFormat { num_channels: layout.num_channels }),
        layout.num_channels == 1 || layout.num_channels == 3 ==> result is Ok,
        samples@ is UInt8 && result is Ok ==> result->Ok_0.0@ == samples@->UInt8_0,
        !keeps_width(layout) ==> normalized_view(result) == normalized(
            samples@,
            layout,
            ByteOrder::LittleEndian,
        ),
{
    normalize_with(samples, layout, ByteOrder::native())
}

/// Half-precision samples normalise to what their widened single-precision samples
/// normalise to, byte for byte and in every layout.
pub proof fn normalized_half_as_single(samples: Seq<u16>, layout: ChannelLayout, order: ByteOrder)
    ensures
        normalized(SampleModel::Float16(samples), layout, order) == normalized(
            SampleModel::Float32(widened(samples)),
            layout,
            order,
        ),
{
}

/// A layout whose number of colour channels is neither 1 nor 3 is refused whatever
/// the samples are, and every other layout is accepted.
pub proof fn normalized_refuses_other_channels(
    samples: SampleModel,
    layout: ChannelLayout,
    order: ByteOrder,
)
    ensures
        layout.num_channels != 1 && layout.num_channels != 3 ==> normalized(samples, layout, order)
            == Err::<(Seq<u8>, ModeTag), NormalizeError>(
            NormalizeError::UnsupportedPixelFormat { num_channels: layout.num_channels },
        ),
        layout.num_channels == 1 || layout.num_channels == 3 ==> normalized(
            samples,
            layout,
            order,
        ) is Ok,
{
}

/// Samples of 8 bits pass through unchanged in every accepted layout, and take the
/// 8-bit mode of the layout.
pub proof fn normalized_bytes_pass_through(
    samples: Seq<u8>,
    layout: ChannelLayout,
    order: ByteOrder,
)
    requires
        layout.num_channels == 1 || layout.num_channels == 3,
    ensures
        normalized(SampleModel::UInt8(samples), layout, order) == Ok::<
            (Seq<u8>, ModeTag),
            NormalizeError,
        >(
            (
                samples,
                if layout.num_channels == 3 {
                    if layout.has_alpha {
                        ModeTag::Rgba
                    } else {
                        ModeTag::Rgb
                    }
                } else if layout.has_alpha {
                    ModeTag::LumaAlpha
                } else {
                    ModeTag::Luma
                },
            ),
        ),
{
}

/// The number of normalised bytes is the number of samples times the bytes that the
/// mode takes per sample.
pub proof fn normalized_length(samples: SampleModel, layout: ChannelLayout, order: ByteOrder)
    requires
        normalized(samples, layout, order) is Ok,
    ensures
        normalized(samples, layout, order)->Ok_0.0.len() == samples.len() * normalized(
            samples,
            layout,
            order,
        )->Ok_0.1.bytes_per_sample(),
{
}

} // verus!
