//! Assembly of what a decoder hands back to its caller: the description of the
//! image, its pixel bytes, its colour profile and its metadata boxes.

use crate::container::{boxes_view, result_view, BoxModel, FormatError, JxlBox};
use crate::pixels::{
    mode_of, normalize_with, normalized, ByteOrder, ChannelLayout, ImageInfo, ModeTag,
    NormalizeError, SampleBuffer, SampleModel,
};
use vstd::prelude::*;

verus! {

/// What the codec reports of a decoded image.
#[derive(Clone, Debug, PartialEq, Eq)]
pub struct CodecMetadata {
    /// Width of the image.
    pub width: u32,
    /// Height of the image.
    pub height: u32,
    /// Number of colour channels per pixel, without the alpha channel.
    pub num_color_channels: u32,
    /// Whether the image has an alpha channel.
    pub has_alpha_channel: bool,
    /// The ICC profile, where the codec found one.
    pub icc_profile: Option<Vec<u8>>,
}

/// What the codec made of the image data.
#[derive(Clone, Debug, PartialEq, Eq)]
pub enum CodecOutput {
    /// The JPEG stream that the file was made from, reconstructed without loss.
    Jpeg(Vec<u8>),
    /// Decoded samples.
    Pixels(SampleBuffer),
}

/// What a decode returns to its caller.
#[derive(Clone, Debug, PartialEq, Eq)]
pub struct DecodeResult {
    /// Whether `pixel_bytes` holds a reconstructed JPEG stream.
    pub is_jpeg_reconstruction: bool,
    /// Description of the image.
    pub info: ImageInfo,
    /// The normalised pixels, or the JPEG stream as the codec gave it.
    pub pixel_bytes: Vec<u8>,
    /// The ICC profile; empty where the codec reported none.
    pub icc_profile: Vec<u8>,
    /// The metadata boxes of the file.
    pub boxes: Vec<JxlBox>,
}

/// Failure of a decode.
#[derive(Clone, Copy, Debug, PartialEq, Eq, Structural)]
pub enum DecodeError {
    /// The box scan of the file failed: its container is malformed.
    Container(FormatError),
    /// The pixels have a layout that cannot be normalised.
    Pixels(NormalizeError),
}

/// Mathematical model of a [`CodecOutput`].
pub enum OutputModel {
    Jpeg(Seq<u8>),
    Pixels(SampleModel),
}

impl View for CodecOutput {
    type V = OutputModel;

    open spec fn view(&self) -> OutputModel {
        match self {
            CodecOutput::Jpeg(bytes) => OutputModel::Jpeg(bytes@),
            CodecOutput::Pixels(samples) => OutputModel::Pixels(samples@),
        }
    }
}

/// Mathematical model of a [`DecodeResult`].
pub struct DecodeModel {
    pub is_jpeg_reconstruction: bool,
    pub info: ImageInfo,
    pub pixel_bytes: Seq<u8>,
    pub icc_profile: Seq<u8>,
    pub boxes: Seq<BoxModel>,
}

impl View for DecodeResult {
    type V = DecodeModel;

    open spec fn view(&self) -> DecodeModel {
        DecodeModel {
            is_jpeg_reconstruction: self.is_jpeg_reconstruction,
            info: self.info,
            pixel_bytes: self.pixel_bytes@,
            icc_profile: self.icc_profile@,
            boxes: boxes_view(self.boxes@),
        }
    }
}

impl CodecMetadata {
    /// How the samples of the image are interleaved.
    pub open spec fn layout(self) -> ChannelLayout {
        ChannelLayout {
            num_channels: self.num_color_channels,
            has_alpha: self.has_alpha_channel,
        }
    }

    /// The bytes of the ICC profile; none where the codec reported no profile.
    pub open spec fn profile_bytes(self) -> Seq<u8> {
        match self.icc_profile {
            Some(profile) => profile@,
            None => Seq::empty(),
        }
    }
}

/// The decoded samples of an output; none for a reconstructed JPEG stream.
pub open spec fn samples_of(output: OutputModel) -> Option<SampleModel> {
    match output {
        OutputModel::Pixels(samples) => Some(samples),
        OutputModel::Jpeg(_) => None,
    }
}

/// The description of an image with the given metadata and output.
pub open spec fn described(metadata: CodecMetadata, output: OutputModel) -> Result<
    ImageInfo,
    NormalizeError,
> {
    match mode_of(metadata.num_color_channels, metadata.has_alpha_channel, samples_of(output)) {
        Ok(mode) => Ok(
            ImageInfo {
                mode,
                width: metadata.width,
                height: metadata.height,
                num_channels: metadata.num_color_channels,
                has_alpha_channel: metadata.has_alpha_channel,
            },
        ),
        Err(e) => Err(e),
    }
}

/// What a decode returns for the given metadata, codec output and scan result, with
/// wider samples written in the given byte order.
///
/// A failed scan fails the decode with the error of the scan, whatever the image
/// is. Where the scan succeeded, a layout without a mode fails the decode.
pub open spec fn assembled(
    metadata: CodecMetadata,
    output: OutputModel,
    scanned: Result<Seq<BoxModel>, FormatError>,
    order: ByteOrder,
) -> Result<DecodeModel, DecodeError> {
    match scanned {
        Err(e) => Err(DecodeError::Container(e)),
        Ok(boxes) => match described(metadata, output) {
            Err(e) => Err(DecodeError::Pixels(e)),
            Ok(info) => Ok(
                DecodeModel {
                    is_jpeg_reconstruction: output is Jpeg,
                    info,
                    pixel_bytes: match output {
                        OutputModel::Jpeg(bytes) => bytes,
                        OutputModel::Pixels(samples) => normalized(
                            samples,
                            metadata.layout(),
                            order,
                        )->Ok_0.0,
                    },
                    icc_profile: metadata.profile_bytes(),
                    boxes,
                },
            ),
        },
    }
}

/// The model of an assembly result.
pub open spec fn assembled_view(result: Result<DecodeResult, DecodeError>) -> Result<
    DecodeModel,
    DecodeError,
> {
    match result {
        Ok(bundle) => Ok(bundle@),
        Err(e) => Err(e),
    }
}

impl ImageInfo {
    /// Describes the image that the codec decoded.
    ///
    /// An image whose number of colour channels is neither 1 nor 3 has no mode and is
    /// refused, whether it was decoded to samples or to a JPEG stream.
    pub fn from(item: &CodecMetadata, pixel: &CodecOutput) -> (result: Result<
        ImageInfo,
        NormalizeError,
    >)
        ensures
            result == described(*item, pixel@),
    {
        let pixel_type: Option<&SampleBuffer> = match pixel {
            CodecOutput::Pixels(pixels) => Some(pixels),
            CodecOutput::Jpeg(_) => None,
        };
        match ImageInfo::mode(item.num_color_channels, item.has_alpha_channel, pixel_type) {
            Ok(mode) => Ok(
                ImageInfo {
                    mode,
                    width: item.width,
                    height: item.height,
                    num_channels: item.num_color_channels,
                    has_alpha_channel: item.has_alpha_channel,
                },
            ),
            Err(e) => Err(e),
        }
    }
}

/// Puts together what a decode returns.
///
/// A reconstructed JPEG stream is handed on as it is, and no sample is touched.
/// Decoded samples are normalised, with wider samples written in the byte order
/// `order`. The colour profile is empty where the codec reported none.
///
/// A failed box scan fails the decode, and its error is handed on as it is. Where
/// the scan succeeded, an image whose number of colour channels is neither 1 nor 3
/// fails the decode.
pub fn assemble(
    metadata: CodecMetadata,
    output: CodecOutput,
    scanned: Result<Vec<JxlBox>, FormatError>,
    order: ByteOrder,
) -> (result: Result<DecodeResult, DecodeError>)
    ensures
        assembled_view(result) == assembled(metadata, output@, result_view(scanned), order),
        result is Ok <==> scanned is Ok && (metadata.num_color_channels == 1
            || metadata.num_color_channels == 3),
        scanned matches Err(e) ==> result == Err::<DecodeResult, DecodeError>(
            DecodeError::Container(e),
        ),
{
    let boxes: Vec<JxlBox> = match scanned {
        Ok(found) => found,
        Err(e) => {
            return Err(DecodeError::Container(e));
        },
    };
    let info: ImageInfo = match ImageInfo::from(&metadata, &output) {
        Ok(info) => info,
        Err(e) => {
            return Err(DecodeError::Pixels(e));
        },
    };
    let layout = ChannelLayout {
        num_channels: metadata.num_color_channels,
        has_alpha: metadata.has_alpha_channel,
    };
    let icc_profile: Vec<u8> = match metadata.icc_profile {
        Some(profile) => profile,
        None => Vec::new(),
    };
    match output {
        CodecOutput::Jpeg(bytes) => Ok(
            DecodeResult {
                is_jpeg_reconstruction: true,
                info,
                pixel_bytes: bytes,
                icc_profile,
                boxes,
            },
        ),
        CodecOutput::Pixels(samples) => match normalize_with(samples, layout, order) {
            Ok((pixel_bytes, _)) => Ok(
                DecodeResult {
                    is_jpeg_reconstruction: false,
                    info,
                    pixel_bytes,
                    icc_profile,
                    boxes,
                },
            ),
            Err(e) => Err(DecodeError::Pixels(e)),
        },
    }
}

/// The number of worker threads to ask the codec for: `None`, which leaves the
/// choice to the codec, where `num_threads` is negative.
pub fn worker_count(num_threads: isize) -> (count: Option<usize>)
    ensures
        count == if num_threads < 0 {
            None
        } else {
            Some(num_threads as usize)
        },
{
    if num_threads < 0 {
        None
    } else {
        Some(num_threads as usize)
    }
}

/// A decoder and its settings.
#[derive(Clone, Copy, Debug, PartialEq, Eq, Structural)]
pub struct Decoder {
    /// Number of worker threads; a negative number leaves the choice to the codec.
    pub num_threads: isize,
}

impl Decoder {
    /// A decoder that works with `num_threads` threads.
    pub fn new(num_threads: isize) -> (decoder: Decoder)
        ensures
            decoder.num_threads == num_threads,
    {
        Decoder { num_threads }
    }
}

/// A failed scan fails the decode with the error of the scan, whatever the codec
/// returned: no result with an emptied list of boxes comes back.
pub proof fn assembled_hands_on_scan_error(
    metadata: CodecMetadata,
    output: OutputModel,
    error: FormatError,
    order: ByteOrder,
)
    ensures
        assembled(metadata, output, Err(error), order) == Err::<DecodeModel, DecodeError>(
            DecodeError::Container(error),
        ),
{
}

/// A decode succeeds exactly where the scan succeeded and the image has one or three
/// colour channels, and its result then holds the boxes that the scan found.
pub proof fn assembled_when_scan_and_layout_are_good(
    metadata: CodecMetadata,
    output: OutputModel,
    scanned: Result<Seq<BoxModel>, FormatError>,
    order: ByteOrder,
)
    ensures
        assembled(metadata, output, scanned, order) is Ok <==> scanned is Ok && (
        metadata.num_color_channels == 1 || metadata.num_color_channels == 3),
        assembled(metadata, output, scanned, order) is Ok ==> assembled(
            metadata,
            output,
            scanned,
            order,
        )->Ok_0.boxes == scanned->Ok_0,
        scanned is Ok && metadata.num_color_channels != 1 && metadata.num_color_channels != 3
            ==> assembled(metadata, output, scanned, order) == Err::<DecodeModel, DecodeError>(
            DecodeError::Pixels(
                NormalizeError::UnsupportedPixelFormat {
                    num_channels: metadata.num_color_channels,
                },
            ),
        ),
{
}

/// A reconstructed JPEG stream goes into the result as it is, whatever the byte
/// order, and the result says that it holds one.
pub proof fn assembled_jpeg_is_verbatim(
    metadata: CodecMetadata,
    stream: Seq<u8>,
    boxes: Seq<BoxModel>,
    order: ByteOrder,
)
    requires
        metadata.num_color_channels == 1 || metadata.num_color_channels == 3,
    ensures
        assembled(metadata, OutputModel::Jpeg(stream), Ok(boxes), order) is Ok,
        assembled(metadata, OutputModel::Jpeg(stream), Ok(boxes), order)->Ok_0.pixel_bytes
            == stream,
        assembled(
            metadata,
            OutputModel::Jpeg(stream),
            Ok(boxes),
            order,
        )->Ok_0.is_jpeg_reconstruction,
{
}

/// Decoded samples go into the result as the normaliser lays them out, with the mode
/// that the normaliser gives them.
pub proof fn assembled_pixels_are_normalized(
    metadata: CodecMetadata,
    samples: SampleModel,
    boxes: Seq<BoxModel>,
    order: ByteOrder,
)
    requires
        metadata.num_color_channels == 1 || metadata.num_color_channels == 3,
    ensures
        assembled(metadata, OutputModel::Pixels(samples), Ok(boxes), order) is Ok,
        !assembled(
            metadata,
            OutputModel::Pixels(samples),
            Ok(boxes),
            order,
        )->Ok_0.is_jpeg_reconstruction,
        normalized(samples, metadata.layout(), order) == Ok::<(Seq<u8>, ModeTag), NormalizeError>(
            (
                assembled(
                    metadata,
                    OutputModel::Pixels(samples),
                    Ok(boxes),
                    order,
                )->Ok_0.pixel_bytes,
                assembled(
                    metadata,
                    OutputModel::Pixels(samples),
                    Ok(boxes),
                    order,
                )->Ok_0.info.mode,
            ),
        ),
{
}

} // verus!
