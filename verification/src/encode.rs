//! Settings of an encoder, and the decisions that an encode makes before it hands
//! the pixels to the codec.

use vstd::prelude::*;
use vstd::string::StrSliceExecFns;

verus! {

/// Why an encoder cannot be set up or used.
#[derive(Clone, Copy, Debug, PartialEq, Eq, Structural)]
pub enum EncoderError {
    /// The mode is none of `RGB`, `RGBA`, `L` and `LA`.
    UnsupportedMode,
    /// The decoding speed lies outside 0 to 4.
    InvalidDecodingSpeed { decoding_speed: i64 },
    /// The number of channels lies outside 1 to 4.
    InvalidNumChannels { num_channels: u32 },
    /// The effort lies outside 1 to 9.
    InvalidEffort { effort: u32 },
}

/// The colour space that the codec is told the pixels are in.
#[derive(Clone, Copy, Debug, PartialEq, Eq, Structural)]
pub enum ColorEncoding {
    /// sRGB.
    Srgb,
    /// sRGB with luma only.
    SrgbLuma,
}

/// How much work the codec puts into a smaller file, from the fastest to the
/// slowest setting.
#[derive(Clone, Copy, Debug, PartialEq, Eq, Structural)]
pub enum EncoderSpeed {
    Lightning,
    Thunder,
    Falcon,
    Cheetah,
    Hare,
    Wombat,
    Squirrel,
    Kitten,
    Tortoise,
}

/// A kind of metadata that can go into the encoded file.
#[derive(Clone, Copy, Debug, PartialEq, Eq, Structural)]
pub enum MetadataKind {
    Exif,
    Xmp,
    Jumb,
}

/// What the codec is asked to encode.
#[derive(Clone, Debug, PartialEq, Eq)]
pub enum EncodeJob {
    /// The input is a JPEG stream, to be recompressed without loss.
    Jpeg,
    /// The input is one frame of pixels. The metadata is added in the given order
    /// before the frame is encoded.
    Frame { num_channels: u32, metadata: Vec<MetadataKind> },
}

/// Mathematical model of an [`EncodeJob`].
pub enum JobModel {
    Jpeg,
    Frame { num_channels: u32, metadata: Seq<MetadataKind> },
}

impl View for EncodeJob {
    type V = JobModel;

    open spec fn view(&self) -> JobModel {
        match self {
            EncodeJob::Jpeg => JobModel::Jpeg,
            EncodeJob::Frame { num_channels, metadata } => JobModel::Frame {
                num_channels: *num_channels,
                metadata: metadata@,
            },
        }
    }
}

/// The decisions of one encode.
#[derive(Clone, Debug, PartialEq, Eq)]
pub struct EncodePlan {
    /// The colour space of the pixels.
    pub color_encoding: ColorEncoding,
    /// The effort of the codec.
    pub speed: EncoderSpeed,
    /// What is encoded.
    pub job: EncodeJob,
}

/// An encoder and its settings.
#[derive(Clone, Copy, Debug, PartialEq, Eq, Structural)]
pub struct Encoder {
    /// Number of samples per pixel, the alpha sample included.
    pub num_channels: u32,
    /// Whether each pixel has an alpha sample.
    pub has_alpha: bool,
    /// Whether the encoding keeps every bit of the input.
    pub lossless: bool,
    /// The quality, a single-precision number held by its 32-bit pattern.
    pub quality: u32,
    /// How much the encoding favours fast decoding, from 0 to 4.
    pub decoding_speed: i64,
    /// The effort, from 1 to 9.
    pub effort: u32,
    /// Whether the output is wrapped in a container.
    pub use_container: bool,
    /// Whether the colour profile of the input is kept.
    pub use_original_profile: bool,
    /// Number of worker threads; a negative number leaves the choice to the codec.
    pub num_threads: isize,
}

impl Encoder {
    /// Whether the settings are such as [`Encoder::new`] makes them: one to four
    /// samples per pixel, alpha with two and four of them, a decoding speed from 0 to
    /// 4, and the colour profile kept where the encoding is lossless.
    pub open spec fn well_formed(self) -> bool {
        &&& 1 <= self.num_channels <= 4
        &&& self.has_alpha == (self.num_channels == 2 || self.num_channels == 4)
        &&& 0 <= self.decoding_speed <= 4
        &&& self.lossless ==> self.use_original_profile
    }
}

/// The number of samples per pixel and the presence of alpha that a mode name stands
/// for; none for a name that is not known.
pub open spec fn mode_channels(mode: Seq<char>) -> Option<(u32, bool)> {
    if mode == "RGBA"@ {
        Some((4u32, true))
    } else if mode == "RGB"@ {
        Some((3u32, false))
    } else if mode == "LA"@ {
        Some((2u32, true))
    } else if mode == "L"@ {
        Some((1u32, false))
    } else {
        None
    }
}

/// The settings that an encoder is made with, or the reason why it cannot be made.
pub open spec fn encoder_settings(
    mode: Seq<char>,
    lossless: bool,
    quality: u32,
    decoding_speed: i64,
    effort: u32,
    use_container: bool,
    use_original_profile: bool,
    num_threads: isize,
) -> Result<Encoder, EncoderError> {
    match mode_channels(mode) {
        None => Err(EncoderError::UnsupportedMode),
        Some((num_channels, has_alpha)) => if decoding_speed < 0 || decoding_speed > 4 {
            Err(EncoderError::InvalidDecodingSpeed { decoding_speed })
        } else {
            Ok(
                Encoder {
                    num_channels,
                    has_alpha,
                    lossless,
                    quality,
                    decoding_speed,
                    effort,
                    use_container,
                    use_original_profile: lossless || use_original_profile,
                    num_threads,
                },
            )
        },
    }
}

/// The colour space for a number of samples per pixel.
pub open spec fn color_encoding_of(num_channels: u32) -> Result<ColorEncoding, EncoderError> {
    if num_channels == 1 || num_channels == 2 {
        Ok(ColorEncoding::SrgbLuma)
    } else if num_channels == 3 || num_channels == 4 {
        Ok(ColorEncoding::Srgb)
    } else {
        Err(EncoderError::InvalidNumChannels { num_channels })
    }
}

/// The speed setting for an effort.
pub open spec fn speed_of(effort: u32) -> Result<EncoderSpeed, EncoderError> {
    if effort == 1 {
        Ok(EncoderSpeed::Lightning)
    } else if effort == 2 {
        Ok(EncoderSpeed::Thunder)
    } else if effort == 3 {
        Ok(EncoderSpeed::Falcon)
    } else if effort == 4 {
        Ok(EncoderSpeed::Cheetah)
    } else if effort == 5 {
        Ok(EncoderSpeed::Hare)
    } else if effort == 6 {
        Ok(EncoderSpeed::Wombat)
    } else if effort == 7 {
        Ok(EncoderSpeed::Squirrel)
    } else if effort == 8 {
        Ok(EncoderSpeed::Kitten)
    } else if effort == 9 {
        Ok(EncoderSpeed::Tortoise)
    } else {
        Err(EncoderError::InvalidEffort { effort })
    }
}

/// The kinds of metadata that are present, in the order in which they are added.
pub open spec fn metadata_order(exif: bool, xmp: bool, jumb: bool) -> Seq<MetadataKind> {
    (if exif {
        seq![MetadataKind::Exif]
    } else {
        Seq::empty()
    }) + (if xmp {
        seq![MetadataKind::Xmp]
    } else {
        Seq::empty()
    }) + (if jumb {
        seq![MetadataKind::Jumb]
    } else {
        Seq::empty()
    })
}

/// The decisions of an encode with the given settings.
pub open spec fn planned(
    encoder: Encoder,
    jpeg_encode: bool,
    exif: bool,
    xmp: bool,
    jumb: bool,
) -> Result<(ColorEncoding, EncoderSpeed, JobModel), EncoderError> {
    match color_encoding_of(encoder.num_channels) {
        Err(e) => Err(e),
        Ok(color_encoding) => match speed_of(encoder.effort) {
            Err(e) => Err(e),
            Ok(speed) => Ok(
                (
                    color_encoding,
                    speed,
                    if jpeg_encode {
                        JobModel::Jpeg
                    } else {
                        JobModel::Frame {
                            num_channels: encoder.num_channels,
                            metadata: metadata_order(exif, xmp, jumb),
                        }
                    },
                ),
            ),
        },
    }
}

/// The model of a planning result.
pub open spec fn planned_view(result: Result<EncodePlan, EncoderError>) -> Result<
    (ColorEncoding, EncoderSpeed, JobModel),
    EncoderError,
> {
    match result {
        Ok(plan) => Ok((plan.color_encoding, plan.speed, plan.job@)),
        Err(e) => Err(e),
    }
}

/// Tells whether two texts hold the same characters.
fn same_text(text: &str, other: &str) -> (same: bool)
    ensures
        same == (text@ == other@),
{
    let len: usize = text.unicode_len();
    if len != other.unicode_len() {
        return false;
    }
    let mut i: usize = 0;
    while i < len
        invariant
            i <= len,
            len == text@.len(),
            len == other@.len(),
            forall|j: int| 0 <= j < i ==> text@[j] == other@[j],
        decreases len - i,
    {
        if text.get_char(i) != other.get_char(i) {
            return false;
        }
        i += 1;
    }
    assert(text@ =~= other@);
    true
}

impl Encoder {
    /// An encoder for pixels of the given mode.
    ///
    /// The mode is one of `RGBA`, `RGB`, `LA` and `L`, and the decoding speed lies
    /// between 0 and 4. A lossless encoder keeps the colour profile of its input
    /// whatever `use_original_profile` says.
    pub fn new(
        mode: &str,
        lossless: bool,
        quality: u32,
        decoding_speed: i64,
        effort: u32,
        use_container: bool,
        use_original_profile: bool,
        num_threads: isize,
    ) -> (result: Result<Encoder, EncoderError>)
        ensures
            result == encoder_settings(
                mode@,
                lossless,
                quality,
                decoding_speed,
                effort,
                use_container,
                use_original_profile,
                num_threads,
            ),
            result matches Ok(encoder) ==> encoder.well_formed(),
    {
        let (num_channels, has_alpha): (u32, bool) = if same_text(mode, "RGBA") {
            (4, true)
        } else if same_text(mode, "RGB") {
            (3, false)
        } else if same_text(mode, "LA") {
            (2, true)
        } else if same_text(mode, "L") {
            (1, false)
        } else {
            return Err(EncoderError::UnsupportedMode);
        };
        if decoding_speed < 0 || decoding_speed > 4 {
            return Err(EncoderError::InvalidDecodingSpeed { decoding_speed });
        }
        let use_original_profile: bool = if lossless {
            true
        } else {
            use_original_profile
        };
        Ok(
            Encoder {
                num_channels,
                has_alpha,
                lossless,
                quality,
                decoding_speed,
                effort,
                use_container,
                use_original_profile,
                num_threads,
            },
        )
    }

    /// The colour space that the pixels of this encoder are in.
    pub fn color_encoding(&self) -> (result: Result<ColorEncoding, EncoderError>)
        ensures
            result == color_encoding_of(self.num_channels),
    {
        if self.num_channels == 1 || self.num_channels == 2 {
            Ok(ColorEncoding::SrgbLuma)
        } else if self.num_channels == 3 || self.num_channels == 4 {
            Ok(ColorEncoding::Srgb)
        } else {
            Err(EncoderError::InvalidNumChannels { num_channels: self.num_channels })
        }
    }

    /// The speed setting that stands for the effort of this encoder.
    pub fn speed(&self) -> (result: Result<EncoderSpeed, EncoderError>)
        ensures
            result == speed_of(self.effort),
    {
        if self.effort == 1 {
            Ok(EncoderSpeed::Lightning)
        } else if self.effort == 2 {
            Ok(EncoderSpeed::Thunder)
        } else if self.effort == 3 {
            Ok(EncoderSpeed::Falcon)
        } else if self.effort == 4 {
            Ok(EncoderSpeed::Cheetah)
        } else if self.effort == 5 {
            Ok(EncoderSpeed::Hare)
        } else if self.effort == 6 {
            Ok(EncoderSpeed::Wombat)
        } else if self.effort == 7 {
            Ok(EncoderSpeed::Squirrel)
        } else if self.effort == 8 {
            Ok(EncoderSpeed::Kitten)
        } else if self.effort == 9 {
            Ok(EncoderSpeed::Tortoise)
        } else {
            Err(EncoderError::InvalidEffort { effort: self.effort })
        }
    }

    /// Decides what one encode asks of the codec.
    ///
    /// The colour space is checked before the effort. A JPEG stream is recompressed
    /// as it is, without metadata. A frame of pixels gets the metadata that is
    /// present: first Exif, then XMP, then JUMBF.
    pub fn plan(&self, jpeg_encode: bool, exif: bool, xmp: bool, jumb: bool) -> (result: Result<
        EncodePlan,
        EncoderError,
    >)
        ensures
            planned_view(result) == planned(*self, jpeg_encode, exif, xmp, jumb),
    {
        let color_encoding: ColorEncoding = match self.color_encoding() {
            Ok(color_encoding) => color_encoding,
            Err(e) => {
                return Err(e);
            },
        };
        let speed: EncoderSpeed = match self.speed() {
            Ok(speed) => speed,
            Err(e) => {
                return Err(e);
            },
        };
        if jpeg_encode {
            return Ok(EncodePlan { color_encoding, speed, job: EncodeJob::Jpeg });
        }
        let mut metadata: Vec<MetadataKind> = Vec::new();
        if exif {
            metadata.push(MetadataKind::Exif);
        }
        if xmp {
            metadata.push(MetadataKind::Xmp);
        }
        if jumb {
            metadata.push(MetadataKind::Jumb);
        }
        assert(metadata@ =~= metadata_order(exif, xmp, jumb));
        Ok(
            EncodePlan {
                color_encoding,
                speed,
                job: EncodeJob::Frame { num_channels: self.num_channels, metadata },
            },
        )
    }
}

/// An encoder with well-formed settings plans every encode whose effort lies between
/// 1 and 9, and no other.
pub proof fn planned_when_effort_is_valid(
    encoder: Encoder,
    jpeg_encode: bool,
    exif: bool,
    xmp: bool,
    jumb: bool,
)
    requires
        encoder.well_formed(),
    ensures
        planned(encoder, jpeg_encode, exif, xmp, jumb) is Ok <==> 1 <= encoder.effort <= 9,
        !(1 <= encoder.effort <= 9) ==> planned(encoder, jpeg_encode, exif, xmp, jumb) == Err::<
            (ColorEncoding, EncoderSpeed, JobModel),
            EncoderError,
        >(EncoderError::InvalidEffort { effort: encoder.effort }),
{
}

} // verus!
