use pillow_jxl::pixels::{
    normalize, normalize_with, pixels_to_bytes, pixels_to_bytes_8bit, ByteOrder, ChannelLayout,
    ImageInfo, ModeTag, NormalizeError, SampleBuffer,
};

fn layout(num_channels: u32, has_alpha: bool) -> ChannelLayout {
    ChannelLayout { num_channels, has_alpha }
}

fn bits_of(samples: &[f32]) -> Vec<u32> {
    samples.iter().map(|x| x.to_bits()).collect()
}

fn half_bits_of(samples: &[f32]) -> Vec<u16> {
    samples.iter().map(|x| half::f16::from_f32(*x).to_bits()).collect()
}

fn native_bytes_of(samples: &[f32]) -> Vec<u8> {
    samples.iter().flat_map(|x| x.to_ne_bytes()).collect()
}

#[test]
fn bytes_of_three_channels_pass_through_as_rgb() {
    let width: usize = 3;
    let height: usize = 2;
    let samples: Vec<u8> = (0..(width * height * 3) as u8).map(|i| i.wrapping_mul(37)).collect();
    let (bytes, mode) = normalize(SampleBuffer::UInt8(samples.clone()), layout(3, false)).unwrap();
    assert_eq!(bytes, samples);
    assert_eq!(mode, ModeTag::Rgb);
    assert_eq!(mode.name(), "RGB");
    assert_eq!(bytes.len(), width * height * 3);
}

#[test]
fn bytes_pass_through_in_every_layout() {
    let samples: Vec<u8> = vec![0, 1, 127, 128, 254, 255, 9, 8, 7, 6, 5, 4];
    for (channels, alpha, mode) in [
        (1u32, false, ModeTag::Luma),
        (1u32, true, ModeTag::LumaAlpha),
        (3u32, false, ModeTag::Rgb),
        (3u32, true, ModeTag::Rgba),
    ] {
        let result = normalize(SampleBuffer::UInt8(samples.clone()), layout(channels, alpha));
        assert_eq!(result, Ok((samples.clone(), mode)));
    }
}

#[test]
fn mode_names() {
    assert_eq!(ModeTag::Luma.name(), "L");
    assert_eq!(ModeTag::LumaAlpha.name(), "LA");
    assert_eq!(ModeTag::Rgb.name(), "RGB");
    assert_eq!(ModeTag::Rgba.name(), "RGBA");
    assert_eq!(ModeTag::Luma16.name(), "I;16");
    assert_eq!(ModeTag::LumaFloat.name(), "F");
}

#[test]
fn mode_by_channels_and_element_type() {
    let bytes = SampleBuffer::UInt8(vec![]);
    let words = SampleBuffer::UInt16(vec![]);
    let singles = SampleBuffer::Float32(vec![]);
    let halves = SampleBuffer::Float16(vec![]);
    assert_eq!(ImageInfo::mode(1, false, None), Ok(ModeTag::Luma));
    assert_eq!(ImageInfo::mode(1, true, None), Ok(ModeTag::LumaAlpha));
    assert_eq!(ImageInfo::mode(3, false, None), Ok(ModeTag::Rgb));
    assert_eq!(ImageInfo::mode(3, true, None), Ok(ModeTag::Rgba));
    assert_eq!(ImageInfo::mode(1, false, Some(&bytes)), Ok(ModeTag::Luma));
    assert_eq!(ImageInfo::mode(1, false, Some(&words)), Ok(ModeTag::Luma16));
    assert_eq!(ImageInfo::mode(1, false, Some(&singles)), Ok(ModeTag::LumaFloat));
    assert_eq!(ImageInfo::mode(1, false, Some(&halves)), Ok(ModeTag::LumaFloat));
    for samples in [&bytes, &words, &singles, &halves] {
        assert_eq!(ImageInfo::mode(1, true, Some(samples)), Ok(ModeTag::LumaAlpha));
        assert_eq!(ImageInfo::mode(3, false, Some(samples)), Ok(ModeTag::Rgb));
        assert_eq!(ImageInfo::mode(3, true, Some(samples)), Ok(ModeTag::Rgba));
    }
}

#[test]
fn mode_of_other_channel_counts_is_refused() {
    for channels in [0u32, 2, 4, 5, 255, u32::MAX] {
        for alpha in [false, true] {
            assert_eq!(
                ImageInfo::mode(channels, alpha, None),
                Err(NormalizeError::UnsupportedPixelFormat { num_channels: channels })
            );
        }
    }
}

#[test]
fn other_channel_counts_are_refused_for_every_element_type() {
    for channels in [0u32, 2, 4, 5, 1000, u32::MAX] {
        for alpha in [false, true] {
            let expected = Err(NormalizeError::UnsupportedPixelFormat { num_channels: channels });
            let shape = layout(channels, alpha);
            assert_eq!(normalize(SampleBuffer::UInt8(vec![1, 2, 3, 4]), shape), expected);
            assert_eq!(normalize(SampleBuffer::UInt16(vec![1, 2, 3, 4]), shape), expected);
            assert_eq!(normalize(SampleBuffer::Float32(bits_of(&[0.5, 1.0])), shape), expected);
            assert_eq!(normalize(SampleBuffer::Float16(vec![0x3800, 0x3c00]), shape), expected);
            assert_eq!(normalize(SampleBuffer::UInt8(vec![]), shape), expected);
        }
    }
}

#[test]
fn sixteen_bit_luma_keeps_two_bytes_per_sample() {
    let samples: Vec<u16> = vec![0x0000, 0x0102, 0xff00, 0x00ff, 0xffff, 0x8001];
    let expected: Vec<u8> = samples.iter().flat_map(|x| x.to_ne_bytes()).collect();
    let (bytes, mode) = normalize(SampleBuffer::UInt16(samples.clone()), layout(1, false)).unwrap();
    assert_eq!(bytes, expected);
    assert_eq!(bytes.len(), 2 * samples.len());
    assert_eq!(mode, ModeTag::Luma16);
}

#[test]
fn sixteen_bit_samples_in_both_orders() {
    let samples: Vec<u16> = vec![0x0102, 0xa0b0];
    assert_eq!(
        pixels_to_bytes(SampleBuffer::UInt16(samples.clone()), ByteOrder::LittleEndian),
        vec![0x02, 0x01, 0xb0, 0xa0]
    );
    assert_eq!(
        pixels_to_bytes(SampleBuffer::UInt16(samples), ByteOrder::BigEndian),
        vec![0x01, 0x02, 0xa0, 0xb0]
    );
}

#[test]
fn single_precision_samples_in_both_orders() {
    let samples: Vec<u32> = vec![0x0102_0304, 0x3f00_0000];
    assert_eq!(
        pixels_to_bytes(SampleBuffer::Float32(samples.clone()), ByteOrder::LittleEndian),
        vec![0x04, 0x03, 0x02, 0x01, 0x00, 0x00, 0x00, 0x3f]
    );
    assert_eq!(
        pixels_to_bytes(SampleBuffer::Float32(samples), ByteOrder::BigEndian),
        vec![0x01, 0x02, 0x03, 0x04, 0x3f, 0x00, 0x00, 0x00]
    );
}

#[test]
fn order_is_read_from_the_bytes_of_one() {
    assert_eq!(ByteOrder::of_one([1, 0]), ByteOrder::LittleEndian);
    assert_eq!(ByteOrder::of_one([0, 1]), ByteOrder::BigEndian);
    assert_eq!(ByteOrder::of_one(1u16.to_le_bytes()), ByteOrder::LittleEndian);
    assert_eq!(ByteOrder::of_one(1u16.to_be_bytes()), ByteOrder::BigEndian);
    assert_eq!(ByteOrder::of_one(1u16.to_ne_bytes()), ByteOrder::native());
}

#[test]
fn native_order_is_that_of_the_machine() {
    let expected: ByteOrder = if 1u16.to_ne_bytes() == 1u16.to_le_bytes() {
        ByteOrder::LittleEndian
    } else {
        ByteOrder::BigEndian
    };
    assert_eq!(ByteOrder::native(), expected);
    let samples: Vec<u16> = vec![0x1234];
    assert_eq!(
        normalize(SampleBuffer::UInt16(samples.clone()), layout(1, false)),
        normalize_with(SampleBuffer::UInt16(samples), layout(1, false), expected)
    );
}

#[test]
fn sixteen_bit_samples_of_other_layouts_give_their_high_byte() {
    let samples: Vec<u16> = vec![0x0000, 0x00ff, 0x0100, 0x1234, 0x7fff, 0x8000, 0xff7f, 0xffff];
    let expected: Vec<u8> = vec![0x00, 0x00, 0x01, 0x12, 0x7f, 0x80, 0xff, 0xff];
    for (channels, alpha, mode) in [
        (1u32, true, ModeTag::LumaAlpha),
        (3u32, false, ModeTag::Rgb),
        (3u32, true, ModeTag::Rgba),
    ] {
        let result = normalize(SampleBuffer::UInt16(samples.clone()), layout(channels, alpha));
        assert_eq!(result, Ok((expected.clone(), mode)));
    }
    assert_eq!(pixels_to_bytes_8bit(SampleBuffer::UInt16(samples)), expected);
}

#[test]
fn high_byte_is_not_rounded() {
    assert_eq!(pixels_to_bytes_8bit(SampleBuffer::UInt16(vec![0x01ff, 0x0080, 0xfeff])), vec![1, 0, 254]);
}

#[test]
fn float_luma_keeps_four_bytes_per_sample() {
    let samples: Vec<f32> = vec![0.5, 0.0, 1.0, -2.25, 1.0e-20, f32::INFINITY];
    let (bytes, mode) =
        normalize(SampleBuffer::Float32(bits_of(&samples)), layout(1, false)).unwrap();
    assert_eq!(bytes, native_bytes_of(&samples));
    assert_eq!(bytes.len(), 4 * samples.len());
    assert_eq!(mode, ModeTag::LumaFloat);
}

#[test]
fn float_half_in_one_channel_keeps_its_bytes() {
    let (bytes, mode) = normalize(SampleBuffer::Float32(bits_of(&[0.5])), layout(1, false)).unwrap();
    assert_eq!(bytes, 0.5f32.to_ne_bytes().to_vec());
    assert_eq!(mode, ModeTag::LumaFloat);
}

#[test]
fn float_half_in_three_channels_is_127() {
    let samples: Vec<f32> = vec![0.5, 0.5, 0.5];
    let (bytes, mode) = normalize(SampleBuffer::Float32(bits_of(&samples)), layout(3, false)).unwrap();
    assert_eq!(bytes, vec![127, 127, 127]);
    assert_eq!(mode, ModeTag::Rgb);
}

#[test]
fn floats_of_other_layouts_are_scaled_and_cut_off() {
    let samples: Vec<f32> = vec![0.0, 0.25, 0.5, 0.75, 1.0, 1.5, -0.1, f32::NAN, 0.999, 0.2];
    let expected: Vec<u8> = samples.iter().map(|x| (x * 255.0) as u8).collect();
    assert_eq!(expected, vec![0, 63, 127, 191, 255, 255, 0, 0, 254, 51]);
    for (channels, alpha, mode) in [
        (1u32, true, ModeTag::LumaAlpha),
        (3u32, false, ModeTag::Rgb),
        (3u32, true, ModeTag::Rgba),
    ] {
        let result = normalize(SampleBuffer::Float32(bits_of(&samples)), layout(channels, alpha));
        assert_eq!(result, Ok((expected.clone(), mode)));
    }
}

#[test]
fn half_precision_luma_is_written_in_single_precision() {
    let samples: Vec<f32> = vec![0.5, 0.0, 1.0, -2.25, 65504.0, 6.0e-8];
    let halves: Vec<u16> = half_bits_of(&samples);
    let widened: Vec<f32> = halves.iter().map(|h| half::f16::from_bits(*h).to_f32()).collect();
    let (bytes, mode) = normalize(SampleBuffer::Float16(halves.clone()), layout(1, false)).unwrap();
    assert_eq!(bytes, native_bytes_of(&widened));
    assert_eq!(bytes.len(), 4 * halves.len());
    assert_eq!(mode, ModeTag::LumaFloat);
}

#[test]
fn half_precision_normalises_like_its_widened_samples() {
    let halves: Vec<u16> = (0..=u16::MAX).collect();
    let widened: Vec<u32> =
        halves.iter().map(|h| half::f16::from_bits(*h).to_f32().to_bits()).collect();
    for (channels, alpha) in [(1u32, false), (1u32, true), (3u32, false), (3u32, true)] {
        assert_eq!(
            normalize(SampleBuffer::Float16(halves.clone()), layout(channels, alpha)),
            normalize(SampleBuffer::Float32(widened.clone()), layout(channels, alpha))
        );
    }
}

#[test]
fn half_precision_of_other_layouts_is_scaled_and_cut_off() {
    let samples: Vec<f32> = vec![0.0, 0.25, 0.5, 0.75, 1.0, 1.5, -0.1, 0.2];
    let halves: Vec<u16> = half_bits_of(&samples);
    let expected: Vec<u8> =
        halves.iter().map(|h| (half::f16::from_bits(*h).to_f32() * 255.0) as u8).collect();
    assert_eq!(expected, vec![0, 63, 127, 191, 255, 255, 0, 50]);
    let result = normalize(SampleBuffer::Float16(halves), layout(3, true));
    assert_eq!(result, Ok((expected, ModeTag::Rgba)));
}

#[test]
fn empty_buffers_normalise_to_nothing() {
    assert_eq!(normalize(SampleBuffer::UInt8(vec![]), layout(1, false)), Ok((vec![], ModeTag::Luma)));
    assert_eq!(normalize(SampleBuffer::UInt16(vec![]), layout(1, false)), Ok((vec![], ModeTag::Luma16)));
    assert_eq!(normalize(SampleBuffer::Float32(vec![]), layout(3, true)), Ok((vec![], ModeTag::Rgba)));
    assert_eq!(normalize(SampleBuffer::Float16(vec![]), layout(1, false)), Ok((vec![], ModeTag::LumaFloat)));
}

#[test]
fn number_of_bytes_follows_the_mode() {
    let n: usize = 24;
    for (channels, alpha) in [(1u32, false), (1u32, true), (3u32, false), (3u32, true)] {
        let wide: usize = if channels == 1 && !alpha { 1 } else { 0 };
        let (bytes, _) = normalize(SampleBuffer::UInt8(vec![7; n]), layout(channels, alpha)).unwrap();
        assert_eq!(bytes.len(), n);
        let (bytes, _) = normalize(SampleBuffer::UInt16(vec![7; n]), layout(channels, alpha)).unwrap();
        assert_eq!(bytes.len(), n + wide * n);
        let (bytes, _) = normalize(SampleBuffer::Float32(vec![7; n]), layout(channels, alpha)).unwrap();
        assert_eq!(bytes.len(), n + wide * 3 * n);
        let (bytes, _) = normalize(SampleBuffer::Float16(vec![7; n]), layout(channels, alpha)).unwrap();
        assert_eq!(bytes.len(), n + wide * 3 * n);
    }
}
