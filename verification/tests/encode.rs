use pillow_jxl::encode::{
    ColorEncoding, EncodeJob, EncodePlan, Encoder, EncoderError, EncoderSpeed, MetadataKind,
};

fn encoder(mode: &str, effort: u32) -> Encoder {
    Encoder::new(mode, false, 1.0f32.to_bits(), 0, effort, false, false, -1).unwrap()
}

#[test]
fn modes_give_channels_and_alpha() {
    for (mode, channels, alpha) in
        [("RGBA", 4u32, true), ("RGB", 3u32, false), ("LA", 2u32, true), ("L", 1u32, false)]
    {
        let made: Encoder = encoder(mode, 7);
        assert_eq!(made.num_channels, channels);
        assert_eq!(made.has_alpha, alpha);
    }
}

#[test]
fn settings_are_taken_over() {
    let made = Encoder::new("RGB", false, 90.5f32.to_bits(), 3, 9, true, false, 6);
    assert_eq!(
        made,
        Ok(Encoder {
            num_channels: 3,
            has_alpha: false,
            lossless: false,
            quality: 90.5f32.to_bits(),
            decoding_speed: 3,
            effort: 9,
            use_container: true,
            use_original_profile: false,
            num_threads: 6,
        })
    );
    assert_eq!(f32::from_bits(made.unwrap().quality), 90.5);
}

#[test]
fn unknown_modes_are_refused() {
    for mode in ["", "rgb", "RGBX", "RGBAA", "CMYK", "LAB", "I;16", "F", "R", " L", "L "] {
        let made = Encoder::new(mode, false, 0, 0, 7, false, false, -1);
        assert_eq!(made, Err(EncoderError::UnsupportedMode));
    }
}

#[test]
fn decoding_speed_lies_between_zero_and_four() {
    for speed in 0i64..=4 {
        let made: Encoder = Encoder::new("L", false, 0, speed, 7, false, false, -1).unwrap();
        assert_eq!(made.decoding_speed, speed);
    }
    for speed in [-1i64, 5, 100, i64::MIN, i64::MAX] {
        assert_eq!(
            Encoder::new("L", false, 0, speed, 7, false, false, -1),
            Err(EncoderError::InvalidDecodingSpeed { decoding_speed: speed })
        );
    }
}

#[test]
fn unknown_mode_is_reported_before_the_decoding_speed() {
    assert_eq!(
        Encoder::new("XYZ", false, 0, 9, 7, false, false, -1),
        Err(EncoderError::UnsupportedMode)
    );
}

#[test]
fn lossless_keeps_the_original_profile() {
    assert!(Encoder::new("RGB", true, 0, 0, 7, false, false, -1).unwrap().use_original_profile);
    assert!(Encoder::new("RGB", true, 0, 0, 7, false, true, -1).unwrap().use_original_profile);
    assert!(Encoder::new("RGB", false, 0, 0, 7, false, true, -1).unwrap().use_original_profile);
    assert!(!Encoder::new("RGB", false, 0, 0, 7, false, false, -1).unwrap().use_original_profile);
}

#[test]
fn effort_is_not_checked_when_the_encoder_is_made() {
    assert_eq!(Encoder::new("RGB", false, 0, 0, 0, false, false, -1).unwrap().effort, 0);
    assert_eq!(Encoder::new("RGB", false, 0, 0, 77, false, false, -1).unwrap().effort, 77);
}

#[test]
fn colour_space_by_channels() {
    assert_eq!(encoder("L", 7).color_encoding(), Ok(ColorEncoding::SrgbLuma));
    assert_eq!(encoder("LA", 7).color_encoding(), Ok(ColorEncoding::SrgbLuma));
    assert_eq!(encoder("RGB", 7).color_encoding(), Ok(ColorEncoding::Srgb));
    assert_eq!(encoder("RGBA", 7).color_encoding(), Ok(ColorEncoding::Srgb));
    for channels in [0u32, 5, u32::MAX] {
        let mut odd: Encoder = encoder("RGB", 7);
        odd.num_channels = channels;
        assert_eq!(
            odd.color_encoding(),
            Err(EncoderError::InvalidNumChannels { num_channels: channels })
        );
    }
}

#[test]
fn speed_by_effort() {
    let speeds = [
        EncoderSpeed::Lightning,
        EncoderSpeed::Thunder,
        EncoderSpeed::Falcon,
        EncoderSpeed::Cheetah,
        EncoderSpeed::Hare,
        EncoderSpeed::Wombat,
        EncoderSpeed::Squirrel,
        EncoderSpeed::Kitten,
        EncoderSpeed::Tortoise,
    ];
    for (i, speed) in speeds.iter().enumerate() {
        assert_eq!(encoder("RGB", i as u32 + 1).speed(), Ok(*speed));
    }
    for effort in [0u32, 10, 11, u32::MAX] {
        assert_eq!(encoder("RGB", effort).speed(), Err(EncoderError::InvalidEffort { effort }));
    }
}

#[test]
fn jpeg_is_recompressed_without_metadata() {
    assert_eq!(
        encoder("RGB", 7).plan(true, true, true, true),
        Ok(EncodePlan {
            color_encoding: ColorEncoding::Srgb,
            speed: EncoderSpeed::Squirrel,
            job: EncodeJob::Jpeg,
        })
    );
}

#[test]
fn frame_gets_its_metadata_in_order() {
    let all = encoder("LA", 3).plan(false, true, true, true).unwrap();
    assert_eq!(all.color_encoding, ColorEncoding::SrgbLuma);
    assert_eq!(all.speed, EncoderSpeed::Falcon);
    assert_eq!(
        all.job,
        EncodeJob::Frame {
            num_channels: 2,
            metadata: vec![MetadataKind::Exif, MetadataKind::Xmp, MetadataKind::Jumb],
        }
    );
    let some = encoder("RGBA", 1).plan(false, false, true, true).unwrap();
    assert_eq!(
        some.job,
        EncodeJob::Frame { num_channels: 4, metadata: vec![MetadataKind::Xmp, MetadataKind::Jumb] }
    );
    let one = encoder("L", 1).plan(false, true, false, false).unwrap();
    assert_eq!(one.job, EncodeJob::Frame { num_channels: 1, metadata: vec![MetadataKind::Exif] });
    let none = encoder("L", 1).plan(false, false, false, false).unwrap();
    assert_eq!(none.job, EncodeJob::Frame { num_channels: 1, metadata: vec![] });
}

#[test]
fn invalid_effort_fails_the_plan() {
    assert_eq!(
        encoder("RGB", 0).plan(false, false, false, false),
        Err(EncoderError::InvalidEffort { effort: 0 })
    );
    assert_eq!(
        encoder("RGB", 10).plan(true, false, false, false),
        Err(EncoderError::InvalidEffort { effort: 10 })
    );
}

#[test]
fn channels_are_checked_before_the_effort() {
    let mut odd: Encoder = encoder("RGB", 0);
    odd.num_channels = 9;
    assert_eq!(
        odd.plan(false, false, false, false),
        Err(EncoderError::InvalidNumChannels { num_channels: 9 })
    );
}
