//! The encoder: settings, buffering, the answers to the converter and the
//! frames it makes.

use shiguredo_audio_toolbox::encoder::EncoderInput;
use shiguredo_audio_toolbox::format::{
    ENCODE_BUF_SIZE, K_AUDIO_CODEC_PROPERTY_BIT_RATE_CONTROL_MODE, K_AUDIO_CODEC_PROPERTY_SOUND_QUALITY_FOR_VBR,
    K_AUDIO_CONVERTER_CODEC_QUALITY, K_AUDIO_CONVERTER_ENCODE_BIT_RATE,
    K_AUDIO_FORMAT_LINEAR_PCM, K_AUDIO_FORMAT_MPEG4_AAC, K_NO_MORE_INPUT,
};
use shiguredo_audio_toolbox::{
    BitRateControlMode, CodecQuality, Encoder, EncoderCodec, EncoderConfig,
};

const TEST_SAMPLE_RATE: u32 = 48000;
const TEST_CHANNELS: u8 = 2;
const AAC_FRAMES_PER_PACKET: u32 = 1024;

fn encoder_config(bitrate: Option<u32>) -> EncoderConfig {
    EncoderConfig {
        codec: EncoderCodec::AacLc,
        sample_rate: TEST_SAMPLE_RATE,
        channels: TEST_CHANNELS,
        bitrate,
        bitrate_control_mode: None,
        codec_quality: None,
        vbr_quality: None,
    }
}

#[test]
fn encoder_new_rejects_zero_sample_rate() {
    let r = Encoder::new(EncoderConfig {
        codec: EncoderCodec::AacLc,
        sample_rate: 0,
        channels: TEST_CHANNELS,
        bitrate: None,
        bitrate_control_mode: None,
        codec_quality: None,
        vbr_quality: None,
    });
    assert!(r.is_err());
    let msg = r.unwrap_err().to_string();
    assert!(msg.contains("Encoder::new(sample_rate)"));
}

#[test]
fn encoder_new_rejects_zero_channels() {
    let r = Encoder::new(EncoderConfig {
        codec: EncoderCodec::AacLc,
        sample_rate: TEST_SAMPLE_RATE,
        channels: 0,
        bitrate: None,
        bitrate_control_mode: None,
        codec_quality: None,
        vbr_quality: None,
    });
    assert!(r.is_err());
    let msg = r.unwrap_err().to_string();
    assert!(msg.contains("Encoder::new(channels)"));
}

#[test]
fn encoder_new_accepts_default_bitrate() {
    assert!(Encoder::new(encoder_config(None)).is_ok());
}

#[test]
fn encoder_new_accepts_each_bitrate_control_mode() {
    for mode in [
        BitRateControlMode::Constant,
        BitRateControlMode::LongTermAverage,
        BitRateControlMode::VariableConstrained,
        BitRateControlMode::Variable,
    ] {
        let r = Encoder::new(EncoderConfig {
            codec: EncoderCodec::AacLc,
            sample_rate: TEST_SAMPLE_RATE,
            channels: TEST_CHANNELS,
            bitrate: Some(128_000),
            bitrate_control_mode: Some(mode),
            codec_quality: None,
            vbr_quality: None,
        });
        assert!(
            r.is_ok(),
            "Encoder::new with BitRateControlMode::{mode:?} failed: {:?}",
            r.err()
        );
    }
}

#[test]
fn encoder_new_accepts_each_codec_quality() {
    for quality in [
        CodecQuality::Min,
        CodecQuality::Low,
        CodecQuality::Medium,
        CodecQuality::High,
        CodecQuality::Max,
    ] {
        let r = Encoder::new(EncoderConfig {
            codec: EncoderCodec::AacLc,
            sample_rate: TEST_SAMPLE_RATE,
            channels: TEST_CHANNELS,
            bitrate: Some(128_000),
            bitrate_control_mode: None,
            codec_quality: Some(quality),
            vbr_quality: None,
        });
        assert!(
            r.is_ok(),
            "Encoder::new with CodecQuality::{quality:?} failed: {:?}",
            r.err()
        );
    }
}

#[test]
fn encoder_next_frame_none_when_no_encoded_data() {
    let mut enc = Encoder::new(encoder_config(Some(128_000))).expect("encoder");
    assert!(enc.next_frame().is_none());
}

#[test]
fn encoder_error_texts() {
    let e = Encoder::new(EncoderConfig { sample_rate: 0, channels: 0, ..encoder_config(None) })
        .unwrap_err();
    assert_eq!(e.to_string(), "[shiguredo_audio_toolbox] Encoder::new(sample_rate)() failed: status=-50");
    let e = Encoder::new(EncoderConfig { channels: 0, ..encoder_config(None) }).unwrap_err();
    assert_eq!(e.to_string(), "[shiguredo_audio_toolbox] Encoder::new(channels)() failed: status=-50");
}

#[test]
fn encoder_setup_formats_and_properties() {
    let enc = Encoder::new(EncoderConfig {
        codec: EncoderCodec::AacLc,
        sample_rate: 44100,
        channels: 1,
        bitrate: Some(96_000),
        bitrate_control_mode: Some(BitRateControlMode::Variable),
        codec_quality: Some(CodecQuality::High),
        vbr_quality: Some(100),
    })
    .expect("encoder");
    let setup = enc.setup();
    assert_eq!(setup.input.format_id, K_AUDIO_FORMAT_LINEAR_PCM);
    assert_eq!(setup.input.format_flags, 12);
    assert_eq!(setup.input.sample_rate, 44100);
    assert_eq!(setup.input.bytes_per_frame, 2);
    assert_eq!(setup.input.bytes_per_packet, 2);
    assert_eq!(setup.input.frames_per_packet, 1);
    assert_eq!(setup.input.channels_per_frame, 1);
    assert_eq!(setup.input.bits_per_channel, 16);
    assert_eq!(setup.output.format_id, K_AUDIO_FORMAT_MPEG4_AAC);
    assert_eq!(setup.output.format_flags, 2);
    assert_eq!(setup.output.frames_per_packet, 1024);
    assert_eq!(setup.output.bytes_per_packet, 0);
    assert_eq!(setup.output.channels_per_frame, 1);
    let ids: Vec<u32> = setup.properties.iter().map(|p| p.property_id).collect();
    assert_eq!(
        ids,
        vec![
            K_AUDIO_CODEC_PROPERTY_BIT_RATE_CONTROL_MODE,
            K_AUDIO_CONVERTER_ENCODE_BIT_RATE,
            K_AUDIO_CONVERTER_CODEC_QUALITY,
            K_AUDIO_CODEC_PROPERTY_SOUND_QUALITY_FOR_VBR,
        ]
    );
    let values: Vec<u32> = setup.properties.iter().map(|p| p.value).collect();
    assert_eq!(values, vec![3, 96_000, 96, 100]);
    assert_eq!(setup.properties[1].function, "AudioConverterSetProperty(EncodeBitRate)");

    let plain = Encoder::new(encoder_config(None)).expect("encoder");
    assert!(plain.setup().properties.is_empty());
    assert_eq!(CodecQuality::Max.raw_value(), 127);
    assert_eq!(BitRateControlMode::LongTermAverage.raw_value(), 1);
}

#[test]
fn encoder_finish_on_empty_pcm_does_not_panic() {
    let mut enc = Encoder::new(encoder_config(Some(128_000))).expect("encoder");
    enc.finish().expect("finish");
    let _ = enc.next_frame();
}

#[test]
fn init_encoder_accepts_given_and_default_bitrate() {
    assert!(Encoder::new(encoder_config(Some(128_000))).is_ok());
    assert!(Encoder::new(encoder_config(None)).is_ok());
}

#[test]
fn encoder_waits_for_a_whole_packet_until_finish() {
    let mut enc = Encoder::new(encoder_config(None)).expect("encoder");
    assert!(!enc.needs_fill());
    enc.encode(&[1, 2, 3, 4, 5, 6]);
    assert!(enc.needs_fill());
    assert_eq!(enc.buffered_frames(), 3);
    assert!(enc.supply_fits(4));
    assert!(matches!(enc.supply_input(4), EncoderInput::NoMoreInput));
    assert_eq!(enc.buffered_frames(), 3);
    match enc.supply_input(2) {
        EncoderInput::Samples { packets, byte_size, samples } => {
            assert_eq!(packets, 2);
            assert_eq!(byte_size, 8);
            assert_eq!(samples, vec![1, 2, 3, 4]);
        }
        EncoderInput::NoMoreInput => panic!("two frames are buffered"),
    }
    assert_eq!(enc.buffered_frames(), 1);
    enc.finish().expect("finish");
    match enc.supply_input(4) {
        EncoderInput::Samples { packets, byte_size, samples } => {
            assert_eq!(packets, 1);
            assert_eq!(byte_size, 4);
            assert_eq!(samples, vec![5, 6]);
        }
        EncoderInput::NoMoreInput => panic!("after finish what is left is handed over"),
    }
    match enc.supply_input(4) {
        EncoderInput::Samples { packets, samples, .. } => {
            assert_eq!(packets, 0);
            assert!(samples.is_empty());
        }
        EncoderInput::NoMoreInput => panic!("after finish an empty buffer gives 0 packets"),
    }
    assert_eq!(enc.samples_fed_count(), 6);
}

#[test]
fn encoder_fill_outcomes() {
    let out = [0u8; ENCODE_BUF_SIZE];
    let mut enc = Encoder::new(encoder_config(None)).expect("encoder");
    enc.encode(&[0; 8]);
    assert!(enc.complete_fill(K_NO_MORE_INPUT, &out, 0).is_ok());
    assert!(!enc.needs_fill());
    assert!(enc.next_frame().is_none());

    enc.encode(&[0; 4]);
    let err = enc.complete_fill(-66690, &out, 0).unwrap_err();
    assert_eq!(
        err.to_string(),
        "[shiguredo_audio_toolbox] AudioConverterFillComplexBuffer() failed: status=-66690"
    );
    assert!(!enc.needs_fill());

    enc.encode(&[0; 2]);
    assert_eq!(enc.buffered_frames(), 7);
    let _ = enc.supply_input(5);
    let mut buf = [0u8; ENCODE_BUF_SIZE];
    buf[..5].copy_from_slice(&[9, 8, 7, 6, 5]);
    assert!(enc.complete_fill(0, &buf, 3).is_ok());
    assert!(enc.needs_fill());
    let frame = enc.next_frame().expect("a frame was made");
    assert_eq!(frame.data, vec![9, 8, 7]);
    assert_eq!(frame.samples, 5);

    assert!(enc.complete_fill(0, &buf, 0).is_ok());
    assert!(!enc.needs_fill());
    assert!(enc.next_frame().is_none());
}

/// A frame counts only the frames its own fill took: a fill that takes
/// nothing makes a frame of 0 input frames, whatever was buffered before.
#[test]
fn a_frame_counts_only_what_its_fill_took() {
    let mut enc = Encoder::new(encoder_config(None)).expect("encoder");
    enc.encode(&[0; 20]);
    assert!(enc.complete_fill(0, &[7u8; ENCODE_BUF_SIZE], 1).is_ok());
    assert_eq!(enc.next_frame().expect("frame").samples, 0);
    let _ = enc.supply_input(3);
    let _ = enc.supply_input(4);
    assert!(enc.complete_fill(0, &[7u8; ENCODE_BUF_SIZE], 2).is_ok());
    assert_eq!(enc.next_frame().expect("frame").samples, 7);
}

/// A stand-in for the converter: each fill asks for one packet of 1024 frames
/// and, where it gets any, writes a 10-byte packet.
fn drain(enc: &mut Encoder) {
    while enc.needs_fill() {
        let (status, written) = match enc.supply_input(AAC_FRAMES_PER_PACKET) {
            EncoderInput::NoMoreInput => (K_NO_MORE_INPUT, 0),
            EncoderInput::Samples { packets, .. } => (0, if packets > 0 { 10 } else { 0 }),
        };
        enc.complete_fill(status, &[0xAB; ENCODE_BUF_SIZE], written).expect("fill");
    }
}

#[test]
fn encode_silent_accounts_for_every_frame() {
    let mut enc = Encoder::new(encoder_config(Some(128_000))).expect("create encoder error");
    let mut sample_count = 0;
    let mut frame_count = 0;
    for _ in 0..100 {
        enc.encode(&[0; 100 * TEST_CHANNELS as usize]);
        drain(&mut enc);
        while let Some(encoded) = enc.next_frame() {
            sample_count += encoded.samples;
            frame_count += 1;
        }
    }
    assert_eq!(frame_count, 9);
    enc.finish().expect("finish error");
    drain(&mut enc);
    while let Some(encoded) = enc.next_frame() {
        sample_count += encoded.samples;
        frame_count += 1;
    }
    assert_eq!(frame_count, 10);
    assert_eq!(sample_count, 100 * 100);
}

#[test]
fn frames_leave_in_the_order_they_were_made() {
    let mut enc = Encoder::new(encoder_config(None)).expect("encoder");
    enc.encode(&[0; 6]);
    let mut one = [0u8; ENCODE_BUF_SIZE];
    one[0] = 1;
    let two = [2u8; ENCODE_BUF_SIZE];
    assert!(enc.complete_fill(0, &one, 1).is_ok());
    assert!(enc.complete_fill(0, &two, 2).is_ok());
    assert_eq!(enc.next_frame().expect("first").data, vec![1]);
    assert_eq!(enc.next_frame().expect("second").data, vec![2, 2]);
    assert!(enc.next_frame().is_none());
    assert_eq!(enc.channels(), 2);
}
