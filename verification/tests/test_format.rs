//! Creating a converter step by step.

use shiguredo_audio_toolbox::{BitRateControlMode, Encoder, EncoderCodec, EncoderConfig};

#[test]
fn creation_stops_at_the_first_failed_step() {
    let enc = Encoder::new(EncoderConfig {
        codec: EncoderCodec::AacLc,
        sample_rate: 48000,
        channels: 2,
        bitrate: Some(1_000),
        bitrate_control_mode: Some(BitRateControlMode::Constant),
        codec_quality: None,
        vbr_quality: None,
    })
    .expect("encoder");
    let setup = enc.setup();
    let first = setup.next_step(0, 0).expect("created").expect("a property follows");
    assert_eq!(first.function, "AudioConverterSetProperty(BitRateControlMode)");
    let second = setup.next_step(1, 0).expect("set").expect("a property follows");
    assert_eq!(second.value, 1_000);
    let err = setup.next_step(2, -50).unwrap_err();
    assert_eq!(
        err.to_string(),
        "[shiguredo_audio_toolbox] AudioConverterSetProperty(EncodeBitRate)() failed: status=-50"
    );
    let err = setup.next_step(0, -50).unwrap_err();
    assert_eq!(err.to_string(), "[shiguredo_audio_toolbox] AudioConverterNew() failed: status=-50");
    assert!(setup.next_step(2, 0).expect("done").is_none());
}
