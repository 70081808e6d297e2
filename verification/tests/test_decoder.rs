//! The decoder: settings, the one-packet rule, the answers to the converter
//! and the outcome of a fill.

use shiguredo_audio_toolbox::decoder::DecoderInput;
use shiguredo_audio_toolbox::format::{
    DECODE_BUF_FRAMES, DECODE_BUF_SAMPLES, K_AUDIO_FORMAT_LINEAR_PCM, K_AUDIO_FORMAT_MPEG_LAYER3,
    K_AUDIO_FORMAT_OPUS, K_NO_MORE_INPUT,
};
use shiguredo_audio_toolbox::{
    AudioStreamPacketDescription, Decoder, DecoderCodec, DecoderConfig, Error,
};

const TEST_SAMPLE_RATE: u32 = 48000;
const TEST_CHANNELS: u8 = 2;

fn decoder_config_aac() -> DecoderConfig {
    DecoderConfig {
        codec: DecoderCodec::AacLc,
        input_sample_rate: TEST_SAMPLE_RATE,
        input_channels: TEST_CHANNELS,
    }
}

fn decoder_aac_stereo_48k() -> Decoder {
    Decoder::new(decoder_config_aac()).expect("Decoder::new must succeed on this platform")
}

#[test]
fn decoder_new_rejects_zero_sample_rate() {
    let r = Decoder::new(DecoderConfig {
        codec: DecoderCodec::AacLc,
        input_sample_rate: 0,
        input_channels: TEST_CHANNELS,
    });
    assert!(r.is_err());
    assert!(
        r.unwrap_err()
            .to_string()
            .contains("Decoder::new(input_sample_rate)")
    );
}

#[test]
fn decoder_new_rejects_zero_channels() {
    let r = Decoder::new(DecoderConfig {
        codec: DecoderCodec::AacLc,
        input_sample_rate: TEST_SAMPLE_RATE,
        input_channels: 0,
    });
    assert!(r.is_err());
    assert!(
        r.unwrap_err()
            .to_string()
            .contains("Decoder::new(input_channels)")
    );
}

#[test]
fn test_decoder_init_decoder_mp3() {
    let result = Decoder::new(DecoderConfig {
        codec: DecoderCodec::Mp3,
        input_sample_rate: 44100,
        input_channels: 2,
    });
    assert!(result.is_ok());
}

#[test]
fn test_decoder_init_decoder_opus() {
    let result = Decoder::new(DecoderConfig {
        codec: DecoderCodec::Opus,
        input_sample_rate: 48000,
        input_channels: 2,
    });
    assert!(result.is_ok());
}

#[test]
fn lib_init_decoder_mp3() {
    let result = Decoder::new(DecoderConfig {
        codec: DecoderCodec::Mp3,
        input_sample_rate: 44100,
        input_channels: 2,
    });
    assert!(result.is_ok());
}

#[test]
fn lib_init_decoder_opus() {
    let result = Decoder::new(DecoderConfig {
        codec: DecoderCodec::Opus,
        input_sample_rate: 48000,
        input_channels: 2,
    });
    assert!(result.is_ok());
}

/// An empty packet leaves nothing pending, so another packet is accepted at once.
#[test]
fn decode_empty_then_decode_non_empty_does_not_error() {
    let mut d = decoder_aac_stereo_48k();
    d.decode(&[]).expect("empty decode");
    d.decode(&[0x00, 0x01, 0x02])
        .expect("second decode after empty");
    assert!(
        d.decode(&[0xff]).is_err(),
        "third decode without next_frame must fail"
    );
}

/// While a packet is pending, a second one is refused.
#[test]
fn decode_second_without_next_frame_returns_error() {
    let mut d = decoder_aac_stereo_48k();
    d.decode(&[0u8; 8]).expect("first decode");
    let err = d.decode(&[0u8; 8]).expect_err("second decode must fail");
    let msg = err.to_string();
    assert!(
        msg.contains("previous packet not consumed") && msg.contains("status=-50"),
        "unexpected error: {msg}"
    );
}

#[test]
fn decoder_setup_formats() {
    let d = Decoder::new(DecoderConfig {
        codec: DecoderCodec::Mp3,
        input_sample_rate: 44100,
        input_channels: 1,
    })
    .expect("decoder");
    let setup = d.setup();
    assert_eq!(setup.input.format_id, K_AUDIO_FORMAT_MPEG_LAYER3);
    assert_eq!(setup.input.format_flags, 0);
    assert_eq!(setup.input.frames_per_packet, 1152);
    assert_eq!(setup.input.channels_per_frame, 1);
    assert_eq!(setup.input.bytes_per_packet, 0);
    assert_eq!(setup.input.bits_per_channel, 0);
    assert_eq!(setup.output.format_id, K_AUDIO_FORMAT_LINEAR_PCM);
    assert_eq!(setup.output.sample_rate, 44100);
    assert_eq!(setup.output.channels_per_frame, 2);
    assert_eq!(setup.output.bytes_per_frame, 4);
    assert_eq!(setup.output.bits_per_channel, 16);
    assert!(setup.properties.is_empty());
    assert_eq!(DecoderCodec::Opus.format_id(), K_AUDIO_FORMAT_OPUS);
    assert_eq!(DecoderCodec::Opus.frames_per_packet(), 0);
    assert_eq!(DecoderCodec::AacLc.format_flags(), 2);
}

fn out() -> Vec<i16> {
    vec![0; DECODE_BUF_SAMPLES]
}

/// A stand-in for a converter's fill: it asks for input `requests` times, and
/// each packet it is handed decodes to 1024 stereo frames; it stops at the
/// first request that gets nothing. Returns the fill's outcome and the number
/// of packets handed over during the fill.
fn fill(d: &mut Decoder, requests: usize) -> (Result<Option<Vec<i16>>, Error>, usize) {
    let mut status = 0;
    let mut written: u32 = 0;
    let mut fed = 0;
    for _ in 0..requests {
        match d.supply_input(DECODE_BUF_FRAMES as u32) {
            DecoderInput::Packet { packets, description, .. } => {
                assert!(description.mDataByteSize > 0);
                fed += packets as usize;
                written += 1024 * 2 * 2;
            }
            DecoderInput::NoMoreInput => {
                status = K_NO_MORE_INPUT;
                break;
            }
            DecoderInput::EndOfStream => break,
        }
    }
    (d.complete_fill(status, out(), written), fed)
}

fn next_frame(d: &mut Decoder) -> Result<Option<Vec<i16>>, Error> {
    fill(d, 3).0
}

#[test]
fn decoder_answers_to_the_converter() {
    let mut d = decoder_aac_stereo_48k();
    assert_eq!(d.supply_input(5), DecoderInput::NoMoreInput);
    d.decode(&[7, 8, 9]).expect("decode");
    assert_eq!(d.pending_packet(), &[7, 8, 9]);
    assert!(matches!(d.supply_input(0), DecoderInput::Packet { packets: 0, .. }));
    assert_eq!(
        d.supply_input(5),
        DecoderInput::Packet {
            packets: 1,
            channels: 2,
            description: AudioStreamPacketDescription {
                mStartOffset: 0,
                mVariableFramesInPacket: 0,
                mDataByteSize: 3,
            },
        }
    );
    assert_eq!(d.supply_input(5), DecoderInput::NoMoreInput, "handed over once per fill");
    assert_eq!(d.pending_packet(), &[7, 8, 9], "the bytes stay until the fill completes");
    d.finish().expect("finish");
    assert_eq!(d.supply_input(1), DecoderInput::EndOfStream);
    assert!(d.complete_fill(0, out(), 0).expect("fill").is_none());
    assert_eq!(d.supply_input(5), DecoderInput::EndOfStream);
}

/// A converter that asks twice in one fill gets the packet once.
#[test]
fn second_request_in_a_fill_gets_no_data() {
    let mut d = decoder_aac_stereo_48k();
    d.decode(&[1, 2, 3]).expect("decode");
    let (r, fed) = fill(&mut d, 2);
    assert_eq!(fed, 1);
    let pcm = r.expect("fill").expect("samples");
    assert_eq!(pcm.len(), 1024 * 2);
    d.decode(&[4]).expect("the packet was consumed by the fill");
}

#[test]
fn decode_multiple_packets_no_duplicate_feeds() {
    let packets: Vec<Vec<u8>> = vec![vec![1; 10], vec![2; 20], vec![3; 30], vec![4; 5]];
    let mut decoder = decoder_aac_stereo_48k();
    let mut total_frames = 0usize;
    for packet in &packets {
        decoder.decode(packet).expect("decode");
        loop {
            let (r, fed) = fill(&mut decoder, 4);
            assert!(fed <= 1, "a packet is handed over at most once per fill");
            match r.expect("next_frame") {
                Some(frame) => {
                    let frames = frame.len() / TEST_CHANNELS as usize;
                    assert!(frames <= 1024 * 2);
                    total_frames += frames;
                }
                None => break,
            }
        }
    }
    assert_eq!(total_frames, packets.len() * 1024);
}

#[test]
fn decode_finish_then_next_frame_returns_none_without_input() {
    let mut d = decoder_aac_stereo_48k();
    d.finish().expect("finish");
    assert!(next_frame(&mut d).expect("next_frame").is_none());
    assert!(next_frame(&mut d).expect("next_frame").is_none());
}

#[test]
fn finish_after_empty_decode_does_not_error() {
    let mut d = decoder_aac_stereo_48k();
    d.decode(&[]).expect("空の decode");
    d.finish().expect("finish 呼び出し");
    assert!(next_frame(&mut d).expect("1 回目の next_frame").is_none());
    assert!(next_frame(&mut d).expect("2 回目の next_frame").is_none());
}

#[test]
fn fill_without_input_keeps_nothing_and_yields_nothing() {
    let mut d = decoder_aac_stereo_48k();
    assert!(d.complete_fill(K_NO_MORE_INPUT, out(), 8).expect("fill").is_none());
    d.decode(&[1]).expect("decode");
    assert!(d.complete_fill(K_NO_MORE_INPUT, out(), 8).expect("fill").is_none());
    assert!(d.decode(&[2]).is_err(), "the packet was never handed over: still pending");
}

/// A fill that runs out of input after taking the packet keeps what it decoded.
#[test]
fn fill_that_ran_out_after_the_packet_keeps_its_output() {
    let mut d = decoder_aac_stereo_48k();
    d.decode(&[1]).expect("decode");
    let _ = d.supply_input(1);
    let mut pcm = out();
    pcm[0] = 3;
    pcm[1] = 4;
    assert_eq!(d.complete_fill(K_NO_MORE_INPUT, pcm, 4).expect("fill"), Some(vec![3, 4]));
    d.decode(&[2]).expect("consumed");
}

/// A failed fill reports its status and still consumes the packet, so that the
/// decoder recovers with the next one.
#[test]
fn failed_fill_consumes_the_packet_and_recovers() {
    let mut d = decoder_aac_stereo_48k();
    d.decode(&[0xFF; 4096]).expect("a broken packet is accepted");
    let err = d.complete_fill(-50, out(), 0).expect_err("the fill failed");
    assert!(err.to_string().contains("AudioConverterFillComplexBuffer"));
    assert_eq!(
        err.to_string(),
        "[shiguredo_audio_toolbox] AudioConverterFillComplexBuffer() failed: status=-50"
    );
    d.decode(&[1, 2, 3]).expect("the next packet is accepted");
    let mut pcm = out();
    pcm[..6].copy_from_slice(&[5, 6, 7, 8, 9, 10]);
    let pcm = d.complete_fill(0, pcm, 8).expect("fill").expect("samples");
    assert_eq!(pcm, vec![5, 6, 7, 8]);
    d.decode(&[4]).expect("accepted again after a successful fill");
}

#[test]
fn fill_output_is_cut_to_the_bytes_written() {
    let mut d = decoder_aac_stereo_48k();
    d.decode(&[1]).expect("decode");
    let pcm = d.complete_fill(0, out(), 5).expect("fill").expect("samples");
    assert_eq!(pcm.len(), 2);
    d.decode(&[1]).expect("decode");
    let pcm = d.complete_fill(0, out(), u32::MAX).expect("fill").expect("samples");
    assert_eq!(pcm.len(), DECODE_BUF_SAMPLES);
    d.decode(&[1]).expect("decode");
    assert!(d.complete_fill(0, out(), 1).expect("fill").is_none());
}

#[test]
fn error_text_of_each_sign() {
    let e = shiguredo_audio_toolbox::Error::new(0, "f");
    assert_eq!(e.to_string(), "[shiguredo_audio_toolbox] f() failed: status=0");
    let e = shiguredo_audio_toolbox::Error::new(1_718_449_215, "g");
    assert_eq!(e.to_string(), "[shiguredo_audio_toolbox] g() failed: status=1718449215");
    let e = shiguredo_audio_toolbox::Error::new(i32::MIN, "h");
    assert_eq!(e.to_string(), "[shiguredo_audio_toolbox] h() failed: status=-2147483648");
    assert!(shiguredo_audio_toolbox::Error::check(0, "x").is_ok());
    assert_eq!(
        shiguredo_audio_toolbox::Error::check(7, "x").unwrap_err().to_string(),
        "[shiguredo_audio_toolbox] x() failed: status=7"
    );
}
