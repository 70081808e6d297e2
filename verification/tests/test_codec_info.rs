//! Codec information, from the answers the platform gives when it is probed.

use shiguredo_audio_toolbox::codec_info::{
    accepted_bitrate_modes, bitrate_mode_candidates, codec_types_for_supported_codecs,
    decoding_info, encoding_info, probe_converter_created, probe_converter_setup, property_supported,
};
use shiguredo_audio_toolbox::format::{
    K_AUDIO_FORMAT_APPLE_LOSSLESS, K_AUDIO_FORMAT_FLAC, K_AUDIO_FORMAT_LINEAR_PCM,
    K_AUDIO_FORMAT_MPEG4_AAC, K_AUDIO_FORMAT_MPEG_LAYER3, K_AUDIO_FORMAT_OPUS,
};
use shiguredo_audio_toolbox::{
    supported_codecs, AudioCodecType, BitRateControlMode, CodecProbe, FormatPropertyProbe,
};

/// `kAudioFormatUnsupportedDataFormatError` ('fmt?').
const UNSUPPORTED_FORMAT: i32 = 1_718_449_215;

fn present() -> FormatPropertyProbe {
    FormatPropertyProbe { status: 0, size: 8 }
}

fn absent() -> FormatPropertyProbe {
    FormatPropertyProbe { status: UNSUPPORTED_FORMAT, size: 0 }
}

/// The answers of a Mac: AAC-LC decodes and encodes with every mode, MP3 and
/// Opus decode, Opus encodes with two modes, MP3 does not encode.
fn platform_probes() -> Vec<CodecProbe> {
    vec![
        CodecProbe {
            decoders: present(),
            encoders: present(),
            bitrate_mode_statuses: Some(vec![0, 0, 0, 0]),
        },
        CodecProbe { decoders: present(), encoders: absent(), bitrate_mode_statuses: None },
        CodecProbe {
            decoders: present(),
            encoders: present(),
            bitrate_mode_statuses: Some(vec![0, -50, -50, 0]),
        },
    ]
}

#[test]
fn supported_codecs_has_expected_length_and_unique_codec_entries() {
    let codecs = supported_codecs(&platform_probes());
    assert_eq!(codecs.len(), 3);
    for i in 0..codecs.len() {
        for j in (i + 1)..codecs.len() {
            assert_ne!(
                codecs[i].codec, codecs[j].codec,
                "supported_codecs must not contain duplicate AudioCodecType entries"
            );
        }
    }
}

#[test]
fn supported_codecs_aac_lc_decode_and_encode() {
    let codecs = supported_codecs(&platform_probes());
    let aac_lc = codecs
        .iter()
        .find(|c| c.codec == AudioCodecType::AacLc)
        .expect("AAC-LC entry");
    assert!(aac_lc.decoding.supported);
    assert!(aac_lc.encoding.supported);
    assert!(!aac_lc.encoding.bitrate_control_modes.is_empty());
}

#[test]
fn supported_codecs_mp3_decode_only_typically() {
    let codecs = supported_codecs(&platform_probes());
    let mp3 = codecs
        .iter()
        .find(|c| c.codec == AudioCodecType::Mp3)
        .expect("MP3 entry");
    assert!(mp3.decoding.supported);
    assert!(!mp3.encoding.supported);
}

#[test]
fn supported_codecs_opus_decoding_supported() {
    let codecs = supported_codecs(&platform_probes());
    let opus = codecs
        .iter()
        .find(|c| c.codec == AudioCodecType::Opus)
        .expect("Opus entry");
    assert!(opus.decoding.supported);
}

#[test]
fn supported_codecs_reports_in_fixed_order_with_probed_modes() {
    let codecs = supported_codecs(&platform_probes());
    let order: Vec<AudioCodecType> = codecs.iter().map(|c| c.codec).collect();
    assert_eq!(order, vec![AudioCodecType::AacLc, AudioCodecType::Mp3, AudioCodecType::Opus]);
    assert_eq!(codec_types_for_supported_codecs(), &order[..]);
    assert_eq!(
        codecs[0].encoding.bitrate_control_modes,
        vec![
            BitRateControlMode::Constant,
            BitRateControlMode::LongTermAverage,
            BitRateControlMode::VariableConstrained,
            BitRateControlMode::Variable,
        ]
    );
    assert!(codecs[1].encoding.bitrate_control_modes.is_empty());
    assert_eq!(
        codecs[2].encoding.bitrate_control_modes,
        vec![BitRateControlMode::Constant, BitRateControlMode::Variable]
    );
}

#[test]
fn all_lists_nine_codecs_in_order() {
    let all = AudioCodecType::all();
    assert_eq!(all.len(), 9);
    assert_eq!(all[0], AudioCodecType::AacLc);
    assert_eq!(all[5], AudioCodecType::Mp3);
    assert_eq!(all[8], AudioCodecType::Alac);
    for i in 0..all.len() {
        for j in (i + 1)..all.len() {
            assert_ne!(all[i], all[j]);
            assert_ne!(all[i].format_id(), all[j].format_id());
        }
    }
}

#[test]
fn codec_type_format_values() {
    assert_eq!(AudioCodecType::AacLc.format_id(), K_AUDIO_FORMAT_MPEG4_AAC);
    assert_eq!(AudioCodecType::Mp3.format_id(), K_AUDIO_FORMAT_MPEG_LAYER3);
    assert_eq!(AudioCodecType::Opus.format_id(), K_AUDIO_FORMAT_OPUS);
    assert_eq!(AudioCodecType::Flac.format_id(), K_AUDIO_FORMAT_FLAC);
    assert_eq!(AudioCodecType::Alac.format_id(), K_AUDIO_FORMAT_APPLE_LOSSLESS);
    assert_eq!(AudioCodecType::AacLc.format_flags(), 2);
    assert_eq!(AudioCodecType::AacHe.format_flags(), 0);
    assert_eq!(AudioCodecType::AacLc.frames_per_packet(), 1024);
    assert_eq!(AudioCodecType::AacHeV2.frames_per_packet(), 2048);
    assert_eq!(AudioCodecType::AacEld.frames_per_packet(), 480);
    assert_eq!(AudioCodecType::Mp3.frames_per_packet(), 1152);
    assert_eq!(AudioCodecType::Opus.frames_per_packet(), 0);
    assert!(AudioCodecType::Flac.is_lossless());
    assert!(AudioCodecType::Alac.is_lossless());
    assert!(!AudioCodecType::AacLc.is_lossless());
}

#[test]
fn property_probe_needs_success_and_data() {
    assert!(property_supported(FormatPropertyProbe { status: 0, size: 4 }));
    assert!(!property_supported(FormatPropertyProbe { status: 0, size: 0 }));
    assert!(!property_supported(FormatPropertyProbe { status: -50, size: 4 }));
    assert!(decoding_info(FormatPropertyProbe { status: 0, size: 1 }).supported);
    assert!(!decoding_info(FormatPropertyProbe { status: UNSUPPORTED_FORMAT, size: 1 }).supported);
}

#[test]
fn bitrate_modes_follow_the_statuses() {
    let candidates = bitrate_mode_candidates();
    assert_eq!(candidates.len(), 4);
    assert_eq!(candidates[0], (0, BitRateControlMode::Constant));
    assert_eq!(candidates[3], (3, BitRateControlMode::Variable));
    assert_eq!(accepted_bitrate_modes(&[-1, -1, -1, -1]), vec![]);
    assert_eq!(
        accepted_bitrate_modes(&[-1, 0, 0, -1]),
        vec![BitRateControlMode::LongTermAverage, BitRateControlMode::VariableConstrained]
    );
}

#[test]
fn encoding_info_ignores_modes_without_encoder() {
    let probe = CodecProbe {
        decoders: present(),
        encoders: absent(),
        bitrate_mode_statuses: Some(vec![0, 0, 0, 0]),
    };
    let info = encoding_info(&probe);
    assert!(!info.supported);
    assert!(info.bitrate_control_modes.is_empty());

    let no_converter = CodecProbe { decoders: present(), encoders: present(), bitrate_mode_statuses: None };
    let info = encoding_info(&no_converter);
    assert!(info.supported);
    assert!(info.bitrate_control_modes.is_empty());
}

#[test]
fn probe_converter_formats() {
    let setup = probe_converter_setup(AudioCodecType::Alac);
    assert_eq!(setup.input.format_id, K_AUDIO_FORMAT_LINEAR_PCM);
    assert_eq!(setup.input.sample_rate, 48000);
    assert_eq!(setup.input.bytes_per_frame, 4);
    assert_eq!(setup.output.format_id, K_AUDIO_FORMAT_APPLE_LOSSLESS);
    assert_eq!(setup.output.bits_per_channel, 16);
    assert_eq!(setup.output.channels_per_frame, 2);
    assert!(setup.properties.is_empty());
    let aac = probe_converter_setup(AudioCodecType::AacLc);
    assert_eq!(aac.output.bits_per_channel, 0);
    assert_eq!(aac.output.frames_per_packet, 1024);
    assert_eq!(aac.output.format_flags, 2);
}

#[test]
fn probe_converter_must_be_created() {
    assert!(probe_converter_created(0, false));
    assert!(!probe_converter_created(0, true));
    assert!(!probe_converter_created(-50, false));
}
