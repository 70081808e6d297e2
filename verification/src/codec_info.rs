//! Which codecs the platform can decode and encode.
//!
//! The platform is asked through `AudioFormatGetPropertyInfo` and, for the
//! encoders it has, through a probe converter on which each bit rate control
//! mode is tried. The answers come in as [`CodecProbe`] values; this module
//! turns them into [`AudioCodecInfo`] values.

use vstd::prelude::*;

use crate::encoder::BitRateControlMode;
use crate::format::{
    pcm_i16_format, pcm_i16_format_spec, ConverterSetup, PropertySetting, StreamFormat,
    K_AUDIO_FORMAT_APPLE_LOSSLESS, K_AUDIO_FORMAT_FLAC, K_AUDIO_FORMAT_MPEG4_AAC,
    K_AUDIO_FORMAT_MPEG4_AAC_ELD, K_AUDIO_FORMAT_MPEG4_AAC_HE, K_AUDIO_FORMAT_MPEG4_AAC_HE_V2,
    K_AUDIO_FORMAT_MPEG4_AAC_LD, K_AUDIO_FORMAT_MPEG_LAYER3, K_AUDIO_FORMAT_OPUS,
    K_BIT_RATE_CONTROL_MODE_CONSTANT, K_BIT_RATE_CONTROL_MODE_LONG_TERM_AVERAGE,
    K_BIT_RATE_CONTROL_MODE_VARIABLE, K_BIT_RATE_CONTROL_MODE_VARIABLE_CONSTRAINED,
    K_MPEG4_OBJECT_AAC_LC,
};

verus! {

/// An audio codec. Audio Toolbox gives each one, the AAC variants included,
/// a format ID of its own (`kAudioFormat*`).
#[derive(Debug, Clone, Copy, PartialEq, Eq, Structural)]
pub enum AudioCodecType {
    /// AAC-LC (Low Complexity)
    AacLc,
    /// AAC-HE (High Efficiency, SBR)
    AacHe,
    /// AAC-HE v2 (High Efficiency v2, SBR and PS)
    AacHeV2,
    /// AAC-LD (Low Delay)
    AacLd,
    /// AAC-ELD (Enhanced Low Delay)
    AacEld,
    /// MP3 (MPEG Audio Layer 3)
    Mp3,
    /// Opus
    Opus,
    /// FLAC (Free Lossless Audio Codec)
    Flac,
    /// ALAC (Apple Lossless Audio Codec)
    Alac,
}

/// Every codec type, in the order of their declaration.
pub open spec fn all_codec_types() -> Seq<AudioCodecType> {
    seq![
        AudioCodecType::AacLc,
        AudioCodecType::AacHe,
        AudioCodecType::AacHeV2,
        AudioCodecType::AacLd,
        AudioCodecType::AacEld,
        AudioCodecType::Mp3,
        AudioCodecType::Opus,
        AudioCodecType::Flac,
        AudioCodecType::Alac,
    ]
}

/// The `mFormatID` of a codec.
pub open spec fn codec_format_id(codec: AudioCodecType) -> u32 {
    match codec {
        AudioCodecType::AacLc => K_AUDIO_FORMAT_MPEG4_AAC,
        AudioCodecType::AacHe => K_AUDIO_FORMAT_MPEG4_AAC_HE,
        AudioCodecType::AacHeV2 => K_AUDIO_FORMAT_MPEG4_AAC_HE_V2,
        AudioCodecType::AacLd => K_AUDIO_FORMAT_MPEG4_AAC_LD,
        AudioCodecType::AacEld => K_AUDIO_FORMAT_MPEG4_AAC_ELD,
        AudioCodecType::Mp3 => K_AUDIO_FORMAT_MPEG_LAYER3,
        AudioCodecType::Opus => K_AUDIO_FORMAT_OPUS,
        AudioCodecType::Flac => K_AUDIO_FORMAT_FLAC,
        AudioCodecType::Alac => K_AUDIO_FORMAT_APPLE_LOSSLESS,
    }
}

/// The `mFormatFlags` of a codec: the MPEG-4 object type for AAC-LC, else 0
/// (the format ID alone names the others).
pub open spec fn codec_format_flags(codec: AudioCodecType) -> u32 {
    match codec {
        AudioCodecType::AacLc => K_MPEG4_OBJECT_AAC_LC,
        _ => 0,
    }
}

/// The `mFramesPerPacket` of a codec: 0 where packets vary in length.
pub open spec fn codec_frames_per_packet(codec: AudioCodecType) -> u32 {
    match codec {
        AudioCodecType::AacLc => 1024,
        AudioCodecType::AacHe | AudioCodecType::AacHeV2 => 2048,
        AudioCodecType::AacLd | AudioCodecType::AacEld => 480,
        AudioCodecType::Mp3 => 1152,
        AudioCodecType::Opus | AudioCodecType::Flac | AudioCodecType::Alac => 0,
    }
}

/// Whether a codec is lossless (FLAC, ALAC).
pub open spec fn codec_is_lossless(codec: AudioCodecType) -> bool {
    codec == AudioCodecType::Flac || codec == AudioCodecType::Alac
}

impl AudioCodecType {
    /// Every codec type, in a fixed order.
    pub fn all() -> (codecs: &'static [AudioCodecType])
        ensures
            codecs@ == all_codec_types(),
    {
        let codecs: &'static [AudioCodecType] = &[
            AudioCodecType::AacLc,
            AudioCodecType::AacHe,
            AudioCodecType::AacHeV2,
            AudioCodecType::AacLd,
            AudioCodecType::AacEld,
            AudioCodecType::Mp3,
            AudioCodecType::Opus,
            AudioCodecType::Flac,
            AudioCodecType::Alac,
        ];
        assert(codecs@ =~= all_codec_types());
        codecs
    }

    /// The `mFormatID` of this codec.
    pub fn format_id(self) -> (id: u32)
        ensures
            id == codec_format_id(self),
    {
        match self {
            AudioCodecType::AacLc => K_AUDIO_FORMAT_MPEG4_AAC,
            AudioCodecType::AacHe => K_AUDIO_FORMAT_MPEG4_AAC_HE,
            AudioCodecType::AacHeV2 => K_AUDIO_FORMAT_MPEG4_AAC_HE_V2,
            AudioCodecType::AacLd => K_AUDIO_FORMAT_MPEG4_AAC_LD,
            AudioCodecType::AacEld => K_AUDIO_FORMAT_MPEG4_AAC_ELD,
            AudioCodecType::Mp3 => K_AUDIO_FORMAT_MPEG_LAYER3,
            AudioCodecType::Opus => K_AUDIO_FORMAT_OPUS,
            AudioCodecType::Flac => K_AUDIO_FORMAT_FLAC,
            AudioCodecType::Alac => K_AUDIO_FORMAT_APPLE_LOSSLESS,
        }
    }

    /// The `mFormatFlags` of this codec.
    pub fn format_flags(self) -> (flags: u32)
        ensures
            flags == codec_format_flags(self),
    {
        match self {
            AudioCodecType::AacLc => K_MPEG4_OBJECT_AAC_LC,
            _ => 0,
        }
    }

    /// The `mFramesPerPacket` of this codec.
    pub fn frames_per_packet(self) -> (frames: u32)
        ensures
            frames == codec_frames_per_packet(self),
    {
        match self {
            AudioCodecType::AacLc => 1024,
            AudioCodecType::AacHe | AudioCodecType::AacHeV2 => 2048,
            AudioCodecType::AacLd | AudioCodecType::AacEld => 480,
            AudioCodecType::Mp3 => 1152,
            AudioCodecType::Opus | AudioCodecType::Flac | AudioCodecType::Alac => 0,
        }
    }

    /// Whether this codec is lossless; a lossless encoder's output takes the
    /// input's bit depth.
    pub fn is_lossless(self) -> (b: bool)
        ensures
            b == codec_is_lossless(self),
    {
        match self {
            AudioCodecType::Flac | AudioCodecType::Alac => true,
            _ => false,
        }
    }
}

/// What is known of one codec.
#[derive(Debug, Clone, PartialEq)]
pub struct AudioCodecInfo {
    /// The codec.
    pub codec: AudioCodecType,
    /// Whether it can be decoded.
    pub decoding: AudioDecodingInfo,
    /// Whether and how it can be encoded.
    pub encoding: AudioEncodingInfo,
}

/// Whether a codec can be decoded.
#[derive(Debug, Clone, PartialEq, Eq)]
pub struct AudioDecodingInfo {
    /// Whether a decoder is available.
    pub supported: bool,
}

/// Whether and how a codec can be encoded.
#[derive(Debug, Clone, PartialEq, Eq)]
pub struct AudioEncodingInfo {
    /// Whether an encoder is available.
    pub supported: bool,
    /// The bit rate control modes the encoder accepts; empty where it is not available.
    pub bitrate_control_modes: Vec<BitRateControlMode>,
}

/// The answer of `AudioFormatGetPropertyInfo` about a codec's decoders or
/// encoders: the call's status and the size of the property's data.
#[derive(Debug, Clone, Copy, PartialEq, Eq, Structural)]
pub struct FormatPropertyProbe {
    /// The status of the call.
    pub status: i32,
    /// The size of the list of decoders or encoders, in bytes.
    pub size: u32,
}

/// What the platform reported of one codec.
#[derive(Debug, Clone)]
pub struct CodecProbe {
    /// The answer about the codec's decoders (`kAudioFormatProperty_Decoders`).
    pub decoders: FormatPropertyProbe,
    /// The answer about the codec's encoders (`kAudioFormatProperty_Encoders`).
    pub encoders: FormatPropertyProbe,
    /// The statuses of setting each of [`bitrate_mode_candidates`], in order, on
    /// a probe converter; `None` where no probe converter was made (no encoder,
    /// or its creation failed).
    pub bitrate_mode_statuses: Option<Vec<i32>>,
}

/// Whether the answer shows a decoder or an encoder: the call succeeded and
/// the list is not empty.
pub open spec fn property_shows_support(probe: FormatPropertyProbe) -> bool {
    probe.status == 0 && probe.size > 0
}

/// Whether the answer shows a decoder or an encoder.
pub fn property_supported(probe: FormatPropertyProbe) -> (b: bool)
    ensures
        b == property_shows_support(probe),
{
    probe.status == 0 && probe.size > 0
}

/// What the answer about a codec's decoders says.
pub fn decoding_info(decoders: FormatPropertyProbe) -> (info: AudioDecodingInfo)
    ensures
        info.supported == property_shows_support(decoders),
{
    AudioDecodingInfo { supported: property_supported(decoders) }
}

/// The bit rate control modes, in the order they are tried.
pub open spec fn bitrate_mode_candidate(i: int) -> BitRateControlMode {
    if i == 0 {
        BitRateControlMode::Constant
    } else if i == 1 {
        BitRateControlMode::LongTermAverage
    } else if i == 2 {
        BitRateControlMode::VariableConstrained
    } else {
        BitRateControlMode::Variable
    }
}

/// The number of bit rate control modes that are tried.
pub const BITRATE_MODE_CANDIDATES: usize = 4;

/// The bit rate control modes to try, each with its raw value, in order.
pub open spec fn bitrate_mode_candidates_spec() -> Seq<(u32, BitRateControlMode)> {
    seq![
        (K_BIT_RATE_CONTROL_MODE_CONSTANT, BitRateControlMode::Constant),
        (K_BIT_RATE_CONTROL_MODE_LONG_TERM_AVERAGE, BitRateControlMode::LongTermAverage),
        (K_BIT_RATE_CONTROL_MODE_VARIABLE_CONSTRAINED, BitRateControlMode::VariableConstrained),
        (K_BIT_RATE_CONTROL_MODE_VARIABLE, BitRateControlMode::Variable),
    ]
}

/// The bit rate control modes to try on a probe converter, each with its raw
/// value, in order: constant, long-term average, variable constrained, variable.
pub fn bitrate_mode_candidates() -> (candidates: Vec<(u32, BitRateControlMode)>)
    ensures
        candidates@ == bitrate_mode_candidates_spec(),
        candidates@ == seq![
            (K_BIT_RATE_CONTROL_MODE_CONSTANT, BitRateControlMode::Constant),
            (K_BIT_RATE_CONTROL_MODE_LONG_TERM_AVERAGE, BitRateControlMode::LongTermAverage),
            (K_BIT_RATE_CONTROL_MODE_VARIABLE_CONSTRAINED, BitRateControlMode::VariableConstrained),
            (K_BIT_RATE_CONTROL_MODE_VARIABLE, BitRateControlMode::Variable),
        ],
{
    let mut candidates: Vec<(u32, BitRateControlMode)> = Vec::new();
    candidates.push((K_BIT_RATE_CONTROL_MODE_CONSTANT, BitRateControlMode::Constant));
    candidates.push((K_BIT_RATE_CONTROL_MODE_LONG_TERM_AVERAGE, BitRateControlMode::LongTermAverage));
    candidates.push((K_BIT_RATE_CONTROL_MODE_VARIABLE_CONSTRAINED, BitRateControlMode::VariableConstrained));
    candidates.push((K_BIT_RATE_CONTROL_MODE_VARIABLE, BitRateControlMode::Variable));
    assert(candidates@ =~= seq![
        (K_BIT_RATE_CONTROL_MODE_CONSTANT, BitRateControlMode::Constant),
        (K_BIT_RATE_CONTROL_MODE_LONG_TERM_AVERAGE, BitRateControlMode::LongTermAverage),
        (K_BIT_RATE_CONTROL_MODE_VARIABLE_CONSTRAINED, BitRateControlMode::VariableConstrained),
        (K_BIT_RATE_CONTROL_MODE_VARIABLE, BitRateControlMode::Variable),
    ]);
    candidates
}

/// The candidate modes among the first `n` whose setting succeeded, in order.
pub open spec fn accepted_modes_upto(statuses: Seq<i32>, n: int) -> Seq<BitRateControlMode>
    decreases n,
{
    if n <= 0 {
        Seq::empty()
    } else if statuses[n - 1] == 0 {
        accepted_modes_upto(statuses, n - 1).push(bitrate_mode_candidate(n - 1))
    } else {
        accepted_modes_upto(statuses, n - 1)
    }
}

/// The candidate modes whose setting succeeded (status 0), in order.
pub open spec fn accepted_modes(statuses: Seq<i32>) -> Seq<BitRateControlMode> {
    accepted_modes_upto(statuses, statuses.len() as int)
}

/// The bit rate control modes a probe converter accepted, given the status of
/// setting each candidate in turn.
pub fn accepted_bitrate_modes(statuses: &[i32]) -> (modes: Vec<BitRateControlMode>)
    requires
        statuses@.len() == BITRATE_MODE_CANDIDATES,
    ensures
        modes@ == accepted_modes(statuses@),
{
    let candidates = bitrate_mode_candidates();
    let mut modes: Vec<BitRateControlMode> = Vec::new();
    let mut i: usize = 0;
    while i < BITRATE_MODE_CANDIDATES
        invariant
            i <= BITRATE_MODE_CANDIDATES,
            statuses@.len() == BITRATE_MODE_CANDIDATES,
            candidates@.len() == BITRATE_MODE_CANDIDATES,
            forall|k: int| 0 <= k < 4 ==> #[trigger] candidates@[k].1 == bitrate_mode_candidate(k),
            modes@ == accepted_modes_upto(statuses@, i as int),
        decreases BITRATE_MODE_CANDIDATES - i,
    {
        if statuses[i] == 0 {
            modes.push(candidates[i].1);
        }
        i = i + 1;
    }
    modes
}

/// What the platform's answers say about encoding a codec: an encoder is
/// there where the property shows one; its modes are those the probe
/// converter accepted, none where there is no encoder or no probe converter.
pub open spec fn encoding_modes(encoders: FormatPropertyProbe, statuses: Option<Seq<i32>>) -> Seq<BitRateControlMode> {
    if property_shows_support(encoders) {
        match statuses {
            Some(s) => accepted_modes(s),
            None => Seq::empty(),
        }
    } else {
        Seq::empty()
    }
}

/// The statuses of a probe, as a sequence.
pub open spec fn probe_statuses(probe: CodecProbe) -> Option<Seq<i32>> {
    match probe.bitrate_mode_statuses {
        Some(v) => Some(v@),
        None => None,
    }
}

/// Whether a probe's mode statuses, where there are any, cover every candidate.
pub open spec fn probe_well_formed(probe: CodecProbe) -> bool {
    match probe.bitrate_mode_statuses {
        Some(v) => v@.len() == BITRATE_MODE_CANDIDATES,
        None => true,
    }
}

/// What the answers of a probe say about encoding its codec.
pub fn encoding_info(probe: &CodecProbe) -> (info: AudioEncodingInfo)
    requires
        probe_well_formed(*probe),
    ensures
        info.supported == property_shows_support(probe.encoders),
        info.bitrate_control_modes@ == encoding_modes(probe.encoders, probe_statuses(*probe)),
{
    let supported = property_supported(probe.encoders);
    let bitrate_control_modes = if supported {
        match &probe.bitrate_mode_statuses {
            Some(statuses) => accepted_bitrate_modes(statuses.as_slice()),
            None => Vec::new(),
        }
    } else {
        Vec::new()
    };
    AudioEncodingInfo { supported, bitrate_control_modes }
}

/// The codecs [`supported_codecs`] reports on: those the encoder and the decoder
/// know, AAC-LC, MP3 and Opus.
pub open spec fn reported_codec_types() -> Seq<AudioCodecType> {
    seq![AudioCodecType::AacLc, AudioCodecType::Mp3, AudioCodecType::Opus]
}

/// The codecs to probe, in the order [`supported_codecs`] reports them.
pub fn codec_types_for_supported_codecs() -> (codecs: &'static [AudioCodecType])
    ensures
        codecs@ == reported_codec_types(),
{
    let codecs: &'static [AudioCodecType] = &[
        AudioCodecType::AacLc,
        AudioCodecType::Mp3,
        AudioCodecType::Opus,
    ];
    assert(codecs@ =~= reported_codec_types());
    codecs
}

/// Whether `info` is what `probe` says of `codec`.
pub open spec fn info_from_probe(info: AudioCodecInfo, codec: AudioCodecType, probe: CodecProbe) -> bool {
    &&& info.codec == codec
    &&& info.decoding.supported == property_shows_support(probe.decoders)
    &&& info.encoding.supported == property_shows_support(probe.encoders)
    &&& info.encoding.bitrate_control_modes@ == encoding_modes(probe.encoders, probe_statuses(probe))
}

/// The codec information for the codecs of [`codec_types_for_supported_codecs`],
/// given the platform's answers for each of them, in that order.
pub fn supported_codecs(probes: &[CodecProbe]) -> (infos: Vec<AudioCodecInfo>)
    requires
        probes@.len() == reported_codec_types().len(),
        forall|i: int| 0 <= i < probes@.len() ==> probe_well_formed(#[trigger] probes@[i]),
    ensures
        infos@.len() == reported_codec_types().len(),
        forall|i: int| 0 <= i < infos@.len() ==> info_from_probe(
            #[trigger] infos@[i],
            reported_codec_types()[i],
            probes@[i],
        ),
{
    let codecs = codec_types_for_supported_codecs();
    let mut infos: Vec<AudioCodecInfo> = Vec::new();
    let mut i: usize = 0;
    while i < codecs.len()
        invariant
            i <= codecs@.len(),
            codecs@ == reported_codec_types(),
            probes@.len() == codecs@.len(),
            forall|k: int| 0 <= k < probes@.len() ==> probe_well_formed(#[trigger] probes@[k]),
            infos@.len() == i,
            forall|k: int| 0 <= k < i ==> info_from_probe(
                #[trigger] infos@[k],
                reported_codec_types()[k],
                probes@[k],
            ),
        decreases codecs@.len() - i,
    {
        let probe = &probes[i];
        let info = AudioCodecInfo {
            codec: codecs[i],
            decoding: decoding_info(probe.decoders),
            encoding: encoding_info(probe),
        };
        infos.push(info);
        i = i + 1;
    }
    infos
}

/// The formats of a probe converter: 48 kHz stereo 16-bit PCM to the codec,
/// the output taking the input's bit depth where the codec is lossless.
pub open spec fn probe_setup_matches(setup: ConverterSetup, codec: AudioCodecType) -> bool {
    &&& setup.input == pcm_i16_format_spec(48000, 2)
    &&& setup.output == StreamFormat {
        sample_rate: 48000,
        format_id: codec_format_id(codec),
        format_flags: codec_format_flags(codec),
        bytes_per_packet: 0,
        frames_per_packet: codec_frames_per_packet(codec),
        bytes_per_frame: 0,
        channels_per_frame: 2,
        bits_per_channel: if codec_is_lossless(codec) { 16 } else { 0 },
    }
    &&& setup.properties@ == Seq::<PropertySetting>::empty()
}

/// Whether a probe converter was made: its creation succeeded and gave a
/// converter. Where it was not, no bit rate control mode is tried.
pub fn probe_converter_created(status: i32, is_null: bool) -> (b: bool)
    ensures
        b == (status == 0 && !is_null),
{
    status == 0 && !is_null
}

/// The converter on which the bit rate control modes of an encoder are tried.
pub fn probe_converter_setup(codec: AudioCodecType) -> (setup: ConverterSetup)
    ensures
        probe_setup_matches(setup, codec),
{
    let input = pcm_i16_format(48000, 2);
    let output = StreamFormat {
        sample_rate: 48000,
        format_id: codec.format_id(),
        format_flags: codec.format_flags(),
        bytes_per_packet: 0,
        frames_per_packet: codec.frames_per_packet(),
        bytes_per_frame: 0,
        channels_per_frame: 2,
        bits_per_channel: if codec.is_lossless() { 16 } else { 0 },
    };
    ConverterSetup { input, output, properties: Vec::new() }
}

/// Every codec type is listed by [`AudioCodecType::all`], once.
pub proof fn law_all_lists_each_codec_once(codec: AudioCodecType)
    ensures
        all_codec_types().contains(codec),
        forall|i: int, j: int| 0 <= i < j < all_codec_types().len() ==> all_codec_types()[i] != all_codec_types()[j],
{
    let all = all_codec_types();
    match codec {
        AudioCodecType::AacLc => assert(all[0] == codec),
        AudioCodecType::AacHe => assert(all[1] == codec),
        AudioCodecType::AacHeV2 => assert(all[2] == codec),
        AudioCodecType::AacLd => assert(all[3] == codec),
        AudioCodecType::AacEld => assert(all[4] == codec),
        AudioCodecType::Mp3 => assert(all[5] == codec),
        AudioCodecType::Opus => assert(all[6] == codec),
        AudioCodecType::Flac => assert(all[7] == codec),
        AudioCodecType::Alac => assert(all[8] == codec),
    }
}

/// Distinct codecs have distinct format IDs, so a format ID names one codec.
pub proof fn law_format_ids_distinct(a: AudioCodecType, b: AudioCodecType)
    requires
        a != b,
    ensures
        codec_format_id(a) != codec_format_id(b),
{
}

/// Where the platform shows no encoder for a codec, no bit rate control mode
/// is reported for it.
pub proof fn law_no_modes_without_encoder(encoders: FormatPropertyProbe, statuses: Option<Seq<i32>>)
    requires
        !property_shows_support(encoders),
    ensures
        encoding_modes(encoders, statuses) == Seq::<BitRateControlMode>::empty(),
{
}

/// The reported modes are exactly the candidates whose setting succeeded, in
/// the candidates' order, each at most once.
pub proof fn law_accepted_modes_are_the_successful_candidates(statuses: Seq<i32>)
    requires
        statuses.len() == BITRATE_MODE_CANDIDATES,
    ensures
        forall|m: BitRateControlMode| accepted_modes(statuses).contains(m) <==> exists|k: int|
            0 <= k < 4 && statuses[k] == 0 && #[trigger] bitrate_mode_candidate(k) == m,
        forall|i: int, j: int| 0 <= i < j < accepted_modes(statuses).len() ==> accepted_modes(statuses)[i]
            != accepted_modes(statuses)[j],
{
    reveal_with_fuel(accepted_modes_upto, 5);
    let s = statuses;
    let a = accepted_modes(s);
    assert forall|m: BitRateControlMode| a.contains(m) <==> exists|k: int|
        0 <= k < 4 && s[k] == 0 && #[trigger] bitrate_mode_candidate(k) == m by {
        if a.contains(m) {
            let i = choose|i: int| 0 <= i < a.len() && a[i] == m;
            if m == bitrate_mode_candidate(0) { assert(s[0] == 0); }
            else if m == bitrate_mode_candidate(1) { assert(s[1] == 0); }
            else if m == bitrate_mode_candidate(2) { assert(s[2] == 0); }
            else { assert(m == bitrate_mode_candidate(3)); assert(s[3] == 0); }
        }
        if exists|k: int| 0 <= k < 4 && s[k] == 0 && #[trigger] bitrate_mode_candidate(k) == m {
            let k = choose|k: int| 0 <= k < 4 && s[k] == 0 && #[trigger] bitrate_mode_candidate(k) == m;
            if k == 0 { assert(a.contains(m)) by { assert(a[0] == m); } }
            else if k == 1 {
                let idx = if s[0] == 0 { 1int } else { 0int };
                assert(a[idx] == m);
            } else if k == 2 {
                let idx = (if s[0] == 0 { 1int } else { 0int }) + (if s[1] == 0 { 1int } else { 0int });
                assert(a[idx] == m);
            } else {
                let idx = (if s[0] == 0 { 1int } else { 0int }) + (if s[1] == 0 { 1int } else { 0int })
                    + (if s[2] == 0 { 1int } else { 0int });
                assert(a[idx] == m);
            }
        }
    }
}

/// The codecs [`supported_codecs`] reports on are distinct codec types.
pub proof fn law_supported_codecs_distinct(infos: Seq<AudioCodecInfo>, probes: Seq<CodecProbe>)
    requires
        infos.len() == reported_codec_types().len(),
        probes.len() == reported_codec_types().len(),
        forall|i: int| 0 <= i < infos.len() ==> info_from_probe(#[trigger] infos[i], reported_codec_types()[i], probes[i]),
    ensures
        forall|i: int, j: int| 0 <= i < j < infos.len() ==> infos[i].codec != infos[j].codec,
{
    assert(info_from_probe(infos[0], reported_codec_types()[0], probes[0]));
    assert(info_from_probe(infos[1], reported_codec_types()[1], probes[1]));
    assert(info_from_probe(infos[2], reported_codec_types()[2], probes[2]));
}

/// The Audio Toolbox description of each codec: format IDs
/// (`kAudioFormatMPEG4AAC` = 'aac ', ... `kAudioFormatAppleLossless` = 'alac'),
/// the AAC-LC object type as the only flag, the fixed packet lengths (0 where
/// they vary), and losslessness for FLAC and ALAC only.
pub proof fn law_codec_descriptions()
    ensures
        codec_format_id(AudioCodecType::AacLc) == 1_633_772_320,
        codec_format_id(AudioCodecType::AacHe) == 1_633_772_392,
        codec_format_id(AudioCodecType::AacHeV2) == 1_633_772_400,
        codec_format_id(AudioCodecType::AacLd) == 1_633_772_396,
        codec_format_id(AudioCodecType::AacEld) == 1_633_772_389,
        codec_format_id(AudioCodecType::Mp3) == 778_924_083,
        codec_format_id(AudioCodecType::Opus) == 1_869_641_075,
        codec_format_id(AudioCodecType::Flac) == 1_718_378_851,
        codec_format_id(AudioCodecType::Alac) == 1_634_492_771,
        forall|c: AudioCodecType| #[trigger] codec_format_flags(c) == (if c == AudioCodecType::AacLc { 2u32 } else { 0u32 }),
        codec_frames_per_packet(AudioCodecType::AacLc) == 1024,
        codec_frames_per_packet(AudioCodecType::AacHe) == 2048,
        codec_frames_per_packet(AudioCodecType::AacHeV2) == 2048,
        codec_frames_per_packet(AudioCodecType::AacLd) == 480,
        codec_frames_per_packet(AudioCodecType::AacEld) == 480,
        codec_frames_per_packet(AudioCodecType::Mp3) == 1152,
        codec_frames_per_packet(AudioCodecType::Opus) == 0,
        codec_frames_per_packet(AudioCodecType::Flac) == 0,
        codec_frames_per_packet(AudioCodecType::Alac) == 0,
        forall|c: AudioCodecType| #[trigger] codec_is_lossless(c) <==> (c == AudioCodecType::Flac || c == AudioCodecType::Alac),
{
}

/// [`AudioCodecType::all`] lists the codecs in their declared order: AAC-LC,
/// AAC-HE, AAC-HE v2, AAC-LD, AAC-ELD, MP3, Opus, FLAC, ALAC.
pub proof fn law_all_in_declared_order()
    ensures
        all_codec_types().len() == 9,
        all_codec_types()[0] == AudioCodecType::AacLc,
        all_codec_types()[1] == AudioCodecType::AacHe,
        all_codec_types()[2] == AudioCodecType::AacHeV2,
        all_codec_types()[3] == AudioCodecType::AacLd,
        all_codec_types()[4] == AudioCodecType::AacEld,
        all_codec_types()[5] == AudioCodecType::Mp3,
        all_codec_types()[6] == AudioCodecType::Opus,
        all_codec_types()[7] == AudioCodecType::Flac,
        all_codec_types()[8] == AudioCodecType::Alac,
{
}

/// The report covers exactly the codecs the decoder accepts (AAC-LC, MP3,
/// Opus), the encoder's among them, in that order.
pub proof fn law_report_covers_the_decoder_codecs(d: crate::DecoderCodec)
    ensures
        reported_codec_types().contains(crate::decoder::decoder_codec_type(d)),
        reported_codec_types().contains(AudioCodecType::AacLc),
        reported_codec_types() == seq![AudioCodecType::AacLc, AudioCodecType::Mp3, AudioCodecType::Opus],
{
    match d {
        crate::DecoderCodec::AacLc => assert(reported_codec_types()[0] == AudioCodecType::AacLc),
        crate::DecoderCodec::Mp3 => assert(reported_codec_types()[1] == AudioCodecType::Mp3),
        crate::DecoderCodec::Opus => assert(reported_codec_types()[2] == AudioCodecType::Opus),
    }
}

/// A failed call, or an empty list of decoders or encoders, never shows one;
/// a successful call with a non-empty list always does.
pub proof fn law_support_needs_success_and_data(probe: FormatPropertyProbe)
    ensures
        probe.status != 0 ==> !property_shows_support(probe),
        probe.size == 0 ==> !property_shows_support(probe),
        probe.status == 0 && probe.size > 0 ==> property_shows_support(probe),
{
}

/// The reported modes keep the order of the candidates (constant, long-term
/// average, variable constrained, variable), so that a probe accepting all of
/// them reports all four in that order and one accepting none reports none.
pub proof fn law_accepted_modes_keep_candidate_order(statuses: Seq<i32>)
    requires
        statuses.len() == BITRATE_MODE_CANDIDATES,
    ensures
        forall|i: int, j: int| 0 <= i < j < accepted_modes(statuses).len() ==>
            crate::encoder::bit_rate_control_mode_value(#[trigger] accepted_modes(statuses)[i])
            < crate::encoder::bit_rate_control_mode_value(#[trigger] accepted_modes(statuses)[j]),
        (forall|k: int| 0 <= k < 4 ==> #[trigger] statuses[k] == 0) ==> accepted_modes(statuses) == seq![
            BitRateControlMode::Constant,
            BitRateControlMode::LongTermAverage,
            BitRateControlMode::VariableConstrained,
            BitRateControlMode::Variable,
        ],
        (forall|k: int| 0 <= k < 4 ==> #[trigger] statuses[k] != 0) ==> accepted_modes(statuses).len() == 0,
{
    reveal_with_fuel(accepted_modes_upto, 5);
    if forall|k: int| 0 <= k < 4 ==> #[trigger] statuses[k] == 0 {
        assert(statuses[0] == 0 && statuses[1] == 0 && statuses[2] == 0 && statuses[3] == 0);
        assert(accepted_modes(statuses) =~= seq![
            BitRateControlMode::Constant,
            BitRateControlMode::LongTermAverage,
            BitRateControlMode::VariableConstrained,
            BitRateControlMode::Variable,
        ]);
    }
    if forall|k: int| 0 <= k < 4 ==> #[trigger] statuses[k] != 0 {
        assert(statuses[0] != 0 && statuses[1] != 0 && statuses[2] != 0 && statuses[3] != 0);
    }
}

/// Each entry of the report reads its own codec's probe: decoding is supported
/// when the decoder query succeeded with a non-empty list, encoding likewise
/// with the encoder query, and modes are reported only with an encoder and a
/// probe converter, as the ones the converter accepted.
pub proof fn law_report_reads_each_probe(infos: Seq<AudioCodecInfo>, probes: Seq<CodecProbe>, i: int)
    requires
        infos.len() == reported_codec_types().len(),
        probes.len() == reported_codec_types().len(),
        forall|k: int| 0 <= k < infos.len() ==> info_from_probe(#[trigger] infos[k], reported_codec_types()[k], probes[k]),
        0 <= i < infos.len(),
    ensures
        infos[i].decoding.supported == (probes[i].decoders.status == 0 && probes[i].decoders.size > 0),
        infos[i].encoding.supported == (probes[i].encoders.status == 0 && probes[i].encoders.size > 0),
        !infos[i].encoding.supported ==> infos[i].encoding.bitrate_control_modes@.len() == 0,
        probes[i].bitrate_mode_statuses is None ==> infos[i].encoding.bitrate_control_modes@.len() == 0,
        infos[i].encoding.supported ==> (probes[i].bitrate_mode_statuses matches Some(s)
            ==> infos[i].encoding.bitrate_control_modes@ == accepted_modes(s@)),
        i == 0 ==> infos[i].codec == AudioCodecType::AacLc,
        i == 1 ==> infos[i].codec == AudioCodecType::Mp3,
        i == 2 ==> infos[i].codec == AudioCodecType::Opus,
{
    assert(info_from_probe(infos[i], reported_codec_types()[i], probes[i]));
}

/// The probe converter is 48 kHz stereo 16-bit PCM into the codec at the
/// same rate and channels, the output taking 16 bits where the codec is
/// lossless and none otherwise.
pub proof fn law_probe_converter_formats(setup: ConverterSetup, codec: AudioCodecType)
    requires
        probe_setup_matches(setup, codec),
    ensures
        setup.input.sample_rate == 48000,
        setup.output.sample_rate == 48000,
        setup.input.channels_per_frame == 2,
        setup.output.channels_per_frame == 2,
        setup.input.bytes_per_frame == 4,
        setup.input.bits_per_channel == 16,
        setup.input.format_id == 1_819_304_813,
        setup.output.format_id == codec_format_id(codec),
        setup.output.format_flags == codec_format_flags(codec),
        setup.output.frames_per_packet == codec_frames_per_packet(codec),
        setup.output.bits_per_channel == (if codec == AudioCodecType::Flac || codec == AudioCodecType::Alac { 16u32 } else { 0u32 }),
        setup.properties@.len() == 0,
{
}

} // verus!
