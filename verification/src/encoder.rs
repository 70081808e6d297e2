//! The encoder: interleaved 16-bit PCM in, compressed frames out.
//!
//! The encoder buffers the samples it is given. Each fill of the converter
//! pulls whole packets of samples through [`Encoder::supply_input`] and
//! produces at most one compressed frame, which [`Encoder::complete_fill`]
//! queues; [`Encoder::next_frame`] takes the frames out in the order they were made.

use vstd::prelude::*;

use std::collections::VecDeque;

use crate::error::{Error, PARAM_ERR};
use crate::format::{
    pcm_i16_format, pcm_i16_format_spec, ConverterSetup, PropertySetting, StreamFormat,
    BYTES_PER_SAMPLE, ENCODE_BUF_SIZE, K_AUDIO_FORMAT_FLAG_IS_PACKED,
    K_AUDIO_FORMAT_FLAG_IS_SIGNED_INTEGER, K_AUDIO_CODEC_PROPERTY_BIT_RATE_CONTROL_MODE,
    K_AUDIO_CODEC_PROPERTY_SOUND_QUALITY_FOR_VBR, K_AUDIO_CONVERTER_CODEC_QUALITY,
    K_AUDIO_CONVERTER_ENCODE_BIT_RATE, K_AUDIO_CONVERTER_QUALITY_HIGH,
    K_AUDIO_CONVERTER_QUALITY_LOW, K_AUDIO_CONVERTER_QUALITY_MAX, K_AUDIO_CONVERTER_QUALITY_MEDIUM,
    K_AUDIO_CONVERTER_QUALITY_MIN, K_AUDIO_FORMAT_MPEG4_AAC, K_BIT_RATE_CONTROL_MODE_CONSTANT,
    K_BIT_RATE_CONTROL_MODE_LONG_TERM_AVERAGE, K_BIT_RATE_CONTROL_MODE_VARIABLE,
    K_BIT_RATE_CONTROL_MODE_VARIABLE_CONSTRAINED, K_MPEG4_OBJECT_AAC_LC, K_NO_MORE_INPUT,
};

verus! {

/// The codecs the encoder produces.
#[derive(Debug, Clone, Copy, PartialEq, Eq, Structural)]
pub enum EncoderCodec {
    /// AAC-LC: `kAudioFormatMPEG4AAC` with `kMPEG4Object_AAC_LC`, 1024 frames per packet.
    AacLc,
}

/// How the encoder controls its bit rate (`kAudioCodecPropertyBitRateControlMode`).
#[derive(Debug, Clone, Copy, PartialEq, Eq, Structural)]
pub enum BitRateControlMode {
    /// Constant bit rate (`kAudioCodecBitRateControlMode_Constant`).
    Constant,
    /// Long-term average bit rate (`kAudioCodecBitRateControlMode_LongTermAverage`).
    LongTermAverage,
    /// Variable bit rate with an upper bound (`kAudioCodecBitRateControlMode_VariableConstrained`).
    VariableConstrained,
    /// Variable bit rate (`kAudioCodecBitRateControlMode_Variable`).
    Variable,
}

/// The raw value of a bit rate control mode.
pub open spec fn bit_rate_control_mode_value(mode: BitRateControlMode) -> u32 {
    match mode {
        BitRateControlMode::Constant => K_BIT_RATE_CONTROL_MODE_CONSTANT,
        BitRateControlMode::LongTermAverage => K_BIT_RATE_CONTROL_MODE_LONG_TERM_AVERAGE,
        BitRateControlMode::VariableConstrained => K_BIT_RATE_CONTROL_MODE_VARIABLE_CONSTRAINED,
        BitRateControlMode::Variable => K_BIT_RATE_CONTROL_MODE_VARIABLE,
    }
}

impl BitRateControlMode {
    /// The raw value of this mode.
    pub fn raw_value(self) -> (v: u32)
        ensures
            v == bit_rate_control_mode_value(self),
    {
        match self {
            BitRateControlMode::Constant => K_BIT_RATE_CONTROL_MODE_CONSTANT,
            BitRateControlMode::LongTermAverage => K_BIT_RATE_CONTROL_MODE_LONG_TERM_AVERAGE,
            BitRateControlMode::VariableConstrained => K_BIT_RATE_CONTROL_MODE_VARIABLE_CONSTRAINED,
            BitRateControlMode::Variable => K_BIT_RATE_CONTROL_MODE_VARIABLE,
        }
    }
}

/// The trade-off between quality and speed (`kAudioConverterCodecQuality`).
#[derive(Debug, Clone, Copy, PartialEq, Eq, Structural)]
pub enum CodecQuality {
    /// Lowest quality, fastest (`kAudioConverterQuality_Min` = 0).
    Min,
    /// Low quality (`kAudioConverterQuality_Low` = 32).
    Low,
    /// Medium quality (`kAudioConverterQuality_Medium` = 64).
    Medium,
    /// High quality (`kAudioConverterQuality_High` = 96).
    High,
    /// Highest quality, slowest (`kAudioConverterQuality_Max` = 127).
    Max,
}

/// The raw value of a codec quality.
pub open spec fn codec_quality_value(quality: CodecQuality) -> u32 {
    match quality {
        CodecQuality::Min => K_AUDIO_CONVERTER_QUALITY_MIN,
        CodecQuality::Low => K_AUDIO_CONVERTER_QUALITY_LOW,
        CodecQuality::Medium => K_AUDIO_CONVERTER_QUALITY_MEDIUM,
        CodecQuality::High => K_AUDIO_CONVERTER_QUALITY_HIGH,
        CodecQuality::Max => K_AUDIO_CONVERTER_QUALITY_MAX,
    }
}

impl CodecQuality {
    /// The raw value of this quality.
    pub fn raw_value(self) -> (v: u32)
        ensures
            v == codec_quality_value(self),
    {
        match self {
            CodecQuality::Min => K_AUDIO_CONVERTER_QUALITY_MIN,
            CodecQuality::Low => K_AUDIO_CONVERTER_QUALITY_LOW,
            CodecQuality::Medium => K_AUDIO_CONVERTER_QUALITY_MEDIUM,
            CodecQuality::High => K_AUDIO_CONVERTER_QUALITY_HIGH,
            CodecQuality::Max => K_AUDIO_CONVERTER_QUALITY_MAX,
        }
    }
}

/// The encoder's settings. Where an optional field is `None`, the converter's
/// default stays.
#[derive(Debug, Clone)]
pub struct EncoderConfig {
    /// The codec to produce.
    pub codec: EncoderCodec,
    /// The input's sample rate in hertz; the output keeps it. 0 is rejected.
    pub sample_rate: u32,
    /// The input's channels; the output keeps them. 0 is rejected.
    pub channels: u8,
    /// Target bit rate in bits per second (`kAudioConverterEncodeBitRate`).
    pub bitrate: Option<u32>,
    /// Bit rate control mode.
    pub bitrate_control_mode: Option<BitRateControlMode>,
    /// Codec quality.
    pub codec_quality: Option<CodecQuality>,
    /// Quality for variable bit rate, 0 to 127 (`kAudioCodecPropertySoundQualityForVBR`).
    pub vbr_quality: Option<u32>,
}

/// A compressed frame and the number of input frames it holds.
#[derive(Debug)]
pub struct EncodedFrame {
    /// The compressed bytes.
    pub data: Vec<u8>,
    /// The PCM frames (samples per channel) the frame was made from; 1024 for AAC-LC.
    pub samples: usize,
}

/// The destination format of an encoder.
pub open spec fn encoder_output_format(config: EncoderConfig) -> StreamFormat {
    match config.codec {
        EncoderCodec::AacLc => StreamFormat {
            sample_rate: config.sample_rate,
            format_id: K_AUDIO_FORMAT_MPEG4_AAC,
            format_flags: K_MPEG4_OBJECT_AAC_LC,
            bytes_per_packet: 0,
            frames_per_packet: 1024,
            bytes_per_frame: 0,
            channels_per_frame: config.channels as u32,
            bits_per_channel: 0,
        },
    }
}

/// The setting of one optional property: none where the value is absent.
pub open spec fn optional_setting(value: Option<u32>, property_id: u32, function: &'static str) -> Seq<PropertySetting> {
    match value {
        Some(v) => seq![PropertySetting { property_id, value: v, function }],
        None => Seq::empty(),
    }
}

/// The properties an encoder sets, in order: the bit rate control mode first
/// (it decides which bit rates are valid), then the bit rate, the codec
/// quality and the quality for variable bit rate, each where it is given.
pub open spec fn encoder_properties(config: EncoderConfig) -> Seq<PropertySetting> {
    optional_setting(
        match config.bitrate_control_mode {
            Some(m) => Some(bit_rate_control_mode_value(m)),
            None => None,
        },
        K_AUDIO_CODEC_PROPERTY_BIT_RATE_CONTROL_MODE,
        "AudioConverterSetProperty(BitRateControlMode)",
    ) + optional_setting(
        config.bitrate,
        K_AUDIO_CONVERTER_ENCODE_BIT_RATE,
        "AudioConverterSetProperty(EncodeBitRate)",
    ) + optional_setting(
        match config.codec_quality {
            Some(q) => Some(codec_quality_value(q)),
            None => None,
        },
        K_AUDIO_CONVERTER_CODEC_QUALITY,
        "AudioConverterSetProperty(CodecQuality)",
    ) + optional_setting(
        config.vbr_quality,
        K_AUDIO_CODEC_PROPERTY_SOUND_QUALITY_FOR_VBR,
        "AudioConverterSetProperty(SoundQualityForVBR)",
    )
}

/// The converter an encoder needs: from 16-bit PCM to the codec, at the same
/// rate and channels, with the given properties.
pub open spec fn encoder_setup_matches(setup: ConverterSetup, config: EncoderConfig) -> bool {
    &&& setup.input == pcm_i16_format_spec(config.sample_rate, config.channels)
    &&& setup.output == encoder_output_format(config)
    &&& setup.properties@ == encoder_properties(config)
}

/// What the encoder hands the converter when asked for input.
#[derive(Debug)]
pub enum EncoderInput {
    /// Too few samples for the request before `finish`: the callback returns
    /// [`K_NO_MORE_INPUT`] and leaves the packet count as it was.
    NoMoreInput,
    /// `packets` whole packets (frames) of interleaved `samples`, `byte_size`
    /// bytes, returned with `noErr`.
    Samples { packets: u32, byte_size: u32, samples: Vec<i16> },
}

/// Whether an encoder with `len` buffered samples of `channels` channels
/// answers a request for `requested` packets with samples: after `finish`
/// always, before it only when the whole request can be met.
pub open spec fn encoder_can_supply(len: nat, channels: nat, eos: bool, requested: u32) -> bool {
    eos || len >= requested * channels
}

/// The packets an encoder hands over: as many as requested, or as are buffered.
pub open spec fn supplied_packets(len: nat, channels: nat, requested: u32) -> nat {
    if requested <= len / channels { requested as nat } else { len / channels }
}

proof fn lemma_whole_packets(len: nat, channels: nat, requested: nat)
    requires
        channels > 0,
    ensures
        (len >= requested * channels) <==> (requested <= len / channels),
        (len / channels) * channels <= len,
        requested <= len / channels ==> requested * channels <= len,
{
    assert((len / channels) * channels <= len) by (nonlinear_arith)
        requires channels > 0;
    assert((len >= requested * channels) <==> (requested <= len / channels)) by (nonlinear_arith)
        requires channels > 0;
    assert(requested <= len / channels ==> requested * channels <= len) by (nonlinear_arith)
        requires channels > 0;
}

/// Whether `e` can answer a request for `requested` packets within the
/// machine's limits: the byte count of what it hands over fits a `u32`, and
/// the frames handed over in the current fill fit a `usize`.
pub open spec fn supply_fits(e: Encoder, requested: u32) -> bool {
    encoder_can_supply(e.buffered().len(), e.channels_spec(), e.at_eos(), requested) ==> {
        let n = supplied_packets(e.buffered().len(), e.channels_spec(), requested);
        &&& n * e.channels_spec() * 2 <= u32::MAX
        &&& e.frames_in_fill() + n <= usize::MAX
    }
}

/// What [`Encoder::supply_input`] does when asked for `requested` packets.
pub open spec fn supply_post(before: Encoder, requested: u32, input: EncoderInput, after: Encoder) -> bool {
    &&& !encoder_can_supply(before.buffered().len(), before.channels_spec(), before.at_eos(), requested)
        ==> (input matches EncoderInput::NoMoreInput && after == before)
    &&& encoder_can_supply(before.buffered().len(), before.channels_spec(), before.at_eos(), requested)
        ==> (input matches EncoderInput::Samples { packets, byte_size, samples } && {
                let n = supplied_packets(before.buffered().len(), before.channels_spec(), requested);
                &&& packets == n
                &&& packets <= requested
                &&& !before.at_eos() ==> packets == requested
                &&& samples@.len() == packets * before.channels_spec()
                &&& samples@ == before.buffered().take((n * before.channels_spec()) as int)
                &&& after.buffered() == before.buffered().skip((n * before.channels_spec()) as int)
                &&& samples@ + after.buffered() == before.buffered()
                &&& byte_size == n * before.channels_spec() * 2
                &&& after.frames_in_fill() == before.frames_in_fill() + n
                &&& after.queued() == before.queued()
                &&& after.at_eos() == before.at_eos()
                &&& after.draining() == before.draining()
                &&& after.channels_spec() == before.channels_spec()
                &&& after.setup_spec() == before.setup_spec()
            })
}

proof fn lemma_distribute(a: nat, n: nat, c: nat)
    ensures
        (a + n) * c == a * c + n * c,
        a * c <= (a + n) * c,
        c >= 1 ==> a <= a * c,
        0 * c == 0,
{
    assert((a + n) * c == a * c + n * c) by (nonlinear_arith);
    assert(c >= 1 ==> a <= a * c) by (nonlinear_arith);
}

/// An encoder of interleaved 16-bit PCM.
///
/// Use: [`Encoder::new`]; [`Encoder::encode`] with samples, then fill while
/// [`Encoder::needs_fill`]; take frames with [`Encoder::next_frame`]; at the end
/// [`Encoder::finish`], fill while needed and take the last frames.
///
/// The encoder counts the samples it was given, the input frames its frames
/// hold, the frames handed to the converter in the current fill, and the
/// frames a fill took without making a frame; every sample given is either
/// still buffered or in exactly one of those counts.
#[derive(Debug)]
pub struct Encoder {
    channels: usize,
    pcm_buf: Vec<i16>,
    encoded_frames: VecDeque<EncodedFrame>,
    eos: bool,
    draining: bool,
    fill_frames: usize,
    samples_fed: u64,
    frames_made: u64,
    frames_uncounted: u64,
    setup: ConverterSetup,
}

impl Encoder {
    /// Well-formedness: a valid channel count; every sample given is buffered
    /// or counted once; every queued frame holds 1 to [`ENCODE_BUF_SIZE`] bytes.
    pub closed spec fn wf(&self) -> bool {
        &&& 1 <= self.channels <= 255
        &&& self.samples_fed == (self.frames_made + self.frames_uncounted + self.fill_frames)
            * self.channels + self.pcm_buf@.len()
        &&& forall|i: int| 0 <= i < self.encoded_frames@.len()
            ==> 1 <= (#[trigger] self.encoded_frames@[i]).data@.len() <= ENCODE_BUF_SIZE
    }

    /// The input's channels.
    pub closed spec fn channels_spec(&self) -> nat {
        self.channels as nat
    }

    /// The samples given and not yet handed to the converter, interleaved.
    pub closed spec fn buffered(&self) -> Seq<i16> {
        self.pcm_buf@
    }

    /// The whole frames among the buffered samples.
    pub closed spec fn buffered_frames_spec(&self) -> nat {
        self.pcm_buf@.len() / (self.channels as nat)
    }

    /// The compressed frames made and not yet taken, oldest first.
    pub closed spec fn queued(&self) -> Seq<EncodedFrame> {
        self.encoded_frames@
    }

    /// Whether [`Encoder::finish`] has been called.
    pub closed spec fn at_eos(&self) -> bool {
        self.eos
    }

    /// Whether the converter is to be filled again.
    pub closed spec fn draining(&self) -> bool {
        self.draining
    }

    /// The input frames handed to the converter in the current fill.
    pub closed spec fn frames_in_fill(&self) -> nat {
        self.fill_frames as nat
    }

    /// The samples given to [`Encoder::encode`] so far.
    pub closed spec fn samples_fed(&self) -> nat {
        self.samples_fed as nat
    }

    /// The input frames held by the frames made so far (taken or queued): the
    /// sum of their `samples`.
    pub closed spec fn frames_made(&self) -> nat {
        self.frames_made as nat
    }

    /// The input frames taken by fills that made no frame.
    pub closed spec fn frames_uncounted(&self) -> nat {
        self.frames_uncounted as nat
    }

    /// The converter this encoder needs.
    pub closed spec fn setup_spec(&self) -> ConverterSetup {
        self.setup
    }

    /// Creates an encoder, after checking its settings.
    ///
    /// A sample rate or a channel count of 0 is refused with `paramErr`.
    pub fn new(config: EncoderConfig) -> (r: Result<Encoder, Error>)
        ensures
            config.sample_rate == 0 ==> (r matches Err(e) && e.status_spec() == PARAM_ERR
                && e.function_spec() == "Encoder::new(sample_rate)"@),
            config.sample_rate != 0 && config.channels == 0 ==> (r matches Err(e)
                && e.status_spec() == PARAM_ERR && e.function_spec()
                == "Encoder::new(channels)"@),
            config.sample_rate != 0 && config.channels != 0 ==> (r matches Ok(enc) && {
                &&& enc.wf()
                &&& enc.channels_spec() == config.channels as nat
                &&& enc.buffered() == Seq::<i16>::empty()
                &&& enc.queued() == Seq::<EncodedFrame>::empty()
                &&& !enc.at_eos()
                &&& !enc.draining()
                &&& enc.frames_in_fill() == 0
                &&& enc.samples_fed() == 0
                &&& enc.frames_made() == 0
                &&& enc.frames_uncounted() == 0
                &&& encoder_setup_matches(enc.setup_spec(), config)
            }),
    {
        if config.sample_rate == 0 {
            return Err(Error::new(PARAM_ERR, "Encoder::new(sample_rate)"));
        }
        if config.channels == 0 {
            return Err(Error::new(PARAM_ERR, "Encoder::new(channels)"));
        }
        let input = pcm_i16_format(config.sample_rate, config.channels);
        let output = match config.codec {
            EncoderCodec::AacLc => StreamFormat {
                sample_rate: config.sample_rate,
                format_id: K_AUDIO_FORMAT_MPEG4_AAC,
                format_flags: K_MPEG4_OBJECT_AAC_LC,
                bytes_per_packet: 0,
                frames_per_packet: 1024,
                bytes_per_frame: 0,
                channels_per_frame: config.channels as u32,
                bits_per_channel: 0,
            },
        };
        let mut properties: Vec<PropertySetting> = Vec::new();
        if let Some(mode) = config.bitrate_control_mode {
            properties.push(PropertySetting {
                property_id: K_AUDIO_CODEC_PROPERTY_BIT_RATE_CONTROL_MODE,
                value: mode.raw_value(),
                function: "AudioConverterSetProperty(BitRateControlMode)",
            });
        }
        if let Some(bitrate) = config.bitrate {
            properties.push(PropertySetting {
                property_id: K_AUDIO_CONVERTER_ENCODE_BIT_RATE,
                value: bitrate,
                function: "AudioConverterSetProperty(EncodeBitRate)",
            });
        }
        if let Some(quality) = config.codec_quality {
            properties.push(PropertySetting {
                property_id: K_AUDIO_CONVERTER_CODEC_QUALITY,
                value: quality.raw_value(),
                function: "AudioConverterSetProperty(CodecQuality)",
            });
        }
        if let Some(vbr_quality) = config.vbr_quality {
            properties.push(PropertySetting {
                property_id: K_AUDIO_CODEC_PROPERTY_SOUND_QUALITY_FOR_VBR,
                value: vbr_quality,
                function: "AudioConverterSetProperty(SoundQualityForVBR)",
            });
        }
        assert(properties@ =~= encoder_properties(config));
        let setup = ConverterSetup { input, output, properties };
        proof {
            lemma_distribute(0, 0, config.channels as nat);
        }
        Ok(Encoder {
            channels: config.channels as usize,
            pcm_buf: Vec::new(),
            encoded_frames: VecDeque::new(),
            eos: false,
            draining: false,
            fill_frames: 0,
            samples_fed: 0,
            frames_made: 0,
            frames_uncounted: 0,
            setup,
        })
    }

    /// The converter this encoder needs.
    pub fn setup(&self) -> (s: &ConverterSetup)
        ensures
            *s == self.setup_spec(),
    {
        &self.setup
    }

    /// The input's channels.
    pub fn channels(&self) -> (c: usize)
        requires
            self.wf(),
        ensures
            c == self.channels_spec(),
            1 <= c <= 255,
    {
        self.channels
    }

    /// The samples given to [`Encoder::encode`] so far.
    pub fn samples_fed_count(&self) -> (n: u64)
        ensures
            n == self.samples_fed(),
    {
        self.samples_fed
    }

    /// Buffers interleaved PCM samples; the fills that follow encode them.
    pub fn encode(&mut self, pcm: &[i16])
        requires
            old(self).wf(),
            old(self).samples_fed() + pcm@.len() <= u64::MAX,
        ensures
            final(self).wf(),
            final(self).buffered() == old(self).buffered() + pcm@,
            final(self).samples_fed() == old(self).samples_fed() + pcm@.len(),
            final(self).draining(),
            final(self).queued() == old(self).queued(),
            final(self).at_eos() == old(self).at_eos(),
            final(self).frames_in_fill() == old(self).frames_in_fill(),
            final(self).frames_made() == old(self).frames_made(),
            final(self).frames_uncounted() == old(self).frames_uncounted(),
            final(self).channels_spec() == old(self).channels_spec(),
            final(self).setup_spec() == old(self).setup_spec(),
    {
        let mut i: usize = 0;
        while i < pcm.len()
            invariant
                i <= pcm@.len(),
                self.pcm_buf@ == old(self).pcm_buf@ + pcm@.take(i as int),
                self.channels == old(self).channels,
                self.encoded_frames == old(self).encoded_frames,
                self.eos == old(self).eos,
                self.draining == old(self).draining,
                self.fill_frames == old(self).fill_frames,
                self.samples_fed == old(self).samples_fed,
                self.frames_made == old(self).frames_made,
                self.frames_uncounted == old(self).frames_uncounted,
                self.setup == old(self).setup,
            decreases pcm@.len() - i,
        {
            self.pcm_buf.push(pcm[i]);
            i = i + 1;
            assert(self.pcm_buf@ =~= old(self).pcm_buf@ + pcm@.take(i as int));
        }
        assert(pcm@.take(pcm@.len() as int) =~= pcm@);
        self.samples_fed = self.samples_fed + pcm.len() as u64;
        self.draining = true;
    }

    /// Tells the encoder that no more samples will come; the fills that follow
    /// encode what is left, the last packet short where it must be.
    pub fn finish(&mut self) -> (r: Result<(), Error>)
        requires
            old(self).wf(),
        ensures
            r is Ok,
            final(self).wf(),
            final(self).at_eos(),
            final(self).draining(),
            final(self).buffered() == old(self).buffered(),
            final(self).queued() == old(self).queued(),
            final(self).frames_in_fill() == old(self).frames_in_fill(),
            final(self).samples_fed() == old(self).samples_fed(),
            final(self).frames_made() == old(self).frames_made(),
            final(self).frames_uncounted() == old(self).frames_uncounted(),
            final(self).channels_spec() == old(self).channels_spec(),
            final(self).setup_spec() == old(self).setup_spec(),
    {
        self.eos = true;
        self.draining = true;
        Ok(())
    }

    /// Whether the converter is to be filled again: after samples were given or
    /// `finish` was called, until a fill makes no frame or fails.
    pub fn needs_fill(&self) -> (b: bool)
        ensures
            b == self.draining(),
    {
        self.draining
    }

    /// The whole frames among the buffered samples.
    pub fn buffered_frames(&self) -> (n: usize)
        requires
            self.wf(),
        ensures
            n == self.buffered_frames_spec(),
    {
        self.pcm_buf.len() / self.channels
    }

    /// Whether a request for `requested` packets can be answered within the
    /// machine's limits (see [`supply_fits`]).
    pub fn supply_fits(&self, requested: u32) -> (b: bool)
        requires
            self.wf(),
        ensures
            b == supply_fits(*self, requested),
    {
        let channels = self.channels;
        let available: usize = self.pcm_buf.len() / channels;
        proof {
            lemma_whole_packets(self.pcm_buf@.len(), channels as nat, requested as nat);
            lemma_whole_packets(self.pcm_buf@.len(), channels as nat, available as nat);
        }
        if !self.eos && available < requested as usize {
            return true;
        }
        let packets: usize = if (requested as usize) <= available { requested as usize } else { available };
        proof {
            lemma_whole_packets(self.pcm_buf@.len(), channels as nat, packets as nat);
        }
        packets * channels <= 0x7fff_ffff && self.fill_frames <= usize::MAX - packets
    }

    /// Answers the converter's request for `requested` input packets (frames)
    /// during a fill.
    ///
    /// Before `finish`, a request that the buffered samples cannot meet in full
    /// gets no samples. Otherwise as many whole frames as requested, or as are
    /// buffered, leave the buffer from its front and are counted in the fill.
    pub fn supply_input(&mut self, requested: u32) -> (input: EncoderInput)
        requires
            old(self).wf(),
            supply_fits(*old(self), requested),
        ensures
            final(self).wf(),
            final(self).samples_fed() == old(self).samples_fed(),
            final(self).frames_made() == old(self).frames_made(),
            final(self).frames_uncounted() == old(self).frames_uncounted(),
            supply_post(*old(self), requested, input, *final(self)),
    {
        let channels = self.channels;
        let available: usize = self.pcm_buf.len() / channels;
        proof {
            lemma_whole_packets(self.pcm_buf@.len(), channels as nat, requested as nat);
            lemma_whole_packets(self.pcm_buf@.len(), channels as nat, available as nat);
        }
        if !self.eos && available < requested as usize {
            return EncoderInput::NoMoreInput;
        }
        let packets: usize = if (requested as usize) <= available { requested as usize } else { available };
        proof {
            lemma_whole_packets(self.pcm_buf@.len(), channels as nat, packets as nat);
            lemma_distribute(
                (self.frames_made + self.frames_uncounted + self.fill_frames) as nat,
                packets as nat,
                channels as nat,
            );
        }
        let count: usize = packets * channels;
        let byte_size: u32 = (count * BYTES_PER_SAMPLE) as u32;
        let mut samples = self.pcm_buf.split_off(count);
        std::mem::swap(&mut self.pcm_buf, &mut samples);
        assert(samples@ + self.pcm_buf@ =~= old(self).pcm_buf@);
        self.fill_frames = self.fill_frames + packets;
        EncoderInput::Samples { packets: packets as u32, byte_size, samples }
    }

    /// Takes the outcome of one fill: its status, the output buffer of
    /// [`ENCODE_BUF_SIZE`] bytes and the number of bytes the converter wrote
    /// into it. The fill's count of handed-over frames starts afresh.
    ///
    /// [`K_NO_MORE_INPUT`] means that too few samples were buffered: no frame,
    /// and filling stops. An error status stops filling and is reported under
    /// `AudioConverterFillComplexBuffer`. A fill that wrote nothing stops
    /// filling. In those three cases the frames the fill took are counted as
    /// taken without a frame. Otherwise the bytes written become a frame at
    /// the back of the queue, holding the frames the fill took.
    pub fn complete_fill(&mut self, status: i32, output: &[u8], byte_size: u32) -> (r: Result<(), Error>)
        requires
            old(self).wf(),
            output@.len() == ENCODE_BUF_SIZE,
            status == 0 ==> byte_size <= ENCODE_BUF_SIZE,
        ensures
            final(self).wf(),
            final(self).buffered() == old(self).buffered(),
            final(self).at_eos() == old(self).at_eos(),
            final(self).samples_fed() == old(self).samples_fed(),
            final(self).frames_in_fill() == 0,
            final(self).channels_spec() == old(self).channels_spec(),
            final(self).setup_spec() == old(self).setup_spec(),
            status == K_NO_MORE_INPUT ==> (r is Ok),
            status != K_NO_MORE_INPUT && status != 0 ==> (r matches Err(e) && e.status_spec() == status
                && e.function_spec() == "AudioConverterFillComplexBuffer"@),
            status == 0 ==> (r is Ok),
            status != 0 || byte_size == 0 ==> {
                &&& !final(self).draining()
                &&& final(self).queued() == old(self).queued()
                &&& final(self).frames_made() == old(self).frames_made()
                &&& final(self).frames_uncounted() == old(self).frames_uncounted() + old(self).frames_in_fill()
            },
            status == 0 && byte_size != 0 ==> {
                let q = final(self).queued();
                let old_q = old(self).queued();
                &&& final(self).draining() == old(self).draining()
                &&& q.len() == old_q.len() + 1
                &&& q.take(old_q.len() as int) == old_q
                &&& q.last().data@ == output@.take(byte_size as int)
                &&& 1 <= q.last().data@.len() <= ENCODE_BUF_SIZE
                &&& q.last().samples == old(self).frames_in_fill()
                &&& final(self).frames_made() == old(self).frames_made() + old(self).frames_in_fill()
                &&& final(self).frames_uncounted() == old(self).frames_uncounted()
            },
    {
        let taken = self.fill_frames;
        proof {
            lemma_distribute(
                (self.frames_made + self.frames_uncounted + self.fill_frames) as nat,
                0,
                self.channels as nat,
            );
        }
        self.fill_frames = 0;
        if status != 0 || byte_size == 0 {
            self.draining = false;
            self.frames_uncounted = self.frames_uncounted + taken as u64;
            if status != 0 && status != K_NO_MORE_INPUT {
                return Err(Error::new(status, "AudioConverterFillComplexBuffer"));
            }
            return Ok(());
        }
        let size: usize = byte_size as usize;
        let mut data: Vec<u8> = Vec::new();
        let mut i: usize = 0;
        while i < size
            invariant
                i <= size,
                size <= output@.len(),
                data@ == output@.take(i as int),
            decreases size - i,
        {
            data.push(output[i]);
            i = i + 1;
            assert(data@ =~= output@.take(i as int));
        }
        self.frames_made = self.frames_made + taken as u64;
        self.encoded_frames.push_back(EncodedFrame { data, samples: taken });
        assert(self.encoded_frames@.take(old(self).encoded_frames@.len() as int) =~= old(self).encoded_frames@);
        assert forall|k: int| 0 <= k < self.encoded_frames@.len() implies 1 <= (#[trigger] self.encoded_frames@[k]).data@.len() <= ENCODE_BUF_SIZE by {
            if k < old(self).encoded_frames@.len() {
                assert(self.encoded_frames@[k] == old(self).encoded_frames@[k]);
            }
        }
        Ok(())
    }

    /// Takes the oldest compressed frame, or `None` where none is queued.
    pub fn next_frame(&mut self) -> (frame: Option<EncodedFrame>)
        requires
            old(self).wf(),
        ensures
            final(self).wf(),
            old(self).queued().len() == 0 ==> (frame is None && final(self).queued() == old(self).queued()),
            old(self).queued().len() > 0 ==> (frame == Some(old(self).queued()[0])
                && final(self).queued() == old(self).queued().drop_first()),
            frame matches Some(f) ==> 1 <= f.data@.len() <= ENCODE_BUF_SIZE,
            final(self).buffered() == old(self).buffered(),
            final(self).at_eos() == old(self).at_eos(),
            final(self).draining() == old(self).draining(),
            final(self).frames_in_fill() == old(self).frames_in_fill(),
            final(self).samples_fed() == old(self).samples_fed(),
            final(self).frames_made() == old(self).frames_made(),
            final(self).frames_uncounted() == old(self).frames_uncounted(),
            final(self).channels_spec() == old(self).channels_spec(),
            final(self).setup_spec() == old(self).setup_spec(),
    {
        let frame = self.encoded_frames.pop_front();
        proof {
            if old(self).encoded_frames@.len() > 0 {
                assert(self.encoded_frames@ =~= old(self).encoded_frames@.drop_first());
                assert(old(self).encoded_frames@[0] == old(self).encoded_frames@[0]);
                assert forall|k: int| 0 <= k < self.encoded_frames@.len() implies 1 <= (#[trigger] self.encoded_frames@[k]).data@.len() <= ENCODE_BUF_SIZE by {
                    assert(self.encoded_frames@[k] == old(self).encoded_frames@[k + 1]);
                }
            }
        }
        frame
    }
}

/// Every input frame given is counted once: the frames made hold no more
/// input frames than were given, and every frame that left the buffer is in a
/// frame made, in the current fill, or among those a fill took without making
/// a frame. So once everything was handed over and every fill made a frame,
/// the frames made hold exactly the frames given.
pub proof fn law_frames_count_what_was_fed(e: Encoder)
    requires
        e.wf(),
    ensures
        e.frames_made() * e.channels_spec() <= e.samples_fed(),
        (e.frames_made() + e.frames_uncounted() + e.frames_in_fill()) * e.channels_spec()
            + e.buffered().len() == e.samples_fed(),
        e.buffered().len() == 0 && e.frames_in_fill() == 0 && e.frames_uncounted() == 0
            ==> e.frames_made() * e.channels_spec() == e.samples_fed(),
        forall|i: int| 0 <= i < e.queued().len() ==> 1 <= (#[trigger] e.queued()[i]).data@.len() <= ENCODE_BUF_SIZE,
{
    lemma_distribute(e.frames_made(), e.frames_uncounted() + e.frames_in_fill(), e.channels_spec());
}

/// The output of an AAC-LC encoder has the format ID, flags and packet length
/// that [`AudioCodecType::AacLc`](crate::AudioCodecType) stands for.
pub proof fn law_encoder_output_matches_codec_type(config: EncoderConfig)
    requires
        config.codec == EncoderCodec::AacLc,
    ensures
        encoder_output_format(config).format_id == crate::codec_info::codec_format_id(crate::AudioCodecType::AacLc),
        encoder_output_format(config).format_flags == crate::codec_info::codec_format_flags(crate::AudioCodecType::AacLc),
        encoder_output_format(config).frames_per_packet == crate::codec_info::codec_frames_per_packet(crate::AudioCodecType::AacLc),
{
}

/// Where an optional setting is absent the converter's default stays: no
/// property is set for it. The settings that are given are set once each, and
/// the bit rate control mode before the bit rate, which it constrains.
pub proof fn law_encoder_sets_only_given_properties(config: EncoderConfig)
    ensures
        encoder_properties(config).len() == (if config.bitrate_control_mode is Some { 1int } else { 0 })
            + (if config.bitrate is Some { 1int } else { 0 })
            + (if config.codec_quality is Some { 1int } else { 0 })
            + (if config.vbr_quality is Some { 1int } else { 0 }),
        forall|i: int| 0 <= i < encoder_properties(config).len() ==> {
            let id = #[trigger] encoder_properties(config)[i].property_id;
            &&& id == K_AUDIO_CODEC_PROPERTY_BIT_RATE_CONTROL_MODE ==> config.bitrate_control_mode is Some && i == 0
            &&& id == K_AUDIO_CONVERTER_ENCODE_BIT_RATE ==> config.bitrate is Some
            &&& id == K_AUDIO_CONVERTER_CODEC_QUALITY ==> config.codec_quality is Some
            &&& id == K_AUDIO_CODEC_PROPERTY_SOUND_QUALITY_FOR_VBR ==> config.vbr_quality is Some
        },
        config.bitrate_control_mode is Some ==> encoder_properties(config)[0].property_id
            == K_AUDIO_CODEC_PROPERTY_BIT_RATE_CONTROL_MODE,
{
}

/// Before `finish`, a request for `requested` packets is met in full, with
/// the first `requested * channels` buffered samples, whenever that many are
/// buffered, and gets nothing (the encoder unchanged) whenever fewer are.
/// After `finish`, as many whole frames as requested or as remain are handed
/// over, leaving less than a frame behind when the request was not met.
pub proof fn law_full_request_met_when_buffered(before: Encoder, requested: u32, input: EncoderInput, after: Encoder)
    requires
        before.wf(),
        supply_post(before, requested, input, after),
    ensures
        before.buffered().len() >= requested * before.channels_spec() ==> (input matches EncoderInput::Samples { packets, samples, byte_size }
            && packets == requested
            && samples@ == before.buffered().take(requested * before.channels_spec())
            && after.buffered() == before.buffered().skip(requested * before.channels_spec())
            && byte_size == requested * before.channels_spec() * 2),
        !before.at_eos() && before.buffered().len() < requested * before.channels_spec() ==> (input matches EncoderInput::NoMoreInput
            && after == before),
        before.at_eos() ==> (input matches EncoderInput::Samples { packets, samples, .. }
            && packets <= requested
            && samples@.len() == packets * before.channels_spec()
            && samples@ + after.buffered() == before.buffered()
            && (packets == requested || after.buffered().len() < before.channels_spec())),
{
    let len = before.buffered().len();
    let c = before.channels_spec();
    lemma_whole_packets(len, c, requested as nat);
    lemma_whole_packets(len, c, len / c);
    if before.at_eos() && requested > len / c {
        assert(len / c * c + len % c == len) by (nonlinear_arith)
            requires c > 0;
        assert(len % c < c) by (nonlinear_arith)
            requires c > 0;
    }
}

/// The encoder's converter turns PCM at the configured rate and channels into
/// AAC-LC at that same rate and channels: 16-bit interleaved linear PCM in
/// (`2 * channels` bytes per frame, one frame per packet), AAC-LC packets of
/// 1024 frames out.
pub proof fn law_encoder_keeps_rate_and_channels(setup: ConverterSetup, config: EncoderConfig)
    requires
        encoder_setup_matches(setup, config),
    ensures
        setup.input.sample_rate == config.sample_rate,
        setup.output.sample_rate == config.sample_rate,
        setup.input.channels_per_frame == config.channels,
        setup.output.channels_per_frame == config.channels,
        setup.input.format_id == 1_819_304_813,
        setup.input.format_flags == 12,
        setup.input.bytes_per_frame == 2 * config.channels,
        setup.input.bytes_per_packet == 2 * config.channels,
        setup.input.frames_per_packet == 1,
        setup.input.bits_per_channel == 16,
        setup.output.format_id == 1_633_772_320,
        setup.output.format_flags == 2,
        setup.output.frames_per_packet == 1024,
        setup.output.bytes_per_packet == 0,
        setup.output.bits_per_channel == 0,
{
    assert(K_AUDIO_FORMAT_FLAG_IS_SIGNED_INTEGER | K_AUDIO_FORMAT_FLAG_IS_PACKED == 12u32) by (bit_vector);
}

/// Each bit rate control mode and codec quality is passed as its Audio
/// Toolbox value: constant 0, long-term average 1, variable constrained 2,
/// variable 3; qualities 0, 32, 64, 96, 127. The modes agree with the raw
/// values of the candidates the platform is probed with.
pub proof fn law_setting_values()
    ensures
        bit_rate_control_mode_value(BitRateControlMode::Constant) == 0,
        bit_rate_control_mode_value(BitRateControlMode::LongTermAverage) == 1,
        bit_rate_control_mode_value(BitRateControlMode::VariableConstrained) == 2,
        bit_rate_control_mode_value(BitRateControlMode::Variable) == 3,
        forall|i: int| 0 <= i < 4 ==> {
            let c = #[trigger] crate::codec_info::bitrate_mode_candidates_spec()[i];
            bit_rate_control_mode_value(c.1) == c.0 && c.0 == i
        },
        codec_quality_value(CodecQuality::Min) == 0,
        codec_quality_value(CodecQuality::Low) == 32,
        codec_quality_value(CodecQuality::Medium) == 64,
        codec_quality_value(CodecQuality::High) == 96,
        codec_quality_value(CodecQuality::Max) == 127,
{
}

/// Each property the encoder sets carries the value it was given: the mode's
/// and quality's Audio Toolbox values, the bit rate and the VBR quality as given.
pub proof fn law_encoder_property_values(config: EncoderConfig)
    ensures
        config.bitrate_control_mode matches Some(m) ==> encoder_properties(config)[0] == (PropertySetting {
            property_id: 1_633_903_206,
            value: bit_rate_control_mode_value(m),
            function: "AudioConverterSetProperty(BitRateControlMode)",
        }),
        config.bitrate matches Some(b) ==> encoder_properties(config)[
            if config.bitrate_control_mode is Some { 1int } else { 0 }
        ] == (PropertySetting {
            property_id: 1_651_663_220,
            value: b,
            function: "AudioConverterSetProperty(EncodeBitRate)",
        }),
        config.vbr_quality matches Some(v) ==> encoder_properties(config).last() == (PropertySetting {
            property_id: 1_986_163_313,
            value: v,
            function: "AudioConverterSetProperty(SoundQualityForVBR)",
        }),
        config.codec_quality matches Some(q) ==> encoder_properties(config)[
            (if config.bitrate_control_mode is Some { 1int } else { 0 })
            + (if config.bitrate is Some { 1int } else { 0 })
        ].value == codec_quality_value(q),
{
}

} // verus!
