//! The decoder: compressed packets in, interleaved stereo 16-bit PCM out.
//!
//! The decoder holds at most one compressed packet at a time. The converter
//! pulls that packet through [`Decoder::supply_input`] while it fills an output
//! buffer, and [`Decoder::complete_fill`] turns the outcome of that fill into
//! the decoded samples or an error.

use vstd::prelude::*;

use crate::error::{Error, PARAM_ERR};
use crate::format::{
    pcm_i16_format, pcm_i16_format_spec, ConverterSetup, PropertySetting, StreamFormat,
    BYTES_PER_SAMPLE, DECODE_BUF_SAMPLES, K_AUDIO_FORMAT_MPEG4_AAC, K_AUDIO_FORMAT_MPEG_LAYER3, K_AUDIO_FORMAT_OPUS,
    K_MPEG4_OBJECT_AAC_LC, K_NO_MORE_INPUT,
};

verus! {

/// The codecs the decoder accepts.
///
/// FLAC is not among them: `AudioConverter` cannot decode it.
#[derive(Debug, Clone, Copy, PartialEq, Eq, Structural)]
pub enum DecoderCodec {
    /// AAC-LC: `kAudioFormatMPEG4AAC` with `kMPEG4Object_AAC_LC`, 1024 frames per packet.
    AacLc,
    /// MP3: `kAudioFormatMPEGLayer3`, 1152 frames per packet.
    Mp3,
    /// Opus: `kAudioFormatOpus`, a variable number of frames per packet.
    Opus,
}

/// The `mFormatID` of a decoder codec.
pub open spec fn decoder_format_id(codec: DecoderCodec) -> u32 {
    match codec {
        DecoderCodec::AacLc => K_AUDIO_FORMAT_MPEG4_AAC,
        DecoderCodec::Mp3 => K_AUDIO_FORMAT_MPEG_LAYER3,
        DecoderCodec::Opus => K_AUDIO_FORMAT_OPUS,
    }
}

/// The `mFormatFlags` of a decoder codec: the object type for AAC-LC, else 0.
pub open spec fn decoder_format_flags(codec: DecoderCodec) -> u32 {
    match codec {
        DecoderCodec::AacLc => K_MPEG4_OBJECT_AAC_LC,
        _ => 0,
    }
}

/// The `mFramesPerPacket` of a decoder codec: 0 where packets vary in length.
pub open spec fn decoder_frames_per_packet(codec: DecoderCodec) -> u32 {
    match codec {
        DecoderCodec::AacLc => 1024,
        DecoderCodec::Mp3 => 1152,
        DecoderCodec::Opus => 0,
    }
}

impl DecoderCodec {
    /// The `mFormatID` of this codec.
    pub fn format_id(self) -> (id: u32)
        ensures
            id == decoder_format_id(self),
    {
        match self {
            DecoderCodec::AacLc => K_AUDIO_FORMAT_MPEG4_AAC,
            DecoderCodec::Mp3 => K_AUDIO_FORMAT_MPEG_LAYER3,
            DecoderCodec::Opus => K_AUDIO_FORMAT_OPUS,
        }
    }

    /// The `mFormatFlags` of this codec.
    pub fn format_flags(self) -> (flags: u32)
        ensures
            flags == decoder_format_flags(self),
    {
        match self {
            DecoderCodec::AacLc => K_MPEG4_OBJECT_AAC_LC,
            _ => 0,
        }
    }

    /// The `mFramesPerPacket` of this codec.
    pub fn frames_per_packet(self) -> (frames: u32)
        ensures
            frames == decoder_frames_per_packet(self),
    {
        match self {
            DecoderCodec::AacLc => 1024,
            DecoderCodec::Mp3 => 1152,
            DecoderCodec::Opus => 0,
        }
    }
}

/// The decoder's settings. The output is always stereo at the input's rate.
#[derive(Debug, Clone)]
pub struct DecoderConfig {
    /// The codec of the input.
    pub codec: DecoderCodec,
    /// The input's sample rate in hertz; the output keeps it. 0 is rejected.
    pub input_sample_rate: u32,
    /// The input's channels. 0 is rejected.
    pub input_channels: u8,
}

/// The `AudioStreamPacketDescription` that describes one compressed packet.
#[allow(non_snake_case)]
#[derive(Debug, Clone, Copy, PartialEq, Eq, Structural)]
pub struct AudioStreamPacketDescription {
    /// Offset of the packet in the buffer.
    pub mStartOffset: i64,
    /// Frames in the packet where the format does not fix them; 0 otherwise.
    pub mVariableFramesInPacket: u32,
    /// Bytes of the packet.
    pub mDataByteSize: u32,
}

/// The source format of a decoder: the compressed codec at the given rate and
/// channels, with sizes left to the converter.
pub open spec fn decoder_input_format(config: DecoderConfig) -> StreamFormat {
    StreamFormat {
        sample_rate: config.input_sample_rate,
        format_id: decoder_format_id(config.codec),
        format_flags: decoder_format_flags(config.codec),
        bytes_per_packet: 0,
        frames_per_packet: decoder_frames_per_packet(config.codec),
        bytes_per_frame: 0,
        channels_per_frame: config.input_channels as u32,
        bits_per_channel: 0,
    }
}

/// The converter a decoder needs: from the compressed input to stereo 16-bit
/// PCM at the same sample rate (no resampling), with no property to set.
pub open spec fn decoder_setup_matches(setup: ConverterSetup, config: DecoderConfig) -> bool {
    &&& setup.input == decoder_input_format(config)
    &&& setup.output == pcm_i16_format_spec(config.input_sample_rate, 2)
    &&& setup.properties@ == Seq::<PropertySetting>::empty()
}

/// What the decoder hands the converter when asked for input.
#[derive(Debug, Clone, Copy, PartialEq, Eq, Structural)]
pub enum DecoderInput {
    /// No packet to hand over and the stream goes on: the callback returns
    /// [`K_NO_MORE_INPUT`] and leaves the packet count as it was.
    NoMoreInput,
    /// No packet to hand over and the stream has ended: the callback returns
    /// `noErr` with 0 packets.
    EndOfStream,
    /// The pending packet, whole: `packets` packets (at most 1) of `channels`
    /// channels, described by `description`, returned with `noErr`.
    Packet { packets: u32, channels: u32, description: AudioStreamPacketDescription },
}

/// Whether the decoder accepts a new packet: only when none is pending.
pub open spec fn decode_accepts(pending: Seq<u8>) -> bool {
    pending.len() == 0
}

/// The input the converter gets from a decoder with `pending` bytes, of which
/// it has (`handed_over`) or has not yet been given the packet in the current
/// fill, after `finish` has (`eos`) or has not been called, when it asks for
/// `requested` packets. A packet is handed over once per fill; a later request
/// in the same fill gets nothing.
pub open spec fn decoder_input_spec(pending: Seq<u8>, handed_over: bool, eos: bool, channels: u8, requested: u32) -> DecoderInput {
    if pending.len() == 0 || handed_over {
        if eos { DecoderInput::EndOfStream } else { DecoderInput::NoMoreInput }
    } else {
        DecoderInput::Packet {
            packets: if requested < 1 { requested } else { 1 },
            channels: channels as u32,
            description: AudioStreamPacketDescription {
                mStartOffset: 0,
                mVariableFramesInPacket: 0,
                mDataByteSize: pending.len() as u32,
            },
        }
    }
}

/// Whether an input hands a packet over.
pub open spec fn hands_over_packet(input: DecoderInput) -> bool {
    input matches DecoderInput::Packet { packets, .. } && packets > 0
}

/// The samples a successful fill hands back: the first `byte_size / 2` of the
/// output buffer, or all of it where it is shorter.
pub open spec fn decoded_samples(pcm: Seq<i16>, byte_size: u32) -> Seq<i16> {
    let n = byte_size as int / 2;
    if n <= pcm.len() { pcm.take(n) } else { pcm }
}

/// A decoder of compressed audio packets, one at a time, to stereo 16-bit PCM.
///
/// Use: [`Decoder::new`]; then for each packet [`Decoder::decode`], after which
/// the converter is filled until it yields nothing more; then [`Decoder::finish`]
/// and fills until nothing more comes out.
#[derive(Debug)]
pub struct Decoder {
    encoded_buf: Vec<u8>,
    handed_over: bool,
    eos: bool,
    input_channels: u8,
    setup: ConverterSetup,
}

/// Two decoder states with the same settings.
pub open spec fn same_settings(a: Decoder, b: Decoder) -> bool {
    a.channels_spec() == b.channels_spec() && a.setup_spec() == b.setup_spec()
}

/// What [`Decoder::decode`] does: with no packet pending, the packet becomes
/// the pending one, not yet handed over; otherwise it is refused with
/// `paramErr` and nothing changes.
pub open spec fn decode_post(before: Decoder, packet: Seq<u8>, r: Result<(), Error>, after: Decoder) -> bool {
    if decode_accepts(before.pending()) {
        &&& r is Ok
        &&& after.pending() == packet
        &&& !after.handed_over()
        &&& after.at_eos() == before.at_eos()
        &&& same_settings(before, after)
    } else {
        &&& r matches Err(e) && e.status_spec() == PARAM_ERR
            && e.function_spec() == "Decoder::decode(previous packet not consumed)"@
        &&& after == before
    }
}

/// What [`Decoder::supply_input`] does: it answers with
/// [`decoder_input_spec`] and records a packet it hands over; the packet
/// stays pending (its bytes are read during the fill).
pub open spec fn supply_post(before: Decoder, requested: u32, input: DecoderInput, after: Decoder) -> bool {
    &&& input == decoder_input_spec(before.pending(), before.handed_over(), before.at_eos(), before.channels_spec(), requested)
    &&& after.pending() == before.pending()
    &&& after.handed_over() == (before.handed_over() || hands_over_packet(input))
    &&& after.at_eos() == before.at_eos()
    &&& same_settings(before, after)
}

/// Whether a fill with this status consumed the pending packet: it did unless
/// it stopped for want of input without being handed a packet.
pub open spec fn fill_consumes(before: Decoder, status: i32) -> bool {
    status != K_NO_MORE_INPUT || before.handed_over()
}

/// What [`Decoder::complete_fill`] does with the outcome of a fill.
pub open spec fn fill_post(
    before: Decoder,
    status: i32,
    pcm: Seq<i16>,
    byte_size: u32,
    r: Result<Option<Vec<i16>>, Error>,
    after: Decoder,
) -> bool {
    &&& !after.handed_over()
    &&& after.at_eos() == before.at_eos()
    &&& same_settings(before, after)
    &&& if fill_consumes(before, status) {
        after.pending() == Seq::<u8>::empty()
    } else {
        after.pending() == before.pending()
    }
    &&& if status != 0 && status != K_NO_MORE_INPUT {
        r matches Err(e) && e.status_spec() == status
            && e.function_spec() == "AudioConverterFillComplexBuffer"@
    } else if !fill_consumes(before, status) || byte_size / 2 == 0 {
        r matches Ok(None)
    } else {
        r matches Ok(Some(v)) && v@ == decoded_samples(pcm, byte_size)
    }
}

impl Decoder {
    /// The compressed packet waiting to be decoded (empty when none is).
    pub closed spec fn pending(&self) -> Seq<u8> {
        self.encoded_buf@
    }

    /// Whether the pending packet has been handed to the converter in the
    /// current fill.
    pub closed spec fn handed_over(&self) -> bool {
        self.handed_over
    }

    /// Whether [`Decoder::finish`] has been called.
    pub closed spec fn at_eos(&self) -> bool {
        self.eos
    }

    /// The input's channels.
    pub closed spec fn channels_spec(&self) -> u8 {
        self.input_channels
    }

    /// The converter this decoder needs.
    pub closed spec fn setup_spec(&self) -> ConverterSetup {
        self.setup
    }

    /// Creates a decoder, after checking its settings.
    ///
    /// A sample rate or a channel count of 0 is refused with `paramErr`.
    pub fn new(config: DecoderConfig) -> (r: Result<Decoder, Error>)
        ensures
            config.input_sample_rate == 0 ==> (r matches Err(e) && e.status_spec() == PARAM_ERR
                && e.function_spec() == "Decoder::new(input_sample_rate)"@),
            config.input_sample_rate != 0 && config.input_channels == 0 ==> (r matches Err(e)
                && e.status_spec() == PARAM_ERR && e.function_spec()
                == "Decoder::new(input_channels)"@),
            config.input_sample_rate != 0 && config.input_channels != 0 ==> (r matches Ok(d) && {
                &&& d.pending() == Seq::<u8>::empty()
                &&& !d.handed_over()
                &&& !d.at_eos()
                &&& d.channels_spec() == config.input_channels
                &&& decoder_setup_matches(d.setup_spec(), config)
            }),
    {
        if config.input_sample_rate == 0 {
            return Err(Error::new(PARAM_ERR, "Decoder::new(input_sample_rate)"));
        }
        if config.input_channels == 0 {
            return Err(Error::new(PARAM_ERR, "Decoder::new(input_channels)"));
        }
        let input = StreamFormat {
            sample_rate: config.input_sample_rate,
            format_id: config.codec.format_id(),
            format_flags: config.codec.format_flags(),
            bytes_per_packet: 0,
            frames_per_packet: config.codec.frames_per_packet(),
            bytes_per_frame: 0,
            channels_per_frame: config.input_channels as u32,
            bits_per_channel: 0,
        };
        let output = pcm_i16_format(config.input_sample_rate, 2);
        let setup = ConverterSetup { input, output, properties: Vec::new() };
        Ok(Decoder {
            encoded_buf: Vec::new(),
            handed_over: false,
            eos: false,
            input_channels: config.input_channels,
            setup,
        })
    }

    /// The converter this decoder needs.
    pub fn setup(&self) -> (s: &ConverterSetup)
        ensures
            *s == self.setup_spec(),
    {
        &self.setup
    }

    /// Hands the decoder one compressed packet.
    ///
    /// The packet is decoded by the fills that follow. While a non-empty packet
    /// is still pending, another one is refused with `paramErr`, so that two
    /// packets are never decoded as one.
    pub fn decode(&mut self, encoded: &[u8]) -> (r: Result<(), Error>)
        ensures
            decode_post(*old(self), encoded@, r, *final(self)),
    {
        if self.encoded_buf.len() != 0 {
            return Err(Error::new(PARAM_ERR, "Decoder::decode(previous packet not consumed)"));
        }
        let mut i: usize = 0;
        while i < encoded.len()
            invariant
                i <= encoded@.len(),
                self.encoded_buf@ == encoded@.take(i as int),
                self.eos == old(self).eos,
                self.input_channels == old(self).input_channels,
                self.setup == old(self).setup,
            decreases encoded@.len() - i,
        {
            self.encoded_buf.push(encoded[i]);
            i = i + 1;
            assert(self.encoded_buf@ =~= encoded@.take(i as int));
        }
        assert(encoded@.take(encoded@.len() as int) =~= encoded@);
        self.handed_over = false;
        Ok(())
    }

    /// Tells the decoder that no more packets will come.
    pub fn finish(&mut self) -> (r: Result<(), Error>)
        ensures
            r is Ok,
            final(self).at_eos(),
            final(self).pending() == old(self).pending(),
            final(self).handed_over() == old(self).handed_over(),
            same_settings(*old(self), *final(self)),
    {
        self.eos = true;
        Ok(())
    }

    /// The pending packet's bytes, which the converter reads during a fill.
    pub fn pending_packet(&self) -> (p: &[u8])
        ensures
            p@ == self.pending(),
    {
        self.encoded_buf.as_slice()
    }

    /// Answers the converter's request for `requested` input packets during a fill.
    ///
    /// The pending packet is handed over whole, as one packet, at the first
    /// request of a fill; later requests of the same fill get nothing. The
    /// packet's bytes stay pending until the fill completes.
    pub fn supply_input(&mut self, requested: u32) -> (input: DecoderInput)
        ensures
            supply_post(*old(self), requested, input, *final(self)),
    {
        if self.encoded_buf.len() == 0 || self.handed_over {
            if self.eos {
                return DecoderInput::EndOfStream;
            }
            return DecoderInput::NoMoreInput;
        }
        let byte_size: u32 = self.encoded_buf.len() as u32;
        let packets: u32 = if requested < 1 { requested } else { 1 };
        if packets > 0 {
            self.handed_over = true;
        }
        DecoderInput::Packet {
            packets,
            channels: self.input_channels as u32,
            description: AudioStreamPacketDescription {
                mStartOffset: 0,
                mVariableFramesInPacket: 0,
                mDataByteSize: byte_size,
            },
        }
    }

    /// Takes the outcome of one fill: its status, the output buffer of
    /// [`DECODE_BUF_SAMPLES`] samples and the number of bytes the converter
    /// wrote into it.
    ///
    /// [`K_NO_MORE_INPUT`] from a fill that was handed no packet means that
    /// there was nothing to decode: nothing comes out and nothing changes. Any
    /// other outcome, an error included, consumes the pending packet, so that
    /// the next packet is accepted; a fill that ran out of input after taking
    /// the packet keeps what it decoded. An error status is reported under
    /// `AudioConverterFillComplexBuffer`. Otherwise the samples written come
    /// out, or `None` where there are none.
    pub fn complete_fill(&mut self, status: i32, pcm: Vec<i16>, byte_size: u32) -> (r: Result<Option<Vec<i16>>, Error>)
        requires
            pcm@.len() == DECODE_BUF_SAMPLES,
        ensures
            fill_post(*old(self), status, pcm@, byte_size, r, *final(self)),
            r matches Ok(Some(v)) ==> 0 < v@.len() <= DECODE_BUF_SAMPLES,
    {
        let consumed = status != K_NO_MORE_INPUT || self.handed_over;
        self.handed_over = false;
        if !consumed {
            return Ok(None);
        }
        self.encoded_buf.clear();
        if status != K_NO_MORE_INPUT {
            Error::check(status, "AudioConverterFillComplexBuffer")?;
        }
        let size: usize = byte_size as usize / BYTES_PER_SAMPLE;
        if size == 0 {
            return Ok(None);
        }
        let mut pcm = pcm;
        pcm.truncate(size);
        Ok(Some(pcm))
    }
}

/// The codec type a decoder codec is.
pub open spec fn decoder_codec_type(codec: DecoderCodec) -> crate::AudioCodecType {
    match codec {
        DecoderCodec::AacLc => crate::AudioCodecType::AacLc,
        DecoderCodec::Mp3 => crate::AudioCodecType::Mp3,
        DecoderCodec::Opus => crate::AudioCodecType::Opus,
    }
}

/// A decoder codec describes its input exactly as the codec type it is does:
/// same format ID, flags and packet length.
pub proof fn law_decoder_codec_matches_codec_type(codec: DecoderCodec)
    ensures
        decoder_format_id(codec) == crate::codec_info::codec_format_id(decoder_codec_type(codec)),
        decoder_format_flags(codec) == crate::codec_info::codec_format_flags(decoder_codec_type(codec)),
        decoder_frames_per_packet(codec) == crate::codec_info::codec_frames_per_packet(decoder_codec_type(codec)),
{
}

/// One packet at a time: once a non-empty packet is accepted by `decode`, a
/// second `decode` is refused and changes nothing.
pub proof fn law_one_packet_at_a_time(
    d0: Decoder,
    p: Seq<u8>,
    r0: Result<(), Error>,
    d1: Decoder,
    q: Seq<u8>,
    r1: Result<(), Error>,
    d2: Decoder,
)
    requires
        decode_post(d0, p, r0, d1),
        r0 is Ok,
        p.len() > 0,
        decode_post(d1, q, r1, d2),
    ensures
        r1 is Err,
        d2 == d1,
{
}

/// Within one fill, the packet that `decode` accepted is handed to the
/// converter once, whole, as one packet; a second request of the same fill
/// gets no data (`NoMoreInput`, or `EndOfStream` after `finish`).
pub proof fn law_packet_handed_over_once(
    d0: Decoder,
    p: Seq<u8>,
    r0: Result<(), Error>,
    d1: Decoder,
    q1: u32,
    i1: DecoderInput,
    d2: Decoder,
    q2: u32,
    i2: DecoderInput,
    d3: Decoder,
)
    requires
        decode_post(d0, p, r0, d1),
        r0 is Ok,
        p.len() > 0,
        q1 >= 1,
        supply_post(d1, q1, i1, d2),
        supply_post(d2, q2, i2, d3),
    ensures
        i1 == (DecoderInput::Packet {
            packets: 1,
            channels: d0.channels_spec() as u32,
            description: AudioStreamPacketDescription {
                mStartOffset: 0,
                mVariableFramesInPacket: 0,
                mDataByteSize: p.len() as u32,
            },
        }),
        i2 == (if d0.at_eos() { DecoderInput::EndOfStream } else { DecoderInput::NoMoreInput }),
        d3.pending() == p,
{
}

/// A fill that was handed the packet, or that failed, consumes it: afterwards
/// the next packet is accepted and the next fill starts afresh.
pub proof fn law_fill_ends_the_packet(
    d: Decoder,
    status: i32,
    pcm: Seq<i16>,
    byte_size: u32,
    r: Result<Option<Vec<i16>>, Error>,
    after: Decoder,
)
    requires
        fill_post(d, status, pcm, byte_size, r, after),
        d.handed_over() || status != K_NO_MORE_INPUT,
    ensures
        decode_accepts(after.pending()),
        !after.handed_over(),
{
}

/// An accepted packet is pending as given, whole; with nothing pending, a
/// request gets no data: `EndOfStream` after `finish`, `NoMoreInput` before.
pub proof fn law_decode_then_request(
    d0: Decoder,
    p: Seq<u8>,
    r0: Result<(), Error>,
    d1: Decoder,
    q: u32,
    input: DecoderInput,
    d2: Decoder,
)
    requires
        decode_post(d0, p, r0, d1),
        d0.pending().len() == 0,
        supply_post(d1, q, input, d2),
    ensures
        r0 is Ok,
        d1.pending() == p,
        d1.at_eos() == d0.at_eos(),
        p.len() == 0 ==> input == (if d0.at_eos() { DecoderInput::EndOfStream } else { DecoderInput::NoMoreInput }),
        p.len() > 0 && q > 0 ==> input == (DecoderInput::Packet {
            packets: 1,
            channels: d0.channels_spec() as u32,
            description: AudioStreamPacketDescription {
                mStartOffset: 0,
                mVariableFramesInPacket: 0,
                mDataByteSize: p.len() as u32,
            },
        }),
{
}

/// A fill that ran out of input without being handed the packet decoded
/// nothing: it gives nothing and the packet stays pending for the next fill.
pub proof fn law_idle_fill_keeps_the_packet(
    before: Decoder,
    pcm: Seq<i16>,
    byte_size: u32,
    r: Result<Option<Vec<i16>>, Error>,
    after: Decoder,
)
    requires
        fill_post(before, K_NO_MORE_INPUT, pcm, byte_size, r, after),
        !before.handed_over(),
    ensures
        r matches Ok(None),
        after.pending() == before.pending(),
        after.at_eos() == before.at_eos(),
{
}

/// A failed fill reports its own status under the fill's name and still
/// consumes the packet.
pub proof fn law_failed_fill_reports_status(
    before: Decoder,
    status: i32,
    pcm: Seq<i16>,
    byte_size: u32,
    r: Result<Option<Vec<i16>>, Error>,
    after: Decoder,
)
    requires
        fill_post(before, status, pcm, byte_size, r, after),
        status != 0,
        status != K_NO_MORE_INPUT,
    ensures
        r matches Err(e) && e.status_spec() == status && e.function_spec() == "AudioConverterFillComplexBuffer"@,
        after.pending().len() == 0,
{
}

/// A successful fill hands back exactly the samples the converter wrote, in
/// order: the first `byte_size / 2` of the output buffer, none missing and
/// none added; where the converter claims more than the buffer holds, the
/// whole buffer. A fill that wrote less than one sample gives nothing.
pub proof fn law_fill_output_is_what_was_written(
    before: Decoder,
    status: i32,
    pcm: Seq<i16>,
    byte_size: u32,
    r: Result<Option<Vec<i16>>, Error>,
    after: Decoder,
)
    requires
        fill_post(before, status, pcm, byte_size, r, after),
        status == 0 || (status == K_NO_MORE_INPUT && before.handed_over()),
    ensures
        byte_size / 2 == 0 ==> (r matches Ok(None)),
        0 < byte_size / 2 <= pcm.len() ==> (r matches Ok(Some(v)) && v@.len() == byte_size / 2
            && forall|i: int| 0 <= i < byte_size / 2 ==> v@[i] == pcm[i]),
        byte_size / 2 > pcm.len() && pcm.len() > 0 ==> (r matches Ok(Some(v)) && v@ == pcm),
{
}

/// A decoder's converter reads the compressed input at the configured rate and
/// channels and writes interleaved 16-bit stereo PCM at that same rate: no
/// resampling. The input is described by the codec's Audio Toolbox format ID,
/// flags and packet length.
pub proof fn law_decoder_keeps_input_rate(setup: ConverterSetup, config: DecoderConfig)
    requires
        decoder_setup_matches(setup, config),
    ensures
        setup.input.sample_rate == config.input_sample_rate,
        setup.output.sample_rate == config.input_sample_rate,
        setup.input.channels_per_frame == config.input_channels,
        setup.input.bytes_per_packet == 0,
        setup.input.bits_per_channel == 0,
        config.codec == DecoderCodec::AacLc ==> setup.input.format_id == 1_633_772_320
            && setup.input.format_flags == 2 && setup.input.frames_per_packet == 1024,
        config.codec == DecoderCodec::Mp3 ==> setup.input.format_id == 778_924_083
            && setup.input.format_flags == 0 && setup.input.frames_per_packet == 1152,
        config.codec == DecoderCodec::Opus ==> setup.input.format_id == 1_869_641_075
            && setup.input.format_flags == 0 && setup.input.frames_per_packet == 0,
        setup.output.format_id == 1_819_304_813,
        setup.output.format_flags == 12,
        setup.output.channels_per_frame == 2,
        setup.output.bits_per_channel == 16,
        setup.output.bytes_per_frame == 4,
        setup.output.bytes_per_packet == 4,
        setup.output.frames_per_packet == 1,
{
    assert(crate::format::K_AUDIO_FORMAT_FLAG_IS_SIGNED_INTEGER | crate::format::K_AUDIO_FORMAT_FLAG_IS_PACKED == 12u32) by (bit_vector);
}

} // verus!
