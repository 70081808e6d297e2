//! Audio Toolbox identifiers and the stream formats an `AudioConverter` is
//! created with, held as plain integers.

use vstd::prelude::*;

use crate::error::Error;

verus! {

/// `noErr`: the status of a successful call.
pub const NO_ERR: i32 = 0;

/// `kAudioFormatLinearPCM`
pub const K_AUDIO_FORMAT_LINEAR_PCM: u32 = 1_819_304_813;
/// `kAudioFormatFlagIsSignedInteger`
pub const K_AUDIO_FORMAT_FLAG_IS_SIGNED_INTEGER: u32 = 4;
/// `kAudioFormatFlagIsPacked`
pub const K_AUDIO_FORMAT_FLAG_IS_PACKED: u32 = 8;
/// `kAudioFormatMPEG4AAC`
pub const K_AUDIO_FORMAT_MPEG4_AAC: u32 = 1_633_772_320;
/// `kMPEG4Object_AAC_LC`
pub const K_MPEG4_OBJECT_AAC_LC: u32 = 2;
/// `kAudioFormatMPEG4AAC_HE`
pub const K_AUDIO_FORMAT_MPEG4_AAC_HE: u32 = 1_633_772_392;
/// `kAudioFormatMPEG4AAC_HE_V2`
pub const K_AUDIO_FORMAT_MPEG4_AAC_HE_V2: u32 = 1_633_772_400;
/// `kAudioFormatMPEG4AAC_LD`
pub const K_AUDIO_FORMAT_MPEG4_AAC_LD: u32 = 1_633_772_396;
/// `kAudioFormatMPEG4AAC_ELD`
pub const K_AUDIO_FORMAT_MPEG4_AAC_ELD: u32 = 1_633_772_389;
/// `kAudioFormatMPEGLayer3`
pub const K_AUDIO_FORMAT_MPEG_LAYER3: u32 = 778_924_083;
/// `kAudioFormatOpus`
pub const K_AUDIO_FORMAT_OPUS: u32 = 1_869_641_075;
/// `kAudioFormatFLAC`
pub const K_AUDIO_FORMAT_FLAC: u32 = 1_718_378_851;
/// `kAudioFormatAppleLossless`
pub const K_AUDIO_FORMAT_APPLE_LOSSLESS: u32 = 1_634_492_771;

/// `kAudioCodecPropertyBitRateControlMode`
pub const K_AUDIO_CODEC_PROPERTY_BIT_RATE_CONTROL_MODE: u32 = 1_633_903_206;
/// `kAudioCodecPropertySoundQualityForVBR`
pub const K_AUDIO_CODEC_PROPERTY_SOUND_QUALITY_FOR_VBR: u32 = 1_986_163_313;
/// `kAudioCodecBitRateControlMode_Constant`
pub const K_BIT_RATE_CONTROL_MODE_CONSTANT: u32 = 0;
/// `kAudioCodecBitRateControlMode_LongTermAverage`
pub const K_BIT_RATE_CONTROL_MODE_LONG_TERM_AVERAGE: u32 = 1;
/// `kAudioCodecBitRateControlMode_VariableConstrained`
pub const K_BIT_RATE_CONTROL_MODE_VARIABLE_CONSTRAINED: u32 = 2;
/// `kAudioCodecBitRateControlMode_Variable`
pub const K_BIT_RATE_CONTROL_MODE_VARIABLE: u32 = 3;
/// `kAudioConverterEncodeBitRate`
pub const K_AUDIO_CONVERTER_ENCODE_BIT_RATE: u32 = 1_651_663_220;
/// `kAudioConverterCodecQuality`
pub const K_AUDIO_CONVERTER_CODEC_QUALITY: u32 = 1_667_527_029;
/// `kAudioConverterQuality_Min`
pub const K_AUDIO_CONVERTER_QUALITY_MIN: u32 = 0;
/// `kAudioConverterQuality_Low`
pub const K_AUDIO_CONVERTER_QUALITY_LOW: u32 = 32;
/// `kAudioConverterQuality_Medium`
pub const K_AUDIO_CONVERTER_QUALITY_MEDIUM: u32 = 64;
/// `kAudioConverterQuality_High`
pub const K_AUDIO_CONVERTER_QUALITY_HIGH: u32 = 96;
/// `kAudioConverterQuality_Max`
pub const K_AUDIO_CONVERTER_QUALITY_MAX: u32 = 127;
/// `kAudioFormatProperty_Decoders`
pub const K_AUDIO_FORMAT_PROPERTY_DECODERS: u32 = 1_635_148_901;
/// `kAudioFormatProperty_Encoders`
pub const K_AUDIO_FORMAT_PROPERTY_ENCODERS: u32 = 1_635_149_166;

/// The status the input callbacks return to tell the converter that no more
/// input is available for now. The converter hands it back as the status of
/// `AudioConverterFillComplexBuffer`, where it means "wait for more data".
pub const K_NO_MORE_INPUT: i32 = 12345;

/// Size in bytes of the output buffer of one encoding fill.
pub const ENCODE_BUF_SIZE: usize = 4096;

/// Capacity in frames of the output buffer of one decoding fill.
///
/// AAC-LC and MP3 packets hold 1024 and 1152 frames; an Opus packet holds at
/// most 120 ms, 5760 frames at 48 kHz (RFC 6716, 2.1.4).
pub const DECODE_BUF_FRAMES: usize = 5760;

/// Channels of the decoder's output: always stereo.
pub const OUTPUT_CHANNELS: usize = 2;

/// Capacity in samples of the output buffer of one decoding fill:
/// [`DECODE_BUF_FRAMES`] stereo frames.
pub const DECODE_BUF_SAMPLES: usize = DECODE_BUF_FRAMES * OUTPUT_CHANNELS;

/// Bytes of one 16-bit sample.
pub const BYTES_PER_SAMPLE: usize = 2;

/// The fields of an `AudioStreamBasicDescription`, with the sample rate held as
/// a whole number of hertz.
#[derive(Debug, Clone, Copy, PartialEq, Eq, Structural)]
pub struct StreamFormat {
    /// `mSampleRate`, in hertz.
    pub sample_rate: u32,
    /// `mFormatID`
    pub format_id: u32,
    /// `mFormatFlags`
    pub format_flags: u32,
    /// `mBytesPerPacket`
    pub bytes_per_packet: u32,
    /// `mFramesPerPacket`
    pub frames_per_packet: u32,
    /// `mBytesPerFrame`
    pub bytes_per_frame: u32,
    /// `mChannelsPerFrame`
    pub channels_per_frame: u32,
    /// `mBitsPerChannel`
    pub bits_per_channel: u32,
}

/// Interleaved signed 16-bit linear PCM with `channels` channels: one frame per
/// packet, `2 * channels` bytes per frame.
pub open spec fn pcm_i16_format_spec(sample_rate: u32, channels: u8) -> StreamFormat {
    StreamFormat {
        sample_rate,
        format_id: K_AUDIO_FORMAT_LINEAR_PCM,
        format_flags: K_AUDIO_FORMAT_FLAG_IS_SIGNED_INTEGER | K_AUDIO_FORMAT_FLAG_IS_PACKED,
        bytes_per_packet: (2 * channels) as u32,
        frames_per_packet: 1,
        bytes_per_frame: (2 * channels) as u32,
        channels_per_frame: channels as u32,
        bits_per_channel: 16,
    }
}

/// The format of interleaved signed 16-bit PCM with the given rate and channels.
pub fn pcm_i16_format(sample_rate: u32, channels: u8) -> (f: StreamFormat)
    ensures
        f == pcm_i16_format_spec(sample_rate, channels),
{
    let bytes_per_frame: u32 = (channels as u32) * 2;
    StreamFormat {
        sample_rate,
        format_id: K_AUDIO_FORMAT_LINEAR_PCM,
        format_flags: K_AUDIO_FORMAT_FLAG_IS_SIGNED_INTEGER | K_AUDIO_FORMAT_FLAG_IS_PACKED,
        bytes_per_packet: bytes_per_frame,
        frames_per_packet: 1,
        bytes_per_frame,
        channels_per_frame: channels as u32,
        bits_per_channel: 16,
    }
}

/// One property to set on a converter after it is created, with the name that
/// an error of that call carries.
#[derive(Debug, Clone, Copy)]
pub struct PropertySetting {
    /// The property's identifier (`AudioConverterPropertyID`).
    pub property_id: u32,
    /// The property's value, passed as a `u32`.
    pub value: u32,
    /// The name an error of this call is reported under.
    pub function: &'static str,
}

/// What it takes to create a converter: its source and destination formats and
/// the properties to set on it, in order.
#[derive(Debug, Clone)]
pub struct ConverterSetup {
    /// The source format.
    pub input: StreamFormat,
    /// The destination format.
    pub output: StreamFormat,
    /// The properties to set, in this order, each checked before the next.
    pub properties: Vec<PropertySetting>,
}

/// The name an error of the creation step `completed` carries: step 0 is
/// `AudioConverterNew`, step `k` the setting of the `k`-th property.
pub open spec fn creation_step_name(setup: ConverterSetup, completed: int) -> Seq<char> {
    if completed == 0 {
        "AudioConverterNew"@
    } else {
        setup.properties@[completed - 1].function@
    }
}

/// What [`ConverterSetup::next_step`] decides after step `completed` returned `status`.
pub open spec fn next_step_post(setup: ConverterSetup, completed: int, status: i32, r: Result<Option<PropertySetting>, Error>) -> bool {
    &&& status != 0 ==> (r matches Err(e) && e.status_spec() == status
        && e.function_spec() == creation_step_name(setup, completed))
    &&& status == 0 && completed < setup.properties@.len() ==> (r matches Ok(Some(p))
        && p == setup.properties@[completed])
    &&& status == 0 && completed == setup.properties@.len() ==> (r matches Ok(None))
}

/// Creation goes through the converter and then each property once, in order,
/// and ends after the last; a failure of the converter's creation is reported
/// as `AudioConverterNew`, and a failure of a property's setting under the
/// name of the very property that the step before handed out.
pub proof fn law_creation_steps(
    setup: ConverterSetup,
    k: int,
    status: i32,
    previous: Result<Option<PropertySetting>, Error>,
    r: Result<Option<PropertySetting>, Error>,
)
    requires
        0 <= k <= setup.properties@.len(),
        next_step_post(setup, k, status, r),
        k > 0 ==> next_step_post(setup, k - 1, 0, previous),
    ensures
        k == 0 && status != 0 ==> (r matches Err(e) && e.function_spec() == "AudioConverterNew"@),
        k > 0 && status != 0 ==> (previous matches Ok(Some(p)) && r matches Err(e)
            && e.function_spec() == p.function@ && e.status_spec() == status),
        status == 0 && k < setup.properties@.len() ==> (r matches Ok(Some(p)) && p == setup.properties@[k]),
        status == 0 && k == setup.properties@.len() ==> (r matches Ok(None)),
{
}

impl ConverterSetup {
    /// Decides what follows a creation step: `completed` steps are done (the
    /// converter's creation, then that many minus one properties) and the last
    /// returned `status`.
    ///
    /// A failed step ends the creation with its status and name, so that no
    /// later property is set; otherwise the next property comes, or `None`
    /// once every property is set.
    pub fn next_step(&self, completed: usize, status: i32) -> (r: Result<Option<PropertySetting>, Error>)
        requires
            completed <= self.properties@.len(),
        ensures
            next_step_post(*self, completed as int, status, r),
    {
        if status != 0 {
            let function = if completed == 0 {
                "AudioConverterNew"
            } else {
                self.properties[completed - 1].function
            };
            return Err(Error::new(status, function));
        }
        if completed < self.properties.len() {
            Ok(Some(self.properties[completed]))
        } else {
            Ok(None)
        }
    }
}

} // verus!
