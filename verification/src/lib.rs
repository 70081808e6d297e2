//! Audio encoder / decoder state machines around Apple's Audio Toolbox
//! `AudioConverter`, with their contracts.

pub mod codec_info;
pub mod decoder;
pub mod encoder;
pub mod error;
pub mod format;

pub use codec_info::{
    supported_codecs, AudioCodecInfo, AudioCodecType, AudioDecodingInfo, AudioEncodingInfo,
    CodecProbe, FormatPropertyProbe,
};
pub use decoder::{AudioStreamPacketDescription, Decoder, DecoderCodec, DecoderConfig};
pub use encoder::{
    BitRateControlMode, CodecQuality, EncodedFrame, Encoder, EncoderCodec, EncoderConfig,
};
pub use error::Error;
