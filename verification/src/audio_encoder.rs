//! The settings that an audio encoder for recordings is opened with: the
//! encoder, the rate, the bitrate, the speaker layout and the options.

use vstd::prelude::*;
use crate::config::{AudioCodec, audio_default_bitrate};
use crate::error::NitrogenError;
use crate::nvenc::{option_texts, set_option, OptionText};

verus! {

/// The message of the error for an encoder asked of the pass-through codec.
pub const COPY_NOT_ENCODABLE: &'static str =
    "Cannot create encoder with Copy codec - use passthrough instead";

/// Speaker layouts that an audio encoder is opened with.
#[derive(Debug, Clone, Copy, PartialEq, Eq, Structural)]
pub enum ChannelLayout {
    Mono,
    Stereo,
    /// 5.1 surround
    Surround51,
    /// 7.1 surround
    Surround71,
}

/// The layout of a channel count: mono, stereo, 5.1 and 7.1 are kept, any
/// other count is opened as stereo.
pub open spec fn layout_for(channels: u32) -> ChannelLayout {
    if channels == 1 {
        ChannelLayout::Mono
    } else if channels == 6 {
        ChannelLayout::Surround51
    } else if channels == 8 {
        ChannelLayout::Surround71
    } else {
        ChannelLayout::Stereo
    }
}

/// The speaker layout for a channel count
pub fn channel_layout(channels: u32) -> (l: ChannelLayout)
    ensures
        l == layout_for(channels),
{
    if channels == 1 {
        ChannelLayout::Mono
    } else if channels == 2 {
        ChannelLayout::Stereo
    } else if channels == 6 {
        ChannelLayout::Surround51
    } else if channels == 8 {
        ChannelLayout::Surround71
    } else {
        ChannelLayout::Stereo
    }
}

/// The encoder options of a codec, in the order they are set.
pub open spec fn audio_options(codec: AudioCodec) -> Seq<OptionText> {
    match codec {
        AudioCodec::Aac => seq![("aac_coder"@, "twoloop"@)],
        AudioCodec::Opus => seq![("application"@, "audio"@), ("vbr"@, "on"@)],
        AudioCodec::Copy => Seq::empty(),
    }
}

/// The bitrate in kbps that an encoder runs at: the requested one, else the
/// codec's default.
pub open spec fn audio_kbps(codec: AudioCodec, bitrate: u32) -> u32 {
    if bitrate == 0 {
        audio_default_bitrate(codec)
    } else {
        bitrate
    }
}

/// How an audio encoder is set up.
#[derive(Debug, Clone)]
pub struct AudioEncoderPlan {
    /// The FFmpeg encoder
    pub encoder_name: &'static str,
    /// Sample rate; the time base is one sample
    pub sample_rate: u32,
    /// Bitrate in bits per second
    pub bit_rate: u64,
    /// Speaker layout
    pub layout: ChannelLayout,
    /// Encoder options, in the order they are set
    pub options: Vec<(String, String)>,
}

/// Plan an audio encoder of 32-bit float samples: the codec's encoder at
/// the given rate, the bitrate (the codec's default for 0) in bits per
/// second, the layout of the channel count and the codec's options. The
/// pass-through codec has no encoder: a configuration error.
pub fn audio_encoder_plan(codec: AudioCodec, sample_rate: u32, channels: u32, bitrate: u32) -> (r:
    Result<AudioEncoderPlan, NitrogenError>)
    ensures
        codec == AudioCodec::Copy ==> (r matches Err(NitrogenError::Config(m))
            && m@ == COPY_NOT_ENCODABLE@),
        codec != AudioCodec::Copy ==> (r matches Ok(p) && {
            &&& p.encoder_name@ == (if codec == AudioCodec::Aac {
                "aac"@
            } else {
                "libopus"@
            })
            &&& p.sample_rate == sample_rate
            &&& p.bit_rate == audio_kbps(codec, bitrate) as int * 1000
            &&& p.layout == layout_for(channels)
            &&& option_texts(p.options@) == audio_options(codec)
        }),
{
    let kbps = if bitrate == 0 {
        codec.default_bitrate()
    } else {
        bitrate
    };
    let mut options: Vec<(String, String)> = Vec::new();
    assert(option_texts(options@) =~= Seq::<OptionText>::empty());
    match codec {
        AudioCodec::Aac => {
            set_option(&mut options, "aac_coder", "twoloop");
        },
        AudioCodec::Opus => {
            set_option(&mut options, "application", "audio");
            set_option(&mut options, "vbr", "on");
        },
        AudioCodec::Copy => {
            return Err(NitrogenError::config(COPY_NOT_ENCODABLE));
        },
    }
    assert(option_texts(options@) =~= audio_options(codec));
    Ok(
        AudioEncoderPlan {
            encoder_name: codec.ffmpeg_encoder(),
            sample_rate,
            bit_rate: kbps as u64 * 1000,
            layout: channel_layout(channels),
            options,
        },
    )
}

/// The number of samples per encoded frame: what the opened encoder reports,
/// or 1024 where it reports none.
pub fn frame_size_or_default(reported: u32) -> (r: u32)
    ensures
        r == (if reported == 0 {
            1024
        } else {
            reported
        }),
{
    if reported == 0 {
        1024
    } else {
        reported
    }
}

} // verus!
