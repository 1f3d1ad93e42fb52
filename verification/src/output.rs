//! Output-side configuration: streaming protocols and URL masking, stream
//! and WebRTC settings, virtual camera frames and the virtual microphone name.

use vstd::prelude::*;
use crate::config::{AudioCodec, Codec};
use crate::error::NitrogenError;
use crate::text::{owned, to_lower, starts_with_text, push_text, chars_of, string_from_chars,
    lower_text, has_prefix, has_sub, contains_text};
use crate::settings::DEFAULT_ICE_SERVER;

verus! {

/// Streaming protocol
#[derive(Debug, Clone, Copy, PartialEq, Eq, Structural)]
pub enum StreamProtocol {
    /// RTMP (Real-Time Messaging Protocol) - Twitch, YouTube, etc.
    Rtmp,
    /// SRT (Secure Reliable Transport) - low latency streaming
    Srt,
}

/// The protocol that a lowercased URL names by its scheme.
pub open spec fn protocol_of_lower(l: Seq<char>) -> Option<StreamProtocol> {
    if has_prefix(l, "rtmp://"@) || has_prefix(l, "rtmps://"@) {
        Some(StreamProtocol::Rtmp)
    } else if has_prefix(l, "srt://"@) {
        Some(StreamProtocol::Srt)
    } else {
        None
    }
}

impl StreamProtocol {
    /// The protocol of an already lower-cased URL.
    pub fn from_lowered_url(l: &str) -> (r: Option<Self>)
        ensures
            r == protocol_of_lower(l@),
    {
        if starts_with_text(l, "rtmp://") || starts_with_text(l, "rtmps://") {
            Some(StreamProtocol::Rtmp)
        } else if starts_with_text(l, "srt://") {
            Some(StreamProtocol::Srt)
        } else {
            None
        }
    }

    /// Detect protocol from URL
    pub fn from_url(url: &str) -> (r: Option<Self>)
        ensures
            r == protocol_of_lower(lower_text(url@)),
    {
        StreamProtocol::from_lowered_url(to_lower(url).as_str())
    }

    /// The protocol of a stream URL, or the configuration error that a stream
    /// output reports for a URL of another scheme.
    pub fn require_from_url(url: &str) -> (r: Result<Self, NitrogenError>)
        ensures
            match protocol_of_lower(lower_text(url@)) {
                Some(p) => r matches Ok(q) && q == p,
                None => r matches Err(NitrogenError::Config(m)) && m@ == "Invalid stream URL '"@
                    + url@ + "'. Must start with rtmp://, rtmps://, or srt://"@,
            },
    {
        match StreamProtocol::from_url(url) {
            Some(p) => Ok(p),
            None => {
                let mut m = owned("Invalid stream URL '");
                push_text(&mut m, url);
                push_text(&mut m, "'. Must start with rtmp://, rtmps://, or srt://");
                Err(NitrogenError::Config(m))
            },
        }
    }

    /// Get the FFmpeg format name
    pub fn format_name(&self) -> (r: &'static str)
        ensures
            r@ == (if *self == StreamProtocol::Rtmp { "flv"@ } else { "mpegts"@ }),
    {
        match self {
            StreamProtocol::Rtmp => "flv",
            StreamProtocol::Srt => "mpegts",
        }
    }

    /// The protocol as it is displayed.
    pub fn display_name(&self) -> (r: &'static str)
        ensures
            r@ == (if *self == StreamProtocol::Rtmp { "RTMP"@ } else { "SRT"@ }),
    {
        match self {
            StreamProtocol::Rtmp => "RTMP",
            StreamProtocol::Srt => "SRT",
        }
    }
}

/// Index of the last occurrence of `c` in `s`, or -1.
pub open spec fn last_index_of(s: Seq<char>, c: char) -> int
    decreases s.len(),
{
    if s.len() == 0 {
        -1
    } else if s.last() == c {
        s.len() - 1
    } else {
        last_index_of(s.drop_last(), c)
    }
}

/// A URL with its stream key (the part after the last `/`, when it is not
/// empty and holds no `:`) replaced by `****`.
pub open spec fn masked(url: Seq<char>) -> Seq<char> {
    let i = last_index_of(url, '/');
    if i >= 0 {
        let key = url.subrange(i + 1, url.len() as int);
        if key.len() > 0 && !key.contains(':') {
            url.subrange(0, i + 1) + "****"@
        } else {
            url
        }
    } else {
        url
    }
}

proof fn lemma_last_index(s: Seq<char>, c: char, i: int)
    requires
        -1 <= i < s.len(),
        i >= 0 ==> s[i] == c,
        forall|k: int| i < k < s.len() ==> s[k] != c,
    ensures
        last_index_of(s, c) == i,
    decreases s.len(),
{
    if s.len() > 0 && i < s.len() - 1 {
        assert forall|k: int| i < k < s.drop_last().len() implies s.drop_last()[k] != c by {
            assert(s.drop_last()[k] == s[k]);
        }
        if i >= 0 {
            assert(s.drop_last()[i] == s[i]);
        }
        lemma_last_index(s.drop_last(), c, i);
    }
}

/// Mask the stream key in a URL for safe logging
pub fn safe_url(url: &str) -> (r: String)
    ensures
        r@ == masked(url@),
{
    let cs = chars_of(url);
    let n = cs.len();
    let mut j: usize = n;
    while j > 0 && cs[j - 1] != '/'
        invariant
            cs@ == url@,
            n == cs.len(),
            j <= n,
            forall|k: int| j <= k < n ==> cs@[k] != '/',
        decreases j,
    {
        j = j - 1;
    }
    proof {
        lemma_last_index(url@, '/', j - 1);
    }
    if j == 0 {
        return owned(url);
    }
    let ghost key = url@.subrange(j as int, n as int);
    let mut has_colon = false;
    let mut k: usize = j;
    while k < n
        invariant
            cs@ == url@,
            n == cs.len(),
            j <= k <= n,
            key == url@.subrange(j as int, n as int),
            has_colon == exists|m: int| j <= m < k && cs@[m] == ':',
        decreases n - k,
    {
        if cs[k] == ':' {
            has_colon = true;
        }
        k = k + 1;
    }
    proof {
        if has_colon {
            let m = choose|m: int| j <= m < n && cs@[m] == ':';
            assert(key[m - j] == ':');
        } else {
            assert forall|m: int| 0 <= m < key.len() implies key[m] != ':' by {
                assert(key[m] == cs@[j + m]);
            }
        }
    }
    if j < n && !has_colon {
        let mut prefix: Vec<char> = Vec::new();
        let mut i: usize = 0;
        while i < j
            invariant
                cs@ == url@,
                n == cs.len(),
                j <= n,
                i <= j,
                prefix@ == url@.subrange(0, i as int),
            decreases j - i,
        {
            prefix.push(cs[i]);
            i = i + 1;
        }
        let mut r = string_from_chars(&prefix);
        push_text(&mut r, "****");
        r
    } else {
        owned(url)
    }
}

/// Stream output configuration
#[derive(Debug, Clone)]
pub struct StreamConfig {
    /// Stream URL (rtmp://... or srt://...)
    pub url: String,
    /// Video codec
    pub codec: Codec,
    /// Video width
    pub width: u32,
    /// Video height
    pub height: u32,
    /// Framerate
    pub fps: u32,
    /// Video bitrate in kbps
    pub bitrate: u32,
    /// Audio codec (optional)
    pub audio_codec: Option<AudioCodec>,
    /// Audio sample rate
    pub audio_sample_rate: u32,
    /// Audio channels
    pub audio_channels: u32,
    /// Audio bitrate in kbps
    pub audio_bitrate: u32,
}

impl Default for StreamConfig {
    fn default() -> (c: Self)
        ensures
            c.url@ == Seq::<char>::empty(),
            c.codec == Codec::H264,
            c.width == 1920,
            c.height == 1080,
            c.fps == 30,
            c.bitrate == 6000,
            c.audio_codec == Some(AudioCodec::Aac),
            c.audio_sample_rate == 48000,
            c.audio_channels == 2,
            c.audio_bitrate == 128,
    {
        StreamConfig {
            url: String::new(),
            codec: Codec::H264,
            width: 1920,
            height: 1080,
            fps: 30,
            bitrate: 6000,
            audio_codec: Some(AudioCodec::Aac),
            audio_sample_rate: 48000,
            audio_channels: 2,
            audio_bitrate: 128,
        }
    }
}

/// WebRTC output configuration
#[derive(Debug, Clone)]
pub struct WebRTCConfig {
    /// ICE servers for NAT traversal
    pub ice_servers: Vec<String>,
    /// Video codec (h264 recommended for compatibility)
    pub video_codec: String,
    /// Video payload type
    pub video_payload_type: u8,
    /// Audio enabled
    pub audio_enabled: bool,
}

impl Default for WebRTCConfig {
    fn default() -> (c: Self)
        ensures
            c.ice_servers@.len() == 1,
            c.ice_servers@[0]@ == DEFAULT_ICE_SERVER@,
            c.video_codec@ == "h264"@,
            c.video_payload_type == 96,
            c.audio_enabled,
    {
        let mut ice_servers: Vec<String> = Vec::new();
        ice_servers.push(owned(DEFAULT_ICE_SERVER));
        WebRTCConfig {
            ice_servers,
            video_codec: owned("h264"),
            video_payload_type: 96,
            audio_enabled: true,
        }
    }
}

/// Frame data for the virtual camera
#[derive(Debug)]
pub struct CameraFrame {
    /// Raw frame data (expected in NV12 or BGRA format)
    pub data: Vec<u8>,
    /// Width
    pub width: u32,
    /// Height
    pub height: u32,
    /// Stride in bytes
    pub stride: u32,
}

/// Name of the virtual microphone unless another is given.
pub const DEFAULT_VIRTUAL_MIC_NAME: &'static str = "Nitrogen Audio";

/// Bytes of one 32-bit float sample.
pub const MIC_SAMPLE_BYTES: usize = 4;

/// A virtual microphone buffer after one period: the bytes of as many whole
/// samples as fit, then silence up to the last whole sample (bytes past it
/// are left alone); with no frame available, silence throughout.
pub open spec fn mic_fill(old: Seq<u8>, samples: Option<Seq<u8>>) -> Seq<u8> {
    match samples {
        Some(s) => {
            let max = old.len() / 4;
            let n = if s.len() / 4 <= max { s.len() / 4 } else { max };
            Seq::new(
                old.len(),
                |i: int|
                    if i < n * 4 {
                        s[i]
                    } else if i < max * 4 {
                        0u8
                    } else {
                        old[i]
                    },
            )
        },
        None => Seq::new(old.len(), |i: int| 0u8),
    }
}

/// Fill a virtual microphone buffer for one period from the bytes of a
/// frame's float samples (little-endian), or with silence when no frame
/// arrived. Returns the samples written and the size of the chunk in bytes.
pub fn fill_mic_buffer(buf: &mut Vec<u8>, samples: Option<&[u8]>) -> (r: (usize, usize))
    ensures
        final(buf)@ == mic_fill(old(buf)@, match samples {
            Some(s) => Some(s@),
            None => None,
        }),
        match samples {
            Some(s) => {
                let max = old(buf)@.len() / 4;
                let n = if s@.len() / 4 <= max { s@.len() / 4 } else { max };
                r == (n as usize, (n * 4) as usize)
            },
            None => r == (0usize, old(buf)@.len() as usize),
        },
{
    let ghost before = buf@;
    let len = buf.len();
    match samples {
        Some(s) => {
            let max = len / MIC_SAMPLE_BYTES;
            let n = if s.len() / MIC_SAMPLE_BYTES <= max {
                s.len() / MIC_SAMPLE_BYTES
            } else {
                max
            };
            let copy = n * MIC_SAMPLE_BYTES;
            let end = max * MIC_SAMPLE_BYTES;
            let mut i: usize = 0;
            while i < end
                invariant
                    i <= end,
                    end == max * 4,
                    max == len / 4,
                    copy == n * 4,
                    n <= max,
                    n <= s@.len() / 4,
                    len == before.len(),
                    buf@.len() == len,
                    forall|k: int|
                        0 <= k < i ==> #[trigger] buf@[k] == (if k < copy {
                            s@[k]
                        } else {
                            0u8
                        }),
                    forall|k: int| i <= k < len ==> #[trigger] buf@[k] == before[k],
                decreases end - i,
            {
                if i < copy {
                    buf.set(i, s[i]);
                } else {
                    buf.set(i, 0);
                }
                i = i + 1;
            }
            assert(buf@ =~= mic_fill(before, Some(s@)));
            (n, copy)
        },
        None => {
            let mut i: usize = 0;
            while i < len
                invariant
                    i <= len,
                    len == before.len(),
                    buf@.len() == len,
                    forall|k: int| 0 <= k < i ==> #[trigger] buf@[k] == 0u8,
                decreases len - i,
            {
                buf.set(i, 0);
                i = i + 1;
            }
            assert(buf@ =~= mic_fill(before, None));
            (0, len)
        },
    }
}


/// Sample formats of a streamed audio track.
#[derive(Debug, Clone, Copy, PartialEq, Eq, Structural)]
pub enum StreamSampleFormat {
    /// 32-bit float, planar (AAC)
    FloatPlanar,
    /// 16-bit signed integer, interleaved (Opus)
    S16,
}

/// The message of the error for a stream whose audio codec is a passthrough.
pub const COPY_AUDIO_REFUSED: &'static str = "Cannot use Copy codec for streaming - need actual codec";

/// The sample format a stream carries an audio codec in; a passthrough
/// codec cannot be streamed.
pub fn stream_audio_format(codec: AudioCodec) -> (r: Result<StreamSampleFormat, NitrogenError>)
    ensures
        match codec {
            AudioCodec::Aac => r matches Ok(f) && f == StreamSampleFormat::FloatPlanar,
            AudioCodec::Opus => r matches Ok(f) && f == StreamSampleFormat::S16,
            AudioCodec::Copy => r matches Err(NitrogenError::Config(m)) && m@ == COPY_AUDIO_REFUSED@,
        },
{
    match codec {
        AudioCodec::Aac => Ok(StreamSampleFormat::FloatPlanar),
        AudioCodec::Opus => Ok(StreamSampleFormat::S16),
        AudioCodec::Copy => Err(NitrogenError::Config(owned(COPY_AUDIO_REFUSED))),
    }
}


/// Whether a packet write failed because the connection to the server is
/// gone (a broken pipe or a reset), which ends streaming.
pub fn connection_lost(error_text: &str) -> (r: bool)
    ensures
        r == (has_sub(error_text@, "Broken pipe"@) || has_sub(error_text@, "Connection reset"@)),
{
    contains_text(error_text, "Broken pipe") || contains_text(error_text, "Connection reset")
}

/// Which packet channels a recording or streaming loop still reads.
#[derive(Debug, Clone, Copy, PartialEq, Eq, Structural)]
pub struct AvChannels {
    /// The video channel closed
    pub video_done: bool,
    /// The audio channel closed (or there is none)
    pub audio_done: bool,
    /// The connection to the server was lost (streaming only)
    pub connection_lost: bool,
}

impl AvChannels {
    /// A loop over a video channel and, when there is one, an audio channel
    pub fn new(has_audio: bool) -> (c: Self)
        ensures
            c == (AvChannels { video_done: false, audio_done: !has_audio, connection_lost: false }),
    {
        AvChannels { video_done: false, audio_done: !has_audio, connection_lost: false }
    }

    /// Whether the loop ends: both channels closed, or the connection lost
    pub fn finished(&self) -> (r: bool)
        ensures
            r == ((self.video_done && self.audio_done) || self.connection_lost),
    {
        (self.video_done && self.audio_done) || self.connection_lost
    }

    /// Note a failed packet write: the loop ends when the connection is gone
    pub fn write_failed(&mut self, error_text: &str)
        ensures
            final(self).connection_lost == (old(self).connection_lost || has_sub(
                error_text@,
                "Broken pipe"@,
            ) || has_sub(error_text@, "Connection reset"@)),
            final(self).video_done == old(self).video_done,
            final(self).audio_done == old(self).audio_done,
    {
        if connection_lost(error_text) {
            self.connection_lost = true;
        }
    }
}

} // verus!
