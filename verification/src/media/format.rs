//! Codec descriptions of compressed tracks.
use vstd::prelude::*;

verus! {

#[derive(Debug, Clone, Copy, PartialEq, Eq, Structural)]
pub enum AudioCodecId {
    PcmS16Le,
    Aac,
}

#[derive(Debug, Clone, Copy, PartialEq, Eq, Structural)]
pub enum VideoCodecId {
    H264,
}

/// The format of an audio track.
#[derive(Debug, Clone, PartialEq, Eq)]
pub struct AudioTrackFormat {
    codec: AudioCodecId,
    sample_rate: u32,
    channel_count: u16,
    codec_config: Vec<u8>,
}

impl AudioTrackFormat {
    pub closed spec fn spec_codec(&self) -> AudioCodecId {
        self.codec
    }

    pub closed spec fn spec_sample_rate(&self) -> u32 {
        self.sample_rate
    }

    pub closed spec fn spec_channel_count(&self) -> u16 {
        self.channel_count
    }

    /// The codec configuration bytes.
    pub closed spec fn config(&self) -> Seq<u8> {
        self.codec_config@
    }

    pub fn new(
        codec: AudioCodecId,
        sample_rate: u32,
        channel_count: u16,
        codec_config: Vec<u8>,
    ) -> (r: AudioTrackFormat)
        ensures
            r.codec() == codec,
            r.sample_rate() == sample_rate,
            r.channel_count() == channel_count,
            r.config() == codec_config@,
    {
        AudioTrackFormat { codec, sample_rate, channel_count, codec_config }
    }

    #[verifier::when_used_as_spec(spec_codec)]
    pub fn codec(&self) -> (r: AudioCodecId)
        ensures
            r == self.spec_codec(),
    {
        self.codec
    }

    #[verifier::when_used_as_spec(spec_sample_rate)]
    pub fn sample_rate(&self) -> (r: u32)
        ensures
            r == self.spec_sample_rate(),
    {
        self.sample_rate
    }

    #[verifier::when_used_as_spec(spec_channel_count)]
    pub fn channel_count(&self) -> (r: u16)
        ensures
            r == self.spec_channel_count(),
    {
        self.channel_count
    }

    pub fn codec_config(&self) -> (r: &[u8])
        ensures
            r@ == self.config(),
    {
        self.codec_config.as_slice()
    }

    /// Whether two formats have the same codec, rate, channel count and
    /// configuration bytes.
    pub open spec fn same_as(&self, other: AudioTrackFormat) -> bool {
        &&& self.codec() == other.codec()
        &&& self.sample_rate() == other.sample_rate()
        &&& self.channel_count() == other.channel_count()
        &&& self.config() == other.config()
    }

    /// A copy of the format.
    pub fn duplicate(&self) -> (r: AudioTrackFormat)
        ensures
            r.same_as(*self),
    {
        AudioTrackFormat::new(
            self.codec,
            self.sample_rate,
            self.channel_count,
            vstd::slice::slice_to_vec(self.codec_config.as_slice()),
        )
    }
}

/// The format of a video track.
#[derive(Debug, Clone, PartialEq, Eq)]
pub struct VideoTrackFormat {
    codec: VideoCodecId,
    width: u32,
    height: u32,
    codec_config: Vec<u8>,
}

impl VideoTrackFormat {
    pub closed spec fn spec_codec(&self) -> VideoCodecId {
        self.codec
    }

    pub closed spec fn spec_width(&self) -> u32 {
        self.width
    }

    pub closed spec fn spec_height(&self) -> u32 {
        self.height
    }

    /// The codec configuration bytes.
    pub closed spec fn config(&self) -> Seq<u8> {
        self.codec_config@
    }

    pub fn new(codec: VideoCodecId, width: u32, height: u32, codec_config: Vec<u8>) -> (r:
        VideoTrackFormat)
        ensures
            r.codec() == codec,
            r.width() == width,
            r.height() == height,
            r.config() == codec_config@,
    {
        VideoTrackFormat { codec, width, height, codec_config }
    }

    #[verifier::when_used_as_spec(spec_codec)]
    pub fn codec(&self) -> (r: VideoCodecId)
        ensures
            r == self.spec_codec(),
    {
        self.codec
    }

    #[verifier::when_used_as_spec(spec_width)]
    pub fn width(&self) -> (r: u32)
        ensures
            r == self.spec_width(),
    {
        self.width
    }

    #[verifier::when_used_as_spec(spec_height)]
    pub fn height(&self) -> (r: u32)
        ensures
            r == self.spec_height(),
    {
        self.height
    }

    pub fn codec_config(&self) -> (r: &[u8])
        ensures
            r@ == self.config(),
    {
        self.codec_config.as_slice()
    }
}

/// The format of a track, audio or video.
#[derive(Debug, Clone, PartialEq, Eq)]
pub enum TrackFormat {
    Audio(AudioTrackFormat),
    Video(VideoTrackFormat),
}

} // verus!
