use vstd::prelude::*;
use crate::estimator::{estimate_video_bitrate, estimated_bps};

verus! {

/// Target output size used when none is given: 10 MiB.
pub const DEFAULT_TARGET_BYTES: u64 = 10_485_760;

/// Audio bitrate used when none is given.
pub const DEFAULT_AUDIO_BPS: u64 = 64_000;

/// Widest output frame; narrower input keeps its width.
pub const MAX_OUTPUT_WIDTH: u64 = 640;

/// Constant rate factor handed to the encoder: high, for small output.
pub const QUALITY_CRF: u64 = 32;

/// One transcode asked for: where to read and write, how large the output
/// should be, and the bitrates the caller fixed.
pub struct EncodingRequest {
    pub input: String,
    pub output: String,
    pub target_bytes: u64,
    /// Video bitrate fixed by the caller; `None` asks for an estimate.
    pub video_bps: Option<u64>,
    pub audio_bps: u64,
}

/// The bitrates the encoder is run with.
#[derive(Clone, Copy, Debug, PartialEq, Eq, Structural)]
pub struct ResolvedBitrates {
    pub video_bps: u64,
    pub audio_bps: u64,
}

/// Rate settings as the encoder takes them, in kilobits (per second).
#[derive(Clone, Copy, Debug, PartialEq, Eq, Structural)]
pub struct EncoderRates {
    /// Average video bitrate.
    pub video_kbps: u64,
    /// Ceiling on the video bitrate.
    pub maxrate_kbps: u64,
    /// Rate-control buffer: a quarter of the video bitrate.
    pub bufsize_kbits: u64,
    pub audio_kbps: u64,
}

impl EncodingRequest {
    /// A request with the default target size and audio bitrate, and the
    /// video bitrate left to the estimate.
    pub fn new(input: String, output: String) -> (r: EncodingRequest)
        ensures
            r.input == input,
            r.output == output,
            r.target_bytes == DEFAULT_TARGET_BYTES,
            r.video_bps is None,
            r.audio_bps == DEFAULT_AUDIO_BPS,
    {
        EncodingRequest {
            input,
            output,
            target_bytes: DEFAULT_TARGET_BYTES,
            video_bps: None,
            audio_bps: DEFAULT_AUDIO_BPS,
        }
    }

    /// The bitrates to encode with, for a clip of `duration_us`
    /// microseconds (zero when the duration could not be found).
    pub fn resolve(&self, duration_us: i64) -> (r: ResolvedBitrates)
        ensures
            r.video_bps == estimated_bps(
                duration_us as int,
                self.target_bytes as int,
                self.audio_bps as int,
                self.video_bps,
            ),
            r.audio_bps == self.audio_bps,
    {
        ResolvedBitrates {
            video_bps: estimate_video_bitrate(
                duration_us,
                self.target_bytes,
                self.audio_bps,
                self.video_bps,
            ),
            audio_bps: self.audio_bps,
        }
    }
}

impl ResolvedBitrates {
    /// The encoder's rate settings: video average and ceiling both at the
    /// video bitrate, a buffer of a quarter of it, and the audio bitrate,
    /// each in whole kilobits, truncated.
    pub fn encoder_rates(&self) -> (r: EncoderRates)
        ensures
            r.video_kbps == self.video_bps / 1000,
            r.maxrate_kbps == self.video_bps / 1000,
            r.bufsize_kbits == self.video_bps / 4 / 1000,
            r.audio_kbps == self.audio_bps / 1000,
    {
        EncoderRates {
            video_kbps: self.video_bps / 1000,
            maxrate_kbps: self.video_bps / 1000,
            bufsize_kbits: self.video_bps / 4 / 1000,
            audio_kbps: self.audio_bps / 1000,
        }
    }
}

} // verus!
