//! Picks the video bitrate for a re-encode that should land near a target
//! file size, and the rate settings handed to the encoder.
//!
//! All arithmetic is exact integer arithmetic: durations are counted in
//! microseconds, so no rounding enters the estimate before the final
//! truncation to whole bits per second.

mod estimator;
mod laws;
mod request;

pub use estimator::{
    candidate_bps, clamp_bps, estimate_video_bitrate, estimated_bps, scaled_reserve,
    DEFAULT_VIDEO_BPS, MAX_VIDEO_BPS, MIN_VIDEO_BPS, SCALED_BUDGET_BITS_PER_BYTE,
};
pub use laws::{lemma_larger_target_never_lowers, lemma_longer_clip_never_raises};
pub use request::{
    EncoderRates, EncodingRequest, ResolvedBitrates, DEFAULT_AUDIO_BPS, DEFAULT_TARGET_BYTES,
    MAX_OUTPUT_WIDTH, QUALITY_CRF,
};
