use vstd::prelude::*;

verus! {

/// Video bitrate used when no estimate can be made.
pub const DEFAULT_VIDEO_BPS: u64 = 500_000;

/// Lowest bitrate an estimate is clamped to.
pub const MIN_VIDEO_BPS: u64 = 200_000;

/// Highest bitrate an estimate is clamped to.
pub const MAX_VIDEO_BPS: u64 = 1_500_000;

/// Bits per byte, times the 85% share of the target kept for the streams,
/// times the microseconds in a second: `8 * 0.85 * 1_000_000`.
pub const SCALED_BUDGET_BITS_PER_BYTE: u128 = 6_800_000;

/// What is left of the target for video, after the 15% headroom and the
/// audio, in bits times one million:
/// `(target_bytes * 0.85 - audio_bps / 8 * seconds) * 8 * 1_000_000`,
/// with `seconds = duration_us / 1_000_000`.
pub open spec fn scaled_reserve(duration_us: int, target_bytes: int, audio_bps: int) -> int {
    target_bytes * 6_800_000 - audio_bps * duration_us
}

/// The video bitrate that would spend the reserve evenly over the clip,
/// truncated to whole bits per second, before any clamping.
pub open spec fn candidate_bps(duration_us: int, target_bytes: int, audio_bps: int) -> int
    recommends
        duration_us > 0,
{
    scaled_reserve(duration_us, target_bytes, audio_bps) / duration_us
}

/// `x` brought into `[MIN_VIDEO_BPS, MAX_VIDEO_BPS]`.
pub open spec fn clamp_bps(x: int) -> int {
    if x < MIN_VIDEO_BPS {
        MIN_VIDEO_BPS as int
    } else if x > MAX_VIDEO_BPS {
        MAX_VIDEO_BPS as int
    } else {
        x
    }
}

/// The video bitrate chosen for a clip: the override when there is one;
/// the default when the duration is unknown, zero or negative, or when the
/// audio alone would use up the target; else the clamped candidate.
pub open spec fn estimated_bps(
    duration_us: int,
    target_bytes: int,
    audio_bps: int,
    override_bps: Option<u64>,
) -> int {
    match override_bps {
        Some(v) => v as int,
        None => if duration_us <= 0 || scaled_reserve(duration_us, target_bytes, audio_bps) <= 0 {
            DEFAULT_VIDEO_BPS as int
        } else {
            clamp_bps(candidate_bps(duration_us, target_bytes, audio_bps))
        },
    }
}

/// Chooses the video bitrate for a clip of `duration_us` microseconds (zero
/// when the duration is unknown) so that the output lands near
/// `target_bytes`, leaving room for audio at `audio_bps`. An explicit
/// `override_bps` is returned as it is.
pub fn estimate_video_bitrate(
    duration_us: i64,
    target_bytes: u64,
    audio_bps: u64,
    override_bps: Option<u64>,
) -> (r: u64)
    ensures
        r == estimated_bps(duration_us as int, target_bytes as int, audio_bps as int, override_bps),
        override_bps matches Some(v) ==> r == v,
        override_bps is None && duration_us <= 0 ==> r == DEFAULT_VIDEO_BPS,
        override_bps is None && duration_us > 0 && scaled_reserve(
            duration_us as int,
            target_bytes as int,
            audio_bps as int,
        ) > 0 ==> MIN_VIDEO_BPS <= r <= MAX_VIDEO_BPS,
{
    if let Some(v) = override_bps {
        return v;
    }
    if duration_us <= 0 {
        return DEFAULT_VIDEO_BPS;
    }
    let d: u128 = duration_us as u128;
    let budget: u128 = target_bytes as u128 * SCALED_BUDGET_BITS_PER_BYTE;
    assert(audio_bps as int * d <= u64::MAX as int * u64::MAX as int) by (nonlinear_arith)
        requires
            audio_bps <= u64::MAX,
            0 < d <= u64::MAX,
    ;
    let audio: u128 = audio_bps as u128 * d;
    if budget <= audio {
        return DEFAULT_VIDEO_BPS;
    }
    let candidate: u128 = (budget - audio) / d;
    if candidate < MIN_VIDEO_BPS as u128 {
        MIN_VIDEO_BPS
    } else if candidate > MAX_VIDEO_BPS as u128 {
        MAX_VIDEO_BPS
    } else {
        candidate as u64
    }
}

} // verus!
