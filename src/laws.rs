use vstd::prelude::*;
use vstd::arithmetic::div_mod::{lemma_div_is_ordered, lemma_div_is_ordered_by_denominator, lemma_hoist_over_denominator};
use crate::estimator::{candidate_bps, scaled_reserve};

verus! {

/// With the duration and the audio bitrate held fixed, a larger target size
/// never gives a lower bitrate before clamping.
pub proof fn lemma_larger_target_never_lowers(
    duration_us: int,
    smaller_target: int,
    larger_target: int,
    audio_bps: int,
)
    requires
        duration_us > 0,
        smaller_target <= larger_target,
    ensures
        candidate_bps(duration_us, smaller_target, audio_bps) <= candidate_bps(
            duration_us,
            larger_target,
            audio_bps,
        ),
{
    lemma_div_is_ordered(
        scaled_reserve(duration_us, smaller_target, audio_bps),
        scaled_reserve(duration_us, larger_target, audio_bps),
        duration_us,
    );
}

/// With the target size and the audio bitrate held fixed, a longer clip
/// never gives a higher bitrate before clamping: its budget is spread thinner.
pub proof fn lemma_longer_clip_never_raises(
    shorter_us: int,
    longer_us: int,
    target_bytes: int,
    audio_bps: int,
)
    requires
        0 < shorter_us <= longer_us,
        target_bytes >= 0,
    ensures
        candidate_bps(longer_us, target_bytes, audio_bps) <= candidate_bps(
            shorter_us,
            target_bytes,
            audio_bps,
        ),
{
    let budget = target_bytes * 6_800_000;
    assert(budget >= 0);
    lemma_hoist_over_denominator(budget, -audio_bps, shorter_us as nat);
    lemma_hoist_over_denominator(budget, -audio_bps, longer_us as nat);
    assert(-audio_bps * shorter_us == -(audio_bps * shorter_us)) by (nonlinear_arith);
    assert(-audio_bps * longer_us == -(audio_bps * longer_us)) by (nonlinear_arith);
    lemma_div_is_ordered_by_denominator(budget, shorter_us, longer_us);
}

} // verus!
