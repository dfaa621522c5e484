//! Bounded exponential backoff.
use crate::config::PipelineConfig;
use vstd::arithmetic::power2::{lemma2_to64_rest, lemma_pow2_pos, lemma_pow2_strictly_increases, lemma_pow2_unfold, pow2};
use vstd::prelude::*;

verus! {

/// The exponent of two for a retry: none for the first, then one more each time.
pub open spec fn doublings(retry_number: nat) -> nat {
    if retry_number == 0 {
        0
    } else {
        (retry_number - 1) as nat
    }
}

/// The delay before a retry, in milliseconds: the initial delay, doubled for every
/// retry after the first, and never more than the maximum.
pub open spec fn backoff(config: PipelineConfig, retry_number: nat) -> nat {
    let delay = config.initial_retry_delay_ms as nat * pow2(doublings(retry_number));
    if delay < config.max_retry_delay_ms {
        delay
    } else {
        config.max_retry_delay_ms as nat
    }
}

/// The delay before a retry, in milliseconds.
pub fn retry_delay(config: &PipelineConfig, retry_number: u32) -> (millis: u64)
    ensures
        millis == backoff(*config, retry_number as nat),
{
    let shift: u32 = retry_number.saturating_sub(1);
    let initial: u64 = config.initial_retry_delay_ms;
    let multiplier: u64 = if shift < 64 {
        1u64 << shift
    } else {
        u64::MAX
    };
    proof {
        lemma_pow2_pos(shift as nat);
        lemma2_to64_rest();
        if shift < 64 {
            vstd::bits::lemma_u64_pow2_no_overflow(shift as nat);
            vstd::bits::lemma_u64_shl_is_mul(1, shift as u64);
            assert(1u64 << shift == 1u64 << (shift as u64)) by (bit_vector);
        } else {
            if shift > 64 {
                lemma_pow2_strictly_increases(64, shift as nat);
            }
            assert(initial >= 1 ==> initial * u64::MAX >= u64::MAX) by (nonlinear_arith);
            assert(initial >= 1 ==> initial * pow2(shift as nat) > u64::MAX) by (nonlinear_arith)
                requires
                    pow2(shift as nat) > u64::MAX,
            ;
            assert(initial == 0 ==> initial * pow2(shift as nat) == 0) by (nonlinear_arith);
            assert(initial == 0 ==> initial * u64::MAX == 0) by (nonlinear_arith);
        }
        assert(initial * multiplier <= u128::MAX) by (nonlinear_arith)
            requires
                initial <= u64::MAX,
                multiplier <= u64::MAX,
        ;
    }
    let delay: u128 = initial as u128 * multiplier as u128;
    if delay < config.max_retry_delay_ms as u128 {
        delay as u64
    } else {
        config.max_retry_delay_ms
    }
}

/// No delay is longer than the maximum, and none is shorter than an earlier one.
pub proof fn law_backoff_is_bounded_and_never_shrinks(config: PipelineConfig, earlier: nat, later: nat)
    requires
        earlier <= later,
    ensures
        backoff(config, later) <= config.max_retry_delay_ms,
        backoff(config, earlier) <= backoff(config, later),
{
    let initial = config.initial_retry_delay_ms as nat;
    let a = doublings(earlier);
    let b = doublings(later);
    if a < b {
        lemma_pow2_strictly_increases(a, b);
    }
    assert(initial * pow2(a) <= initial * pow2(b)) by (nonlinear_arith)
        requires
            pow2(a) <= pow2(b),
    ;
}

/// The first retry waits for the initial delay, and each later one twice as long as
/// the one before it, as far as the maximum allows.
pub proof fn law_backoff_doubles(config: PipelineConfig, retry_number: nat)
    requires
        retry_number >= 1,
    ensures
        backoff(config, 0) == backoff(config, 1),
        backoff(config, 1) == if config.initial_retry_delay_ms < config.max_retry_delay_ms {
            config.initial_retry_delay_ms
        } else {
            config.max_retry_delay_ms
        },
        backoff(config, retry_number + 1) == if 2 * backoff(config, retry_number)
            < config.max_retry_delay_ms {
            2 * backoff(config, retry_number)
        } else {
            config.max_retry_delay_ms as nat
        },
{
    lemma2_to64_rest();
    vstd::arithmetic::power2::lemma2_to64();
    let initial = config.initial_retry_delay_ms as nat;
    let power = pow2(doublings(retry_number));
    lemma_pow2_unfold(doublings(retry_number + 1));
    assert(initial * (2 * power) == 2 * (initial * power)) by (nonlinear_arith);
    assert(doublings(1) == 0);
    assert(pow2(0) == 1);
    assert(initial * 1 == initial) by (nonlinear_arith);
}

} // verus!
