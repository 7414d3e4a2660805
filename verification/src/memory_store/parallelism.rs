use vstd::arithmetic::power2::{lemma_pow2_unfold, pow2};
use vstd::prelude::*;

verus! {

/// `n` is a power of two.
pub open spec fn is_power_of_two(n: int) -> bool {
    exists|k: nat| pow2(k) == n
}

/// Available parallelism clamped to `2..=192`.
pub open spec fn clamped_parallelism(parallelism: usize) -> int {
    if parallelism < 2 {
        2
    } else if parallelism > 192 {
        192
    } else {
        parallelism as int
    }
}

/// The optimal number of shards: the square of the parallelism divided by 4.
pub open spec fn optimal_number_of_shards(parallelism: usize) -> int {
    clamped_parallelism(parallelism) * clamped_parallelism(parallelism) / 4
}

/// Number of shards of the map for the given parallelism: the largest power
/// of two that does not exceed the square of the parallelism (clamped to
/// `2..=192`) divided by four, and never less than two.
pub fn get_number_of_shards(parallelism: usize) -> (r: usize)
    ensures
        is_power_of_two(r as int),
        r >= 2,
        optimal_number_of_shards(parallelism) < 2 ==> r == 2,
        optimal_number_of_shards(parallelism) >= 2 ==> r <= optimal_number_of_shards(parallelism)
            < 2 * r,
{
    let mut parallelism = parallelism;
    if parallelism < 2 {
        parallelism = 2;
    }
    if parallelism > 192 {
        parallelism = 192;
    }
    assert(parallelism * parallelism <= 192 * 192) by (nonlinear_arith)
        requires
            parallelism <= 192,
    ;
    let optimal_number_shards = parallelism * parallelism / 4;
    if optimal_number_shards < 2 {
        assert(pow2(1) == 2) by {
            lemma_pow2_unfold(1);
            vstd::arithmetic::power::lemma_pow0(2);
        }
        return 2;
    }
    let mut shards_power_of_2: usize = 1;
    let ghost mut k: nat = 0;
    proof {
        vstd::arithmetic::power::lemma_pow0(2);
    }
    while shards_power_of_2 <= optimal_number_shards / 2
        invariant
            pow2(k) == shards_power_of_2,
            1 <= shards_power_of_2 <= optimal_number_shards,
            optimal_number_shards <= 192 * 192 / 4,
        decreases optimal_number_shards - shards_power_of_2,
    {
        proof {
            lemma_pow2_unfold(k + 1);
            k = k + 1;
        }
        shards_power_of_2 = shards_power_of_2 * 2;
    }
    if shards_power_of_2 > 1 {
        shards_power_of_2
    } else {
        assert(pow2(1) == 2) by {
            lemma_pow2_unfold(1);
            vstd::arithmetic::power::lemma_pow0(2);
        }
        2
    }
}

} // verus!
