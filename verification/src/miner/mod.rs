//! How the CPU miner splits its threads into thread pools.
use vstd::prelude::*;

verus! {

/// The pool size chosen for a thread count: the first of 12, 10 and 8 that
/// divides it, else 6.
pub open spec fn pool_size_for(threads: u16) -> u16 {
    if threads % 12 == 0 {
        12
    } else if threads % 10 == 0 {
        10
    } else if threads % 8 == 0 {
        8
    } else {
        6
    }
}

/// How many thread pools the miner makes for a thread count, and how many
/// threads each has: as many pools of the chosen size as fit.
pub fn pool_layout(threads: u16) -> (layout: (u16, u16))
    ensures
        layout.1 == pool_size_for(threads),
        layout.0 == threads / layout.1,
{
    if threads % 12 == 0 {
        (threads / 12, 12)
    } else if threads % 10 == 0 {
        (threads / 10, 10)
    } else if threads % 8 == 0 {
        (threads / 8, 8)
    } else {
        (threads / 6, 6)
    }
}

/// The pools never hold more threads than were asked for, and when the pool
/// size divides the thread count (always so for a count divisible by 12, 10
/// or 8) they hold exactly that many.
pub proof fn law_pools_fit(threads: u16)
    ensures
        (threads / pool_size_for(threads)) * pool_size_for(threads) <= threads,
        threads % pool_size_for(threads) == 0 ==> (threads / pool_size_for(threads)) * pool_size_for(
            threads,
        ) == threads,
        (threads % 12 == 0 || threads % 10 == 0 || threads % 8 == 0) ==> threads % pool_size_for(
            threads,
        ) == 0,
        threads - (threads / pool_size_for(threads)) * pool_size_for(threads) < 6,
{
    let p: int = pool_size_for(threads) as int;
    let t: int = threads as int;
    assert(p > 0);
    vstd::arithmetic::div_mod::lemma_fundamental_div_mod(t, p);
    assert(0 <= t % p < p) by {
        vstd::arithmetic::div_mod::lemma_mod_bound(t, p);
    }
    assert((t / p) * p == p * (t / p)) by (nonlinear_arith);
    if p == 6 {
        assert(t % 6 < 6);
    }
}

/// The threads that each miner gets: the processor count, taken modulo
/// 2^16, divided among the miners.
pub open spec fn spec_threads_per_miner(cpus: usize, num_miner: u8) -> u16 {
    ((cpus as u16) / (num_miner as u16)) as u16
}

/// The threads that each miner gets.
pub fn threads_per_miner(cpus: usize, num_miner: u8) -> (threads: u16)
    requires
        num_miner > 0,
    ensures
        threads == spec_threads_per_miner(cpus, num_miner),
{
    (cpus as u16) / (num_miner as u16)
}

/// The pool size is the largest of 12, 10 and 8 that divides the thread
/// count, and 6 when none does: 12 whenever 12 divides it, 10 when 10 does
/// but 12 does not, 8 when only 8 does.
pub proof fn law_largest_dividing_pool_size(threads: u16)
    ensures
        pool_size_for(threads) == 12 || pool_size_for(threads) == 10 || pool_size_for(threads) == 8
            || pool_size_for(threads) == 6,
        pool_size_for(threads) != 6 ==> threads % pool_size_for(threads) == 0,
        threads % 12 == 0 ==> pool_size_for(threads) == 12,
        threads % 10 == 0 ==> pool_size_for(threads) >= 10,
        threads % 8 == 0 ==> pool_size_for(threads) >= 8,
        threads % 12 != 0 && threads % 10 == 0 ==> pool_size_for(threads) == 10,
        threads % 12 != 0 && threads % 10 != 0 && threads % 8 == 0 ==> pool_size_for(threads) == 8,
        threads % 12 != 0 && threads % 10 != 0 && threads % 8 != 0 ==> pool_size_for(threads) == 6,
{
}

} // verus!
