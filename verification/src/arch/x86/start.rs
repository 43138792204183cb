//! Bookkeeping of the platform's interrupt handlers.

use vstd::prelude::*;

verus! {

/// Number of timer interrupts between two timer log messages: one second at the 1000 Hz rate
/// the timer is programmed with.
pub const TICKS_PER_MESSAGE: usize = 1000;

/// Counts one timer interrupt. The counter runs from 0 to 999 and wraps to 0 on the thousandth
/// interrupt; the result says whether this interrupt is the one to log.
pub fn timer_handler(counter: &mut usize) -> (log: bool)
    requires
        *old(counter) < TICKS_PER_MESSAGE,
    ensures
        *final(counter) == (*old(counter) + 1) % (TICKS_PER_MESSAGE as int),
        *final(counter) < TICKS_PER_MESSAGE,
        log == (*final(counter) == 0),
{
    *counter = *counter + 1;
    if *counter == TICKS_PER_MESSAGE {
        *counter = 0;
    }
    *counter == 0
}

/// The counter after `k` timer interrupts, starting from `c`.
pub open spec fn counter_after(c: int, k: nat) -> int
    decreases k,
{
    if k == 0 {
        c
    } else {
        (counter_after(c, (k - 1) as nat) + 1) % (TICKS_PER_MESSAGE as int)
    }
}

/// Starting from zero, the counter after `k` interrupts is `k` modulo 1000, so exactly the
/// interrupts numbered by multiples of 1000 are logged.
pub proof fn lemma_counter_cycle(k: nat)
    ensures
        counter_after(0, k) == (k as int) % (TICKS_PER_MESSAGE as int),
        (counter_after(0, k) == 0) == ((k as int) % (TICKS_PER_MESSAGE as int) == 0),
    decreases k,
{
    if k > 0 {
        lemma_counter_cycle((k - 1) as nat);
        vstd::arithmetic::div_mod::lemma_add_mod_noop((k - 1) as int, 1, TICKS_PER_MESSAGE as int);
    }
}

} // verus!
