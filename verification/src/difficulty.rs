use vstd::prelude::*;

verus! {

/// How many bells are made between two raises of the difficulty.
pub const DIFFICULTY_RAISE_COUNTER: u32 = 30;

/// Counts the bells made since the difficulty last went up.
pub struct DifficultyCounter {
    next_difficulty_raise: u32,
}

/// The count after `k` more bells, from `count`.
pub open spec fn count_after(count: nat, k: nat) -> nat {
    (count + k) % (DIFFICULTY_RAISE_COUNTER as nat)
}

/// How many raises `k` more bells bring, from `count`.
pub open spec fn raises_after(count: nat, k: nat) -> nat {
    (count + k) / (DIFFICULTY_RAISE_COUNTER as nat)
}

impl DifficultyCounter {
    pub closed spec fn count(&self) -> nat {
        self.next_difficulty_raise as nat
    }

    #[verifier::type_invariant]
    spec fn wf(&self) -> bool {
        self.next_difficulty_raise < DIFFICULTY_RAISE_COUNTER
    }

    /// No bell made yet.
    pub fn new() -> (c: Self)
        ensures
            c.count() == 0,
    {
        DifficultyCounter { next_difficulty_raise: 0 }
    }

    /// Counts one more bell; returns whether the difficulty goes up now,
    /// which it does with every thirtieth bell.
    pub fn tick(&mut self) -> (raise: bool)
        ensures
            old(self).count() < DIFFICULTY_RAISE_COUNTER,
            final(self).count() < DIFFICULTY_RAISE_COUNTER,
            final(self).count() == count_after(old(self).count(), 1),
            raise <==> raises_after(old(self).count(), 1) == 1,
    {
        proof {
            use_type_invariant(&*self);
        }
        let next = self.next_difficulty_raise + 1;
        if next >= DIFFICULTY_RAISE_COUNTER {
            self.next_difficulty_raise = 0;
            true
        } else {
            self.next_difficulty_raise = next;
            false
        }
    }
}

/// Counting bells one at a time agrees with counting them at once: after
/// `k + 1` bells the count and the number of raises are those of one more
/// bell after `k`. So from a fresh counter, the difficulty goes up exactly
/// `k / 30` times in `k` bells.
pub proof fn law_tick_composes(count: nat, k: nat)
    requires
        count < DIFFICULTY_RAISE_COUNTER,
    ensures
        count_after(count_after(count, k), 1) == count_after(count, k + 1),
        raises_after(count, k) + raises_after(count_after(count, k), 1) == raises_after(count, k + 1),
{
    let m = count + k;
    assert(((m % 30) + 1) % 30 == (m + 1) % 30 && m / 30 + ((m % 30) + 1) / 30 == (m + 1) / 30)
        by (nonlinear_arith)
        requires
            m >= 0,
    ;
}

} // verus!
