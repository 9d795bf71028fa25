//! Allocation of context ids with the parity rule: server-initiated ids are
//! odd, client-initiated ids are even.

use vstd::prelude::*;

verus! {

/// Allocates context ids for one endpoint. The server's counter starts at 1
/// and the client's at 0, and each allocation advances the counter by 2, so
/// ids keep the parity of the endpoint's role. When fewer than 2 ids remain
/// before `u64::MAX` the counter wraps back to the start of its parity
/// class.
pub struct ContextCounter {
    pub is_server: bool,
    pub counter: u64,
}

impl ContextCounter {
    /// The parity every id allocated by this counter carries: 1 for a
    /// server counter, 0 for a client counter.
    pub open spec fn parity(self) -> u64 {
        if self.is_server {
            1u64
        } else {
            0u64
        }
    }

    /// The value the next allocation will return, while the counter stays
    /// in the non-wrap regime.
    pub open spec fn current(self) -> u64 {
        self.counter
    }

    /// The counter never leaves its parity class.
    pub open spec fn wf(self) -> bool {
        self.counter % 2 == self.parity()
    }

    pub fn new(is_server: bool) -> (c: Self)
        ensures
            c.is_server == is_server,
            c.wf(),
            c.current() == c.parity(),
    {
        Self { is_server, counter: if is_server { 1 } else { 0 } }
    }

    /// Hands out the current id and advances by 2. Near `u64::MAX` the
    /// counter wraps to 1 (server) or 2 (client) and hands that value out;
    /// the wrap keeps the parity but may collide with ids still in flight,
    /// a known limitation of the scheme.
    pub fn next_context_id(&mut self) -> (id: u64)
        requires
            old(self).wf(),
        ensures
            final(self).wf(),
            final(self).is_server == old(self).is_server,
            id % 2 == old(self).parity(),
            u64::MAX - old(self).current() > 2 ==> {
                &&& id == old(self).current()
                &&& final(self).current() == old(self).current() + 2
            },
            u64::MAX - old(self).current() <= 2 ==> {
                &&& id == (if old(self).is_server { 1u64 } else { 2u64 })
                &&& final(self).current() == id
            },
    {
        if u64::MAX - self.counter <= 2 {
            self.counter = if self.is_server { 1 } else { 2 };
            self.counter
        } else {
            self.counter = self.counter + 2;
            self.counter - 2
        }
    }
}

/// The id the counter hands out on its `n`th allocation (counting from 0),
/// as long as every allocation up to it stays in the non-wrap regime.
pub open spec fn nth_context_id(c: ContextCounter, n: nat) -> int {
    c.current() + 2 * n
}

/// Context ids from one counter, in a run that never wraps, keep one parity
/// and grow by exactly 2 from each allocation to the next.
pub proof fn lemma_context_id_progression(c: ContextCounter, n: nat)
    requires
        c.wf(),
        nth_context_id(c, n) + 2 <= u64::MAX - 2,
    ensures
        forall|i: nat| i <= n ==> #[trigger] nth_context_id(c, i) % 2 == c.parity(),
        forall|i: nat|
            i < n ==> #[trigger] nth_context_id(c, (i + 1) as nat) == nth_context_id(c, i) + 2,
{
    assert forall|i: nat| i <= n implies #[trigger] nth_context_id(c, i) % 2 == c.parity() by {
        assert(nth_context_id(c, i) == c.current() + 2 * i);
        assert((c.current() + 2 * i) % 2 == c.current() % 2) by {
            vstd::arithmetic::div_mod::lemma_add_mod_noop(c.current() as int, 2 * (i as int), 2);
            vstd::arithmetic::div_mod::lemma_mod_multiples_basic(i as int, 2);
            vstd::arithmetic::div_mod::lemma_mod_twice(c.current() as int, 2);
        }
    }
}

} // verus!
