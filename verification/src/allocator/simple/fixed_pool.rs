use vstd::prelude::*;

verus! {

use crate::align::alignment::Alignment;
use crate::align::alignn::ByAlign;
use crate::layout::{lemma_padded_multiple, padded_size};
use crate::meta::Meta;
use crate::util::bytes::{decimal, push_decimal};

/// Whether a slot of the pool is handed out.
#[derive(Clone, Copy, Debug, PartialEq, Eq)]
pub enum State {
    Free,
    Allocated,
}

/// When probing the `n` slots cyclically from `start`, is slot `j` visited before slot `pos`?
pub open spec fn probed_before(start: int, pos: int, j: int, n: int) -> bool {
    if start <= pos {
        start <= j < pos
    } else {
        (start <= j < n) || (0 <= j < pos)
    }
}

/// Is `pos` the slot a linear probe from `start` hands out: a free slot, with every slot
/// visited before it allocated?
pub open spec fn probe_hit(states: Seq<State>, start: int, pos: int) -> bool {
    &&& 0 <= pos < states.len()
    &&& states[pos] == State::Free
    &&& forall|j: int| probed_before(start, pos, j, states.len() as int) ==> #[trigger] states[j] == State::Allocated
}

/// Does `states` hold a free slot?
pub open spec fn has_free(states: Seq<State>) -> bool {
    exists|j: int| 0 <= j < states.len() && states[j] == State::Free
}

/// Pool-allocate fixed size elements from a fixed region of memory.
///
/// *   `A` - alignment of pool elements in bytes
/// *   `B` - size of pool elements in bytes
/// *   `N` - number of elements in pool
///
/// An allocation is identified by the index of its slot; slot `i` lies `i` elements from the
/// start of the region.  Allocation probes the slots linearly, starting after the slot handed
/// out last and wrapping around, so that worst case performance scales by `N`; freeing is
/// constant time.
pub struct FixedPoolLinearProbe<const A: usize, const B: usize, const N: usize> where
    (): ByAlign<A>,
 {
    state: Vec<State>,
    next: usize,
}

impl<const A: usize, const B: usize, const N: usize> FixedPoolLinearProbe<A, B, N> where
    (): ByAlign<A>,
 {
    /// The size in bytes of one slot: `B` rounded up to a multiple of the alignment `A`.
    pub open spec fn spec_element_size() -> int {
        padded_size(B as int, A as int)
    }

    /// The size in bytes of one slot: `B` rounded up to a multiple of the alignment `A`.  The
    /// slot type must be a valid type, no larger than `isize::MAX`.
    pub fn element_size() -> (r: usize)
        requires
            Self::spec_element_size() <= isize::MAX,
        ensures
            r == Self::spec_element_size(),
            r % A == 0,
            B <= r,
    {
        let a = <() as ByAlign<A>>::alignment().get();
        proof {
            lemma_padded_multiple(B as int, A as int);
        }
        let rem = B % a;
        if rem == 0 {
            B
        } else {
            B + (a - rem)
        }
    }

    /// The offset in bytes of slot `index` from the start of the pool's region: a multiple of
    /// the alignment `A`, with the whole slot inside the region of `N` slots.
    pub fn slot_offset(index: usize) -> (r: usize)
        requires
            index < N,
            N * Self::spec_element_size() <= isize::MAX,
        ensures
            r == index * Self::spec_element_size(),
            r % A == 0,
            r + Self::spec_element_size() <= N * Self::spec_element_size(),
    {
        let a = <() as ByAlign<A>>::alignment().get();
        proof {
            lemma_padded_multiple(B as int, A as int);
            let e = Self::spec_element_size();
            assert(0 <= index * e <= N * e) by (nonlinear_arith)
                requires index < N, e >= 0;
            assert(index * e + e <= N * e) by (nonlinear_arith)
                requires index < N, e >= 0;
            let k = e / (A as int);
            assert(e == k * (A as int)) by (nonlinear_arith)
                requires e % (A as int) == 0, A > 0, k == e / (A as int);
            assert(index * e == (index * k) * (A as int)) by (nonlinear_arith)
                requires e == k * (A as int);
            vstd::arithmetic::div_mod::lemma_mod_multiples_basic(index * k, A as int);
        }
        let _ = a;
        index * Self::element_size()
    }

    /// The slot whose region starts at byte `offset` of the pool's region.  The offset must be
    /// that of one of the `N` slots, dead or alive.
    pub fn live_or_dead_index_of(&self, offset: usize) -> (r: usize)
        requires
            N * Self::spec_element_size() <= isize::MAX,
            Self::spec_element_size() > 0,
            offset as int % Self::spec_element_size() == 0,
            offset as int / Self::spec_element_size() < N,
        ensures
            r == offset as int / Self::spec_element_size(),
            r < N,
    {
        proof {
            assert(Self::spec_element_size() <= N * Self::spec_element_size()) by (nonlinear_arith)
                requires N > 0, Self::spec_element_size() > 0;
        }
        offset / Self::element_size()
    }

    /// The pool has exactly `N` slots and probing starts at one of them (or just past the last).
    pub closed spec fn wf(self) -> bool {
        &&& self.state@.len() == N
        &&& self.next <= N
    }

    /// The state of each slot.
    pub closed spec fn spec_states(self) -> Seq<State> {
        self.state@
    }

    /// The slot where the next probe starts.
    pub closed spec fn spec_next(self) -> usize {
        self.next
    }

    /// A well-formed pool has exactly `N` slots and probing starts at one of them (or just past
    /// the last).
    pub proof fn lemma_wf(self)
        requires
            self.wf(),
        ensures
            self.spec_states().len() == N,
            self.spec_next() <= N,
    {
    }

    /// A pool whose `N` slots are all free.
    pub fn new() -> (r: Self)
        ensures
            r.wf(),
            r.spec_states() == Seq::new(N as nat, |i: int| State::Free),
            r.spec_next() == 0,
    {
        let mut state: Vec<State> = Vec::new();
        let mut i: usize = 0;
        while i < N
            invariant
                i <= N,
                state@ == Seq::new(i as nat, |j: int| State::Free),
            decreases N - i,
        {
            state.push(State::Free);
            i = i + 1;
        }
        FixedPoolLinearProbe { state, next: 0 }
    }

    /// The debug text of the pool: `FixedBool<A, B, N> { ... }`.
    pub fn to_debug_string(&self) -> (r: String)
        ensures
            r@ == "FixedBool<"@ + decimal(A as nat) + ", "@ + decimal(B as nat) + ", "@ + decimal(
                N as nat,
            ) + "> { ... }"@,
    {
        let mut out = String::from_str("FixedBool<");
        push_decimal(&mut out, A);
        out.append(", ");
        push_decimal(&mut out, B);
        out.append(", ");
        push_decimal(&mut out, N);
        out.append("> { ... }");
        out
    }

    /// The state of slot `index`.
    pub fn state_of(&self, index: usize) -> (r: State)
        requires
            self.wf(),
            index < N,
        ensures
            r == self.spec_states()[index as int],
    {
        self.state[index]
    }

    /// Hands out the first free slot, probing from the slot after the one handed out last and
    /// wrapping around; fails when `size` exceeds the slot size `B` or no slot is free.
    pub fn alloc_uninit(&mut self, size: usize) -> (r: Result<usize, ()>)
        requires
            old(self).wf(),
        ensures
            final(self).wf(),
            r is Ok <==> size <= B && has_free(old(self).spec_states()),
            r matches Ok(pos) ==> {
                &&& probe_hit(old(self).spec_states(), old(self).spec_next() as int, pos as int)
                &&& final(self).spec_states() == old(self).spec_states().update(pos as int, State::Allocated)
                &&& final(self).spec_next() == pos + 1
            },
            r is Err ==> {
                &&& final(self).spec_states() == old(self).spec_states()
                &&& final(self).spec_next() == old(self).spec_next()
            },
    {
        if size > B {
            return Err(());
        }
        let start = self.next;
        let mut pos = start;
        while pos < N
            invariant
                start <= pos <= N,
                self.state@ == old(self).state@,
                self.state@.len() == N,
                self.next == start,
                start == old(self).next,
                size <= B,
                self.next <= N,
                forall|j: int| start <= j < pos ==> #[trigger] self.state@[j] == State::Allocated,
            decreases N - pos,
        {
            match self.state[pos] {
                State::Free => {
                    assert(has_free(old(self).state@));
                    self.state.set(pos, State::Allocated);
                    self.next = pos + 1;
                    return Ok(pos);
                },
                State::Allocated => {
                    pos = pos + 1;
                },
            }
        }
        pos = 0;
        while pos < start
            invariant
                pos <= start <= N,
                self.state@ == old(self).state@,
                self.state@.len() == N,
                self.next == start,
                start == old(self).next,
                size <= B,
                forall|j: int| start <= j < N ==> #[trigger] self.state@[j] == State::Allocated,
                forall|j: int| 0 <= j < pos ==> #[trigger] self.state@[j] == State::Allocated,
            decreases start - pos,
        {
            match self.state[pos] {
                State::Free => {
                    assert(has_free(old(self).state@));
                    self.state.set(pos, State::Allocated);
                    self.next = pos + 1;
                    return Ok(pos);
                },
                State::Allocated => {
                    pos = pos + 1;
                },
            }
        }
        assert(forall|j: int| 0 <= j < N ==> #[trigger] self.state@[j] == State::Allocated);
        Err(())
    }

    /// Returns slot `index` to the pool.
    pub fn free(&mut self, index: usize)
        requires
            old(self).wf(),
            index < N,
            old(self).spec_states()[index as int] == State::Allocated,
        ensures
            final(self).wf(),
            final(self).spec_states() == old(self).spec_states().update(index as int, State::Free),
            final(self).spec_next() == old(self).spec_next(),
    {
        self.state.set(index, State::Free);
    }

    /// Resizes the allocation in slot `index` in place: succeeds, keeping the slot, exactly when
    /// `new_size` fits a slot.
    pub fn realloc_uninit(&self, index: usize, new_size: usize) -> (r: Result<usize, ()>)
        requires
            self.wf(),
            index < N,
            self.spec_states()[index as int] == State::Allocated,
        ensures
            r is Ok <==> new_size <= B,
            r matches Ok(i) ==> i == index,
    {
        if new_size > B {
            return Err(());
        }
        Ok(index)
    }

    /// Zeroing reallocation is not offered: always fails.
    pub fn realloc_zeroed(&self, index: usize, new_size: usize) -> (r: Result<usize, ()>)
        ensures
            r is Err,
    {
        let _ = (index, new_size);
        Err(())
    }
}

impl<const A: usize, const B: usize, const N: usize> Default for FixedPoolLinearProbe<A, B, N> where
    (): ByAlign<A>,
 {
    /// Same as [`FixedPoolLinearProbe::new`]: every slot free.
    fn default() -> (r: Self)
        ensures
            r.wf(),
            r.spec_states() == Seq::new(N as nat, |i: int| State::Free),
            r.spec_next() == 0,
    {
        Self::new()
    }
}

impl<const A: usize, const B: usize, const N: usize> Meta for FixedPoolLinearProbe<A, B, N> where
    (): ByAlign<A>,
 {
    open spec fn spec_max_align() -> Alignment {
        Alignment::spec_constant(A)
    }

    open spec fn spec_max_size() -> usize {
        B
    }

    open spec fn spec_zst_supported() -> bool {
        true
    }

    open spec fn spec_min_align() -> Alignment {
        Alignment::spec_constant(1)
    }

    fn max_align() -> (r: Alignment) {
        let a = <() as ByAlign<A>>::alignment();
        proof {
            Alignment::lemma_constant_bytes(A);
            Alignment::lemma_eq_bytes(a, Alignment::spec_constant(A));
        }
        a
    }

    fn max_size() -> (r: usize) {
        B
    }

    fn zst_supported() -> (r: bool) {
        true
    }

    fn min_align() -> (r: Alignment) {
        Alignment::minimum()
    }
}

/// The probe hands out exactly one slot: two slots that both qualify as the probe's result are
/// the same slot, so an allocation's outcome is determined by the slot states and the probe start.
pub proof fn lemma_probe_hit_unique(states: Seq<State>, start: int, p1: int, p2: int)
    requires
        0 <= start <= states.len(),
        probe_hit(states, start, p1),
        probe_hit(states, start, p2),
    ensures
        p1 == p2,
{
    let n = states.len() as int;
    if p1 != p2 {
        if probed_before(start, p2, p1, n) {
            assert(states[p1] == State::Allocated);
        } else {
            assert(probed_before(start, p1, p2, n));
            assert(states[p2] == State::Allocated);
        }
    }
}

/// A pool whose first `k` slots are allocated and the rest free, probing from slot `k`, hands
/// out slot `k` next: a fresh pool hands out its slots in order.
pub proof fn lemma_filling_in_order(states: Seq<State>, k: int)
    requires
        0 <= k < states.len(),
        forall|j: int| 0 <= j < k ==> #[trigger] states[j] == State::Allocated,
        forall|j: int| k <= j < states.len() ==> #[trigger] states[j] == State::Free,
    ensures
        probe_hit(states, k, k),
        forall|pos: int| probe_hit(states, k, pos) ==> pos == k,
{
    assert forall|pos: int| probe_hit(states, k, pos) implies pos == k by {
        lemma_probe_hit_unique(states, k, pos, k);
    }
}

/// The slot at the offset of slot `index` is slot `index`: offsets and slots correspond one to
/// one.
pub proof fn lemma_offset_round_trip(index: int, element_size: int)
    requires
        index >= 0,
        element_size > 0,
    ensures
        (index * element_size) % element_size == 0,
        (index * element_size) / element_size == index,
{
    assert((index * element_size) % element_size == 0 && (index * element_size) / element_size == index)
        by (nonlinear_arith)
        requires index >= 0, element_size > 0;
}

/// Handing out a free slot and then freeing it again gives back the slot states it started from.
pub proof fn lemma_alloc_then_free_restores(states: Seq<State>, pos: int)
    requires
        0 <= pos < states.len(),
        states[pos] == State::Free,
    ensures
        states.update(pos, State::Allocated).update(pos, State::Free) == states,
{
    assert(states.update(pos, State::Allocated).update(pos, State::Free) =~= states);
}

} // verus!
