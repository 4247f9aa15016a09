use vstd::prelude::*;
use crate::timer::RepeatingTimer;

verus! {

/// The cyclic range `[first, last]` of atlas frames that one sprite shows.
#[derive(Clone, Copy, Debug, PartialEq, Eq, Structural)]
pub struct AnimationIndices {
    pub first: usize,
    pub last: usize,
}

impl AnimationIndices {
    pub open spec fn wf(self) -> bool {
        self.first <= self.last
    }

    /// Number of frames in the cycle.
    pub open spec fn span(self) -> nat {
        (self.last - self.first + 1) as nat
    }

    pub open spec fn contains(self, index: int) -> bool {
        self.first <= index <= self.last
    }

    /// The frame shown after `index`: the next one, or `first` after `last`.
    pub open spec fn spec_next(self, index: int) -> int {
        if index == self.last {
            self.first as int
        } else {
            index + 1
        }
    }

    /// The frame shown after `n` advances from `index`.
    pub open spec fn advanced(self, index: int, n: nat) -> int
        decreases n,
    {
        if n == 0 {
            index
        } else {
            self.spec_next(self.advanced(index, (n - 1) as nat))
        }
    }

    /// The frame shown after `n` advances from `first`, in closed form.
    pub open spec fn frame_after(self, n: nat) -> int {
        self.first + (n % self.span()) as int
    }

    pub fn new(first: usize, last: usize) -> (r: AnimationIndices)
        requires
            first <= last,
        ensures
            r.wf(),
            r.first == first,
            r.last == last,
    {
        AnimationIndices { first, last }
    }

    /// The frame that follows `index` in the cycle.
    pub fn next(&self, index: usize) -> (r: usize)
        requires
            self.wf(),
            self.contains(index as int),
        ensures
            r == self.spec_next(index as int),
            self.contains(r as int),
    {
        if index == self.last {
            self.first
        } else {
            index + 1
        }
    }
}

/// Every advance from a frame of the cycle stays in the cycle, and after `n`
/// advances from `first` the frame shown is `first + n mod (last - first + 1)`.
pub proof fn lemma_frame_cycle(indices: AnimationIndices, n: nat)
    requires
        indices.wf(),
    ensures
        indices.contains(indices.advanced(indices.first as int, n)),
        indices.advanced(indices.first as int, n) == indices.frame_after(n),
    decreases n,
{
    let s = indices.span() as int;
    if n == 0 {
        assert(0nat % indices.span() == 0) by (nonlinear_arith)
            requires indices.span() > 0;
    } else {
        let m = (n - 1) as nat;
        lemma_frame_cycle(indices, m);
        let k = (m % indices.span()) as int;
        assert(0 <= k < s);
        if k == s - 1 {
            assert(n % indices.span() == 0) by {
                vstd::arithmetic::div_mod::lemma_fundamental_div_mod(m as int, s);
                vstd::arithmetic::div_mod::lemma_mod_multiples_basic(m as int / s + 1, s);
                assert(n as int == (m as int / s + 1) * s) by (nonlinear_arith)
                    requires m as int == s * (m as int / s) + k, k == s - 1, n == m + 1;
            }
        } else {
            assert(n % indices.span() == k + 1) by {
                vstd::arithmetic::div_mod::lemma_fundamental_div_mod(m as int, s);
                vstd::arithmetic::div_mod::lemma_mod_multiples_vanish(m as int / s, k + 1, s);
                assert(n as int == s * (m as int / s) + (k + 1)) by (nonlinear_arith)
                    requires m as int == s * (m as int / s) + k, n == m + 1;
                vstd::arithmetic::div_mod::lemma_small_mod((k + 1) as nat, s as nat);
            }
        }
    }
}

/// An animated sprite-sheet: the frame shown, its cycle and the timer that
/// drives it.
#[derive(Clone, Copy, Debug, PartialEq, Eq, Structural)]
pub struct SpriteAnimation {
    pub indices: AnimationIndices,
    pub timer: RepeatingTimer,
    pub index: usize,
}

impl SpriteAnimation {
    /// The frame shown always lies in the cycle.
    pub open spec fn wf(self) -> bool {
        self.indices.wf() && self.timer.wf() && self.indices.contains(self.index as int)
    }

    /// A sprite that starts on frame `first` with a fresh timer.
    pub fn new(indices: AnimationIndices, timer: RepeatingTimer) -> (r: SpriteAnimation)
        requires
            indices.wf(),
            timer.wf(),
        ensures
            r.wf(),
            r.indices == indices,
            r.timer == timer,
            r.index == indices.first,
    {
        SpriteAnimation { indices, timer, index: indices.first }
    }

    /// One frame of animation: the timer advances by `delta` nanoseconds and,
    /// on the tick that completes the interval, the shown frame advances by
    /// exactly one step, however many intervals the delta spanned.
    pub fn animate(&mut self, delta: u64)
        requires
            old(self).wf(),
        ensures
            final(self).wf(),
            final(self).indices == old(self).indices,
            final(self).timer == old(self).timer.ticked(delta as nat),
            final(self).index == if old(self).timer.elapsed + delta >= old(self).timer.duration {
                old(self).indices.spec_next(old(self).index as int)
            } else {
                old(self).index as int
            },
            old(self).timer.elapsed + delta < old(self).timer.duration ==> final(self).index
                == old(self).index,
            final(self).index == old(self).index || final(self).index == old(self).indices.spec_next(
                old(self).index as int,
            ),
    {
        self.timer.tick(delta);
        if self.timer.just_finished() {
            self.index = self.indices.next(self.index);
        }
    }
}

} // verus!
