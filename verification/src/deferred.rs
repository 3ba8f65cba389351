//! Deferred drawing: a child laid out with its parent but drawn after all
//! ancestors, ordered by priority.
use vstd::prelude::*;

verus! {

/// A child whose drawing is deferred.
#[derive(Clone, Debug)]
pub struct Deferred<E> {
    pub child: Option<E>,
    /// Higher priorities are drawn on top of lower ones.
    pub priority: usize,
}

/// Defers the drawing of `child`, at priority zero.
pub fn deferred<E>(child: E) -> (r: Deferred<E>)
    ensures
        r.child == Some(child),
        r.priority == 0,
{
    Deferred { child: Some(child), priority: 0 }
}

impl<E> Deferred<E> {
    /// Sets the priority.
    pub fn with_priority(self, priority: usize) -> (r: Deferred<E>)
        ensures
            r.child == self.child,
            r.priority == priority,
    {
        Deferred { child: self.child, priority }
    }

    /// Sets the priority.
    pub fn priority(self, priority: usize) -> (r: Deferred<E>)
        ensures
            r.child == self.child,
            r.priority == priority,
    {
        Deferred { child: self.child, priority }
    }

    /// Hands the child over for drawing, once: afterwards there is none.
    pub fn take_child(&mut self) -> (r: Option<E>)
        ensures
            r == old(self).child,
            final(self).child is None,
            final(self).priority == old(self).priority,
    {
        let c = self.child.take();
        c
    }
}

/// Whether the deferred draw `a` is painted before `b`, given the priorities of
/// a frame's deferred draws: lower priorities first, and in the order they were
/// deferred among equal priorities.
pub open spec fn drawn_before(p: Seq<usize>, a: usize, b: usize) -> bool {
    p[a as int] < p[b as int] || (p[a as int] == p[b as int] && a < b)
}

/// The order in which a frame's deferred draws are painted, given their
/// priorities in the order they were deferred: every draw once, lower
/// priorities first so that higher ones are painted on top, and draws of equal
/// priority in the order they were deferred.
pub fn draw_order(priorities: &Vec<usize>) -> (r: Vec<usize>)
    ensures
        r@.len() == priorities@.len(),
        forall|k: int| 0 <= k < r@.len() ==> #[trigger] r@[k] < priorities@.len(),
        forall|j: usize| j < priorities@.len() ==> #[trigger] r@.contains(j),
        forall|a: int, b: int|
            0 <= a < b < r@.len() ==> drawn_before(priorities@, #[trigger] r@[a], #[trigger] r@[b]),
        forall|a: int, b: int|
            0 <= a < r@.len() && 0 <= b < r@.len() && priorities@[#[trigger] r@[a] as int]
                < priorities@[#[trigger] r@[b] as int] ==> a < b,
{
    let n = priorities.len();
    let ghost p = priorities@;
    let mut out: Vec<usize> = Vec::new();
    let mut i: usize = 0;
    while i < n
        invariant
            n == p.len(),
            p == priorities@,
            i <= n,
            out@.len() == i,
            forall|k: int| 0 <= k < out@.len() ==> #[trigger] out@[k] < i,
            forall|j: usize| j < i ==> #[trigger] out@.contains(j),
            forall|a: int, b: int|
                0 <= a < b < out@.len() ==> drawn_before(p, #[trigger] out@[a], #[trigger] out@[b]),
        decreases n - i,
    {
        let pi = priorities[i];
        let mut k: usize = 0;
        while k < out.len() && priorities[out[k]] <= pi
            invariant
                n == p.len(),
                p == priorities@,
                i < n,
                pi == p[i as int],
                out@.len() == i,
                k <= out@.len(),
                forall|m: int| 0 <= m < out@.len() ==> #[trigger] out@[m] < i,
                forall|a: int| 0 <= a < k ==> p[#[trigger] out@[a] as int] <= pi,
            decreases out@.len() - k,
        {
            k = k + 1;
        }
        let ghost before = out@;
        proof {
            assert forall|a: int| k <= a < before.len() implies p[#[trigger] before[a] as int] > pi by {
                if a > k {
                    assert(drawn_before(p, before[k as int], before[a]));
                }
            }
        }
        out.insert(k, i);
        proof {
            assert(out@ == before.insert(k as int, i));
            assert forall|j: usize| j < i + 1 implies #[trigger] out@.contains(j) by {
                if j == i {
                    assert(out@[k as int] == i);
                } else {
                    assert(before.contains(j));
                    let w = choose|w: int| 0 <= w < before.len() && before[w] == j;
                    if w < k {
                        assert(out@[w] == j);
                    } else {
                        assert(out@[w + 1] == j);
                    }
                }
            }
            assert forall|a: int, b: int| 0 <= a < b < out@.len() implies drawn_before(
                p,
                #[trigger] out@[a],
                #[trigger] out@[b],
            ) by {
                if a < k && b < k {
                    assert(drawn_before(p, before[a], before[b]));
                } else if a < k && b == k {
                } else if a < k && b > k {
                    assert(drawn_before(p, before[a], before[b - 1]));
                } else if a == k {
                } else {
                    assert(drawn_before(p, before[a - 1], before[b - 1]));
                }
            }
        }
        i = i + 1;
    }
    proof {
        assert forall|a: int, b: int|
            0 <= a < out@.len() && 0 <= b < out@.len() && p[out@[a] as int] < p[out@[b] as int]
            implies a < b by {
            if b < a {
                assert(drawn_before(p, out@[b], out@[a]));
            } else if a == b {
            }
        }
    }
    out
}

} // verus!
