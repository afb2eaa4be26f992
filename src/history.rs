//! A bounded first-in, first-out history: once full, every push drops the
//! oldest entry.
use std::collections::VecDeque;
use vstd::prelude::*;

verus! {

/// What a history of at most `capacity` entries holds after `x` is pushed
/// onto `s`: `x` is appended and, if that goes over the bound, the oldest
/// entry leaves.
pub open spec fn pushed<T>(s: Seq<T>, capacity: nat, x: T) -> Seq<T> {
    if s.len() + 1 > capacity {
        s.push(x).subrange(1, s.len() + 1 as int)
    } else {
        s.push(x)
    }
}

/// What the history holds after each of `xs` is pushed in turn onto `s`.
pub open spec fn pushed_all<T>(s: Seq<T>, capacity: nat, xs: Seq<T>) -> Seq<T>
    decreases xs.len(),
{
    if xs.len() == 0 {
        s
    } else {
        pushed(pushed_all(s, capacity, xs.drop_last()), capacity, xs.last())
    }
}

/// The last `n` entries of `s` (all of `s` if it has fewer), oldest first.
pub open spec fn last_n<T>(s: Seq<T>, n: nat) -> Seq<T> {
    if s.len() <= n {
        s
    } else {
        s.subrange(s.len() - n, s.len() as int)
    }
}

/// Pushing any sequence of entries into a history that respects its bound
/// leaves exactly the last `capacity` entries of everything seen, oldest first.
pub proof fn lemma_history_keeps_last<T>(s: Seq<T>, capacity: nat, xs: Seq<T>)
    requires
        capacity > 0,
        s.len() <= capacity,
    ensures
        pushed_all(s, capacity, xs) == last_n(s + xs, capacity),
    decreases xs.len(),
{
    if xs.len() > 0 {
        let init = xs.drop_last();
        let x = xs.last();
        lemma_history_keeps_last(s, capacity, init);
        let q = s + init;
        assert(s + xs == q.push(x));
        let kept = last_n(q, capacity);
        if q.len() < capacity {
            assert(pushed(kept, capacity, x) == q.push(x));
        } else {
            assert(pushed(kept, capacity, x) =~= last_n(q.push(x), capacity));
        }
    }
}

/// A first-in, first-out history of at most `capacity` entries.
pub struct History<T> {
    items: VecDeque<T>,
    capacity: usize,
}

impl<T> View for History<T> {
    type V = Seq<T>;

    /// The entries, oldest first.
    closed spec fn view(&self) -> Seq<T> {
        self.items@
    }
}

impl<T> History<T> {
    /// The bound on the number of entries.
    pub closed spec fn bound(&self) -> nat {
        self.capacity as nat
    }

    /// The bound is positive and respected.
    pub closed spec fn wf(&self) -> bool {
        &&& self.capacity > 0
        &&& self.items@.len() <= self.capacity
    }

    /// A well-formed history holds no more entries than its bound.
    pub proof fn lemma_within_bound(&self)
        requires
            self.wf(),
        ensures
            0 < self.bound(),
            self@.len() <= self.bound(),
    {
    }

    /// An empty history that keeps at most `capacity` entries.
    pub fn new(capacity: usize) -> (r: History<T>)
        requires
            capacity > 0,
        ensures
            r.wf(),
            r@ == Seq::<T>::empty(),
            r.bound() == capacity,
    {
        History { items: VecDeque::with_capacity(capacity), capacity }
    }

    pub fn capacity(&self) -> (r: usize)
        ensures
            r == self.bound(),
    {
        self.capacity
    }

    pub fn len(&self) -> (r: usize)
        ensures
            r == self@.len(),
    {
        self.items.len()
    }

    pub fn is_empty(&self) -> (r: bool)
        ensures
            r == (self@.len() == 0),
    {
        self.items.len() == 0
    }

    /// The entry at `i`, counting from the oldest.
    pub fn get(&self, i: usize) -> (r: &T)
        requires
            i < self@.len(),
        ensures
            *r == self@[i as int],
    {
        &self.items[i]
    }

    /// The newest entry, if any.
    pub fn last(&self) -> (r: Option<&T>)
        ensures
            r == (if self@.len() == 0 {
                None::<&T>
            } else {
                Some(&self@.last())
            }),
    {
        let n = self.items.len();
        if n == 0 {
            None
        } else {
            Some(&self.items[n - 1])
        }
    }

    /// Appends `x`; once over the bound, the oldest entry leaves.
    pub fn push(&mut self, x: T)
        requires
            old(self).wf(),
        ensures
            final(self).wf(),
            final(self).bound() == old(self).bound(),
            final(self)@ == pushed(old(self)@, old(self).bound(), x),
    {
        self.items.push_back(x);
        if self.items.len() > self.capacity {
            let _ = self.items.pop_front();
        }
    }
}

} // verus!
