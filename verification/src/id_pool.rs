//! A pool of small numeric identifiers.
//!
//! The pool hands out the least identifier that is free and takes
//! identifiers back for reuse.

use vstd::prelude::*;

verus! {

/// An unsigned integer type whose values can serve as identifiers.
pub trait NonUnsignedFloat: Copy {
    /// The number that a value stands for.
    spec fn ordinal(self) -> nat;

    /// The number that the greatest value stands for.
    spec fn ceiling() -> nat;

    /// Two values that stand for one number are one value.
    proof fn ordinal_is_injective(a: Self, b: Self)
        requires
            a.ordinal() == b.ordinal(),
        ensures
            a == b,
    ;

    /// No value stands for more than the greatest one does.
    proof fn ordinal_is_bounded(a: Self)
        ensures
            a.ordinal() <= Self::ceiling(),
    ;

    /// The least value: zero.
    fn min_value() -> (least: Self)
        ensures
            least.ordinal() == 0,
    ;

    /// The greatest value.
    fn max_value() -> (greatest: Self)
        ensures
            greatest.ordinal() == Self::ceiling(),
    ;

    /// Whether `self` stands for a smaller number than `other`.
    fn precedes(&self, other: &Self) -> (smaller: bool)
        ensures
            smaller == (self.ordinal() < other.ordinal()),
    ;

    /// The value that follows `self`.
    fn successor(&self) -> (next: Self)
        requires
            self.ordinal() < Self::ceiling(),
        ensures
            next.ordinal() == self.ordinal() + 1,
    ;
}

impl NonUnsignedFloat for u8 {
    open spec fn ordinal(self) -> nat {
        self as nat
    }

    open spec fn ceiling() -> nat {
        u8::MAX as nat
    }

    proof fn ordinal_is_injective(a: Self, b: Self) {
    }

    proof fn ordinal_is_bounded(a: Self) {
    }

    fn min_value() -> (least: Self) {
        u8::MIN
    }

    fn max_value() -> (greatest: Self) {
        u8::MAX
    }

    fn precedes(&self, other: &Self) -> (smaller: bool) {
        *self < *other
    }

    fn successor(&self) -> (next: Self) {
        *self + 1
    }
}

impl NonUnsignedFloat for u16 {
    open spec fn ordinal(self) -> nat {
        self as nat
    }

    open spec fn ceiling() -> nat {
        u16::MAX as nat
    }

    proof fn ordinal_is_injective(a: Self, b: Self) {
    }

    proof fn ordinal_is_bounded(a: Self) {
    }

    fn min_value() -> (least: Self) {
        u16::MIN
    }

    fn max_value() -> (greatest: Self) {
        u16::MAX
    }

    fn precedes(&self, other: &Self) -> (smaller: bool) {
        *self < *other
    }

    fn successor(&self) -> (next: Self) {
        *self + 1
    }
}

impl NonUnsignedFloat for u32 {
    open spec fn ordinal(self) -> nat {
        self as nat
    }

    open spec fn ceiling() -> nat {
        u32::MAX as nat
    }

    proof fn ordinal_is_injective(a: Self, b: Self) {
    }

    proof fn ordinal_is_bounded(a: Self) {
    }

    fn min_value() -> (least: Self) {
        u32::MIN
    }

    fn max_value() -> (greatest: Self) {
        u32::MAX
    }

    fn precedes(&self, other: &Self) -> (smaller: bool) {
        *self < *other
    }

    fn successor(&self) -> (next: Self) {
        *self + 1
    }
}

impl NonUnsignedFloat for u64 {
    open spec fn ordinal(self) -> nat {
        self as nat
    }

    open spec fn ceiling() -> nat {
        u64::MAX as nat
    }

    proof fn ordinal_is_injective(a: Self, b: Self) {
    }

    proof fn ordinal_is_bounded(a: Self) {
    }

    fn min_value() -> (least: Self) {
        u64::MIN
    }

    fn max_value() -> (greatest: Self) {
        u64::MAX
    }

    fn precedes(&self, other: &Self) -> (smaller: bool) {
        *self < *other
    }

    fn successor(&self) -> (next: Self) {
        *self + 1
    }
}

impl NonUnsignedFloat for u128 {
    open spec fn ordinal(self) -> nat {
        self as nat
    }

    open spec fn ceiling() -> nat {
        u128::MAX as nat
    }

    proof fn ordinal_is_injective(a: Self, b: Self) {
    }

    proof fn ordinal_is_bounded(a: Self) {
    }

    fn min_value() -> (least: Self) {
        u128::MIN
    }

    fn max_value() -> (greatest: Self) {
        u128::MAX
    }

    fn precedes(&self, other: &Self) -> (smaller: bool) {
        *self < *other
    }

    fn successor(&self) -> (next: Self) {
        *self + 1
    }
}

impl NonUnsignedFloat for usize {
    open spec fn ordinal(self) -> nat {
        self as nat
    }

    open spec fn ceiling() -> nat {
        usize::MAX as nat
    }

    proof fn ordinal_is_injective(a: Self, b: Self) {
    }

    proof fn ordinal_is_bounded(a: Self) {
    }

    fn min_value() -> (least: Self) {
        usize::MIN
    }

    fn max_value() -> (greatest: Self) {
        usize::MAX
    }

    fn precedes(&self, other: &Self) -> (smaller: bool) {
        *self < *other
    }

    fn successor(&self) -> (next: Self) {
        *self + 1
    }
}

/// A pool of the identifiers `0 .. count`.
///
/// Every identifier is either free or handed out. `request_id` hands out the
/// least free one; `return_id` makes one free again.
pub struct IdPool<T> where T: NonUnsignedFloat {
    /// The identifiers of the pool are the values below `count`.
    count: T,
    /// The least identifier that was never handed out.
    fresh: T,
    /// The identifiers below `fresh` that are free again, each once.
    pool: Vec<T>,
}

impl<T> IdPool<T> where T: NonUnsignedFloat {
    #[verifier::type_invariant]
    spec fn well_formed(self) -> bool {
        &&& self.fresh.ordinal() <= self.count.ordinal()
        &&& forall|i: int|
            0 <= i < self.pool@.len() ==> (#[trigger] self.pool@[i]).ordinal()
                < self.fresh.ordinal()
        &&& forall|i: int, j: int|
            0 <= i < j < self.pool@.len() ==> (#[trigger] self.pool@[i]).ordinal() != (
            #[trigger] self.pool@[j]).ordinal()
    }

    /// The number of identifiers that the pool was made with.
    pub closed spec fn capacity(self) -> nat {
        self.count.ordinal()
    }

    /// Whether the identifier numbered `id` can be handed out.
    pub closed spec fn is_free(self, id: nat) -> bool {
        &&& id < self.count.ordinal()
        &&& (id >= self.fresh.ordinal() || exists|i: int|
            0 <= i < self.pool@.len() && (#[trigger] self.pool@[i]).ordinal() == id)
    }

    /// Whether the identifier numbered `id` is handed out at present.
    pub open spec fn is_taken(self, id: nat) -> bool {
        id < self.capacity() && !self.is_free(id)
    }

    /// A pool of the identifiers `0 .. count`, all of them free.
    pub fn new(count: T) -> (pool: Self)
        ensures
            pool.capacity() == count.ordinal(),
            forall|id: nat| pool.is_free(id) <==> id < count.ordinal(),
    {
        IdPool { count, fresh: T::min_value(), pool: Vec::new() }
    }

    /// Hands out the least free identifier, or `None` when every identifier
    /// of the pool is handed out.
    pub fn request_id(&mut self) -> (granted: Option<T>)
        ensures
            final(self).capacity() == old(self).capacity(),
            match granted {
                Some(id) => {
                    &&& id.ordinal() < old(self).capacity()
                    &&& old(self).is_free(id.ordinal())
                    &&& forall|other: nat| other < id.ordinal() ==> !old(self).is_free(other)
                    &&& forall|other: nat|
                        final(self).is_free(other) <==> (old(self).is_free(other) && other
                            != id.ordinal())
                },
                None => {
                    &&& forall|other: nat| !old(self).is_free(other)
                    &&& forall|other: nat| !final(self).is_free(other)
                },
            },
    {
        proof {
            use_type_invariant(&*self);
        }
        let mut pool: Vec<T> = Vec::new();
        core::mem::swap(&mut pool, &mut self.pool);
        let n = pool.len();
        if n > 0 {
            let mut best: usize = 0;
            let mut i: usize = 1;
            while i < n
                invariant
                    n == pool@.len(),
                    0 <= best < i <= n,
                    forall|k: int|
                        0 <= k < i ==> pool@[best as int].ordinal() <= (#[trigger] pool@[k]).ordinal(),
                decreases n - i,
            {
                if pool[i].precedes(&pool[best]) {
                    best = i;
                }
                i = i + 1;
            }
            let ghost before = pool@;
            let id = pool.swap_remove(best);
            let ghost after = pool@;
            proof {
                assert forall|k: int| 0 <= k < after.len() implies (#[trigger] after[k])
                    == before[if k == best as int {
                    n as int - 1
                } else {
                    k
                }] by {}
            }
            self.pool = pool;
            proof {
                assert(before[best as int].ordinal() == id.ordinal());
                assert forall|other: nat|
                    self.is_free(other) <==> (old(self).is_free(other) && other
                        != id.ordinal()) by {
                    if old(self).is_free(other) && other != id.ordinal() {
                        if other < self.fresh.ordinal() {
                            let w = choose|w: int|
                                0 <= w < before.len() && (#[trigger] before[w]).ordinal() == other;
                            if w == n as int - 1 {
                                assert(after[best as int] == before[w]);
                            } else {
                                assert(after[w] == before[w]);
                            }
                        }
                    }
                    if self.is_free(other) {
                        if other < self.fresh.ordinal() {
                            let w = choose|w: int|
                                0 <= w < after.len() && (#[trigger] after[w]).ordinal() == other;
                            let src = if w == best as int {
                                n as int - 1
                            } else {
                                w
                            };
                            assert(before[src].ordinal() == other);
                        }
                    }
                }
                assert forall|other: nat| other < id.ordinal() implies !old(self).is_free(
                    other,
                ) by {
                    if old(self).is_free(other) {
                        let w = choose|w: int|
                            0 <= w < before.len() && (#[trigger] before[w]).ordinal() == other;
                        assert(before[best as int].ordinal() <= before[w].ordinal());
                    }
                }
            }
            Some(id)
        } else if self.fresh.precedes(&self.count) {
            let id = self.fresh;
            proof {
                T::ordinal_is_bounded(self.count);
            }
            self.fresh = id.successor();
            Some(id)
        } else {
            None
        }
    }

    /// Takes an identifier back. Returns whether it was handed out; if it
    /// was not, the pool is left as it was.
    pub fn return_id(&mut self, id: T) -> (accepted: bool)
        ensures
            final(self).capacity() == old(self).capacity(),
            accepted == old(self).is_taken(id.ordinal()),
            forall|other: nat|
                final(self).is_free(other) <==> (old(self).is_free(other) || (accepted && other
                    == id.ordinal())),
    {
        proof {
            use_type_invariant(&*self);
        }
        if !id.precedes(&self.fresh) {
            return false;
        }
        let mut pool: Vec<T> = Vec::new();
        core::mem::swap(&mut pool, &mut self.pool);
        let n = pool.len();
        let mut known = false;
        let mut i: usize = 0;
        while i < n
            invariant
                n == pool@.len(),
                0 <= i <= n,
                known <==> exists|k: int|
                    0 <= k < i && (#[trigger] pool@[k]).ordinal() == id.ordinal(),
            decreases n - i,
        {
            if !pool[i].precedes(&id) && !id.precedes(&pool[i]) {
                known = true;
            }
            i = i + 1;
        }
        let ghost before = pool@;
        if !known {
            pool.push(id);
        }
        self.pool = pool;
        proof {
            assert(self.pool@.len() >= n);
            assert forall|other: nat|
                self.is_free(other) <==> (old(self).is_free(other) || (!known && other
                    == id.ordinal())) by {
                if old(self).is_free(other) && other < self.fresh.ordinal() {
                    let w = choose|w: int|
                        0 <= w < before.len() && (#[trigger] before[w]).ordinal() == other;
                    assert(self.pool@[w] == before[w]);
                }
                if !known && other == id.ordinal() {
                    assert(self.pool@[n as int] == id);
                }
                if self.is_free(other) && other < self.fresh.ordinal() && !(!known && other
                    == id.ordinal()) {
                    let w = choose|w: int|
                        0 <= w < self.pool@.len() && (#[trigger] self.pool@[w]).ordinal()
                            == other;
                    if w < n {
                        assert(before[w] == self.pool@[w]);
                    } else {
                        assert(self.pool@[w] == id);
                    }
                }
            }
        }
        !known
    }
}

} // verus!
