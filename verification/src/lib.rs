//! A fixed-capacity, double-ended sequence container.
//!
//! [`ConstArray<T, N>`] owns storage for at most `N` elements of `T` and
//! tracks how many leading slots currently hold live values. It supports
//! insertion and removal at both ends, random-access reads, a slice view of
//! the occupied region, in-place replacement of occupied values, and raw
//! decomposition into its parts. Capacity exhaustion is reported by handing
//! the rejected value back to the caller unchanged; removal from an empty
//! container yields an absent result.

use vstd::prelude::*;

verus! {

/// Trusted: relies on `Vec::from` for arrays, which std documents as
/// allocating a vector and moving the array's elements into it, in order.
pub assume_specification<T, const N: usize>[ <Vec<T> as From<[T; N]>>::from ](a: [T; N]) -> (v: Vec<
    T,
>)
    ensures
        v@ == a@,
;

/// A bounded, double-ended sequence container with fixed capacity `N`.
///
/// The occupied values form a contiguous region in order: index 0 is the
/// front, index `len() - 1` is the back. The number of occupied slots never
/// exceeds `N`. The view of a container is the sequence of its occupied
/// values, front first.
pub struct ConstArray<T, const N: usize> {
    buf: Vec<T>,
}

/// One double-ended operation, for driving a container against the
/// reference simulation [`simulate_op`].
pub enum DequeOp<T> {
    PushFront(T),
    PushBack(T),
    PopFront,
    PopBack,
}

/// The reference double-ended-queue simulation: the contents that a
/// container with capacity `cap` and contents `s` holds after one
/// operation. A push against full contents and a pop from empty contents
/// leave `s` unchanged.
pub open spec fn simulate_op<T>(s: Seq<T>, op: DequeOp<T>, cap: nat) -> Seq<T> {
    match op {
        DequeOp::PushFront(v) => if s.len() < cap {
            seq![v] + s
        } else {
            s
        },
        DequeOp::PushBack(v) => if s.len() < cap {
            s.push(v)
        } else {
            s
        },
        DequeOp::PopFront => if s.len() > 0 {
            s.drop_first()
        } else {
            s
        },
        DequeOp::PopBack => if s.len() > 0 {
            s.drop_last()
        } else {
            s
        },
    }
}

/// The value a container with capacity `cap` and contents `s` hands back
/// for one operation: the rejected value for a push against full contents,
/// the removed value for a pop, absent otherwise.
pub open spec fn op_result<T>(s: Seq<T>, op: DequeOp<T>, cap: nat) -> Option<T> {
    match op {
        DequeOp::PushFront(v) => if s.len() < cap {
            None
        } else {
            Some(v)
        },
        DequeOp::PushBack(v) => if s.len() < cap {
            None
        } else {
            Some(v)
        },
        DequeOp::PopFront => if s.len() > 0 {
            Some(s[0])
        } else {
            None
        },
        DequeOp::PopBack => if s.len() > 0 {
            Some(s.last())
        } else {
            None
        },
    }
}

impl<T, const N: usize> View for ConstArray<T, N> {
    type V = Seq<T>;

    closed spec fn view(&self) -> Seq<T> {
        self.buf@
    }
}

impl<T, const N: usize> ConstArray<T, N> {
    /// Well-formed: the occupied region never grows past the capacity.
    /// Every constructor establishes this and every operation preserves it.
    pub open spec fn wf(self) -> bool {
        self@.len() <= N
    }

    /// Returns an empty container: no slot is occupied.
    pub fn uninit() -> (r: Self)
        ensures
            r@ == Seq::<T>::empty(),
            r.wf(),
    {
        ConstArray { buf: Vec::new() }
    }

    /// Builds a container from an array of any length `W` up to the
    /// capacity `N`, moving each of the `W` values into the occupied
    /// region in order.
    pub fn new<const W: usize>(array: [T; W]) -> (r: Self)
        requires
            W <= N,
        ensures
            r@ == array@,
            r.wf(),
    {
        let buf = Vec::from(array);
        ConstArray { buf }
    }

    /// Builds a full container from an array of exactly `N` values.
    pub fn from_array(array: [T; N]) -> (r: Self)
        ensures
            r@ == array@,
            r.wf(),
    {
        Self::new(array)
    }

    /// Attempts to push a value at the front, shifting the occupied region
    /// one slot towards the back.
    ///
    /// If the container is full, no slot changes and the value is handed
    /// back to the caller unchanged.
    pub fn push_front(&mut self, item: T) -> (r: Result<(), T>)
        requires
            old(self).wf(),
        ensures
            final(self).wf(),
            old(self)@.len() < N ==> r is Ok && final(self)@ == seq![item] + old(self)@,
            old(self)@.len() == N ==> r == Err::<(), T>(item) && final(self)@ == old(self)@,
    {
        if self.is_full() {
            return Err(item);
        }
        self.buf.insert(0, item);
        proof {
            assert(self@ =~= seq![item] + old(self)@);
        }
        Ok(())
    }

    /// Attempts to push a value at the back.
    ///
    /// If the container is full, no slot changes and the value is handed
    /// back to the caller unchanged.
    pub fn push_back(&mut self, item: T) -> (r: Result<(), T>)
        requires
            old(self).wf(),
        ensures
            final(self).wf(),
            old(self)@.len() < N ==> r is Ok && final(self)@ == old(self)@.push(item),
            old(self)@.len() == N ==> r == Err::<(), T>(item) && final(self)@ == old(self)@,
    {
        if self.is_full() {
            return Err(item);
        }
        self.buf.push(item);
        Ok(())
    }

    /// Removes and returns the front value, shifting the remaining occupied
    /// region one slot towards the front; absent if the container is empty.
    pub fn pop_front(&mut self) -> (r: Option<T>)
        requires
            old(self).wf(),
        ensures
            final(self).wf(),
            old(self)@.len() == 0 ==> r is None && final(self)@ == old(self)@,
            old(self)@.len() > 0 ==> r == Some(old(self)@[0]) && final(self)@ == old(
                self,
            )@.drop_first(),
    {
        if self.is_empty() {
            None
        } else {
            let value = self.buf.remove(0);
            proof {
                assert(self@ =~= old(self)@.drop_first());
            }
            Some(value)
        }
    }

    /// Removes and returns the back value; absent if the container is empty.
    pub fn pop_back(&mut self) -> (r: Option<T>)
        requires
            old(self).wf(),
        ensures
            final(self).wf(),
            old(self)@.len() == 0 ==> r is None && final(self)@ == old(self)@,
            old(self)@.len() > 0 ==> r == Some(old(self)@.last()) && final(self)@ == old(
                self,
            )@.drop_last(),
    {
        self.buf.pop()
    }

    /// Returns the occupied region as a read-only slice, front first.
    pub fn as_slice(&self) -> (r: &[T])
        ensures
            r@ == self@,
    {
        self.buf.as_slice()
    }

    /// Returns a reference to the value at `index`; absent unless `index`
    /// lies in the occupied region `[0, len())`.
    pub fn get(&self, index: usize) -> (r: Option<&T>)
        ensures
            index < self@.len() ==> r is Some && r.unwrap() == self@[index as int],
            index >= self@.len() ==> r is None,
    {
        if index < self.buf.len() {
            Some(&self.buf[index])
        } else {
            None
        }
    }

    /// Returns a mutable reference to the value at `index`; absent unless
    /// `index` lies in the occupied region `[0, len())`.
    ///
    /// Writing through the reference replaces the value in place: it never
    /// changes which slots are occupied.
    pub fn get_mut(&mut self, index: usize) -> (r: Option<&mut T>)
        requires
            old(self).wf(),
        ensures
            final(self).wf(),
            index >= old(self)@.len() ==> r is None && final(self)@ == old(self)@,
            index < old(self)@.len() ==> r is Some && *r.unwrap() == old(self)@[index as int]
                && final(self)@ == old(self)@.update(index as int, *final(r.unwrap())),
    {
        if index < self.buf.len() {
            Some(&mut self.buf[index])
        } else {
            None
        }
    }

    /// Builds a container directly from its parts: the storage holding the
    /// occupied values, and the occupied count. The caller must guarantee
    /// that `len` is exactly the number of values in `array` and does not
    /// exceed the capacity.
    pub fn from_raw_parts(array: Vec<T>, len: usize) -> (r: Self)
        requires
            array@.len() == len,
            len <= N,
        ensures
            r@ == array@,
            r.wf(),
    {
        let _ = len;
        ConstArray { buf: array }
    }

    /// Decomposes the container into its parts: the storage holding the
    /// occupied values, and the occupied count. Ownership of the occupied
    /// values passes to the caller; the container releases nothing.
    pub fn into_raw_parts(self) -> (r: (Vec<T>, usize))
        ensures
            r.0@ == self@,
            r.1 == self@.len(),
    {
        let ConstArray { buf } = self;
        let len = buf.len();
        (buf, len)
    }

    /// Consumes the container and hands back the storage holding the
    /// occupied values, without releasing any of them.
    pub fn to_array(self) -> (r: Vec<T>)
        ensures
            r@ == self@,
    {
        let ConstArray { buf } = self;
        buf
    }

    /// Returns the number of occupied slots; never more than the capacity.
    pub fn len(&self) -> (r: usize)
        requires
            self.wf(),
        ensures
            r == self@.len(),
            r <= N,
    {
        self.buf.len()
    }

    /// Returns the fixed capacity `N`.
    pub fn capacity(&self) -> (r: usize)
        ensures
            r == N,
    {
        N
    }

    /// True exactly when no slot is occupied.
    pub fn is_empty(&self) -> (r: bool)
        ensures
            r <==> self@.len() == 0,
    {
        self.buf.len() == 0
    }

    /// True exactly when every slot is occupied.
    pub fn is_full(&self) -> (r: bool)
        ensures
            r <==> self@.len() == N,
    {
        self.buf.len() == N
    }

    /// Applies one double-ended operation and returns the value the
    /// operation hands back: the popped value for a pop, the rejected value
    /// for a push against a full container, absent otherwise.
    ///
    /// Order preservation under mixed operations: whatever the interleaving
    /// of pushes and pops, the contents stay exactly those of the reference
    /// simulation [`simulate_op`] run over the same operations.
    pub fn apply_op(&mut self, op: DequeOp<T>) -> (r: Option<T>)
        requires
            old(self).wf(),
        ensures
            final(self).wf(),
            final(self)@ == simulate_op(old(self)@, op, N as nat),
            r == op_result(old(self)@, op, N as nat),
    {
        match op {
            DequeOp::PushFront(v) => match self.push_front(v) {
                Ok(()) => None,
                Err(rejected) => Some(rejected),
            },
            DequeOp::PushBack(v) => match self.push_back(v) {
                Ok(()) => None,
                Err(rejected) => Some(rejected),
            },
            DequeOp::PopFront => self.pop_front(),
            DequeOp::PopBack => self.pop_back(),
        }
    }
}

/// Capacity invariant: starting from contents within capacity, no operation
/// grows the contents past the capacity, and a push against full contents
/// leaves them unchanged.
pub proof fn lemma_capacity_invariant<T>(s: Seq<T>, op: DequeOp<T>, cap: nat)
    requires
        s.len() <= cap,
    ensures
        simulate_op(s, op, cap).len() <= cap,
        s.len() == cap && (op is PushFront || op is PushBack) ==> simulate_op(s, op, cap) == s,
{
}

/// Duality of the two ends: pushing `a`, `b`, `c` at the back of empty
/// contents and draining from the front yields them in insertion order,
/// while pushing the same values at the front and draining from the front
/// yields them reversed, and either way the drain empties the contents.
pub proof fn lemma_fifo_lifo_duality<T>(a: T, b: T, c: T, cap: nat)
    requires
        3 <= cap,
    ensures
        ({
            let full = simulate_op(
                simulate_op(simulate_op(Seq::<T>::empty(), DequeOp::PushBack(a), cap), DequeOp::PushBack(b), cap),
                DequeOp::PushBack(c),
                cap,
            );
            let one = simulate_op(full, DequeOp::PopFront, cap);
            let two = simulate_op(one, DequeOp::PopFront, cap);
            &&& full == seq![a, b, c]
            &&& op_result(full, DequeOp::PopFront, cap) == Some(a)
            &&& op_result(one, DequeOp::PopFront, cap) == Some(b)
            &&& op_result(two, DequeOp::PopFront, cap) == Some(c)
            &&& simulate_op(two, DequeOp::PopFront, cap) == Seq::<T>::empty()
        }),
        ({
            let full = simulate_op(
                simulate_op(simulate_op(Seq::<T>::empty(), DequeOp::PushFront(a), cap), DequeOp::PushFront(b), cap),
                DequeOp::PushFront(c),
                cap,
            );
            let one = simulate_op(full, DequeOp::PopFront, cap);
            let two = simulate_op(one, DequeOp::PopFront, cap);
            &&& full == seq![c, b, a]
            &&& op_result(full, DequeOp::PopFront, cap) == Some(c)
            &&& op_result(one, DequeOp::PopFront, cap) == Some(b)
            &&& op_result(two, DequeOp::PopFront, cap) == Some(a)
            &&& simulate_op(two, DequeOp::PopFront, cap) == Seq::<T>::empty()
        }),
{
    let back_full = simulate_op(
        simulate_op(simulate_op(Seq::<T>::empty(), DequeOp::PushBack(a), cap), DequeOp::PushBack(b), cap),
        DequeOp::PushBack(c),
        cap,
    );
    assert(back_full =~= seq![a, b, c]);
    assert(simulate_op(back_full, DequeOp::PopFront, cap) =~= seq![b, c]);
    assert(simulate_op(simulate_op(back_full, DequeOp::PopFront, cap), DequeOp::PopFront, cap)
        =~= seq![c]);
    assert(simulate_op(
        simulate_op(simulate_op(back_full, DequeOp::PopFront, cap), DequeOp::PopFront, cap),
        DequeOp::PopFront,
        cap,
    ) =~= Seq::<T>::empty());
    let front_full = simulate_op(
        simulate_op(simulate_op(Seq::<T>::empty(), DequeOp::PushFront(a), cap), DequeOp::PushFront(b), cap),
        DequeOp::PushFront(c),
        cap,
    );
    assert(front_full =~= seq![c, b, a]);
    assert(simulate_op(front_full, DequeOp::PopFront, cap) =~= seq![b, a]);
    assert(simulate_op(simulate_op(front_full, DequeOp::PopFront, cap), DequeOp::PopFront, cap)
        =~= seq![a]);
    assert(simulate_op(
        simulate_op(simulate_op(front_full, DequeOp::PopFront, cap), DequeOp::PopFront, cap),
        DequeOp::PopFront,
        cap,
    ) =~= Seq::<T>::empty());
}

impl<T: Clone, const N: usize> Clone for ConstArray<T, N> {
    /// Duplicates the container by duplicating each occupied value in
    /// order: the copy has the same capacity, the same number of occupied
    /// slots, and each of its values is a duplicate of the original's value
    /// at the same index.
    fn clone(&self) -> (r: Self)
        ensures
            r.wf(),
            self.wf() ==> r@.len() == self@.len(),
            self.wf() ==> forall|i: int|
                0 <= i < self@.len() ==> cloned::<T>(self@[i], #[trigger] r@[i]),
    {
        let mut duplicate = ConstArray::<T, N>::uninit();
        let mut i: usize = 0;
        let n = self.buf.len();
        while i < n
            invariant
                self@.len() == n,
                i <= n,
                duplicate.wf(),
                self.wf() ==> duplicate@.len() == i,
                self.wf() ==> forall|j: int|
                    0 <= j < i ==> cloned::<T>(self@[j], #[trigger] duplicate@[j]),
            decreases n - i,
        {
            let value = self.get(i).unwrap().clone();
            let _ = duplicate.push_back(value);
            i = i + 1;
        }
        duplicate
    }
}

} // verus!
