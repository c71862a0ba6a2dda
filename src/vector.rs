use vstd::prelude::*;

verus! {

/// Read access to a contiguous buffer of elements, seen as a slice.
pub trait VectorSlice {
    type Item;

    /// The elements held, in order.
    spec fn items(&self) -> Seq<Self::Item>;

    /// A read-through view of the whole buffer.
    fn as_slice(&self) -> (r: &[Self::Item])
        ensures
            r@ == self.items(),
    ;

    /// A write-through view of the whole buffer.
    fn as_mut_slice(&mut self) -> (r: &mut [Self::Item])
        ensures
            r@ == old(self).items(),
            final(self).items() == final(r)@,
    ;

    /// The number of elements held.
    fn size(&self) -> (r: usize)
        ensures
            r == self.items().len(),
    {
        self.as_slice().len()
    }

    /// The element at `i`.
    fn get(&self, i: usize) -> (r: &Self::Item)
        requires
            i < self.items().len(),
        ensures
            *r == self.items()[i as int],
    {
        &self.as_slice()[i]
    }

    /// Write access to the element at `i`.
    fn get_mut(&mut self, i: usize) -> (r: &mut Self::Item)
        requires
            i < old(self).items().len(),
        ensures
            *r == old(self).items()[i as int],
            final(self).items() == old(self).items().update(i as int, *final(r)),
    {
        let s = self.as_mut_slice();
        &mut s[i]
    }
}

/// The elements of `s` whose flag in `keep` is set, in their original order.
pub open spec fn retained<A>(s: Seq<A>, keep: Seq<bool>) -> Seq<A>
    decreases s.len(),
{
    if s.len() == 0 {
        Seq::empty()
    } else if keep[0] {
        seq![s[0]] + retained(s.skip(1), keep.skip(1))
    } else {
        retained(s.skip(1), keep.skip(1))
    }
}

/// Structural removal, built on removing one element at a time.
pub trait VectorRemove: VectorSlice {
    /// Removes the element at `index`, shifting those after it down by one.
    fn erase(&mut self, index: usize)
        requires
            index < old(self).items().len(),
        ensures
            final(self).items() == old(self).items().remove(index as int),
    ;

    /// Removes `len` elements starting at `offset`, one at a time from the highest index down.
    fn erase_range(&mut self, offset: usize, len: usize)
        requires
            offset + len <= old(self).items().len(),
        ensures
            final(self).items() == old(self).items().take(offset as int) + old(self).items().skip(
                offset + len,
            ),
    {
        let ghost start = self.items();
        let n = self.size();
        let end: usize = offset + len;
        let mut k: usize = end;
        while k > offset
            invariant
                offset <= k <= end,
                end <= start.len(),
                self.items() == start.take(k as int) + start.skip(end as int),
            decreases k,
        {
            k = k - 1;
            let ghost before = self.items();
            self.erase(k);
            assert(self.items() =~= start.take(k as int) + start.skip(end as int)) by {
                assert(before.remove(k as int) =~= start.take(k as int) + start.skip(end as int));
            }
        }
    }

    /// Removes the last element.
    fn pop_back(&mut self)
        requires
            old(self).items().len() > 0,
        ensures
            final(self).items() == old(self).items().drop_last(),
    {
        let n = self.size();
        self.erase(n - 1);
        assert(self.items() =~= old(self).items().drop_last());
    }

    /// Removes every element.
    fn clear(&mut self)
        ensures
            final(self).items() == Seq::<Self::Item>::empty(),
    {
        let n = self.size();
        self.erase_range(0, n);
        assert(self.items() =~= Seq::<Self::Item>::empty());
    }

    /// Keeps the elements for which `pred(index, element)` holds and removes the others.
    /// The predicate is evaluated once per element over the indices as they stand on
    /// entry; the removals then run from the highest index down.
    fn retain<F: Fn(usize, &Self::Item) -> bool>(&mut self, pred: F)
        requires
            forall|i: int|
                0 <= i < old(self).items().len() ==> pred.requires((i as usize, &old(self).items()[i])),
        ensures
            exists|keep: Seq<bool>|
                keep.len() == old(self).items().len() && (forall|i: int|
                    0 <= i < keep.len() ==> pred.ensures(
                        (i as usize, &old(self).items()[i]),
                        #[trigger] keep[i],
                    )) && final(self).items() == retained(old(self).items(), keep),
    {
        let ghost start = self.items();
        let n = self.size();
        let mut keep: Vec<bool> = Vec::new();
        let mut i: usize = 0;
        while i < n
            invariant
                n == start.len(),
                self.items() == start,
                i <= n,
                keep@.len() == i,
                forall|j: int| 0 <= j < n ==> pred.requires((j as usize, &start[j])),
                forall|j: int|
                    0 <= j < i ==> pred.ensures((j as usize, &start[j]), #[trigger] keep@[j]),
            decreases n - i,
        {
            let b = pred(i, &self.as_slice()[i]);
            keep.push(b);
            i = i + 1;
        }
        let mut k: usize = n;
        while k > 0
            invariant
                k <= n,
                keep@.len() == n,
                n == start.len(),
                self.items() == start.take(k as int) + retained(
                    start.skip(k as int),
                    keep@.skip(k as int),
                ),
            decreases k,
        {
            k = k - 1;
            let ghost tail = retained(start.skip(k + 1), keep@.skip(k + 1));
            assert(start.skip(k as int).skip(1) =~= start.skip(k + 1));
            assert(keep@.skip(k as int).skip(1) =~= keep@.skip(k + 1));
            if !keep[k] {
                let ghost before = self.items();
                self.erase(k);
                assert(before.remove(k as int) =~= start.take(k as int) + tail);
            } else {
                assert(start.take(k + 1) + tail =~= start.take(k as int) + (seq![start[k as int]]
                    + tail));
            }
        }
        assert(start.skip(0) =~= start);
        assert(keep@.skip(0) =~= keep@);
        assert(start.take(0) + retained(start, keep@) =~= retained(start, keep@));
    }

    /// Removes the trailing elements so that `size` remain.
    fn truncate(&mut self, size: usize)
        requires
            size <= old(self).items().len(),
        ensures
            final(self).items() == old(self).items().take(size as int),
    {
        let n = self.size();
        self.erase_range(size, n - size);
        assert(self.items() =~= old(self).items().take(size as int));
    }
}

/// Appending, on top of removal.
pub trait VectorInsert<T>: VectorRemove<Item = T> {
    /// Appends `v` after the last element.
    fn push_back(&mut self, v: T)
        ensures
            final(self).items() == old(self).items().push(v),
    ;

    /// Replaces the contents by the elements of `vs`, in order.
    fn assign(&mut self, vs: Vec<T>)
        ensures
            final(self).items() == vs@,
    {
        self.clear();
        let ghost src = vs@;
        let n = vs.len();
        let mut vs = vs;
        let mut rev: Vec<T> = Vec::new();
        while vs.len() > 0
            invariant
                n == src.len(),
                vs@.len() + rev@.len() == n,
                vs@ == src.take(vs@.len() as int),
                forall|j: int| 0 <= j < rev@.len() ==> rev@[j] == src[n - 1 - j],
            decreases vs@.len(),
        {
            let v = vs.pop().unwrap();
            rev.push(v);
            assert(vs@ =~= src.take(vs@.len() as int));
        }
        while rev.len() > 0
            invariant
                n == src.len(),
                rev@.len() <= n,
                forall|j: int| 0 <= j < rev@.len() ==> rev@[j] == src[n - 1 - j],
                self.items() == src.take(n - rev@.len()),
            decreases rev@.len(),
        {
            let v = rev.pop().unwrap();
            self.push_back(v);
            assert(self.items() =~= src.take(n - rev@.len()));
        }
        assert(src.take(src.len() as int) =~= src);
    }
}

/// A buffer of elements of `T`.
pub struct Vector<T> {
    buf: Vec<T>,
}

impl<T> Vector<T> {
    /// An empty buffer.
    pub fn new() -> (r: Self)
        ensures
            r.items() == Seq::<T>::empty(),
    {
        Vector { buf: Vec::new() }
    }
}

impl<T> VectorSlice for Vector<T> {
    type Item = T;

    closed spec fn items(&self) -> Seq<T> {
        self.buf@
    }

    fn as_slice(&self) -> (r: &[T]) {
        self.buf.as_slice()
    }

    fn as_mut_slice(&mut self) -> (r: &mut [T]) {
        self.buf.as_mut_slice()
    }
}

impl<T> VectorRemove for Vector<T> {
    fn erase(&mut self, index: usize) {
        self.buf.remove(index);
    }
}

impl<T> VectorInsert<T> for Vector<T> {
    fn push_back(&mut self, v: T) {
        self.buf.push(v);
    }
}

/// A position in a buffer of owning handles; indexing with it reaches the owned object.
pub struct InnerIndex(pub usize);

impl<T> Vector<Box<T>> {
    /// The object owned by the handle at `index`.
    pub fn index(&self, index: InnerIndex) -> (r: &T)
        requires
            index.0 < self.items().len(),
        ensures
            *r == *self.items()[index.0 as int],
    {
        let handle: &Box<T> = &self.buf[index.0];
        &**handle
    }

    /// Write access to the object owned by the handle at `index`.
    pub fn index_mut(&mut self, index: InnerIndex) -> (r: &mut T)
        requires
            index.0 < old(self).items().len(),
        ensures
            *r == *old(self).items()[index.0 as int],
            final(self).items() == old(self).items().update(index.0 as int, Box::new(*final(r))),
    {
        let handle: &mut Box<T> = &mut self.buf[index.0];
        &mut **handle
    }
}

/// A buffer of uniquely owned objects of `T`, each held through its own handle.
pub struct VectorOfUniquePtr<T> {
    slots: Vector<Box<T>>,
}

impl<T> VectorOfUniquePtr<T> {
    /// An empty buffer.
    pub fn new() -> (r: Self)
        ensures
            r.items() == Seq::<Box<T>>::empty(),
    {
        VectorOfUniquePtr { slots: Vector::new() }
    }

    /// The object owned by the handle at `index`.
    pub fn index(&self, index: InnerIndex) -> (r: &T)
        requires
            index.0 < self.items().len(),
        ensures
            *r == *self.items()[index.0 as int],
    {
        self.slots.index(index)
    }

    /// Write access to the object owned by the handle at `index`.
    pub fn index_mut(&mut self, index: InnerIndex) -> (r: &mut T)
        requires
            index.0 < old(self).items().len(),
        ensures
            *r == *old(self).items()[index.0 as int],
            final(self).items() == old(self).items().update(index.0 as int, Box::new(*final(r))),
    {
        self.slots.index_mut(index)
    }
}

impl<T> VectorSlice for VectorOfUniquePtr<T> {
    type Item = Box<T>;

    closed spec fn items(&self) -> Seq<Box<T>> {
        self.slots.items()
    }

    fn as_slice(&self) -> (r: &[Box<T>]) {
        self.slots.as_slice()
    }

    fn as_mut_slice(&mut self) -> (r: &mut [Box<T>]) {
        self.slots.as_mut_slice()
    }
}

impl<T> VectorRemove for VectorOfUniquePtr<T> {
    fn erase(&mut self, index: usize) {
        self.slots.erase(index);
    }
}

impl<T> VectorInsert<Box<T>> for VectorOfUniquePtr<T> {
    fn push_back(&mut self, v: Box<T>) {
        self.slots.push_back(v);
    }
}

} // verus!
