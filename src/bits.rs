use vstd::prelude::*;

verus! {

/// Whether bit `k` of `b` is set.
pub open spec fn bit_of(b: u8, k: int) -> bool {
    (b >> (k as u8)) & 1u8 == 1u8
}

proof fn lemma_set_bit(b: u8, k: u8, j: u8)
    requires
        k < 8,
        j < 8,
    ensures
        ((b | (1u8 << k)) >> j) & 1u8 == (if j == k {
            1u8
        } else {
            (b >> j) & 1u8
        }),
        ((b & !(1u8 << k)) >> j) & 1u8 == (if j == k {
            0u8
        } else {
            (b >> j) & 1u8
        }),
{
    assert(((b | (1u8 << k)) >> j) & 1u8 == (if j == k {
        1u8
    } else {
        (b >> j) & 1u8
    })) by (bit_vector)
        requires
            k < 8,
            j < 8,
    ;
    assert(((b & !(1u8 << k)) >> j) & 1u8 == (if j == k {
        0u8
    } else {
        (b >> j) & 1u8
    })) by (bit_vector)
        requires
            k < 8,
            j < 8,
    ;
}

proof fn lemma_zero_bits(j: u8)
    requires
        j < 8,
    ensures
        (0u8 >> j) & 1u8 == 0u8,
{
    assert((0u8 >> j) & 1u8 == 0u8) by (bit_vector);
}

/// A sequence of booleans packed eight to a byte, the lowest bit first.
/// Single elements have no address of their own, so this buffer offers no slice view:
/// only reading, writing and appending one element at a time.
pub struct VectorOfBool {
    bytes: Vec<u8>,
    len: usize,
}

impl View for VectorOfBool {
    type V = Seq<bool>;

    closed spec fn view(&self) -> Seq<bool> {
        Seq::new(self.len as nat, |i: int| bit_of(self.bytes@[i / 8], i % 8))
    }
}

impl VectorOfBool {
    /// Every element has a byte, and no byte is wholly unused.
    pub closed spec fn wf(&self) -> bool {
        self.bytes@.len() * 8 >= self.len && self.bytes@.len() * 8 < self.len + 8
    }

    /// An empty sequence.
    pub fn new() -> (r: Self)
        ensures
            r.wf(),
            r@ == Seq::<bool>::empty(),
    {
        let r = VectorOfBool { bytes: Vec::new(), len: 0 };
        assert(r@ =~= Seq::<bool>::empty());
        r
    }

    /// The number of elements.
    pub fn size(&self) -> (r: usize)
        ensures
            r == self@.len(),
    {
        self.len
    }

    /// The element at `i`.
    pub fn get(&self, i: usize) -> (r: bool)
        requires
            self.wf(),
            i < self@.len(),
        ensures
            r == self@[i as int],
    {
        let b = self.bytes[i / 8];
        let k: u8 = (i % 8) as u8;
        (b >> k) & 1u8 == 1u8
    }

    /// Sets the element at `i` to `v`.
    pub fn set(&mut self, i: usize, v: bool)
        requires
            old(self).wf(),
            i < old(self)@.len(),
        ensures
            final(self).wf(),
            final(self)@ == old(self)@.update(i as int, v),
    {
        let w: usize = i / 8;
        let k: u8 = (i % 8) as u8;
        let b = self.bytes[w];
        let nb: u8 = if v {
            b | (1u8 << k)
        } else {
            b & !(1u8 << k)
        };
        self.bytes.set(w, nb);
        assert forall|j: int| 0 <= j < self.len implies #[trigger] self@[j] == old(self)@.update(
            i as int,
            v,
        )[j] by {
            lemma_set_bit(b, k, (j % 8) as u8);
            if j / 8 == w as int && j != i {
                assert(j % 8 != i % 8);
            }
        }
        assert(self@ =~= old(self)@.update(i as int, v));
    }

    /// Appends `v` after the last element.
    pub fn push_back(&mut self, v: bool)
        requires
            old(self).wf(),
            old(self)@.len() < usize::MAX,
        ensures
            final(self).wf(),
            final(self)@ == old(self)@.push(v),
    {
        let ghost start = self@;
        if self.len % 8 == 0 {
            self.bytes.push(0u8);
        }
        self.len = self.len + 1;
        assert forall|j: int| 0 <= j < start.len() implies #[trigger] self@[j] == start[j] by {
        }
        self.set(self.len - 1, v);
        assert(self@ =~= start.push(v));
    }
}

} // verus!
