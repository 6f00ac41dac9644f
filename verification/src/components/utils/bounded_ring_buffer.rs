use vstd::prelude::*;

verus! {

/// The capacity of a buffer made by `default()`.
pub const DEFAULT_BLOCK_AMOUNT: usize = 1024;

/// The stored values of a [`BoundedRingBuffer`] as two slices: the values
/// of `head` followed by the values of `tail` are the stored values from the
/// oldest to the newest.
pub struct Contigious<'a, T> {
    pub head: &'a [T],
    pub tail: &'a [T],
}

/// A ring buffer which can only `push_back()` and `pop_front()` and has a static
/// size.
#[derive(Debug)]
pub struct BoundedRingBuffer<T> {
    buffer: Vec<T>,
    // <- head     tail ->
    // [.................]
    //
    // head: Contains the (inclusive) index where the longest stored value is
    // tail: Contains the (inclusive) index where the next value can be stored without overlapping
    head: usize,
    tail: usize,
    is_full: bool,
}

/// The position in the storage of the `i`-th stored value, counted from `head`.
pub open spec fn slot_of(head: int, i: int, cap: int) -> int {
    if head + i < cap {
        head + i
    } else {
        head + i - cap
    }
}

/// The amount of values stored between `head` and `tail`.
pub open spec fn stored_amount(head: int, tail: int, is_full: bool, cap: int) -> int {
    if is_full {
        cap
    } else if head <= tail {
        tail - head
    } else {
        tail + cap - head
    }
}

/// The index which follows `i` in a storage of `cap` slots.
pub open spec fn next_index(i: int, cap: int) -> int {
    if i == cap - 1 {
        0
    } else {
        i + 1
    }
}

impl<T> BoundedRingBuffer<T> {
    /// The amount of values that the buffer can hold.
    pub closed spec fn cap(&self) -> nat {
        self.buffer@.len()
    }

    /// The storage slot of the oldest value.
    pub closed spec fn head_index(&self) -> nat {
        self.head as nat
    }

    /// The storage slot where the next value goes.
    pub closed spec fn tail_index(&self) -> nat {
        self.tail as nat
    }

    /// Whether every slot holds a value.
    pub closed spec fn full_flag(&self) -> bool {
        self.is_full
    }

    /// The raw storage, stored values and stale slots alike.
    pub closed spec fn slots(&self) -> Seq<T> {
        self.buffer@
    }

    /// The well-formedness of the buffer: a non-empty storage and both
    /// indices within it; a full buffer has `head == tail`.
    pub closed spec fn wf(&self) -> bool {
        &&& 0 < self.buffer@.len() <= usize::MAX
        &&& self.head < self.buffer@.len()
        &&& self.tail < self.buffer@.len()
        &&& self.is_full ==> self.head == self.tail
    }
}

impl<T> View for BoundedRingBuffer<T> {
    type V = Seq<T>;

    /// The stored values, from the oldest to the newest.
    closed spec fn view(&self) -> Seq<T> {
        let cap = self.buffer@.len() as int;
        Seq::new(
            stored_amount(self.head as int, self.tail as int, self.is_full, cap) as nat,
            |i: int| self.buffer@[slot_of(self.head as int, i, cap)],
        )
    }
}

impl<T> BoundedRingBuffer<T> {
    /// Facts of a well-formed buffer that the other proofs rely on.
    proof fn lemma_wf_facts(&self)
        requires
            self.wf(),
        ensures
            self@.len() <= self.cap(),
            self@.len() == stored_amount(
                self.head as int,
                self.tail as int,
                self.is_full,
                self.cap() as int,
            ),
            self.full_flag() <==> self@.len() == self.cap(),
            self@.len() == 0 <==> (!self.is_full && self.head == self.tail),
            slot_of(self.head as int, self@.len() as int, self.cap() as int) == self.tail
                || self@.len() == self.cap(),
            forall|i: int|
                0 <= i < self@.len() ==> #[trigger] self@[i] == self.buffer@[slot_of(
                    self.head as int,
                    i,
                    self.cap() as int,
                )],
    {
    }

    /// Stored values and capacity never exceed one another.
    pub proof fn lemma_len_le_capacity(&self)
        requires
            self.wf(),
        ensures
            self@.len() <= self.cap(),
            self.full_flag() <==> self@.len() == self.cap(),
            self.head_index() < self.cap(),
            self.tail_index() < self.cap(),
            self.slots().len() == self.cap(),
    {
        self.lemma_wf_facts();
    }
}

/// The buffer is first-in first-out: a value pushed behind stored values
/// does not change which value the next `pop_front` removes, and it stays
/// behind the values that remain.
pub proof fn lemma_push_pop_fifo<T>(stored: Seq<T>, value: T)
    requires
        stored.len() > 0,
    ensures
        stored.push(value).drop_first() == stored.drop_first().push(value),
        stored.push(value)[0] == stored[0],
{
    assert(stored.push(value).drop_first() =~= stored.drop_first().push(value));
}

/// `pop_front` undoes a `push_back` into an empty buffer.
pub proof fn lemma_pop_undoes_push_on_empty<T>(value: T)
    ensures
        Seq::<T>::empty().push(value).drop_first() == Seq::<T>::empty(),
{
    assert(Seq::<T>::empty().push(value).drop_first() =~= Seq::<T>::empty());
}

/// One call of `push_back(value)` took the buffer from `before` to `after`
/// and returned `added`, as `push_back` states it.
pub open spec fn push_back_step<T>(
    before: BoundedRingBuffer<T>,
    value: T,
    after: BoundedRingBuffer<T>,
    added: bool,
) -> bool {
    &&& after.cap() == before.cap()
    &&& added == (before@.len() < before.cap())
    &&& added ==> after@ == before@.push(value)
    &&& !added ==> after@ == before@
}

/// The smaller of two integers.
pub open spec fn min_int(a: int, b: int) -> int {
    if a <= b {
        a
    } else {
        b
    }
}

proof fn lemma_push_run_prefix<T>(
    states: Seq<BoundedRingBuffer<T>>,
    values: Seq<T>,
    added: Seq<bool>,
    k: int,
)
    requires
        states.len() == values.len() + 1,
        added.len() == values.len(),
        states[0]@.len() == 0,
        forall|i: int|
            0 <= i < values.len() ==> #[trigger] push_back_step(
                states[i],
                values[i],
                states[i + 1],
                added[i],
            ),
        0 <= k <= values.len(),
    ensures
        states[k].cap() == states[0].cap(),
        states[k]@ == values.take(min_int(k, states[0].cap() as int)),
    decreases k,
{
    if k > 0 {
        lemma_push_run_prefix(states, values, added, k - 1);
        let j = k - 1;
        assert(push_back_step(states[j], values[j], states[j + 1], added[j]));
        if k - 1 < states[0].cap() {
            assert(values.take(k - 1).push(values[k - 1]) =~= values.take(k));
        }
    } else {
        assert(values.take(0) =~= Seq::<T>::empty());
    }
}

/// A buffer that starts empty takes exactly as many values as its capacity:
/// over any run of `push_back` calls the first `cap` succeed, every later one
/// fails, and the buffer ends up holding the first `cap` values pushed, in
/// order.
pub proof fn lemma_pushes_fill_to_capacity<T>(
    states: Seq<BoundedRingBuffer<T>>,
    values: Seq<T>,
    added: Seq<bool>,
)
    requires
        states.len() == values.len() + 1,
        added.len() == values.len(),
        states[0]@.len() == 0,
        forall|i: int|
            0 <= i < values.len() ==> #[trigger] push_back_step(
                states[i],
                values[i],
                states[i + 1],
                added[i],
            ),
    ensures
        forall|i: int| 0 <= i < values.len() ==> #[trigger] added[i] == (i < states[0].cap()),
        states.last()@ == values.take(min_int(values.len() as int, states[0].cap() as int)),
{
    assert forall|i: int| 0 <= i < values.len() implies #[trigger] added[i] == (i
        < states[0].cap()) by {
        lemma_push_run_prefix(states, values, added, i);
        assert(push_back_step(states[i], values[i], states[i + 1], added[i]));
    }
    lemma_push_run_prefix(states, values, added, values.len() as int);
}

impl<T: Default> Default for BoundedRingBuffer<T> {
    fn default() -> (r: Self)
        ensures
            r.wf(),
            r@ == Seq::<T>::empty(),
            r.cap() == DEFAULT_BLOCK_AMOUNT,
    {
        Self::new(DEFAULT_BLOCK_AMOUNT)
    }
}

impl<T: Default> BoundedRingBuffer<T> {
    /// Creates an empty buffer which can hold `capacity` values.
    pub fn new(capacity: usize) -> (r: Self)
        requires
            capacity > 0,
        ensures
            r.wf(),
            r@ == Seq::<T>::empty(),
            r.cap() == capacity,
            r.slots().len() == capacity,
            r.head_index() == 0,
            r.tail_index() == 0,
            !r.full_flag(),
    {
        let mut buffer: Vec<T> = Vec::with_capacity(capacity);
        let mut i: usize = 0;
        while i < capacity
            invariant
                i <= capacity,
                buffer@.len() == i,
            decreases capacity - i,
        {
            buffer.push(T::default());
            i = i + 1;
        }
        let r = Self { buffer, head: 0, tail: 0, is_full: false };
        assert(r@ =~= Seq::<T>::empty());
        r
    }

    /// Returns `true` if the value could be added.
    pub fn push_back(&mut self, value: T) -> (added: bool)
        requires
            old(self).wf(),
        ensures
            final(self).wf(),
            final(self).cap() == old(self).cap(),
            added == (old(self)@.len() < old(self).cap()),
            added ==> final(self)@ == old(self)@.push(value),
            !added ==> final(self)@ == old(self)@,
            final(self).head_index() == old(self).head_index(),
            added ==> final(self).tail_index() == next_index(
                old(self).tail_index() as int,
                old(self).cap() as int,
            ),
            !added ==> final(self).tail_index() == old(self).tail_index(),
            added ==> final(self).slots() == old(self).slots().update(
                old(self).tail_index() as int,
                value,
            ),
            !added ==> final(self).slots() == old(self).slots(),
    {
        proof {
            self.lemma_wf_facts();
        }
        if self.is_full {
            return false;
        }
        let ghost old_view = self@;
        let ghost cap = self.buffer@.len() as int;
        let tail = self.tail;
        self.buffer[tail] = value;
        self.inc_tail();

        if self.tail == self.head {
            self.is_full = true;
        }
        proof {
            assert forall|i: int| 0 <= i < old_view.len() implies #[trigger] self.buffer@[slot_of(
                self.head as int,
                i,
                cap,
            )] == old_view[i] by {}
            assert(self@ =~= old_view.push(value));
        }
        true
    }

    /// Increments the `head` pointer if it's not empty.
    pub fn pop_front(&mut self)
        requires
            old(self).wf(),
        ensures
            final(self).wf(),
            final(self).cap() == old(self).cap(),
            old(self)@.len() > 0 ==> final(self)@ == old(self)@.drop_first(),
            old(self)@.len() == 0 ==> final(self)@ == old(self)@,
            old(self)@.len() > 0 ==> final(self).head_index() == next_index(
                old(self).head_index() as int,
                old(self).cap() as int,
            ),
            old(self)@.len() == 0 ==> final(self).head_index() == old(self).head_index(),
            final(self).tail_index() == old(self).tail_index(),
            !final(self).full_flag(),
            final(self).slots() == old(self).slots(),
    {
        proof {
            self.lemma_wf_facts();
        }
        if !self.is_empty() {
            let ghost old_view = self@;
            self.is_full = false;
            self.inc_head();
            proof {
                assert(self@ =~= old_view.drop_first());
            }
        }
    }

    /// Returns the amount of values which are currently stored.
    pub fn len(&self) -> (n: usize)
        requires
            self.wf(),
        ensures
            n == self@.len(),
            n <= self.cap(),
    {
        proof {
            self.lemma_wf_facts();
        }
        if self.is_full {
            self.buffer.len()
        } else if self.head == self.tail {
            0
        } else if self.head < self.tail {
            self.tail - self.head
        } else {
            self.tail + (self.buffer.len() - self.head)
        }
    }

    /// Returns an iterator over references to the stored values, from the
    /// oldest to the newest.
    pub fn iter(&self) -> (it: Iter<'_, T>)
        requires
            self.wf(),
        ensures
            it.wf(),
            it.seq() == self@,
            it.pos() == 0,
    {
        Iter::new(self)
    }

    /// Returns `true` if no value is stored.
    pub fn is_empty(&self) -> (b: bool)
        requires
            self.wf(),
        ensures
            b == (self@.len() == 0),
    {
        proof {
            self.lemma_wf_facts();
        }
        !self.is_full && (self.head == self.tail)
    }

    fn capacity(&self) -> (c: usize)
        ensures
            c == self.cap(),
    {
        self.buffer.len()
    }

    fn tail_will_wrap(&self) -> (b: bool)
        requires
            self.wf(),
        ensures
            b == (self.tail == self.cap() - 1),
    {
        self.tail == self.capacity() - 1
    }

    /// Increment the `tail` index.
    fn inc_tail(&mut self)
        requires
            old(self).wf(),
            !old(self).is_full,
        ensures
            final(self).wf(),
            final(self).tail == next_index(old(self).tail as int, old(self).cap() as int),
            final(self).head == old(self).head,
            final(self).is_full == old(self).is_full,
            final(self).buffer == old(self).buffer,
    {
        self.tail = self.peek_inc_tail();
    }

    /// Returns the next index value of `tail` if it would get incremented.
    fn peek_inc_tail(&self) -> (i: usize)
        requires
            self.wf(),
        ensures
            i == next_index(self.tail as int, self.cap() as int),
    {
        if self.tail_will_wrap() {
            0
        } else {
            self.tail + 1
        }
    }

    /// Increment the `head` index.
    fn inc_head(&mut self)
        requires
            old(self).wf(),
            !old(self).is_full,
        ensures
            final(self).wf(),
            final(self).head == next_index(old(self).head as int, old(self).cap() as int),
            final(self).tail == old(self).tail,
            final(self).is_full == old(self).is_full,
            final(self).buffer == old(self).buffer,
    {
        self.head = self.peek_inc_head();
    }

    /// Returns the next index value of `head` if it would get incremented.
    fn peek_inc_head(&self) -> (i: usize)
        requires
            self.wf(),
        ensures
            i == next_index(self.head as int, self.cap() as int),
    {
        if self.head_will_wrap() {
            0
        } else {
            self.head + 1
        }
    }

    /// Returns `true` if `head` will be at the beginning of the internal buffer
    /// at the next incrementation.
    fn head_will_wrap(&self) -> (b: bool)
        requires
            self.wf(),
        ensures
            b == (self.head == self.cap() - 1),
    {
        self.head == self.capacity() - 1
    }

    /// Returns two slices which, if you put `tail` after `head`, would
    /// make the contigious array.
    pub fn contigious(&self) -> (c: Contigious<'_, T>)
        requires
            self.wf(),
        ensures
            c.head@ + c.tail@ == self@,
            c.head@.len() == if self@.len() <= self.cap() - self.head_index() {
                self@.len() as int
            } else {
                self.cap() - self.head_index()
            },
    {
        proof {
            self.lemma_wf_facts();
        }
        let ghost cap = self.buffer@.len() as int;
        let storage = self.buffer.as_slice();
        if self.head < self.tail || (self.head == self.tail && !self.is_full) {
            let c = Contigious { head: &storage[self.head..self.tail], tail: &storage[0..0] };
            proof {
                assert(c.head@ + c.tail@ =~= self@);
            }
            c
        } else {
            let c = Contigious {
                head: &storage[self.head..storage.len()],
                tail: &storage[0..self.tail],
            };
            proof {
                assert(c.head@ + c.tail@ =~= self@);
            }
            c
        }
    }

    /// Removes values from the front as long as `cond` holds for the oldest
    /// stored value.
    pub fn pop_while(&mut self, cond: impl Fn(&T) -> bool)
        requires
            old(self).wf(),
            forall|v: &T| #[trigger] cond.requires((v,)),
        ensures
            final(self).wf(),
            final(self).cap() == old(self).cap(),
            final(self)@.len() <= old(self)@.len(),
            final(self)@ == old(self)@.skip(old(self)@.len() - final(self)@.len()),
            forall|i: int|
                0 <= i < old(self)@.len() - final(self)@.len() ==> cond.ensures(
                    (&old(self)@[i],),
                    true,
                ),
            final(self)@.len() > 0 ==> cond.ensures((&final(self)@[0],), false),
            final(self).head_index() == slot_of(
                old(self).head_index() as int,
                old(self)@.len() - final(self)@.len(),
                old(self).cap() as int,
            ),
            final(self).tail_index() == old(self).tail_index(),
            final(self).slots() == old(self).slots(),
    {
        let ghost orig = self@;
        let ghost orig_head = self.head;
        let ghost orig_tail = self.tail;
        let ghost orig_slots = self.buffer@;
        proof {
            self.lemma_wf_facts();
        }
        loop
            invariant
                self.wf(),
                self.buffer@ == orig_slots,
                self.tail == orig_tail,
                self.head == slot_of(orig_head as int, orig.len() - self@.len(), orig_slots.len() as int),
                orig.len() <= orig_slots.len(),
                orig_head < orig_slots.len(),
                forall|v: &T| #[trigger] cond.requires((v,)),
                self@.len() <= orig.len(),
                self@ == orig.skip(orig.len() - self@.len()),
                forall|i: int|
                    0 <= i < orig.len() - self@.len() ==> cond.ensures((&orig[i],), true),
            ensures
                self.wf(),
                self.buffer@ == orig_slots,
                self.tail == orig_tail,
                self.head == slot_of(orig_head as int, orig.len() - self@.len(), orig_slots.len() as int),
                self@.len() <= orig.len(),
                self@ == orig.skip(orig.len() - self@.len()),
                forall|i: int|
                    0 <= i < orig.len() - self@.len() ==> cond.ensures((&orig[i],), true),
                self@.len() > 0 ==> cond.ensures((&self@[0],), false),
            decreases self@.len(),
        {
            proof {
                self.lemma_wf_facts();
            }
            if self.is_empty() {
                break;
            }
            let value = &self.buffer[self.head];
            assert(*value == self@[0]);
            let c = cond(value);
            if c {
                let ghost before = self@;
                let ghost before_head = self.head;
                assert(before_head == slot_of(orig_head as int, orig.len() - before.len(), orig_slots.len() as int));
                self.pop_front();
                proof {
                    assert(self.head == next_index(before_head as int, orig_slots.len() as int));
                    assert(self@.len() == before.len() - 1);
                    assert(self.head == slot_of(orig_head as int, orig.len() - self@.len(), orig_slots.len() as int));
                    let k = orig.len() - before.len();
                    assert forall|i: int| 0 <= i < orig.len() - self@.len() implies cond.ensures(
                        (&orig[i],),
                        true,
                    ) by {
                        if i == k {
                            assert(orig[i] == before[0]);
                        }
                    }
                    assert(self@ =~= orig.skip(orig.len() - self@.len()));
                }
            } else {
                break;
            }
        }
    }


    /// Consumes the buffer and returns an iterator which hands out the stored
    /// values, from the oldest to the newest.
    pub fn into_iter(self) -> (it: BoundedRingBufferIterator<T>)
        requires
            self.wf(),
        ensures
            it.remaining() == self@,
    {
        proof {
            self.lemma_wf_facts();
        }
        let ghost view = self@;
        let ghost cap = self.buffer@.len() as int;
        let head = self.head;
        let tail = self.tail;
        let wrapped = !(head < tail || (head == tail && !self.is_full));
        let mut front = self.buffer;
        let ghost slots = front@;
        // `ordered` receives the stored values in their order
        let mut ordered = front.split_off(head);
        if wrapped {
            front.truncate(tail);
            ordered.append(&mut front);
            proof {
                assert forall|i: int| 0 <= i < view.len() implies #[trigger] ordered@[i]
                    == view[i] by {
                    if i < cap - head {
                    } else {
                    }
                }
                assert(ordered@ =~= view);
            }
        } else {
            ordered.truncate(tail - head);
            proof {
                assert(ordered@ =~= view);
            }
        }
        // hand the values out from the back of a reversed vector
        let mut reversed: Vec<T> = Vec::new();
        let ghost total = ordered@.len();
        while ordered.len() > 0
            invariant
                total == view.len(),
                ordered@.len() + reversed@.len() == total,
                ordered@ == view.take(ordered@.len() as int),
                forall|j: int|
                    0 <= j < reversed@.len() ==> #[trigger] reversed@[j] == view[total - 1 - j],
            decreases ordered@.len(),
        {
            let v = ordered.pop().unwrap();
            reversed.push(v);
            proof {
                assert(ordered@ =~= view.take(ordered@.len() as int));
            }
        }
        let it = BoundedRingBufferIterator { reversed };
        proof {
            assert(it.remaining() =~= view);
        }
        it
    }

    /// The raw storage, for inspection.
    pub fn storage(&self) -> (s: &[T])
        ensures
            s@ == self.slots(),
    {
        self.buffer.as_slice()
    }

    /// The storage slot of the oldest value.
    pub fn head(&self) -> (h: usize)
        ensures
            h == self.head_index(),
    {
        self.head
    }

    /// The storage slot where the next value goes.
    pub fn tail(&self) -> (t: usize)
        ensures
            t == self.tail_index(),
    {
        self.tail
    }

    /// Whether every slot holds a value.
    pub fn is_full(&self) -> (b: bool)
        requires
            self.wf(),
        ensures
            b == self.full_flag(),
            b == (self@.len() == self.cap()),
    {
        proof {
            self.lemma_wf_facts();
        }
        self.is_full
    }
}


/// An iterator which consumes a [`BoundedRingBuffer`] and hands out its
/// values, from the oldest to the newest.
pub struct BoundedRingBufferIterator<T> {
    // the values which are left, the next one last
    reversed: Vec<T>,
}

impl<T> BoundedRingBufferIterator<T> {
    /// The values which are still to come, in order.
    pub closed spec fn remaining(&self) -> Seq<T> {
        Seq::new(self.reversed@.len(), |i: int| self.reversed@[self.reversed@.len() - 1 - i])
    }

    /// Returns the next value, or `None` when every value was handed out.
    pub fn next(&mut self) -> (r: Option<T>)
        ensures
            old(self).remaining().len() > 0 ==> r == Some(old(self).remaining()[0])
                && final(self).remaining() == old(self).remaining().drop_first(),
            old(self).remaining().len() == 0 ==> r is None && final(self).remaining() == old(
                self,
            ).remaining(),
    {
        let ghost before = self.remaining();
        let r = self.reversed.pop();
        proof {
            if before.len() > 0 {
                assert(self.remaining() =~= before.drop_first());
            } else {
                assert(self.remaining() =~= before);
            }
        }
        r
    }
}

/// An iterator over references to the values of a [`BoundedRingBuffer`], from
/// the oldest to the newest.
pub struct Iter<'a, T> {
    buffer: &'a BoundedRingBuffer<T>,
    idx: usize,
    yielded: usize,
}

impl<'a, T> Iter<'a, T> {
    /// The values which the iterator walks over.
    pub closed spec fn seq(&self) -> Seq<T> {
        self.buffer@
    }

    /// The amount of values which were handed out so far.
    pub closed spec fn pos(&self) -> nat {
        self.yielded as nat
    }

    /// Well-formedness: the walk stands at the storage slot of the value at `pos`.
    pub closed spec fn wf(&self) -> bool {
        &&& self.buffer.wf()
        &&& self.yielded <= self.buffer@.len()
        &&& self.idx < self.buffer.cap()
        &&& self.idx == slot_of(self.buffer.head as int, self.yielded as int, self.buffer.cap() as int)
    }
}

impl<'a, T: Default> Iter<'a, T> {

    /// Returns the next value, or `None` when every value was handed out.
    pub fn next(&mut self) -> (r: Option<&'a T>)
        requires
            old(self).wf(),
        ensures
            final(self).wf(),
            final(self).seq() == old(self).seq(),
            old(self).pos() < old(self).seq().len() ==> r == Some(&old(self).seq()[old(self).pos() as int])
                && final(self).pos() == old(self).pos() + 1,
            old(self).pos() >= old(self).seq().len() ==> r is None && final(self).pos() == old(self).pos(),
    {
        let buffer: &'a BoundedRingBuffer<T> = self.buffer;
        proof {
            buffer.lemma_wf_facts();
        }
        if self.yielded == buffer.len() {
            return None;
        }
        let idx = self.idx;
        self.idx = if idx + 1 == buffer.capacity() {
            0
        } else {
            idx + 1
        };
        self.yielded = self.yielded + 1;
        Some(&buffer.buffer[idx])
    }

    /// Creates an iterator which starts at the oldest value of `buffer`.
    pub fn new(buffer: &'a BoundedRingBuffer<T>) -> (it: Self)
        requires
            buffer.wf(),
        ensures
            it.wf(),
            it.seq() == buffer@,
            it.pos() == 0,
    {
        Self { buffer, idx: buffer.head, yielded: 0 }
    }
}

/// One call of `next()` took the iterator from `before` to `after` and
/// returned `r`, as `Iter::next` states it.
pub open spec fn iter_step<'a, T>(before: Iter<'a, T>, after: Iter<'a, T>, r: Option<&'a T>) -> bool {
    &&& after.seq() == before.seq()
    &&& before.pos() < before.seq().len() ==> r == Some(&before.seq()[before.pos() as int])
        && after.pos() == before.pos() + 1
    &&& before.pos() >= before.seq().len() ==> r is None && after.pos() == before.pos()
}

proof fn lemma_iter_run_prefix<'a, T>(
    stored: Seq<T>,
    states: Seq<Iter<'a, T>>,
    outs: Seq<Option<&'a T>>,
    k: int,
)
    requires
        states.len() == outs.len() + 1,
        states[0].seq() == stored,
        states[0].pos() == 0,
        forall|i: int|
            0 <= i < outs.len() ==> #[trigger] iter_step(states[i], states[i + 1], outs[i]),
        0 <= k <= outs.len(),
    ensures
        states[k].seq() == stored,
        states[k].pos() == min_int(k, stored.len() as int),
    decreases k,
{
    if k > 0 {
        lemma_iter_run_prefix(stored, states, outs, k - 1);
        let j = k - 1;
        assert(iter_step(states[j], states[j + 1], outs[j]));
    }
}

/// Iterating a buffer by reference hands out exactly its stored values,
/// each once, from the oldest to the newest, and then only `None`: the
/// `i`-th call of `next()` on an iterator made by `iter()` returns the `i`-th
/// stored value while there is one. So an iteration counts `len()` values.
pub proof fn lemma_iter_yields_stored_values<'a, T>(
    stored: Seq<T>,
    states: Seq<Iter<'a, T>>,
    outs: Seq<Option<&'a T>>,
)
    requires
        states.len() == outs.len() + 1,
        states[0].seq() == stored,
        states[0].pos() == 0,
        forall|i: int|
            0 <= i < outs.len() ==> #[trigger] iter_step(states[i], states[i + 1], outs[i]),
    ensures
        forall|i: int|
            0 <= i < outs.len() ==> #[trigger] outs[i] == if i < stored.len() {
                Some(&stored[i])
            } else {
                None
            },
{
    assert forall|i: int| 0 <= i < outs.len() implies #[trigger] outs[i] == if i < stored.len() {
        Some(&stored[i])
    } else {
        None
    } by {
        lemma_iter_run_prefix(stored, states, outs, i);
        assert(iter_step(states[i], states[i + 1], outs[i]));
    }
}

/// One call of `next()` took the consuming iterator from `before` to
/// `after` and returned `r`, as `BoundedRingBufferIterator::next` states it.
pub open spec fn into_iter_step<T>(
    before: BoundedRingBufferIterator<T>,
    after: BoundedRingBufferIterator<T>,
    r: Option<T>,
) -> bool {
    &&& before.remaining().len() > 0 ==> r == Some(before.remaining()[0])
        && after.remaining() == before.remaining().drop_first()
    &&& before.remaining().len() == 0 ==> r is None && after.remaining() == before.remaining()
}

proof fn lemma_into_iter_run_prefix<T>(
    stored: Seq<T>,
    states: Seq<BoundedRingBufferIterator<T>>,
    outs: Seq<Option<T>>,
    k: int,
)
    requires
        states.len() == outs.len() + 1,
        states[0].remaining() == stored,
        forall|i: int|
            0 <= i < outs.len() ==> #[trigger] into_iter_step(states[i], states[i + 1], outs[i]),
        0 <= k <= outs.len(),
    ensures
        states[k].remaining() == stored.skip(min_int(k, stored.len() as int)),
    decreases k,
{
    if k > 0 {
        lemma_into_iter_run_prefix(stored, states, outs, k - 1);
        let j = k - 1;
        assert(into_iter_step(states[j], states[j + 1], outs[j]));
        if k - 1 < stored.len() {
            assert(stored.skip(k - 1).drop_first() =~= stored.skip(k));
        }
    } else {
        assert(stored.skip(0) =~= stored);
    }
}

/// Consuming a buffer hands out exactly its stored values by value, each
/// once, from the oldest to the newest, and then only `None`: the `i`-th call
/// of `next()` on the iterator made by `into_iter()` returns the `i`-th
/// stored value while there is one.
pub proof fn lemma_into_iter_yields_stored_values<T>(
    stored: Seq<T>,
    states: Seq<BoundedRingBufferIterator<T>>,
    outs: Seq<Option<T>>,
)
    requires
        states.len() == outs.len() + 1,
        states[0].remaining() == stored,
        forall|i: int|
            0 <= i < outs.len() ==> #[trigger] into_iter_step(states[i], states[i + 1], outs[i]),
    ensures
        forall|i: int|
            0 <= i < outs.len() ==> #[trigger] outs[i] == if i < stored.len() {
                Some(stored[i])
            } else {
                None
            },
{
    assert forall|i: int| 0 <= i < outs.len() implies #[trigger] outs[i] == if i < stored.len() {
        Some(stored[i])
    } else {
        None
    } by {
        lemma_into_iter_run_prefix(stored, states, outs, i);
        assert(into_iter_step(states[i], states[i + 1], outs[i]));
    }
}

} // verus!
