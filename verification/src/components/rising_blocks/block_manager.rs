use vstd::prelude::*;

use crate::components::utils::bounded_ring_buffer::BoundedRingBuffer;

verus! {

/// The (estimated) max amount of blocks which a column can have.
pub const MAX_BLOCKS_PER_COLUMN: usize = 16;

/// One rising block: the time at which it started (the IEEE-754 bit pattern of
/// the time in seconds, as the shader reads it) and the column it rises in.
#[derive(Debug, Clone, Copy, PartialEq, Eq, Structural)]
pub struct BlockData {
    start_time_bits: u32,
    column_idx: u32,
}

impl BlockData {
    /// The bit pattern of the start time.
    pub closed spec fn start_time_of(self) -> u32 {
        self.start_time_bits
    }

    /// The column of the block.
    pub closed spec fn column_of(self) -> u32 {
        self.column_idx
    }

    /// The block made by `new`.
    pub closed spec fn new_spec(start_time_bits: u32, column_idx: u32) -> Self {
        BlockData { start_time_bits, column_idx }
    }

    pub fn new(start_time_bits: u32, column_idx: u32) -> (b: Self)
        ensures
            b == Self::new_spec(start_time_bits, column_idx),
            b.start_time_of() == start_time_bits,
            b.column_of() == column_idx,
    {
        Self { column_idx, start_time_bits }
    }

    /// The bit pattern of the start time.
    pub fn start_time_bits(&self) -> (t: u32)
        ensures
            t == self.start_time_of(),
    {
        self.start_time_bits
    }

    /// The column of the block.
    pub fn column_idx(&self) -> (c: u32)
        ensures
            c == self.column_of(),
    {
        self.column_idx
    }
}

impl Default for BlockData {
    fn default() -> (b: Self)
        ensures
            b.start_time_of() == 0,
            b.column_of() == 0,
    {
        Self { start_time_bits: 0, column_idx: 0 }
    }
}

/// The blocks which start at time `time` for the first `n` columns: one for
/// each column whose bar is a beat now but was none before, in column order.
pub open spec fn rising_edges(beats: Seq<bool>, prev: Seq<bool>, time: u32, n: nat) -> Seq<
    BlockData,
>
    decreases n,
{
    if n == 0 {
        Seq::empty()
    } else {
        let i = (n - 1) as nat;
        let earlier = rising_edges(beats, prev, time, i);
        if beats[i as int] && !prev[i as int] {
            earlier.push(BlockData::new_spec(time, i as u32))
        } else {
            earlier
        }
    }
}

/// `s` followed by as many values of `t` as fit into `cap` slots.
pub open spec fn bounded_append<A>(s: Seq<A>, t: Seq<A>, cap: nat) -> Seq<A> {
    if s.len() + t.len() <= cap {
        s + t
    } else {
        (s + t).take(cap as int)
    }
}

/// Appending one more value to a bounded sequence keeps it when there is room
/// and drops it otherwise.
pub proof fn lemma_bounded_append_push<A>(s: Seq<A>, t: Seq<A>, x: A, cap: nat)
    requires
        s.len() <= cap,
    ensures
        bounded_append(s, t.push(x), cap) == if bounded_append(s, t, cap).len() < cap {
            bounded_append(s, t, cap).push(x)
        } else {
            bounded_append(s, t, cap)
        },
        bounded_append(s, t, cap).len() <= cap,
{
    if s.len() + t.len() + 1 <= cap {
        assert(s + t.push(x) =~= (s + t).push(x));
    } else if s.len() + t.len() + 1 == cap + 1 {
        assert((s + t.push(x)).take(cap as int) =~= s + t);
    } else {
        assert((s + t.push(x)).take(cap as int) =~= (s + t).take(cap as int));
    }
}

/// The beats as the manager remembers them after seeing `beats`: the first
/// columns take the new beats, the others keep theirs.
pub open spec fn remembered_beats(beats: Seq<bool>, prev: Seq<bool>) -> Seq<bool> {
    Seq::new(prev.len(), |i: int| if i < beats.len() { beats[i] } else { prev[i] })
}

/// A beat that is held starts no new block: seeing the same beats again
/// right after them starts nothing.
pub proof fn lemma_held_beats_start_nothing(beats: Seq<bool>, prev: Seq<bool>, time: u32, n: nat)
    requires
        n <= beats.len(),
        n <= prev.len(),
    ensures
        rising_edges(beats, remembered_beats(beats, prev), time, n) == Seq::<BlockData>::empty(),
    decreases n,
{
    if n > 0 {
        lemma_held_beats_start_nothing(beats, prev, time, (n - 1) as nat);
    }
}

/// Each started block belongs to one of the first `n` columns, and no column
/// starts more than one block.
pub proof fn lemma_rising_edges_columns(beats: Seq<bool>, prev: Seq<bool>, time: u32, n: nat)
    requires
        n <= beats.len(),
        n <= prev.len(),
        n <= u32::MAX + 1,
    ensures
        rising_edges(beats, prev, time, n).len() <= n,
        forall|k: int|
            0 <= k < rising_edges(beats, prev, time, n).len() ==> {
                let b = #[trigger] rising_edges(beats, prev, time, n)[k];
                &&& b.column_of() < n
                &&& beats[b.column_of() as int]
                &&& !prev[b.column_of() as int]
                &&& b.start_time_of() == time
            },
        forall|k: int, l: int|
            0 <= k < l < rising_edges(beats, prev, time, n).len() ==> (#[trigger] rising_edges(
                beats,
                prev,
                time,
                n,
            )[k]).column_of() < (#[trigger] rising_edges(beats, prev, time, n)[l]).column_of(),
    decreases n,
{
    if n > 0 {
        lemma_rising_edges_columns(beats, prev, time, (n - 1) as nat);
    }
}

/// Every column among the first `n` whose bar turns into a beat starts a
/// block: the block of column `c` stands in the sequence at the returned
/// index, with the start time `time`.
pub proof fn lemma_rising_edges_complete(
    beats: Seq<bool>,
    prev: Seq<bool>,
    time: u32,
    n: nat,
    c: int,
) -> (k: int)
    requires
        n <= beats.len(),
        n <= prev.len(),
        0 <= c < n,
        beats[c],
        !prev[c],
    ensures
        0 <= k < rising_edges(beats, prev, time, n).len(),
        rising_edges(beats, prev, time, n)[k].column_of() == c as u32,
        rising_edges(beats, prev, time, n)[k].start_time_of() == time,
    decreases n,
{
    let i = (n - 1) as nat;
    let earlier = rising_edges(beats, prev, time, i);
    if c == i {
        earlier.len() as int
    } else {
        lemma_rising_edges_complete(beats, prev, time, i, c)
    }
}

/// The values of `bounded_append(s, t, cap)` behind `s` are the first values
/// of `t`, and all of `t` is kept when the result is not full.
proof fn lemma_bounded_append_parts<A>(s: Seq<A>, t: Seq<A>, cap: nat)
    requires
        s.len() <= cap,
    ensures
        s.len() <= bounded_append(s, t, cap).len() <= cap,
        bounded_append(s, t, cap).len() <= s.len() + t.len(),
        forall|k: int| 0 <= k < s.len() ==> #[trigger] bounded_append(s, t, cap)[k] == s[k],
        forall|j: int|
            0 <= j < bounded_append(s, t, cap).len() - s.len() ==> #[trigger] bounded_append(
                s,
                t,
                cap,
            )[s.len() + j] == t[j],
        bounded_append(s, t, cap).len() < cap ==> bounded_append(s, t, cap).len() == s.len()
            + t.len(),
{
}

/// Keeps the rising blocks of all columns: a block starts in a column whenever
/// its bar turns into a beat.
#[derive(Debug)]
pub struct BlockManager {
    blocks: BoundedRingBuffer<BlockData>,
    prev_beat: Vec<bool>,
    last_time_bits: u32,
    total_amount_columns: usize,
}

impl BlockManager {
    /// The active blocks, from the oldest to the newest.
    pub closed spec fn blocks_view(&self) -> Seq<BlockData> {
        self.blocks@
    }

    /// Whether the bar of each column was a beat at the last update.
    pub closed spec fn prev_beats(&self) -> Seq<bool> {
        self.prev_beat@
    }

    /// The bit pattern of the time at which new blocks start.
    pub closed spec fn last_time(&self) -> u32 {
        self.last_time_bits
    }

    /// The amount of columns.
    pub closed spec fn columns(&self) -> nat {
        self.total_amount_columns as nat
    }

    /// The amount of blocks which can be active at once.
    pub closed spec fn block_capacity(&self) -> nat {
        self.blocks.cap()
    }

    pub closed spec fn wf(&self) -> bool {
        &&& self.blocks.wf()
        &&& self.blocks.cap() == MAX_BLOCKS_PER_COLUMN * self.total_amount_columns
        &&& self.prev_beat@.len() == self.total_amount_columns
        &&& self.total_amount_columns > 0
        &&& MAX_BLOCKS_PER_COLUMN * self.total_amount_columns <= usize::MAX
    }

    /// What well-formedness tells a caller: one remembered beat per column,
    /// room for `MAX_BLOCKS_PER_COLUMN` blocks per column, and never more
    /// blocks than that.
    pub proof fn lemma_wf(&self)
        requires
            self.wf(),
        ensures
            self.columns() > 0,
            self.prev_beats().len() == self.columns(),
            self.block_capacity() == MAX_BLOCKS_PER_COLUMN * self.columns(),
            self.blocks_view().len() <= self.block_capacity(),
    {
        self.blocks.lemma_len_le_capacity();
    }

    pub fn new(total_amount_bars: usize) -> (m: Self)
        requires
            0 < total_amount_bars,
            MAX_BLOCKS_PER_COLUMN * total_amount_bars <= usize::MAX,
        ensures
            m.wf(),
            m.blocks_view() == Seq::<BlockData>::empty(),
            m.prev_beats() == Seq::new(total_amount_bars as nat, |i: int| false),
            m.last_time() == 0,
            m.columns() == total_amount_bars,
            m.block_capacity() == MAX_BLOCKS_PER_COLUMN * total_amount_bars,
    {
        let blocks = BoundedRingBuffer::new(MAX_BLOCKS_PER_COLUMN * total_amount_bars);

        let mut prev_beat: Vec<bool> = Vec::with_capacity(total_amount_bars);
        let mut i: usize = 0;
        while i < total_amount_bars
            invariant
                i <= total_amount_bars,
                prev_beat@ == Seq::new(i as nat, |j: int| false),
            decreases total_amount_bars - i,
        {
            prev_beat.push(false);
            i = i + 1;
            assert(prev_beat@ =~= Seq::new(i as nat, |j: int| false));
        }

        Self { blocks, last_time_bits: 0, prev_beat, total_amount_columns: total_amount_bars }
    }

    /// Takes whether the bar of each column is a beat now and starts a block
    /// in each column whose bar turned into a beat; blocks which find no room
    /// are dropped. Only as many columns as both the manager and `beats` have
    /// are looked at.
    pub fn process_beats(&mut self, beats: &[bool])
        requires
            old(self).wf(),
        ensures
            final(self).wf(),
            final(self).columns() == old(self).columns(),
            final(self).last_time() == old(self).last_time(),
            final(self).block_capacity() == old(self).block_capacity(),
            final(self).blocks_view() == bounded_append(
                old(self).blocks_view(),
                rising_edges(
                    beats@,
                    old(self).prev_beats(),
                    old(self).last_time(),
                    vstd::math::min(beats@.len() as int, old(self).columns() as int) as nat,
                ),
                old(self).block_capacity(),
            ),
            final(self).prev_beats() == remembered_beats(beats@, old(self).prev_beats()),
            // the blocks that were active stay, in front
            old(self).blocks_view().len() <= final(self).blocks_view().len(),
            forall|k: int|
                0 <= k < old(self).blocks_view().len() ==> #[trigger] final(self).blocks_view()[k]
                    == old(self).blocks_view()[k],
            // while there is room, every column whose bar turned into a beat
            // starts a block at the last time
            final(self).blocks_view().len() < final(self).block_capacity() ==> forall|c: int|
                0 <= c < vstd::math::min(beats@.len() as int, old(self).columns() as int)
                    && #[trigger] beats@[c] && !old(self).prev_beats()[c] ==> exists|k: int|
                    old(self).blocks_view().len() <= k < final(self).blocks_view().len()
                        && (#[trigger] final(self).blocks_view()[k]).column_of() == c as u32
                        && final(self).blocks_view()[k].start_time_of() == old(self).last_time(),
            // the started blocks belong to such columns, in column order, and a
            // column is left out only when the buffer is full and all started
            // blocks come before it
            vstd::math::min(beats@.len() as int, old(self).columns() as int) <= u32::MAX + 1
                ==> {
                &&& forall|k: int|
                    old(self).blocks_view().len() <= k < final(self).blocks_view().len() ==> {
                        let b = #[trigger] final(self).blocks_view()[k];
                        &&& b.column_of() < vstd::math::min(
                            beats@.len() as int,
                            old(self).columns() as int,
                        )
                        &&& beats@[b.column_of() as int]
                        &&& !old(self).prev_beats()[b.column_of() as int]
                        &&& b.start_time_of() == old(self).last_time()
                    }
                &&& forall|k: int, l: int|
                    old(self).blocks_view().len() <= k < l < final(self).blocks_view().len() ==> (
                    #[trigger] final(self).blocks_view()[k]).column_of() < (
                    #[trigger] final(self).blocks_view()[l]).column_of()
                &&& forall|c: int|
                    0 <= c < vstd::math::min(beats@.len() as int, old(self).columns() as int)
                        && #[trigger] beats@[c] && !old(self).prev_beats()[c] ==> (exists|k: int|
                        old(self).blocks_view().len() <= k < final(self).blocks_view().len()
                            && (#[trigger] final(self).blocks_view()[k]).column_of() == c) || (
                    final(self).blocks_view().len() == final(self).block_capacity() && forall|
                        k: int,
                    |
                        old(self).blocks_view().len() <= k < final(self).blocks_view().len()
                            ==> (#[trigger] final(self).blocks_view()[k]).column_of() < c)
            },
    {
        let n: usize = if beats.len() < self.prev_beat.len() {
            beats.len()
        } else {
            self.prev_beat.len()
        };
        let ghost old_blocks = self.blocks@;
        let ghost old_prev = self.prev_beat@;
        let ghost cap = self.blocks.cap();
        let ghost time = self.last_time_bits;
        proof {
            self.blocks.lemma_len_le_capacity();
        }
        let mut bar_idx: usize = 0;
        while bar_idx < n
            invariant
                self.wf(),
                n <= beats@.len(),
                n <= old_prev.len(),
                bar_idx <= n,
                self.blocks.cap() == cap,
                self.last_time_bits == time,
                self.total_amount_columns == old_prev.len(),
                old_blocks.len() <= cap,
                self.blocks@ == bounded_append(
                    old_blocks,
                    rising_edges(beats@, old_prev, self.last_time_bits, bar_idx as nat),
                    cap,
                ),
                self.prev_beat@ == Seq::new(
                    old_prev.len(),
                    |i: int|
                        if i < bar_idx {
                            beats@[i]
                        } else {
                            old_prev[i]
                        },
                ),
            decreases n - bar_idx,
        {
            let is_beat = beats[bar_idx];
            let ghost edges = rising_edges(beats@, old_prev, self.last_time_bits, bar_idx as nat);
            proof {
                lemma_bounded_append_push(
                    old_blocks,
                    edges,
                    BlockData::new_spec(self.last_time_bits, bar_idx as u32),
                    cap,
                );
                self.blocks.lemma_len_le_capacity();
            }
            if is_beat && !self.prev_beat[bar_idx] {
                self.blocks.push_back(BlockData::new(self.last_time_bits, bar_idx as u32));
            }
            self.prev_beat.set(bar_idx, is_beat);
            bar_idx = bar_idx + 1;
            proof {
                assert(self.prev_beat@ =~= Seq::new(
                    old_prev.len(),
                    |i: int|
                        if i < bar_idx {
                            beats@[i]
                        } else {
                            old_prev[i]
                        },
                ));
            }
        }
        proof {
            assert(self.prev_beat@ =~= Seq::new(
                old_prev.len(),
                |i: int|
                    if i < beats@.len() {
                        beats@[i]
                    } else {
                        old_prev[i]
                    },
            ));
            let edges = rising_edges(beats@, old_prev, time, n as nat);
            let fin = self.blocks@;
            let o = old_blocks.len() as int;
            lemma_bounded_append_parts(old_blocks, edges, cap);
            assert(n == vstd::math::min(beats@.len() as int, old_prev.len() as int));
            assert forall|c: int|
                0 <= c < n && #[trigger] beats@[c] && !old_prev[c] && fin.len() < cap implies exists|k: int|
                    o <= k < fin.len() && (#[trigger] fin[k]).column_of() == c as u32
                        && fin[k].start_time_of() == time by {
                let j = lemma_rising_edges_complete(beats@, old_prev, time, n as nat, c);
                assert(fin[o + j] == edges[j]);
            }
            if n <= u32::MAX + 1 {
                lemma_rising_edges_columns(beats@, old_prev, time, n as nat);
                assert forall|k: int| o <= k < fin.len() implies {
                    let b = #[trigger] fin[k];
                    &&& b.column_of() < n
                    &&& beats@[b.column_of() as int]
                    &&& !old_prev[b.column_of() as int]
                    &&& b.start_time_of() == time
                } by {
                    assert(fin[o + (k - o)] == edges[k - o]);
                    let b = edges[k - o];
                }
                assert forall|k: int, l: int| o <= k < l < fin.len() implies (
                #[trigger] fin[k]).column_of() < (#[trigger] fin[l]).column_of() by {
                    assert(fin[o + (k - o)] == edges[k - o]);
                    assert(fin[o + (l - o)] == edges[l - o]);
                    let a = edges[k - o];
                    let b = edges[l - o];
                }
                assert forall|c: int|
                    0 <= c < n && #[trigger] beats@[c] && !old_prev[c] implies (exists|k: int|
                        o <= k < fin.len() && (#[trigger] fin[k]).column_of() == c) || (fin.len()
                        == cap && forall|k: int|
                        o <= k < fin.len() ==> (#[trigger] fin[k]).column_of() < c) by {
                    let j = lemma_rising_edges_complete(beats@, old_prev, time, n as nat, c);
                    if o + j < fin.len() {
                        assert(fin[o + j] == edges[j]);
                    } else {
                        assert forall|k: int| o <= k < fin.len() implies (
                        #[trigger] fin[k]).column_of() < c by {
                            assert(fin[o + (k - o)] == edges[k - o]);
                            let a = edges[k - o];
                            let b = edges[j];
                        }
                    }
                }
            }
        }
    }

    /// The amount of blocks which are currently active.
    pub fn amount_active_blocks(&self) -> (n: usize)
        requires
            self.wf(),
        ensures
            n == self.blocks_view().len(),
            n <= self.block_capacity(),
    {
        self.blocks.len()
    }

    /// Sets the time at which new blocks start and drops the oldest blocks
    /// as long as `is_expired` holds for them.
    pub fn discard_expired_blocks(
        &mut self,
        new_time_bits: u32,
        is_expired: impl Fn(&BlockData) -> bool,
    )
        requires
            old(self).wf(),
            forall|b: &BlockData| #[trigger] is_expired.requires((b,)),
        ensures
            final(self).wf(),
            final(self).columns() == old(self).columns(),
            final(self).prev_beats() == old(self).prev_beats(),
            final(self).block_capacity() == old(self).block_capacity(),
            final(self).last_time() == new_time_bits,
            final(self).blocks_view().len() <= old(self).blocks_view().len(),
            final(self).blocks_view() == old(self).blocks_view().skip(
                old(self).blocks_view().len() - final(self).blocks_view().len(),
            ),
            forall|i: int|
                0 <= i < old(self).blocks_view().len() - final(self).blocks_view().len()
                    ==> is_expired.ensures((&old(self).blocks_view()[i],), true),
            final(self).blocks_view().len() > 0 ==> is_expired.ensures(
                (&final(self).blocks_view()[0],),
                false,
            ),
    {
        self.last_time_bits = new_time_bits;
        self.blocks.pop_while(is_expired);
    }

    /// The amount of blocks which can be active at once, the size of the
    /// block buffer on the GPU in blocks.
    pub fn max_amount_blocks(&self) -> (n: usize)
        requires
            self.wf(),
        ensures
            n == self.block_capacity(),
            n == MAX_BLOCKS_PER_COLUMN * self.columns(),
    {
        MAX_BLOCKS_PER_COLUMN * self.total_amount_columns
    }

    /// The active blocks.
    pub fn blocks(&self) -> (b: &BoundedRingBuffer<BlockData>)
        requires
            self.wf(),
        ensures
            b.wf(),
            b@ == self.blocks_view(),
            b.cap() == self.block_capacity(),
    {
        &self.blocks
    }

    /// The bit pattern of the time at which new blocks start.
    pub fn last_time_bits(&self) -> (t: u32)
        ensures
            t == self.last_time(),
    {
        self.last_time_bits
    }
}

} // verus!
