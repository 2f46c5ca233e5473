//! Fixed-capacity ring of raw samples and its truncating average.
use vstd::prelude::*;

verus! {

/// Sum of a sequence of samples.
pub open spec fn seq_sum(s: Seq<i32>) -> int
    decreases s.len(),
{
    if s.len() == 0 {
        0
    } else {
        seq_sum(s.drop_last()) + s.last() as int
    }
}

/// Absolute value.
pub open spec fn abs(a: int) -> int {
    if a >= 0 {
        a
    } else {
        -a
    }
}

/// Integer division rounding toward zero, as Rust's `/` on signed integers.
pub open spec fn trunc_div(a: int, b: int) -> int {
    if (a >= 0) == (b >= 0) {
        abs(a) / abs(b)
    } else {
        -(abs(a) / abs(b))
    }
}

/// Truncating average of a non-empty sequence of samples.
pub open spec fn window_average(s: Seq<i32>) -> int {
    trunc_div(seq_sum(s), s.len() as int)
}

/// The sum of a concatenation is the sum of its parts.
pub proof fn lemma_seq_sum_concat(a: Seq<i32>, b: Seq<i32>)
    ensures
        seq_sum(a + b) == seq_sum(a) + seq_sum(b),
    decreases b.len(),
{
    if b.len() == 0 {
        assert(a + b =~= a);
    } else {
        assert((a + b).drop_last() =~= a + b.drop_last());
        lemma_seq_sum_concat(a, b.drop_last());
    }
}

/// The sum of `i` values each within `[i32::MIN, i32::MAX]` is within
/// `i` times those bounds.
proof fn lemma_seq_sum_bounds(s: Seq<i32>)
    ensures
        s.len() * (i32::MIN as int) <= seq_sum(s) <= s.len() * (i32::MAX as int),
    decreases s.len(),
{
    if s.len() > 0 {
        lemma_seq_sum_bounds(s.drop_last());
        assert(s.len() * (i32::MIN as int) == (s.len() - 1) * (i32::MIN as int) + i32::MIN)
            by (nonlinear_arith);
        assert(s.len() * (i32::MAX as int) == (s.len() - 1) * (i32::MAX as int) + i32::MAX)
            by (nonlinear_arith);
    }
}

/// Truncating average of `slice`: the sum of its values divided by its
/// length, rounded toward zero. The sum is taken wide, so it cannot
/// overflow, and the average of `i32` values is itself an `i32`.
pub fn compute_average(slice: &[i32]) -> (r: i32)
    requires
        slice@.len() > 0,
    ensures
        r as int == window_average(slice@),
{
    let n = slice.len();
    let mut sum: i128 = 0;
    let mut i: usize = 0;
    while i < n
        invariant
            n == slice@.len(),
            0 <= i <= n,
            sum as int == seq_sum(slice@.subrange(0, i as int)),
            i * (i32::MIN as int) <= sum as int <= i * (i32::MAX as int),
        decreases n - i,
    {
        proof {
            assert(slice@.subrange(0, i as int + 1).drop_last() =~= slice@.subrange(0, i as int));
            assert((i + 1) * (i32::MIN as int) == i * (i32::MIN as int) + i32::MIN)
                by (nonlinear_arith);
            assert((i + 1) * (i32::MAX as int) == i * (i32::MAX as int) + i32::MAX)
                by (nonlinear_arith);
            assert(i * (i32::MAX as int) <= usize::MAX as int * (i32::MAX as int))
                by (nonlinear_arith)
                requires
                    i <= usize::MAX,
            ;
            assert(i * (i32::MIN as int) >= usize::MAX as int * (i32::MIN as int))
                by (nonlinear_arith)
                requires
                    i <= usize::MAX,
            ;
        }
        sum = sum + slice[i] as i128;
        i = i + 1;
    }
    assert(slice@.subrange(0, n as int) =~= slice@);
    let len = n as i128;
    let avg: i128 = if sum >= 0 {
        sum / len
    } else {
        -((-sum) / len)
    };
    proof {
        let s = sum as int;
        let l = n as int;
        if s >= 0 {
            assert(s / l <= i32::MAX) by (nonlinear_arith)
                requires
                    l >= 1,
                    s >= 0,
                    s <= l * (i32::MAX as int),
            ;
        } else {
            assert((-s) / l <= -(i32::MIN as int)) by (nonlinear_arith)
                requires
                    l >= 1,
                    -s >= 0,
                    -s <= l * (-(i32::MIN as int)),
            ;
        }
    }
    avg as i32
}

/// Position of the next slot to overwrite in a ring of `MAXINDEX + 1`
/// slots.
#[derive(Debug)]
pub struct PositionTracker<const MAXINDEX: usize> {
    index: usize,
}

impl<const MAXINDEX: usize> View for PositionTracker<MAXINDEX> {
    type V = nat;

    closed spec fn view(&self) -> nat {
        self.index as nat
    }
}

/// The position after `index` in a ring whose last position is `maxindex`.
pub open spec fn next_position(index: nat, maxindex: nat) -> nat {
    if index >= maxindex {
        0
    } else {
        index + 1
    }
}

impl<const MAXINDEX: usize> PositionTracker<MAXINDEX> {
    #[verifier::type_invariant]
    closed spec fn inv(&self) -> bool {
        self.index <= MAXINDEX
    }

    /// Moves to the next position, wrapping from `MAXINDEX` back to 0.
    pub fn next(&mut self)
        ensures
            final(self)@ == next_position(old(self)@, MAXINDEX as nat),
            final(self)@ <= MAXINDEX,
    {
        proof {
            use_type_invariant(&*self);
        }
        if self.index == MAXINDEX {
            self.index = 0;
        } else {
            self.index = self.index + 1;
        }
    }

    /// The current position, always at most `MAXINDEX`.
    pub fn current_index(&self) -> (r: usize)
        ensures
            r as nat == self@,
            r <= MAXINDEX,
    {
        proof {
            use_type_invariant(self);
        }
        self.index
    }
}

impl<const MAXINDEX: usize> Default for PositionTracker<MAXINDEX> {
    fn default() -> (r: Self)
        ensures
            r@ == 0,
    {
        PositionTracker { index: 0 }
    }
}

/// Stores `next_value` in `array` at the tracker's current position.
pub fn update_array<const ARRAYLENGTH: usize, const MAXINDEX: usize>(
    array: &mut [i32; ARRAYLENGTH],
    next_value: i32,
    position: &PositionTracker<MAXINDEX>,
)
    requires
        MAXINDEX < ARRAYLENGTH,
    ensures
        final(array)@ == old(array)@.update(position@ as int, next_value),
{
    let index = position.current_index();
    array[index] = next_value;
}

/// The window after writing `value`: the oldest sample leaves, `value`
/// comes in as the newest.
pub open spec fn write_view(window: Seq<i32>, value: i32) -> Seq<i32> {
    window.drop_first().push(value)
}

/// The window after writing each of `writes` in order.
pub open spec fn after_writes(window: Seq<i32>, writes: Seq<i32>) -> Seq<i32>
    decreases writes.len(),
{
    if writes.len() == 0 {
        window
    } else {
        write_view(after_writes(window, writes.drop_last()), writes.last())
    }
}

/// Moving average over the last `CAPACITY` raw samples.
///
/// The slots start at zero, so until `CAPACITY` samples have been written
/// the average is biased toward zero by the slots not yet overwritten.
#[derive(Debug)]
pub struct MovingAverageBuffer<const CAPACITY: usize> {
    slots: [i32; CAPACITY],
    write_index: usize,
}

impl<const CAPACITY: usize> View for MovingAverageBuffer<CAPACITY> {
    type V = Seq<i32>;

    /// The samples held, oldest first: from the slot to be overwritten next
    /// round to the one written last.
    closed spec fn view(&self) -> Seq<i32> {
        self.slots@.subrange(self.write_index as int, CAPACITY as int) + self.slots@.subrange(
            0,
            self.write_index as int,
        )
    }
}

impl<const CAPACITY: usize> MovingAverageBuffer<CAPACITY> {
    #[verifier::type_invariant]
    closed spec fn inv(&self) -> bool {
        self.write_index < CAPACITY
    }

    /// An empty ring: every slot holds 0.
    pub fn new() -> (r: Self)
        requires
            CAPACITY > 0,
        ensures
            r@ == Seq::new(CAPACITY as nat, |i: int| 0i32),
    {
        let r = MovingAverageBuffer { slots: [0i32; CAPACITY], write_index: 0 };
        assert(r@ =~= Seq::new(CAPACITY as nat, |i: int| 0i32));
        r
    }

    /// Number of samples the window holds.
    pub fn capacity(&self) -> (r: usize)
        ensures
            r == CAPACITY,
            self@.len() == CAPACITY,
    {
        proof {
            use_type_invariant(self);
        }
        CAPACITY
    }

    /// Overwrites the oldest sample with `value`.
    pub fn write(&mut self, value: i32)
        ensures
            final(self)@ == write_view(old(self)@, value),
            final(self)@.len() == CAPACITY,
    {
        proof {
            use_type_invariant(&*self);
        }
        let w = self.write_index;
        self.slots[w] = value;
        if w + 1 == CAPACITY {
            self.write_index = 0;
        } else {
            self.write_index = w + 1;
        }
        assert(self@ =~= write_view(old(self)@, value));
    }

    /// Truncating average of the samples held.
    pub fn average(&self) -> (r: i32)
        ensures
            r as int == window_average(self@),
    {
        proof {
            use_type_invariant(self);
            let s = self.slots@;
            let w = self.write_index as int;
            assert(s =~= s.subrange(0, w) + s.subrange(w, CAPACITY as int));
            lemma_seq_sum_concat(s.subrange(0, w), s.subrange(w, CAPACITY as int));
            lemma_seq_sum_concat(s.subrange(w, CAPACITY as int), s.subrange(0, w));
        }
        compute_average(self.slots.as_slice())
    }
}

/// After any writes the window holds the newest samples: those of `window`
/// pushed out by the writes are gone, and the writes follow in order.
pub proof fn lemma_after_writes_window(window: Seq<i32>, writes: Seq<i32>)
    requires
        window.len() > 0,
    ensures
        after_writes(window, writes) == (window + writes).subrange(
            writes.len() as int,
            (window.len() + writes.len()) as int,
        ),
    decreases writes.len(),
{
    if writes.len() > 0 {
        let prev = writes.drop_last();
        lemma_after_writes_window(window, prev);
        assert(write_view(after_writes(window, prev), writes.last()) =~= (window
            + writes).subrange(writes.len() as int, (window.len() + writes.len()) as int));
    } else {
        assert((window + writes).subrange(0, window.len() as int) =~= window);
    }
}

/// A window of capacity `C` that has taken at least `C` writes holds
/// exactly the last `C` values written, oldest first, and its average is
/// the truncating average of those values: no write beyond the capacity
/// is lost or kept.
pub proof fn lemma_full_window_average(window: Seq<i32>, writes: Seq<i32>)
    requires
        window.len() > 0,
        writes.len() >= window.len(),
    ensures
        after_writes(window, writes) == writes.subrange(
            writes.len() - window.len(),
            writes.len() as int,
        ),
        window_average(after_writes(window, writes)) == trunc_div(
            seq_sum(writes.subrange(writes.len() - window.len(), writes.len() as int)),
            window.len() as int,
        ),
{
    lemma_after_writes_window(window, writes);
    assert((window + writes).subrange(writes.len() as int, (window.len() + writes.len()) as int)
        =~= writes.subrange(writes.len() - window.len(), writes.len() as int));
}

} // verus!
