//! The sample ring: a fixed-capacity circular store of (time, value) records.
//!
//! A sample is a pair of 64-bit words. The ring never looks inside them; callers
//! that work with floating-point samples pass the IEEE 754 binary64 bit pattern
//! of each number (what `f64::to_bits` gives) and read it back unchanged.
//!
//! The ring is not kept in chronological order: slot 0 is not necessarily the
//! oldest sample. After a write the cursor names the newest slot, and the slot
//! `age` steps behind it (circularly) holds the sample written `age` writes
//! earlier. A reader that wants the samples in time order reorders them by the
//! cursor; the ring itself never does.

use vstd::arithmetic::div_mod::{
    lemma_fundamental_div_mod,
    lemma_fundamental_div_mod_converse,
    lemma_mod_bound,
};
use vstd::prelude::*;

verus! {

/// The mathematical content of a sample ring.
pub struct Ring {
    /// The time word of each slot.
    pub times: Seq<u64>,
    /// The value word of each slot.
    pub values: Seq<u64>,
    /// The slot written last (slot 0 before the first write).
    pub cursor: int,
}

impl Ring {
    /// Both halves have one length, which is not zero, and the cursor names a slot.
    pub open spec fn wf(self) -> bool {
        &&& self.times.len() == self.values.len()
        &&& 0 <= self.cursor < self.times.len()
    }

    /// The number of slots.
    pub open spec fn capacity(self) -> nat {
        self.times.len()
    }

    /// A ring of `capacity` slots that all hold the pair (0, 0), cursor at slot 0.
    pub open spec fn zeroed(capacity: nat) -> Ring {
        Ring {
            times: Seq::new(capacity, |i: int| 0u64),
            values: Seq::new(capacity, |i: int| 0u64),
            cursor: 0,
        }
    }

    /// The record in slot `i`.
    pub open spec fn pair(self, i: int) -> (u64, u64) {
        (self.times[i], self.values[i])
    }

    /// The slot that the next write fills.
    pub open spec fn next_cursor(self) -> int {
        (self.cursor + 1) % (self.capacity() as int)
    }

    /// The ring after one write: the cursor moves on by one slot, circularly, and
    /// both halves of that slot are replaced together.
    pub open spec fn write(self, time: u64, value: u64) -> Ring {
        Ring {
            times: self.times.update(self.next_cursor(), time),
            values: self.values.update(self.next_cursor(), value),
            cursor: self.next_cursor(),
        }
    }

    /// The ring after writing `samples` one after the other, first to last.
    pub open spec fn write_all(self, samples: Seq<(u64, u64)>) -> Ring
        decreases samples.len(),
    {
        if samples.len() == 0 {
            self
        } else {
            self.write_all(samples.drop_last()).write(samples.last().0, samples.last().1)
        }
    }

    /// How many writes before the last one slot `i` was filled, if the ring has
    /// been written that often: 0 for the cursor's slot, 1 for the slot before
    /// it, and so on round the ring.
    pub open spec fn age(self, i: int) -> int {
        (self.cursor - i) % (self.capacity() as int)
    }
}

/// A fixed-capacity circular store of samples with its write cursor.
pub struct SampleBuffer {
    times: Vec<u64>,
    values: Vec<u64>,
    cursor: usize,
}

impl View for SampleBuffer {
    type V = Ring;

    closed spec fn view(&self) -> Ring {
        Ring { times: self.times@, values: self.values@, cursor: self.cursor as int }
    }
}

impl SampleBuffer {
    /// Every buffer holds a well-formed ring.
    #[verifier::type_invariant]
    pub open spec fn wf(&self) -> bool {
        self@.wf()
    }

    /// A buffer of `capacity` slots, all zero, or `None` when `capacity` is zero:
    /// a ring needs a slot for its cursor.
    pub fn new(capacity: usize) -> (r: Option<SampleBuffer>)
        ensures
            r is None <==> capacity == 0,
            r matches Some(b) ==> b.wf() && b@ == Ring::zeroed(capacity as nat),
    {
        if capacity == 0 {
            return None;
        }
        let times: Vec<u64> = vec![0u64; capacity];
        let values: Vec<u64> = vec![0u64; capacity];
        assert(times@ =~= Ring::zeroed(capacity as nat).times);
        assert(values@ =~= Ring::zeroed(capacity as nat).values);
        Some(SampleBuffer { times, values, cursor: 0 })
    }

    /// The number of slots.
    pub fn capacity(&self) -> (r: usize)
        ensures
            self.wf(),
            r == self@.capacity(),
    {
        proof {
            use_type_invariant(self);
        }
        self.times.len()
    }

    /// The slot written last.
    pub fn cursor(&self) -> (r: usize)
        ensures
            self.wf(),
            r == self@.cursor,
    {
        proof {
            use_type_invariant(self);
        }
        self.cursor
    }

    /// Stores one sample: moves the cursor on by one slot, circularly, and puts
    /// `time` and `value` in that slot, over whatever it held. Always succeeds.
    pub fn write(&mut self, time: u64, value: u64)
        ensures
            final(self).wf(),
            final(self)@ == old(self)@.write(time, value),
        no_unwind
    {
        proof {
            use_type_invariant(&*self);
        }
        let capacity: usize = self.times.len();
        let next: usize = (self.cursor + 1) % capacity;
        self.cursor = next;
        self.times[next] = time;
        self.values[next] = value;
    }

    /// A copy of both halves of the ring as they stand: the time words and the
    /// value words, slot by slot. Slot `i` of the two results is the record that
    /// slot `i` of the ring holds.
    pub fn snapshot(&self) -> (r: (Vec<u64>, Vec<u64>))
        ensures
            self.wf(),
            r.0@ == self@.times,
            r.1@ == self@.values,
    {
        proof {
            use_type_invariant(self);
        }
        let times: Vec<u64> = self.times.clone();
        let values: Vec<u64> = self.values.clone();
        assert(times@ =~= self.times@);
        assert(values@ =~= self.values@);
        (times, values)
    }
}

/// A number less than one modulus away from zero reduces in at most one step.
proof fn lemma_mod_near(x: int, m: int)
    requires
        m > 0,
        -m <= x < m,
    ensures
        x % m == (if x >= 0 {
            x
        } else {
            x + m
        }),
{
    if x >= 0 {
        lemma_fundamental_div_mod_converse(x, m, 0, x);
    } else {
        lemma_fundamental_div_mod_converse(x, m, -1, x + m);
    }
}

/// Adding one to a number moves its residue on by one, or wraps it from `m - 1`
/// to 0.
proof fn lemma_mod_successor(x: int, m: int)
    requires
        m > 0,
    ensures
        0 <= x % m < m,
        (x + 1) % m == (if x % m == m - 1 {
            0
        } else {
            x % m + 1
        }),
{
    lemma_fundamental_div_mod(x, m);
    lemma_mod_bound(x, m);
    let q = x / m;
    let r = x % m;
    if r == m - 1 {
        assert(x + 1 == (q + 1) * m + 0) by (nonlinear_arith)
            requires
                x == m * q + r,
                r == m - 1,
        ;
        lemma_fundamental_div_mod_converse(x + 1, m, q + 1, 0);
    } else {
        assert(x + 1 == q * m + (r + 1)) by (nonlinear_arith)
            requires
                x == m * q + r,
        ;
        lemma_fundamental_div_mod_converse(x + 1, m, q, r + 1);
    }
}

/// One write keeps the ring's shape, moves the cursor on by one slot or from
/// the last slot back to slot 0, fills the slot the cursor moves to, and leaves
/// every other slot as it was.
pub proof fn lemma_write_one_slot(ring: Ring, time: u64, value: u64)
    requires
        ring.wf(),
    ensures
        ring.write(time, value).wf(),
        ring.write(time, value).capacity() == ring.capacity(),
        ring.write(time, value).cursor == ring.next_cursor(),
        ring.next_cursor() == (if ring.cursor + 1 < ring.capacity() {
            ring.cursor + 1
        } else {
            0
        }),
        ring.write(time, value).pair(ring.next_cursor()) == (time, value),
        forall|i: int|
            0 <= i < ring.capacity() && i != ring.next_cursor() ==> #[trigger] ring.write(
                time,
                value,
            ).pair(i) == ring.pair(i),
{
    lemma_mod_successor(ring.cursor, ring.capacity() as int);
    lemma_mod_near(ring.cursor, ring.capacity() as int);
}

/// A write makes every slot one write older, but for the slot that it fills,
/// whose age becomes 0. No slot is older than the ring is long.
pub proof fn lemma_write_ages_slots(ring: Ring, time: u64, value: u64, i: int)
    requires
        ring.wf(),
        0 <= i < ring.capacity(),
    ensures
        0 <= ring.age(i) < ring.capacity(),
        ring.write(time, value).age(i) == (if i == ring.next_cursor() {
            0
        } else {
            ring.age(i) + 1
        }),
{
    let m = ring.capacity() as int;
    lemma_write_one_slot(ring, time, value);
    lemma_mod_near(ring.cursor - i, m);
    lemma_mod_near(ring.next_cursor() - i, m);
}

/// What a slot holds after any run of writes. The cursor has moved on by the
/// number of writes, circularly. A slot whose age is less than the number of
/// writes holds, both halves together, the sample written that many writes
/// before the last; a slot that no write of the run reached holds what it held
/// before.
pub proof fn lemma_slot_after_writes(ring: Ring, samples: Seq<(u64, u64)>, i: int)
    requires
        ring.wf(),
        0 <= i < ring.capacity(),
    ensures
        ring.write_all(samples).wf(),
        ring.write_all(samples).capacity() == ring.capacity(),
        ring.write_all(samples).cursor == (ring.cursor + samples.len()) % (ring.capacity() as int),
        0 <= ring.write_all(samples).age(i) < ring.capacity(),
        ring.write_all(samples).age(i) < samples.len() ==> ring.write_all(samples).pair(i)
            == samples[samples.len() - 1 - ring.write_all(samples).age(i)],
        ring.write_all(samples).age(i) >= samples.len() ==> ring.write_all(samples).pair(i)
            == ring.pair(i),
    decreases samples.len(),
{
    let m = ring.capacity() as int;
    if samples.len() == 0 {
        lemma_mod_near(ring.cursor, m);
        lemma_mod_near(ring.cursor - i, m);
    } else {
        let earlier = samples.drop_last();
        let before = ring.write_all(earlier);
        let (time, value) = samples.last();
        lemma_slot_after_writes(ring, earlier, i);
        lemma_write_one_slot(before, time, value);
        lemma_write_ages_slots(before, time, value, i);
        // The cursor: one step on from where the shorter run left it.
        lemma_mod_successor(ring.cursor + earlier.len(), m);
        // The slot: filled by this write, or one write older than before.
        if before.write(time, value).age(i) < samples.len() && i != before.next_cursor() {
            assert(earlier[earlier.len() - 1 - before.age(i)] == samples[samples.len() - 1
                - before.write(time, value).age(i)]);
        }
    }
}

/// Once a ring has been written at least as often as it has slots, it holds
/// exactly the last `capacity` samples of the run, each once. Going back from
/// the cursor, slot by slot and circularly, one meets the last sample, the one
/// before it, and so on for one full turn. Read the other way, every slot holds
/// the sample written as many writes before the last as the slot is old, and no
/// two slots have one age: no slot is left out and no write is held twice.
pub proof fn lemma_full_window(ring: Ring, samples: Seq<(u64, u64)>)
    requires
        ring.wf(),
        samples.len() >= ring.capacity(),
    ensures
        ring.write_all(samples).wf(),
        ring.write_all(samples).capacity() == ring.capacity(),
        ring.write_all(samples).cursor == (ring.cursor + samples.len()) % (ring.capacity() as int),
        forall|k: int|
            0 <= k < ring.capacity() ==> {
                &&& 0 <= #[trigger] ((ring.write_all(samples).cursor - k) % (
                ring.capacity() as int)) < ring.capacity()
                &&& ring.write_all(samples).pair(
                    (ring.write_all(samples).cursor - k) % (ring.capacity() as int),
                ) == samples[samples.len() - 1 - k]
            },
        forall|i: int|
            0 <= i < ring.capacity() ==> {
                &&& 0 <= #[trigger] ring.write_all(samples).age(i) < ring.capacity()
                &&& ring.write_all(samples).pair(i) == samples[samples.len() - 1 - ring.write_all(
                    samples,
                ).age(i)]
            },
        forall|i: int, j: int|
            0 <= i < ring.capacity() && 0 <= j < ring.capacity() && i != j
                ==> #[trigger] ring.write_all(samples).age(i) != #[trigger] ring.write_all(
                samples,
            ).age(j),
{
    let m = ring.capacity() as int;
    let after = ring.write_all(samples);
    lemma_slot_after_writes(ring, samples, 0);
    assert forall|k: int| 0 <= k < m implies {
        &&& 0 <= #[trigger] ((after.cursor - k) % m) < m
        &&& after.pair((after.cursor - k) % m) == samples[samples.len() - 1 - k]
    } by {
        let slot = (after.cursor - k) % m;
        lemma_mod_near(after.cursor - k, m);
        lemma_mod_near(after.cursor - slot, m);
        lemma_slot_after_writes(ring, samples, slot);
    }
    assert forall|i: int| 0 <= i < m implies {
        &&& 0 <= #[trigger] after.age(i) < m
        &&& after.pair(i) == samples[samples.len() - 1 - after.age(i)]
    } by {
        lemma_slot_after_writes(ring, samples, i);
    }
    assert forall|i: int, j: int| 0 <= i < m && 0 <= j < m && i != j implies #[trigger] after.age(
        i,
    ) != #[trigger] after.age(j) by {
        lemma_mod_near(after.cursor - i, m);
        lemma_mod_near(after.cursor - j, m);
    }
}

/// No torn pairs: after any run of writes, the two halves of every slot belong
/// together. A slot holds either the record it held before the run or one of
/// the samples of the run, time and value as they were written.
pub proof fn lemma_pairs_written_together(ring: Ring, samples: Seq<(u64, u64)>, i: int)
    requires
        ring.wf(),
        0 <= i < ring.capacity(),
    ensures
        ring.write_all(samples).pair(i) == ring.pair(i) || exists|j: int|
            0 <= j < samples.len() && ring.write_all(samples).pair(i) == #[trigger] samples[j],
{
    lemma_slot_after_writes(ring, samples, i);
    let after = ring.write_all(samples);
    if after.age(i) < samples.len() {
        assert(after.pair(i) == samples[samples.len() - 1 - after.age(i)]);
    }
}

} // verus!
