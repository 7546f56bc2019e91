//! Ring buffer behind the delay-based effects.
//!
//! The buffer is modelled as its history: `history[k]` is the sample that
//! was written `k + 1` writes ago (slots that were never written hold the
//! fill value). Writing shifts a new sample in at the front; reading at a
//! delay of `d` samples returns the sample written `d` writes ago.

use vstd::prelude::*;

verus! {

/// The history after `x` is shifted in: `x` first, the oldest sample gone.
pub open spec fn shift_in<T>(history: Seq<T>, x: T) -> Seq<T> {
    seq![x] + history.take(history.len() - 1)
}

/// The sample a read at delay `d` returns from a history: the sample written
/// `d` writes ago, delays taken modulo the capacity (a delay of zero reads
/// the oldest slot, the one the next write replaces).
pub open spec fn delayed<T>(history: Seq<T>, d: int) -> T {
    history[(d + history.len() - 1) % (history.len() as int)]
}

/// The history after the samples of `writes` are written in order.
pub open spec fn write_all<T>(history: Seq<T>, writes: Seq<T>) -> Seq<T>
    decreases writes.len(),
{
    if writes.len() == 0 {
        history
    } else {
        shift_in(write_all(history, writes.drop_last()), writes.last())
    }
}

/// Writing keeps the number of slots.
pub proof fn write_all_keeps_capacity<T>(history: Seq<T>, writes: Seq<T>)
    requires
        history.len() >= 1,
    ensures
        write_all(history, writes).len() == history.len(),
    decreases writes.len(),
{
    if writes.len() > 0 {
        write_all_keeps_capacity(history, writes.drop_last());
    }
}

/// What a read gives back of earlier writes: after the samples `writes` are
/// written in order, a read at delay `d` (from 1 up to the capacity) returns
/// the sample written `d` writes ago, `writes[writes.len() - d]`, and, when
/// fewer than `d` samples were written, what a read at the remaining delay
/// returned before them.
pub proof fn read_after_writes<T>(history: Seq<T>, writes: Seq<T>, d: int)
    requires
        history.len() >= 1,
        1 <= d <= history.len(),
    ensures
        delayed(write_all(history, writes), d) == if d <= writes.len() {
            writes[writes.len() - d]
        } else {
            delayed(history, d - writes.len())
        },
    decreases writes.len(),
{
    let n = history.len() as int;
    if writes.len() == 0 {
        assert((d + n - 1) % n == (d - 0 + n - 1) % n);
    } else {
        let prev = writes.drop_last();
        let h = write_all(history, prev);
        write_all_keeps_capacity(history, prev);
        let x = writes.last();
        let s = shift_in(h, x);
        assert(s.len() == n);
        assert((d + n - 1) % n == d - 1) by (nonlinear_arith)
            requires
                1 <= d <= n,
        ;
        if d == 1 {
            assert(s[0] == x);
        } else {
            read_after_writes(history, prev, d - 1);
            assert((d - 1 + n - 1) % n == d - 2) by (nonlinear_arith)
                requires
                    2 <= d <= n,
            ;
            assert(s[d - 1] == h[d - 2]);
            if d <= writes.len() {
                assert(prev[prev.len() - (d - 1)] == writes[writes.len() - d]);
            } else {
                assert(d - 1 - prev.len() == d - writes.len());
            }
        }
    }
}

/// A ring buffer of samples with a write position.
#[derive(Debug, Clone)]
pub struct DelayLine<T> {
    buffer: Vec<T>,
    write_pos: usize,
}

impl<T> DelayLine<T> {
    /// The buffer holds at least four slots and the write position is one of
    /// them.
    pub closed spec fn well_formed(&self) -> bool {
        &&& 4 <= self.buffer.len() < usize::MAX / 2
        &&& self.write_pos < self.buffer.len()
    }

    /// Number of samples the line holds.
    pub closed spec fn spec_capacity(&self) -> nat {
        self.buffer.len() as nat
    }

    /// Slot that the next write replaces.
    pub closed spec fn spec_write_position(&self) -> nat {
        self.write_pos as nat
    }
}

impl<T> View for DelayLine<T> {
    type V = Seq<T>;

    /// `self@[k]` is the sample written `k + 1` writes ago.
    closed spec fn view(&self) -> Seq<T> {
        let n = self.buffer.len() as int;
        Seq::new(
            self.buffer.len() as nat,
            |k: int| self.buffer@[(self.write_pos + n - 1 - k) % n],
        )
    }
}

impl<T: Copy> DelayLine<T> {
    /// Creates a delay line of `max_samples` samples (at least 4), every slot
    /// holding `fill`.
    pub fn new(max_samples: usize, fill: T) -> (line: Self)
        requires
            max_samples < usize::MAX / 2,
        ensures
            line.well_formed(),
            line.spec_capacity() == if max_samples < 4 { 4 } else { max_samples },
            line.spec_write_position() == 0,
            line@.len() == line.spec_capacity(),
            forall|k: int| 0 <= k < line@.len() ==> line@[k] == fill,
    {
        let size = if max_samples < 4 { 4 } else { max_samples };
        let mut buffer: Vec<T> = Vec::new();
        while buffer.len() < size
            invariant
                buffer.len() <= size,
                forall|k: int| 0 <= k < buffer.len() ==> buffer@[k] == fill,
            decreases size - buffer.len(),
        {
            buffer.push(fill);
        }
        DelayLine { buffer, write_pos: 0 }
    }

    /// Number of samples the line holds.
    pub fn capacity(&self) -> (n: usize)
        requires
            self.well_formed(),
        ensures
            n == self.spec_capacity(),
            n == self@.len(),
            4 <= n < usize::MAX / 2,
    {
        self.buffer.len()
    }

    /// Slot that the next write replaces.
    pub fn write_position(&self) -> (p: usize)
        requires
            self.well_formed(),
        ensures
            p == self.spec_write_position(),
            p < self.spec_capacity(),
    {
        self.write_pos
    }

    /// Writes a sample and advances the write position.
    pub fn write(&mut self, sample: T)
        requires
            old(self).well_formed(),
        ensures
            final(self).well_formed(),
            final(self)@ == shift_in(old(self)@, sample),
            final(self).spec_capacity() == old(self).spec_capacity(),
            final(self).spec_write_position() as int == ((old(self).spec_write_position() + 1) as int) % (
            old(self).spec_capacity() as int),
    {
        let ghost h = self@;
        let ghost wp = self.write_pos as int;
        let n = self.buffer.len();
        let pos = self.write_pos;
        let next = (pos + 1) % n;
        self.buffer.set(pos, sample);
        self.write_pos = next;
        proof {
            let nn = n as int;
            assert forall|k: int| 0 <= k < nn implies #[trigger] self@[k] == shift_in(h, sample)[k] by {
                if k == 0 {
                    assert((next + nn - 1 - k) % nn == wp) by (nonlinear_arith)
                        requires
                            next == (wp + 1) % nn,
                            0 <= wp < nn,
                            k == 0,
                    ;
                } else {
                    assert((next + nn - 1 - k) % nn == (wp + nn - 1 - (k - 1)) % nn) by (nonlinear_arith)
                        requires
                            next == (wp + 1) % nn,
                            0 <= wp < nn,
                            1 <= k < nn,
                    ;
                    assert((wp + nn - 1 - (k - 1)) % nn != wp) by (nonlinear_arith)
                        requires
                            0 <= wp < nn,
                            1 <= k < nn,
                    ;
                }
            }
            assert(self@ =~= shift_in(h, sample));
        }
    }

    /// Reads the sample written `delay_samples` writes ago (delays are taken
    /// modulo the capacity; a delay of zero reads the slot the next write
    /// replaces).
    pub fn read(&self, delay_samples: usize) -> (sample: T)
        requires
            self.well_formed(),
            delay_samples <= self.spec_write_position() + self.spec_capacity(),
        ensures
            sample == delayed(self@, delay_samples as int),
    {
        let n = self.buffer.len();
        let read_pos = (self.write_pos + n - delay_samples) % n;
        proof {
            let nn = n as int;
            let wp = self.write_pos as int;
            let d = delay_samples as int;
            let k = (d + nn - 1) % nn;
            assert(0 <= k < nn) by (nonlinear_arith)
                requires
                    nn > 0,
                    k == (d + nn - 1) % nn,
                    d >= 0,
            ;
            assert((wp + nn - 1 - k) % nn == (wp + nn - d) % nn) by (nonlinear_arith)
                requires
                    nn > 0,
                    0 <= wp < nn,
                    0 <= d <= wp + nn,
                    k == (d + nn - 1) % nn,
            ;
        }
        self.buffer[read_pos]
    }
}

} // verus!
