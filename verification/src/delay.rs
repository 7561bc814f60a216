//! A delay line: a ring of samples that is written and read once per tick.

use vstd::prelude::*;
use crate::ring::{lemma_ring_index, ring_successor};
use crate::rows::filled;

verus! {

/// The outputs of a delay line that starts from the ring `buf` at position
/// `pos` and is fed the samples `input`, one per tick.
pub open spec fn delay_outputs<T>(buf: Seq<T>, pos: int, input: Seq<T>) -> Seq<T>
    decreases input.len(),
{
    if input.len() == 0 {
        Seq::empty()
    } else {
        let written = buf.update(pos, input[0]);
        let next = ring_successor(pos, buf.len() as int);
        seq![written[next]] + delay_outputs(written, next, input.drop_first())
    }
}

/// A ring of samples with a cursor.  Each tick overwrites the sample under
/// the cursor, moves the cursor on by one and reads the sample it then
/// stands on, which is the oldest in the ring.
pub struct Delay<T> {
    buf: Vec<T>,
    pos: usize,
}

impl<T> Delay<T> {
    #[verifier::type_invariant]
    spec fn inv(&self) -> bool {
        self.pos < self.buf@.len()
    }

    /// The samples in the ring, by position.
    pub closed spec fn buf_view(&self) -> Seq<T> {
        self.buf@
    }

    /// The position of the cursor.
    pub closed spec fn pos_view(&self) -> int {
        self.pos as int
    }
}

impl<T: Copy> Delay<T> {
    /// A delay line of `len` samples, all equal to `silence`, with the
    /// cursor on the first.
    pub fn new(len: usize, silence: T) -> (d: Self)
        requires
            len > 0,
        ensures
            d.buf_view() == Seq::new(len as nat, |i: int| silence),
            d.pos_view() == 0,
    {
        Delay { buf: filled(silence, len), pos: 0 }
    }

    /// Writes `sig` under the cursor, moves the cursor on and returns the
    /// sample it comes to stand on.
    pub fn tick(&mut self, sig: T) -> (out: T)
        ensures
            0 <= old(self).pos_view() < old(self).buf_view().len(),
            final(self).buf_view() == old(self).buf_view().update(old(self).pos_view(), sig),
            final(self).pos_view() == ring_successor(
                old(self).pos_view(),
                old(self).buf_view().len() as int,
            ),
            out == final(self).buf_view()[final(self).pos_view()],
    {
        proof {
            use_type_invariant(&*self);
        }
        let len: usize = self.buf.len();
        self.buf[self.pos] = sig;
        let next: usize = if self.pos + 1 >= len {
            0
        } else {
            self.pos + 1
        };
        self.pos = next;
        self.buf[self.pos]
    }

    /// Number of samples in the ring.
    pub fn len(&self) -> (n: usize)
        ensures
            n == self.buf_view().len(),
            n > 0,
    {
        proof {
            use_type_invariant(self);
        }
        self.buf.len()
    }
}

/// A delay line of `len` samples delays its input by `len - 1` ticks: from
/// tick `len - 1` on, the output is the sample that was fed in `len - 1`
/// ticks earlier.  Before that it is what the ring held at the start, read
/// in ring order from the position behind the cursor.
pub proof fn lemma_delay_outputs<T>(buf: Seq<T>, pos: int, input: Seq<T>, k: int)
    requires
        0 <= pos < buf.len(),
        0 <= k < input.len(),
    ensures
        delay_outputs(buf, pos, input).len() == input.len(),
        delay_outputs(buf, pos, input)[k] == (if k + 1 >= buf.len() {
            input[k + 1 - buf.len()]
        } else {
            buf[(pos + k + 1) % (buf.len() as int)]
        }),
    decreases input.len(),
{
    let len = buf.len() as int;
    let written = buf.update(pos, input[0]);
    let next = ring_successor(pos, len);
    let rest = input.drop_first();
    lemma_delay_outputs_len(written, next, rest);
    lemma_ring_index(pos + 1, len);
    if k > 0 {
        lemma_delay_outputs(written, next, rest, k - 1);
        assert(delay_outputs(buf, pos, input)[k] == delay_outputs(written, next, rest)[k - 1]);
        if k >= len {
            assert(rest[k - len] == input[k + 1 - len]);
        } else {
            lemma_ring_index(next + k, len);
            lemma_ring_index(pos + k + 1, len);
        }
    }
}

/// There is one output for each input sample.
proof fn lemma_delay_outputs_len<T>(buf: Seq<T>, pos: int, input: Seq<T>)
    ensures
        delay_outputs(buf, pos, input).len() == input.len(),
    decreases input.len(),
{
    if input.len() > 0 {
        lemma_delay_outputs_len(
            buf.update(pos, input[0]),
            ring_successor(pos, buf.len() as int),
            input.drop_first(),
        );
    }
}

} // verus!
