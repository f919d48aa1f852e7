//! The history ring: the most recent bytes of the child's output, in a fixed
//! number of bytes. It is byte-addressed, so a snapshot may begin in the
//! middle of a line or of a character.
use vstd::prelude::*;
use vstd::string::StringSliceAdditionalSpecFns;
use std::collections::VecDeque;

verus! {

/// The last `n` bytes of `w`, or all of it where it is shorter.
pub open spec fn last_bytes(w: Seq<u8>, n: nat) -> Seq<u8> {
    if w.len() <= n {
        w
    } else {
        w.subrange(w.len() - n, w.len() as int)
    }
}

proof fn lemma_last_bytes_push(w: Seq<u8>, b: u8, n: nat)
    requires
        n > 0,
    ensures
        last_bytes(w.push(b), n) == if last_bytes(w, n).len() == n {
            last_bytes(w, n).drop_first().push(b)
        } else {
            last_bytes(w, n).push(b)
        },
{
    let q = last_bytes(w, n);
    if w.len() < n {
        assert(last_bytes(w.push(b), n) =~= q.push(b));
    } else {
        assert(q.len() == n);
        assert(last_bytes(w.push(b), n) =~= q.drop_first().push(b));
    }
}

/// The most recent bytes of the child's output, in a fixed number of bytes.
pub struct HistoryRing {
    bytes: VecDeque<u8>,
    capacity: usize,
    written: Ghost<Seq<u8>>,
}

impl HistoryRing {
    /// Every byte written since the ring was made, oldest first.
    pub closed spec fn written(&self) -> Seq<u8> {
        self.written@
    }

    /// The number of bytes the ring keeps.
    pub closed spec fn capacity(&self) -> nat {
        self.capacity as nat
    }

    pub closed spec fn wf(&self) -> bool {
        self.bytes@ == last_bytes(self.written@, self.capacity as nat)
    }

    /// An empty ring that keeps the last `capacity` bytes.
    pub fn new(capacity: usize) -> (r: HistoryRing)
        ensures
            r.wf(),
            r.capacity() == capacity,
            r.written() == Seq::<u8>::empty(),
    {
        HistoryRing { bytes: VecDeque::new(), capacity, written: Ghost(Seq::empty()) }
    }

    /// Appends the bytes of `text`, overwriting the oldest ones beyond the capacity.
    pub fn write(&mut self, text: &str)
        requires
            old(self).wf(),
        ensures
            final(self).wf(),
            final(self).capacity() == old(self).capacity(),
            final(self).written() == old(self).written() + text.spec_bytes(),
    {
        let b = text.as_bytes();
        let ghost w0 = self.written@;
        let mut i: usize = 0;
        while i < b.len()
            invariant
                b@ == text.spec_bytes(),
                0 <= i <= b@.len(),
                self.capacity == old(self).capacity,
                self.written@ == w0 + b@.subrange(0, i as int),
                self.wf(),
            decreases b@.len() - i,
        {
            let byte = b[i];
            let ghost w = self.written@;
            if self.capacity > 0 {
                proof {
                    lemma_last_bytes_push(w, byte, self.capacity as nat);
                }
                if self.bytes.len() == self.capacity {
                    let _ = self.bytes.pop_front();
                }
                self.bytes.push_back(byte);
            }
            self.written = Ghost(w.push(byte));
            assert(self.bytes@ =~= last_bytes(self.written@, self.capacity as nat));
            i = i + 1;
            assert(self.written@ =~= w0 + b@.subrange(0, i as int));
        }
        assert(b@.subrange(0, i as int) =~= b@);
    }

    /// The bytes the ring holds, oldest first: the last `capacity` bytes written.
    pub fn snapshot_history(&self) -> (r: Vec<u8>)
        requires
            self.wf(),
        ensures
            r@ == last_bytes(self.written(), self.capacity()),
    {
        let mut r: Vec<u8> = Vec::new();
        let mut i: usize = 0;
        while i < self.bytes.len()
            invariant
                0 <= i <= self.bytes@.len(),
                r@ == self.bytes@.subrange(0, i as int),
            decreases self.bytes@.len() - i,
        {
            r.push(self.bytes[i]);
            i = i + 1;
            assert(r@ =~= self.bytes@.subrange(0, i as int));
        }
        assert(r@ =~= self.bytes@);
        r
    }
}

/// The history never holds more than its capacity, and what it gives back is
/// what was written, oldest first: the tail of the bytes written, all of them
/// while they fit.
pub proof fn lemma_history_is_written_tail(w: Seq<u8>, cap: nat)
    ensures
        ({
            let r = last_bytes(w, cap);
            &&& r.len() <= cap
            &&& r.len() == if w.len() <= cap { w.len() } else { cap }
            &&& r == w.subrange(w.len() - r.len(), w.len() as int)
            &&& (w.len() <= cap ==> r == w)
        }),
{
    if w.len() <= cap {
        assert(w.subrange(0, w.len() as int) =~= w);
    }
}

} // verus!
