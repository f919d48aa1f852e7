//! The stream hub: the handles through which other components reach the
//! current child, and the history of its output.
//!
//! It is generic over the stdin sink and the output subscription, so that the
//! caller chooses the channels.
use vstd::prelude::*;
use vstd::string::StringSliceAdditionalSpecFns;
use vstd::utf8::encode_utf8;
use crate::history::{HistoryRing, last_bytes};

verus! {

/// What a control client that connects while no child is up receives.
pub const UNINITIALIZED: &'static str = "Uninitialized";

/// The characters of Unicode's White_Space property.
pub open spec fn is_white_space(c: char) -> bool {
    let u = c as u32;
    ||| 0x09 <= u <= 0x0d
    ||| u == 0x20 || u == 0x85 || u == 0xa0 || u == 0x1680
    ||| 0x2000 <= u <= 0x200a
    ||| u == 0x2028 || u == 0x2029 || u == 0x202f || u == 0x205f || u == 0x3000
}

/// `s` without its trailing white space.
pub open spec fn trim_end_of(s: Seq<char>) -> Seq<char>
    decreases s.len(),
{
    if s.len() > 0 && is_white_space(s.last()) {
        trim_end_of(s.drop_last())
    } else {
        s
    }
}

/// Relies on `str::trim_end`: trailing characters of the White_Space property go.
#[verifier::external_body]
fn trim_end(s: &str) -> (r: &str)
    ensures
        r@ == trim_end_of(s@),
{
    s.trim_end()
}

/// The bytes of `s`.
fn bytes_of(s: &str) -> (r: Vec<u8>)
    ensures
        r@ == s.spec_bytes(),
{
    let b = s.as_bytes();
    let mut r: Vec<u8> = Vec::new();
    let mut i: usize = 0;
    while i < b.len()
        invariant
            b@ == s.spec_bytes(),
            0 <= i <= b@.len(),
            r@ == b@.subrange(0, i as int),
        decreases b@.len() - i,
    {
        r.push(b[i]);
        i = i + 1;
        assert(r@ =~= b@.subrange(0, i as int));
    }
    assert(r@ =~= b@);
    r
}

/// The bytes written to the child's stdin for one input line: the line
/// without its trailing white space, then exactly one newline.
pub fn frame_input_line(line: &str) -> (r: Vec<u8>)
    ensures
        r@ == encode_utf8(trim_end_of(line@)) + seq![10u8],
{
    let mut r = bytes_of(trim_end(line));
    r.push(10u8);
    r
}

/// The stdin sink and output subscription of the current child, and the
/// history of the output of all children.
pub struct StreamHub<S, R> {
    stdin: Option<S>,
    output: Option<R>,
    history: HistoryRing,
}

impl<S, R> StreamHub<S, R> {
    pub closed spec fn sink(&self) -> Option<S> {
        self.stdin
    }

    pub closed spec fn subscription(&self) -> Option<R> {
        self.output
    }

    /// Every byte of output recorded, oldest first.
    pub closed spec fn written(&self) -> Seq<u8> {
        self.history.written()
    }

    /// How many bytes of history are kept.
    pub closed spec fn capacity(&self) -> nat {
        self.history.capacity()
    }

    pub closed spec fn wf(&self) -> bool {
        self.history.wf()
    }

    /// A hub with no child and an empty history of `cache_size` bytes.
    pub fn new(cache_size: usize) -> (r: Self)
        ensures
            r.wf(),
            r.sink() is None,
            r.subscription() is None,
            r.capacity() == cache_size,
            r.written() == Seq::<u8>::empty(),
    {
        StreamHub { stdin: None, output: None, history: HistoryRing::new(cache_size) }
    }

    /// Puts the handles of a new child in place of any earlier ones.
    pub fn install(&mut self, stdin: S, output: R)
        requires
            old(self).wf(),
        ensures
            final(self).wf(),
            final(self).sink() == Some(stdin),
            final(self).subscription() == Some(output),
            final(self).written() == old(self).written(),
            final(self).capacity() == old(self).capacity(),
    {
        self.stdin = Some(stdin);
        self.output = Some(output);
    }

    /// Drops both handles; the history stays.
    pub fn tear_down(&mut self)
        requires
            old(self).wf(),
        ensures
            final(self).wf(),
            final(self).sink() is None,
            final(self).subscription() is None,
            final(self).written() == old(self).written(),
            final(self).capacity() == old(self).capacity(),
    {
        self.stdin = None;
        self.output = None;
    }

    /// The current child's stdin sink, if there is one.
    pub fn stdin_handle(&self) -> (r: Option<&S>)
        ensures
            r is Some <==> self.sink() is Some,
            r is Some ==> *r.unwrap() == self.sink().unwrap(),
    {
        match &self.stdin {
            Some(s) => Some(s),
            None => None,
        }
    }

    /// The current child's output subscription, if there is one.
    pub fn output_subscription(&self) -> (r: Option<&R>)
        ensures
            r is Some <==> self.subscription() is Some,
            r is Some ==> *r.unwrap() == self.subscription().unwrap(),
    {
        match &self.output {
            Some(o) => Some(o),
            None => None,
        }
    }

    /// Appends one line of the child's output, as read, to the history.
    pub fn record_output(&mut self, line: &str)
        requires
            old(self).wf(),
        ensures
            final(self).wf(),
            final(self).sink() == old(self).sink(),
            final(self).subscription() == old(self).subscription(),
            final(self).written() == old(self).written() + line.spec_bytes(),
            final(self).capacity() == old(self).capacity(),
    {
        self.history.write(line);
    }

    /// The history, oldest first: the last `capacity` bytes written.
    pub fn snapshot_history(&self) -> (r: Vec<u8>)
        requires
            self.wf(),
        ensures
            r@ == last_bytes(self.written(), self.capacity()),
    {
        self.history.snapshot_history()
    }

    /// What a newly connected control client is sent first: the history where
    /// the child's handles are both in place, else `None`, and the client is
    /// sent `UNINITIALIZED` instead.
    pub fn client_prelude(&self) -> (r: Option<Vec<u8>>)
        requires
            self.wf(),
        ensures
            r is Some <==> (self.sink() is Some && self.subscription() is Some),
            r is Some ==> r.unwrap()@ == last_bytes(self.written(), self.capacity()),
    {
        if self.stdin.is_some() && self.output.is_some() {
            Some(self.snapshot_history())
        } else {
            None
        }
    }
}

} // verus!
