use vstd::prelude::*;

use crate::bytes::copy_range;

verus! {

/// Bytes in the length prefix of an ingest frame.
pub const PREFIX_LEN: usize = 8;

/// The unsigned integer that `s` encodes, most significant byte first.
pub open spec fn be_value(s: Seq<u8>) -> nat
    decreases s.len(),
{
    if s.len() == 0 {
        0
    } else {
        be_value(s.drop_last()) * 256 + s.last() as nat
    }
}

pub open spec fn pow256(n: nat) -> nat
    decreases n,
{
    if n == 0 {
        1
    } else {
        256 * pow256((n - 1) as nat)
    }
}

/// The payload length announced by a buffer that starts with a full prefix.
pub open spec fn announced_len(s: Seq<u8>) -> nat {
    be_value(s.subrange(0, PREFIX_LEN as int))
}

/// A buffer holds a whole frame: its prefix and the payload that it announces.
pub open spec fn frame_ready(s: Seq<u8>) -> bool {
    s.len() >= PREFIX_LEN && s.len() - PREFIX_LEN >= announced_len(s)
}

/// Where the first frame of a buffer ends.
pub open spec fn frame_end(s: Seq<u8>) -> int {
    PREFIX_LEN + announced_len(s)
}

/// Reads the big-endian length prefix at the start of `b`.
pub fn read_length_prefix(b: &[u8]) -> (r: u64)
    requires
        b@.len() >= PREFIX_LEN,
    ensures
        r == announced_len(b@),
{
    proof {
        reveal_with_fuel(pow256, 9);
    }
    let mut acc: u64 = 0;
    let mut i: usize = 0;
    while i < PREFIX_LEN
        invariant
            i <= PREFIX_LEN <= b@.len(),
            acc == be_value(b@.subrange(0, i as int)),
            acc < pow256(i as nat),
            pow256(8) == 0x1_0000_0000_0000_0000,
        decreases PREFIX_LEN - i,
    {
        let ghost p = pow256(i as nat);
        let x = b[i];
        assert(b@.subrange(0, i + 1).drop_last() =~= b@.subrange(0, i as int));
        assert(p * 256 <= pow256(8)) by {
            lemma_pow256_mono(i as nat + 1, 8);
        }
        assert(acc * 256 + x < p * 256) by (nonlinear_arith)
            requires
                acc < p,
                x < 256,
        ;
        acc = acc * 256 + x as u64;
        i = i + 1;
    }
    assert(b@.subrange(0, PREFIX_LEN as int) == b@.subrange(0, i as int));
    acc
}

proof fn lemma_pow256_mono(a: nat, b: nat)
    requires
        a <= b,
    ensures
        pow256(a) <= pow256(b),
    decreases b,
{
    if a < b {
        lemma_pow256_mono(a, (b - 1) as nat);
        assert(pow256((b - 1) as nat) >= 1) by {
            lemma_pow256_pos((b - 1) as nat);
        }
    }
}

proof fn lemma_pow256_pos(n: nat)
    ensures
        pow256(n) >= 1,
    decreases n,
{
    if n > 0 {
        lemma_pow256_pos((n - 1) as nat);
    }
}

/// Splits a byte stream into the frames of the ingest protocol: each frame is
/// an 8-byte big-endian length `L` followed by `L` bytes of payload.
pub struct FrameAssembler {
    buf: Vec<u8>,
}

impl View for FrameAssembler {
    type V = Seq<u8>;

    /// The bytes received and not yet taken as frames.
    closed spec fn view(&self) -> Seq<u8> {
        self.buf@
    }
}

impl FrameAssembler {
    /// An assembler with no pending bytes.
    pub fn new() -> (a: FrameAssembler)
        ensures
            a@ == Seq::<u8>::empty(),
    {
        FrameAssembler { buf: Vec::new() }
    }

    /// Appends bytes received from the stream.
    pub fn push_bytes(&mut self, data: &[u8])
        ensures
            final(self)@ == old(self)@ + data@,
    {
        let mut k: usize = 0;
        let ghost start = self.buf@;
        while k < data.len()
            invariant
                k <= data@.len(),
                self.buf@ == start + data@.subrange(0, k as int),
            decreases data@.len() - k,
        {
            self.buf.push(data[k]);
            k = k + 1;
            assert(self.buf@ =~= start + data@.subrange(0, k as int));
        }
        assert(data@.subrange(0, k as int) =~= data@);
    }

    /// Whether the pending bytes hold a whole frame.
    pub fn has_frame(&self) -> (r: bool)
        ensures
            r == frame_ready(self@),
    {
        if self.buf.len() < PREFIX_LEN {
            return false;
        }
        let len = read_length_prefix(self.buf.as_slice());
        (self.buf.len() - PREFIX_LEN) as u64 >= len
    }

    /// Takes the payload of the first frame, if the pending bytes hold all of
    /// it; the bytes after it stay pending. Otherwise nothing changes.
    pub fn next_frame(&mut self) -> (r: Option<Vec<u8>>)
        ensures
            frame_ready(old(self)@) ==> r is Some && r->Some_0@ == old(self)@.subrange(
                PREFIX_LEN as int,
                frame_end(old(self)@),
            ) && final(self)@ == old(self)@.subrange(frame_end(old(self)@), old(self)@.len() as int),
            !frame_ready(old(self)@) ==> r is None && final(self)@ == old(self)@,
    {
        if !self.has_frame() {
            return None;
        }
        let len = read_length_prefix(self.buf.as_slice());
        let n = self.buf.len();
        assert(len <= n - PREFIX_LEN);
        let end: usize = PREFIX_LEN + len as usize;
        let payload = copy_range(&self.buf, PREFIX_LEN, end);
        self.buf = copy_range(&self.buf, end, n);
        Some(payload)
    }
}

} // verus!
