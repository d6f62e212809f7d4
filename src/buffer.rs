//! A byte stream for saving and restoring emulator state: values are
//! appended little-endian and read back in the same order.
use vstd::prelude::*;

verus! {

/// The little-endian bytes of a 16-bit value.
pub open spec fn le16(v: u16) -> Seq<u8> {
    seq![(v & 0xff) as u8, ((v >> 8u16) & 0xff) as u8]
}

/// The little-endian bytes of a 32-bit value.
pub open spec fn le32(v: u32) -> Seq<u8> {
    seq![
        (v & 0xff) as u8,
        ((v >> 8u32) & 0xff) as u8,
        ((v >> 16u32) & 0xff) as u8,
        ((v >> 24u32) & 0xff) as u8,
    ]
}

/// The little-endian bytes of a 64-bit value.
pub open spec fn le64(v: u64) -> Seq<u8> {
    le32((v & 0xffff_ffff) as u32) + le32((v >> 32u64) as u32)
}

/// The one byte that stands for a flag.
pub open spec fn bool_byte(b: bool) -> Seq<u8> {
    seq![if b { 1u8 } else { 0u8 }]
}

/// The bytes of a sequence of 32-bit values, each little-endian.
pub open spec fn le32_seq(s: Seq<u32>) -> Seq<u8>
    decreases s.len(),
{
    if s.len() == 0 {
        Seq::empty()
    } else {
        le32_seq(s.drop_last()) + le32(s.last())
    }
}

proof fn lemma_le16_round_trip(v: u16)
    ensures
        ((v & 0xff) as u8 as u16) | ((((v >> 8u16) & 0xff) as u8 as u16) << 8u16) == v,
{
    assert(((v & 0xff) as u8 as u16) | ((((v >> 8u16) & 0xff) as u8 as u16) << 8u16) == v)
        by (bit_vector);
}

proof fn lemma_le32_round_trip(v: u32)
    ensures
        ((v & 0xff) as u8 as u32) | ((((v >> 8u32) & 0xff) as u8 as u32) << 8u32) | ((((v
            >> 16u32) & 0xff) as u8 as u32) << 16u32) | ((((v >> 24u32) & 0xff) as u8 as u32)
            << 24u32) == v,
{
    assert(((v & 0xff) as u8 as u32) | ((((v >> 8u32) & 0xff) as u8 as u32) << 8u32) | ((((v
        >> 16u32) & 0xff) as u8 as u32) << 16u32) | ((((v >> 24u32) & 0xff) as u8 as u32)
        << 24u32) == v) by (bit_vector);
}

proof fn lemma_le64_round_trip(v: u64)
    ensures
        (((v & 0xffff_ffff) as u32) as u64) | ((((v >> 32u64) as u32) as u64) << 32u64) == v,
{
    assert((((v & 0xffff_ffff) as u32) as u64) | ((((v >> 32u64) as u32) as u64) << 32u64) == v)
        by (bit_vector);
}

/// A growable byte stream with a read cursor. Reading past the end yields
/// zeros and raises `overrun`, which stays raised.
pub struct Buffer {
    pub data: Vec<u8>,
    pub index: usize,
    pub overrun: bool,
}

impl Buffer {
    /// The bytes not yet read.
    pub open spec fn rest(&self) -> Seq<u8> {
        self.data@.subrange(self.index as int, self.data@.len() as int)
    }

    /// The cursor stands inside the data or at its end.
    pub open spec fn wf(&self) -> bool {
        self.index <= self.data@.len()
    }

    /// `new` is `old` after consuming the bytes `b`, or `new` is marked as
    /// failed (too few bytes, or a value out of range). A raised mark stays
    /// raised.
    pub open spec fn consumed(old: Buffer, new: Buffer, b: Seq<u8>) -> bool {
        &&& new.data@ == old.data@
        &&& new.wf()
        &&& {
            ||| Buffer::advanced(old, new, b)
            ||| new.overrun && old.index <= new.index
        }
    }

    /// `new` is `old` with the bytes `b` read from its cursor.
    pub open spec fn advanced(old: Buffer, new: Buffer, b: Seq<u8>) -> bool {
        &&& old.index + b.len() <= old.data@.len()
        &&& new.index == old.index + b.len()
        &&& (old.overrun ==> new.overrun)
        &&& old.data@.subrange(old.index as int, new.index as int) == b
    }

    pub fn new_buffer() -> (r: Buffer)
        ensures
            r.data@.len() == 0,
            r.index == 0,
            !r.overrun,
    {
        Buffer { data: Vec::new(), index: 0, overrun: false }
    }

    pub fn new_from_bytes(bytes: Vec<u8>) -> (r: Buffer)
        ensures
            r.data@ == bytes@,
            r.index == 0,
            !r.overrun,
    {
        Buffer { data: bytes, index: 0, overrun: false }
    }

    pub fn write_bool(&mut self, val: bool)
        ensures
            final(self).data@ == old(self).data@ + bool_byte(val),
            final(self).index == old(self).index,
            final(self).overrun == old(self).overrun,
    {
        self.data.push(if val { 1u8 } else { 0u8 });
    }

    pub fn write_u8(&mut self, val: u8)
        ensures
            final(self).data@ == old(self).data@.push(val),
            final(self).index == old(self).index,
            final(self).overrun == old(self).overrun,
    {
        self.data.push(val);
    }

    pub fn write_u16(&mut self, val: u16)
        ensures
            final(self).data@ == old(self).data@ + le16(val),
            final(self).index == old(self).index,
            final(self).overrun == old(self).overrun,
    {
        self.data.push((val & 0xff) as u8);
        self.data.push(((val >> 8u16) & 0xff) as u8);
        assert(self.data@ =~= old(self).data@ + le16(val));
    }

    pub fn write_u32(&mut self, val: u32)
        ensures
            final(self).data@ == old(self).data@ + le32(val),
            final(self).index == old(self).index,
            final(self).overrun == old(self).overrun,
    {
        self.data.push((val & 0xff) as u8);
        self.data.push(((val >> 8u32) & 0xff) as u8);
        self.data.push(((val >> 16u32) & 0xff) as u8);
        self.data.push(((val >> 24u32) & 0xff) as u8);
        assert(self.data@ =~= old(self).data@ + le32(val));
    }

    pub fn write_u64(&mut self, val: u64)
        ensures
            final(self).data@ == old(self).data@ + le64(val),
            final(self).index == old(self).index,
            final(self).overrun == old(self).overrun,
    {
        self.write_u32((val & 0xffff_ffff) as u32);
        self.write_u32((val >> 32u64) as u32);
        assert(self.data@ =~= old(self).data@ + le64(val));
    }

    pub fn write_u8_arr(&mut self, arr: &[u8])
        ensures
            final(self).data@ == old(self).data@ + arr@,
            final(self).index == old(self).index,
            final(self).overrun == old(self).overrun,
    {
        let mut i: usize = 0;
        while i < arr.len()
            invariant
                i <= arr@.len(),
                self.data@ == old(self).data@ + arr@.subrange(0, i as int),
                self.index == old(self).index,
                self.overrun == old(self).overrun,
            decreases arr@.len() - i,
        {
            self.data.push(arr[i]);
            i = i + 1;
            assert(self.data@ =~= old(self).data@ + arr@.subrange(0, i as int));
        }
        assert(arr@.subrange(0, arr@.len() as int) =~= arr@);
    }

    pub fn write_u32_arr(&mut self, arr: &[u32])
        ensures
            final(self).data@ == old(self).data@ + le32_seq(arr@),
            final(self).index == old(self).index,
            final(self).overrun == old(self).overrun,
    {
        let mut i: usize = 0;
        while i < arr.len()
            invariant
                i <= arr@.len(),
                self.data@ == old(self).data@ + le32_seq(arr@.subrange(0, i as int)),
                self.index == old(self).index,
                self.overrun == old(self).overrun,
            decreases arr@.len() - i,
        {
            self.write_u32(arr[i]);
            i = i + 1;
            assert(arr@.subrange(0, i as int).drop_last() =~= arr@.subrange(0, i - 1));
            assert(self.data@ =~= old(self).data@ + le32_seq(arr@.subrange(0, i as int)));
        }
        assert(arr@.subrange(0, arr@.len() as int) =~= arr@);
    }

    pub fn read_u8(&mut self) -> (r: u8)
        requires
            old(self).wf(),
        ensures
            Buffer::consumed(*old(self), *final(self), seq![r]),
            old(self).index >= old(self).data@.len() ==> r == 0,
            old(self).index < old(self).data@.len() ==> r == old(self).data@[old(self).index as int],
            old(self).index + 1 <= old(self).data@.len() ==> final(self).overrun == old(self).overrun
                && Buffer::advanced(*old(self), *final(self), seq![r]),
    {
        if self.index < self.data.len() {
            let val = self.data[self.index];
            self.index = self.index + 1;
            assert(old(self).data@.subrange(old(self).index as int, self.index as int) =~= seq![
                val,
            ]);
            val
        } else {
            self.overrun = true;
            0
        }
    }

    pub fn read_bool(&mut self) -> (r: bool)
        requires
            old(self).wf(),
        ensures
            final(self).data@ == old(self).data@,
            final(self).wf(),
            Buffer::consumed(*old(self), *final(self), bool_byte(r)),
            Buffer::holds_bool(*old(self)) ==> final(self).overrun == old(self).overrun
                && Buffer::advanced(*old(self), *final(self), bool_byte(r)),
            !Buffer::holds_bool(*old(self)) ==> final(self).overrun,
    {
        let b = self.read_u8();
        if b > 1 {
            self.overrun = true;
        }
        proof {
            if b <= 1 {
                assert(seq![b] =~= bool_byte(b == 1));
            }
        }
        b == 1
    }

    /// The next byte exists and is a valid flag (0 or 1).
    pub open spec fn holds_bool(b: Buffer) -> bool {
        b.index < b.data@.len() && b.data@[b.index as int] <= 1
    }

    pub fn read_u16(&mut self) -> (r: u16)
        requires
            old(self).wf(),
        ensures
            Buffer::consumed(*old(self), *final(self), le16(r)),
            old(self).index + 2 <= old(self).data@.len() ==> final(self).overrun == old(self).overrun
                && Buffer::advanced(*old(self), *final(self), le16(r)),
    {
        let ghost s0 = *self;
        let lo = self.read_u8();
        let ghost s1 = *self;
        let hi = self.read_u8();
        let r = (lo as u16) | ((hi as u16) << 8u16);
        proof {
            lemma_consumed_chain(s0, s1, *self, seq![lo], seq![hi]);
            if old(self).index + 2 <= old(self).data@.len() {
                lemma_advanced_chain(s0, s1, *self, seq![lo], seq![hi]);
                assert((r & 0xff) as u8 == lo && ((r >> 8u16) & 0xff) as u8 == hi) by (bit_vector)
                    requires
                        r == (lo as u16) | ((hi as u16) << 8u16),
                ;
                assert(seq![lo] + seq![hi] =~= le16(r));
            }
        }
        r
    }

    pub fn read_u32(&mut self) -> (r: u32)
        requires
            old(self).wf(),
        ensures
            Buffer::consumed(*old(self), *final(self), le32(r)),
            old(self).index + 4 <= old(self).data@.len() ==> final(self).overrun == old(self).overrun
                && Buffer::advanced(*old(self), *final(self), le32(r)),
    {
        let ghost s0 = *self;
        let b0 = self.read_u8();
        let ghost s1 = *self;
        let b1 = self.read_u8();
        let ghost s2 = *self;
        let b2 = self.read_u8();
        let ghost s3 = *self;
        let b3 = self.read_u8();
        proof {
            lemma_consumed_chain(s0, s1, s2, seq![b0], seq![b1]);
            lemma_consumed_chain(s0, s2, s3, seq![b0] + seq![b1], seq![b2]);
            lemma_consumed_chain(s0, s3, *self, seq![b0] + seq![b1] + seq![b2], seq![b3]);
            if old(self).index + 4 <= old(self).data@.len() {
                lemma_advanced_chain(s0, s1, s2, seq![b0], seq![b1]);
                lemma_advanced_chain(s0, s2, s3, seq![b0] + seq![b1], seq![b2]);
                lemma_advanced_chain(s0, s3, *self, seq![b0] + seq![b1] + seq![b2], seq![b3]);
            }
        }
        let r = (b0 as u32) | ((b1 as u32) << 8u32) | ((b2 as u32) << 16u32) | ((b3 as u32)
            << 24u32);
        proof {
            if old(self).index + 4 <= old(self).data@.len() {
                assert((r & 0xff) as u8 == b0 && ((r >> 8u32) & 0xff) as u8 == b1 && ((r >> 16u32)
                    & 0xff) as u8 == b2 && ((r >> 24u32) & 0xff) as u8 == b3) by (bit_vector)
                    requires
                        r == (b0 as u32) | ((b1 as u32) << 8u32) | ((b2 as u32) << 16u32) | ((
                        b3 as u32) << 24u32),
                ;
                assert(seq![b0] + seq![b1] + seq![b2] + seq![b3] =~= le32(r));
            }
        }
        r
    }

    pub fn read_u64(&mut self) -> (r: u64)
        requires
            old(self).wf(),
        ensures
            Buffer::consumed(*old(self), *final(self), le64(r)),
            old(self).index + 8 <= old(self).data@.len() ==> final(self).overrun == old(self).overrun
                && Buffer::advanced(*old(self), *final(self), le64(r)),
    {
        let ghost s0 = *self;
        let lo = self.read_u32();
        let ghost s1 = *self;
        let hi = self.read_u32();
        let r = (lo as u64) | ((hi as u64) << 32u64);
        proof {
            lemma_consumed_chain(s0, s1, *self, le32(lo), le32(hi));
            if old(self).index + 8 <= old(self).data@.len() {
                lemma_advanced_chain(s0, s1, *self, le32(lo), le32(hi));
            }
            if old(self).index + 8 <= old(self).data@.len() {
                assert((r & 0xffff_ffff) as u32 == lo && (r >> 32u64) as u32 == hi) by (bit_vector)
                    requires
                        r == (lo as u64) | ((hi as u64) << 32u64),
                ;
                assert(le32(lo) + le32(hi) =~= le64(r));
            }
        }
        r
    }

    pub fn read_u8_arr(&mut self, arr: &mut [u8])
        requires
            old(self).wf(),
        ensures
            final(arr)@.len() == old(arr)@.len(),
            Buffer::consumed(*old(self), *final(self), final(arr)@),
    {
        let ghost start = self.index;
        let mut i: usize = 0;
        while i < arr.len()
            invariant
                i <= arr@.len(),
                arr@.len() == old(arr)@.len(),
                self.wf(),
                self.data@ == old(self).data@,
                old(self).index + i <= old(self).data@.len() ==> {
                    &&& self.index == old(self).index + i
                    &&& self.overrun == old(self).overrun
                    &&& old(self).data@.subrange(old(self).index as int, self.index as int)
                        == arr@.subrange(0, i as int)
                },
                old(self).index + i > old(self).data@.len() ==> self.overrun,
                old(self).index <= self.index,
            decreases arr@.len() - i,
        {
            let ghost before = *self;
            let b = self.read_u8();
            arr[i] = b;
            i = i + 1;
            proof {
                if old(self).index + i <= old(self).data@.len() {
                    assert(old(self).data@.subrange(old(self).index as int, self.index as int)
                        =~= old(self).data@.subrange(old(self).index as int, before.index as int)
                        + seq![b]);
                    assert(old(self).data@.subrange(old(self).index as int, self.index as int)
                        =~= arr@.subrange(0, i as int));
                }
            }
        }
        assert(arr@.subrange(0, arr@.len() as int) =~= arr@);
    }

    pub fn read_u32_arr(&mut self, arr: &mut [u32])
        requires
            old(self).wf(),
        ensures
            final(arr)@.len() == old(arr)@.len(),
            Buffer::consumed(*old(self), *final(self), le32_seq(final(arr)@)),
    {
        let mut i: usize = 0;
        while i < arr.len()
            invariant
                i <= arr@.len(),
                arr@.len() == old(arr)@.len(),
                self.wf(),
                self.data@ == old(self).data@,
                old(self).index + 4 * i <= old(self).data@.len() ==> {
                    &&& self.index == old(self).index + 4 * i
                    &&& self.overrun == old(self).overrun
                    &&& old(self).data@.subrange(old(self).index as int, self.index as int)
                        == le32_seq(arr@.subrange(0, i as int))
                },
                old(self).index + 4 * i > old(self).data@.len() ==> self.overrun,
                old(self).index <= self.index,
            decreases arr@.len() - i,
        {
            let ghost before = *self;
            let ghost prefix = arr@.subrange(0, i as int);
            let v = self.read_u32();
            arr[i] = v;
            i = i + 1;
            proof {
                assert(arr@.subrange(0, i as int) =~= prefix.push(v));
                lemma_le32_seq_len(arr@.subrange(0, i as int));
                if old(self).index + 4 * i <= old(self).data@.len() {
                    assert(prefix.push(v).drop_last() =~= prefix);
                    assert(old(self).data@.subrange(old(self).index as int, self.index as int)
                        =~= old(self).data@.subrange(old(self).index as int, before.index as int)
                        + le32(v));
                }
            }
        }
        assert(arr@.subrange(0, arr@.len() as int) =~= arr@);
        proof {
            lemma_le32_seq_len(arr@);
        }
    }
}

pub proof fn lemma_le32_seq_len(s: Seq<u32>)
    ensures
        le32_seq(s).len() == 4 * s.len(),
    decreases s.len(),
{
    if s.len() > 0 {
        lemma_le32_seq_len(s.drop_last());
    }
}

/// Distinct 32-bit values have distinct encodings.
pub proof fn lemma_le32_injective(a: u32, b: u32)
    requires
        le32(a) == le32(b),
    ensures
        a == b,
{
    lemma_le32_round_trip(a);
    lemma_le32_round_trip(b);
    assert(le32(a)[0] == le32(b)[0] && le32(a)[1] == le32(b)[1] && le32(a)[2] == le32(b)[2]
        && le32(a)[3] == le32(b)[3]);
}

/// Distinct 64-bit values have distinct encodings.
pub proof fn lemma_le64_injective(a: u64, b: u64)
    requires
        le64(a) == le64(b),
    ensures
        a == b,
{
    let la = le32((a & 0xffff_ffff) as u32);
    let lb = le32((b & 0xffff_ffff) as u32);
    let ha = le32((a >> 32u64) as u32);
    let hb = le32((b >> 32u64) as u32);
    assert(la =~= le64(a).subrange(0, 4));
    assert(lb =~= le64(b).subrange(0, 4));
    assert(ha =~= le64(a).subrange(4, 8));
    assert(hb =~= le64(b).subrange(4, 8));
    lemma_le32_injective((a & 0xffff_ffff) as u32, (b & 0xffff_ffff) as u32);
    lemma_le32_injective((a >> 32u64) as u32, (b >> 32u64) as u32);
    lemma_le64_round_trip(a);
    lemma_le64_round_trip(b);
}

/// Reading `x` and then `y` reads `x + y`.
pub proof fn lemma_advanced_chain(a: Buffer, b: Buffer, c: Buffer, x: Seq<u8>, y: Seq<u8>)
    requires
        Buffer::advanced(a, b, x),
        Buffer::advanced(b, c, y),
        b.data@ == a.data@,
    ensures
        Buffer::advanced(a, c, x + y),
{
    assert(a.data@.subrange(a.index as int, c.index as int) =~= a.data@.subrange(
        a.index as int,
        b.index as int,
    ) + b.data@.subrange(b.index as int, c.index as int));
}

/// Consuming `x` and then `y` consumes `x + y`.
pub proof fn lemma_consumed_chain(a: Buffer, b: Buffer, c: Buffer, x: Seq<u8>, y: Seq<u8>)
    requires
        a.wf(),
        Buffer::consumed(a, b, x),
        Buffer::consumed(b, c, y),
    ensures
        Buffer::consumed(a, c, x + y),
{
    if a.index + x.len() + y.len() <= a.data@.len() {
        assert(a.data@.subrange(a.index as int, c.index as int) =~= a.data@.subrange(
            a.index as int,
            b.index as int,
        ) + b.data@.subrange(b.index as int, c.index as int));
    }
}

} // verus!
