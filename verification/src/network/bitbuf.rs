//! A stream of bits, written most significant bit first.

use vstd::prelude::*;

verus! {

/// Bit `k` of a byte, counting from the most significant bit.
pub open spec fn byte_bit(b: u8, k: u8) -> bool {
    (b >> (7 - k) as u8) & 1 == 1
}

/// Bit `p` of a byte sequence: bytes in order, each from its most
/// significant bit down.
pub open spec fn bit_at(bytes: Seq<u8>, p: int) -> bool {
    byte_bit(bytes[p / 8], (p % 8) as u8)
}

/// The low `n` bits of `value`, most significant first.
pub open spec fn value_bits(value: u64, n: nat) -> Seq<bool> {
    Seq::new(n, |i: int| (value >> ((n - 1 - i) as u64)) & 1 == 1)
}

/// Whether `bytes` holds exactly the bits `bits`, in as few bytes as they
/// take, with zeros after the last bit.
pub open spec fn bytes_hold_bits(bytes: Seq<u8>, bits: Seq<bool>) -> bool {
    &&& bytes.len() == (bits.len() + 7) / 8
    &&& forall|p: int| 0 <= p < bytes.len() * 8 ==> #[trigger] bit_at(bytes, p) == (p < bits.len()
        && bits[p])
}

/// A growing buffer of bits.
pub struct BitBuf {
    buf: Vec<u8>,
    write_pos: usize,
}

proof fn lemma_set_bit(b: u8, k: u8, j: u8)
    by (bit_vector)
    requires
        k < 8,
        j < 8,
    ensures
        ((b | (0x80u8 >> k)) >> (7 - j) as u8) & 1 == (if j == k {
            1u8
        } else {
            (b >> (7 - j) as u8) & 1
        }),
        (0u8 >> (7 - j) as u8) & 1 == 0,
{
}

impl BitBuf {
    /// The bits written so far.
    pub closed spec fn bits(&self) -> Seq<bool> {
        Seq::new(self.write_pos as nat, |p: int| bit_at(self.buf@, p))
    }

    /// The bytes that hold the bits.
    pub closed spec fn bytes(&self) -> Seq<u8> {
        self.buf@
    }

    /// The bytes hold the bits written and nothing else.
    pub closed spec fn wf(&self) -> bool {
        bytes_hold_bits(self.buf@, self.bits())
    }

    /// An empty buffer with room for `capacity` bits.
    pub fn with_capacity(capacity: usize) -> (b: BitBuf)
        ensures
            b.wf(),
            b.bits() == Seq::<bool>::empty(),
    {
        let whole = capacity / 8;
        let room = if capacity % 8 == 0 {
            whole
        } else {
            whole + 1
        };
        let b = BitBuf { buf: Vec::with_capacity(room), write_pos: 0 };
        assert(b.bits() =~= Seq::<bool>::empty());
        b
    }

    /// How many bits were written.
    pub fn bit_len(&self) -> (n: usize)
        ensures
            n == self.bits().len(),
    {
        self.write_pos
    }

    /// The bytes that hold the bits written so far.
    pub fn as_slice(&self) -> (s: &[u8])
        requires
            self.wf(),
        ensures
            s@ == self.bytes(),
            bytes_hold_bits(s@, self.bits()),
    {
        self.buf.as_slice()
    }

    /// Appends one bit.
    pub fn write_bit(&mut self, bit: bool)
        requires
            old(self).wf(),
            old(self).bits().len() < usize::MAX,
        ensures
            final(self).wf(),
            final(self).bits() == old(self).bits().push(bit),
    {
        let ghost before = self.buf@;
        let ghost old_bits = self.bits();
        let k: u8 = (self.write_pos % 8) as u8;
        if k == 0 {
            self.buf.push(0);
        }
        let last = self.buf.len() - 1;
        let ghost padded = self.buf@;
        let byte = self.buf[last];
        let updated: u8 = if bit {
            byte | (0x80u8 >> k)
        } else {
            byte
        };
        self.buf.set(last, updated);
        let at = self.write_pos;
        self.write_pos = self.write_pos + 1;
        proof {
            assert(last == at / 8);
            assert forall|p: int| 0 <= p < self.buf@.len() * 8 implies #[trigger] bit_at(
                self.buf@,
                p,
            ) == (p < old_bits.push(bit).len() && old_bits.push(bit)[p]) by {
                let j = (p % 8) as u8;
                lemma_set_bit(byte, k, j);
                if p / 8 == last {
                    if k == 0 {
                        assert(byte == 0);
                    } else {
                        assert(bit_at(before, p) == (p < old_bits.len() && old_bits[p]));
                        assert(byte == before[p / 8]);
                    }
                } else {
                    assert(bit_at(before, p) == (p < old_bits.len() && old_bits[p]));
                    assert(self.buf@[p / 8] == before[p / 8]);
                }
            }
            assert(self.bits() =~= old_bits.push(bit));
        }
    }

    /// Appends the low `as_size` bits of `value`, most significant first.
    pub fn write_int_as_size(&mut self, value: u64, as_size: u8)
        requires
            old(self).wf(),
            as_size <= 64,
            old(self).bits().len() + as_size <= usize::MAX,
        ensures
            final(self).wf(),
            final(self).bits() == old(self).bits() + value_bits(value, as_size as nat),
    {
        let mut i: u8 = 0;
        assert(self.bits() =~= old(self).bits() + value_bits(value, as_size as nat).take(0));
        while i < as_size
            invariant
                self.wf(),
                i <= as_size <= 64,
                old(self).bits().len() + as_size <= usize::MAX,
                self.bits() == old(self).bits() + value_bits(value, as_size as nat).take(i as int),
            decreases as_size - i,
        {
            let shift: u32 = (as_size - 1 - i) as u32;
            let bit = (value >> shift) & 1 == 1;
            let ghost prev = self.bits();
            self.write_bit(bit);
            proof {
                let all = value_bits(value, as_size as nat);
                assert(all[i as int] == bit);
                assert(all.take(i + 1) =~= all.take(i as int).push(bit));
                assert(prev.push(bit) =~= old(self).bits() + all.take(i + 1));
            }
            i = i + 1;
        }
        assert(value_bits(value, as_size as nat).take(as_size as int) =~= value_bits(
            value,
            as_size as nat,
        ));
    }
}

} // verus!
