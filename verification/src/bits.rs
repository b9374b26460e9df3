use vstd::prelude::*;

verus! {

/// The k-th bit of a byte, counting from the most significant.
pub open spec fn byte_bit(b: u8, k: int) -> bool {
    (b >> ((7 - k) as u8)) & 1 == 1
}

/// The low l bit positions of u, most significant first.
pub open spec fn bits_of(u: u64, l: int) -> Seq<bool> {
    Seq::new(l as nat, |i: int| (u >> ((l - 1 - i) as u64)) & 1 == 1)
}

/// All bits of a codeword sequence, most significant bit of each byte first.
pub open spec fn bytes_bits(s: Seq<u8>) -> Seq<bool> {
    Seq::new(s.len() * 8, |i: int| byte_bit(s[i / 8], i % 8))
}

/// Appending one byte to a codeword sequence appends its 8 bits.
pub proof fn lemma_bytes_bits_push(s: Seq<u8>, b: u8)
    ensures
        bytes_bits(s.push(b)) == bytes_bits(s) + bits_of(b as u64, 8),
{
    lemma_byte_bits_u64(b);
    assert forall|i: int| 0 <= i < bytes_bits(s.push(b)).len() implies bytes_bits(s.push(b))[i] == (
    bytes_bits(s) + bits_of(b as u64, 8))[i] by {
        if i >= s.len() * 8 {
            let k = i % 8;
            let sh: u8 = (7 - k) as u8;
            assert((((b as u64) >> (sh as u64)) & 1 == 1) == ((b >> sh) & 1 == 1));
            assert(i / 8 == s.len());
        }
    }
    assert(bytes_bits(s.push(b)) =~= bytes_bits(s) + bits_of(b as u64, 8));
}

/// A run of n zero bits.
pub open spec fn zero_bits(n: int) -> Seq<bool> {
    Seq::new(n as nat, |i: int| false)
}

proof fn lemma_set_bit(last: u8, l: u8, bit: u8)
    by (bit_vector)
    requires
        l < 8,
        bit == 0 || bit == 1,
        last & (0xffu8 >> l) == 0,
    ensures
        ((last | (bit << ((7 - l) as u8))) >> ((7 - l) as u8)) & 1 == bit,
        forall|sh: u8|
            sh < 8 && sh != 7 - l ==> ((last | (bit << ((7 - l) as u8))) >> sh) & 1 == (last
                >> sh) & 1,
        l < 7 ==> (last | (bit << ((7 - l) as u8))) & (0xffu8 >> ((l + 1) as u8)) == 0,
{
}

proof fn lemma_low_bits_zero(last: u8, l: u8)
    by (bit_vector)
    requires
        l < 8,
        last & (0xffu8 >> l) == 0,
    ensures
        forall|sh: u8| sh < 8 - l ==> (last >> sh) & 1 == 0,
{
}

proof fn lemma_byte_bits_u64(u: u8)
    by (bit_vector)
    ensures
        forall|sh: u8| sh < 8 ==> (((u as u64) >> (sh as u64)) & 1 == 1) == ((u >> sh) & 1 == 1),
{
}

/// An append-only bit stream with byte-granular backing storage: every byte
/// of `bits` but the last is fully written, the top `last_length` bits of the
/// last byte hold the remaining written bits, and its unused low bits are
/// zero.
pub struct BitsWriter {
    pub bits: Vec<u8>,
    pub last_length: u8,
}

impl View for BitsWriter {
    type V = Seq<bool>;

    open spec fn view(&self) -> Seq<bool> {
        Seq::new(
            (8 * (self.bits@.len() - 1) + self.last_length) as nat,
            |i: int| byte_bit(self.bits@[i / 8], i % 8),
        )
    }
}

impl BitsWriter {
    /// The storage invariant.
    pub open spec fn wf(&self) -> bool {
        &&& self.bits@.len() >= 1
        &&& self.last_length < 8
        &&& 8 * self.bits@.len() <= usize::MAX
        &&& self.bits@.last() & (0xffu8 >> self.last_length) == 0
    }

    /// A fresh, empty bit stream.
    pub fn new() -> (r: Self)
        ensures
            r.wf(),
            r@ == Seq::<bool>::empty(),
            r.bits@.len() == 1,
    {
        let mut bits: Vec<u8> = Vec::new();
        bits.push(0);
        let r = BitsWriter { bits, last_length: 0 };
        proof {
            assert(0u8 & (0xffu8 >> 0u8) == 0) by (bit_vector);
            assert(r@ =~= Seq::<bool>::empty());
        }
        r
    }

    /// The number of bits written so far.
    pub fn len(&self) -> (r: usize)
        requires
            self.wf(),
        ensures
            r == self@.len(),
    {
        self.bits.len() * 8 - 8 + self.last_length as usize
    }

    /// Appends one bit.
    pub fn write_bit(&mut self, b: bool)
        requires
            old(self).wf(),
            8 * old(self).bits@.len() + 8 <= usize::MAX,
        ensures
            final(self).wf(),
            final(self)@ == old(self)@.push(b),
            8 * final(self).bits@.len() <= 8 * old(self).bits@.len() + 8,
    {
        let n = self.bits.len();
        let last = self.bits[n - 1];
        let bit: u8 = if b {
            1
        } else {
            0
        };
        let l = self.last_length;
        let updated = last | (bit << (7 - l));
        self.bits.set(n - 1, updated);
        proof {
            lemma_set_bit(last, l, bit);
        }
        self.last_length = self.last_length + 1;
        if self.last_length >= 8 {
            self.bits.push(0);
            self.last_length = 0;
            proof {
                assert(0u8 & (0xffu8 >> 0u8) == 0) by (bit_vector);
            }
        }
        proof {
            assert forall|i: int| 0 <= i < old(self)@.len() implies self@[i] == old(self)@[i] by {
                if i / 8 == n - 1 {
                    let sh: u8 = (7 - (i % 8)) as u8;
                    assert(sh < 8 && sh != 7 - l);
                    assert((updated >> sh) & 1 == (last >> sh) & 1);
                }
            }
            assert(self@[old(self)@.len() as int] == b) by {
                let sh: u8 = (7 - l) as u8;
                assert((updated >> sh) & 1 == bit);
            }
            assert(self@ =~= old(self)@.push(b));
        }
    }

    /// Appends the low l bits of u, most significant first.
    pub fn write_bits(&mut self, l: usize, u: usize)
        requires
            old(self).wf(),
            l <= 64,
            8 * old(self).bits@.len() + 8 * l + 8 <= usize::MAX,
        ensures
            final(self).wf(),
            final(self)@ == old(self)@ + bits_of(u as u64, l as int),
            8 * final(self).bits@.len() <= 8 * old(self).bits@.len() + l + 8,
    {
        let uu = u as u64;
        let mut i: usize = 0;
        while i < l
            invariant
                self.wf(),
                old(self).wf(),
                i <= l,
                l <= 64,
                uu == u as u64,
                8 * self.bits@.len() <= 8 * old(self).bits@.len() + i + 8,
                self@.len() == old(self)@.len() + i,
                8 * old(self).bits@.len() + 8 * l + 8 <= usize::MAX,
                self@ == old(self)@ + bits_of(uu, l as int).take(i as int),
            decreases l - i,
        {
            let sh = (l - i - 1) as u64;
            let masked = (uu >> sh) & 1;
            proof {
                assert((uu >> sh) & 1 == 0 || (uu >> sh) & 1 == 1) by (bit_vector);
            }
            let bit = masked != 0;
            self.write_bit(bit);
            proof {
                assert(self@.len() == 8 * (self.bits@.len() - 1) + self.last_length);
                assert(old(self)@.len() == 8 * (old(self).bits@.len() - 1) + old(self).last_length);
                assert(bits_of(uu, l as int).take(i + 1) =~= bits_of(uu, l as int).take(
                    i as int,
                ).push(bits_of(uu, l as int)[i as int]));
            }
            i += 1;
        }
        proof {
            assert(bits_of(uu, l as int).take(l as int) =~= bits_of(uu, l as int));
        }
    }

    /// Appends a full byte; the stream must be byte-aligned.
    pub fn write_u8_aligned(&mut self, u: u8)
        requires
            old(self).wf(),
            old(self).last_length == 0,
            8 * old(self).bits@.len() + 8 <= usize::MAX,
        ensures
            final(self).wf(),
            final(self)@ == old(self)@ + bits_of(u as u64, 8),
            final(self).bits@.len() == old(self).bits@.len() + 1,
            final(self).last_length == 0,
    {
        let n = self.bits.len();
        self.bits.set(n - 1, u);
        self.bits.push(0);
        proof {
            assert(0u8 & (0xffu8 >> 0u8) == 0) by (bit_vector);
            lemma_byte_bits_u64(u);
            assert forall|i: int| 0 <= i < 8 implies byte_bit(u, i) == bits_of(u as u64, 8)[i] by {
                let sh: u8 = (7 - i) as u8;
                assert((((u as u64) >> (sh as u64)) & 1 == 1) == ((u >> sh) & 1 == 1));
            }
            assert(self@ =~= old(self)@ + bits_of(u as u64, 8));
        }
    }

    /// Pads the stream with zero bits up to the next byte boundary.
    pub fn align(&mut self)
        requires
            old(self).wf(),
            8 * old(self).bits@.len() + 8 <= usize::MAX,
        ensures
            final(self).wf(),
            final(self)@ == old(self)@ + zero_bits((8 - old(self)@.len() % 8) % 8),
            final(self).bits@.len() <= old(self).bits@.len() + 1,
            final(self).last_length == 0,
    {
        proof {
            lemma_low_bits_zero(self.bits@.last(), self.last_length);
        }
        if self.last_length != 0 {
            self.bits.push(0);
            self.last_length = 0;
            proof {
                assert(0u8 & (0xffu8 >> 0u8) == 0) by (bit_vector);
            }
        }
        proof {
            let ghost ol = old(self)@.len() as int;
            assert forall|i: int| ol <= i < self@.len() implies self@[i] == false by {
                let sh: u8 = (7 - (i % 8)) as u8;
                assert((old(self).bits@.last() >> sh) & 1 == 0);
            }
            assert(self@ =~= old(self)@ + zero_bits((8 - ol % 8) % 8));
        }
    }
}

} // verus!
