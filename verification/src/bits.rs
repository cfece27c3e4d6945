//! A big-endian bit reader over an immutable byte buffer.
//!
//! Bits are numbered from the start of the buffer, most significant bit of
//! each byte first.  `bits_value` gives the meaning of an unsigned
//! big-endian field and `signed_value` the meaning of a magnitude-first,
//! sign-last signed field; every read operation is specified against them.

use vstd::prelude::*;

use crate::error::ParserError;

verus! {

/// True when bit `i` of the byte sequence `d` is set, counting bits from
/// the start of `d`, most significant bit of each byte first.
pub open spec fn bit_at(d: Seq<u8>, i: nat) -> bool
    recommends
        i < 8 * d.len(),
{
    (d[(i / 8) as int] >> ((7 - i % 8) as u8)) & 1u8 == 1u8
}

/// The value of the `n` bits of `d` starting at bit `p`, most significant
/// bit first (big-endian).
pub open spec fn bits_value(d: Seq<u8>, p: nat, n: nat) -> nat
    decreases n,
{
    if n == 0 {
        0
    } else {
        (2 * bits_value(d, p, (n - 1) as nat) + (if bit_at(d, (p + n - 1) as nat) {
            1nat
        } else {
            0nat
        })) as nat
    }
}

/// The value of an `n`-bit magnitude starting at bit `p`, followed by one
/// sign bit: the negated magnitude when the sign bit is set.
pub open spec fn signed_value(d: Seq<u8>, p: nat, n: nat) -> int {
    if bit_at(d, (p + n) as nat) {
        -(bits_value(d, p, n) as int)
    } else {
        bits_value(d, p, n) as int
    }
}

/// Two to the power `n`.
pub open spec fn pow2(n: nat) -> nat
    decreases n,
{
    if n == 0 {
        1
    } else {
        2 * pow2((n - 1) as nat)
    }
}

/// An `n`-bit field is smaller than two to the power `n`.
pub proof fn lemma_bits_value_bound(d: Seq<u8>, p: nat, n: nat)
    ensures
        bits_value(d, p, n) < pow2(n),
    decreases n,
{
    if n > 0 {
        lemma_bits_value_bound(d, p, (n - 1) as nat);
    }
}

/// `pow2` is monotone.
pub proof fn lemma_pow2_monotone(a: nat, b: nat)
    requires
        a <= b,
    ensures
        pow2(a) <= pow2(b),
    decreases b,
{
    if a < b {
        lemma_pow2_monotone(a, (b - 1) as nat);
    }
}

/// The small powers of two the bit widths of this format need.
pub proof fn lemma_pow2_values()
    ensures
        pow2(0) == 1,
        pow2(1) == 2,
        pow2(2) == 4,
        pow2(3) == 8,
        pow2(6) == 64,
        pow2(8) == 256,
        pow2(16) == 65536,
{
    reveal_with_fuel(pow2, 17);
}

/// A signed field reads back exactly the magnitude and sign that were
/// encoded: magnitude bits at `p`, then one sign bit.  Negation is
/// symmetric, except that an encoded (magnitude 0, sign set) also gives 0.
pub proof fn lemma_signed_round_trip(d: Seq<u8>, p: nat, n: nat, mag: nat, sign: bool)
    requires
        bits_value(d, p, n) == mag,
        bit_at(d, (p + n) as nat) == sign,
    ensures
        signed_value(d, p, n) == if sign {
            -(mag as int)
        } else {
            mag as int
        },
        mag == 0 ==> signed_value(d, p, n) == 0,
{
}

/// Division and remainder of a bit position by 8 recover the byte index
/// and the offset inside the byte.
proof fn lemma_mod8(b: int, t: int)
    by (nonlinear_arith)
    requires
        b >= 0,
        0 <= t < 8,
    ensures
        (8 * b + t) % 8 == t,
        (8 * b + t) / 8 == b,
{
}

/// Reads big-endian bit fields out of a borrowed byte buffer.
pub struct BitReader<'a> {
    /// The buffer being read.
    pub data: &'a [u8],
    /// Index of the byte holding the next unread bit.
    pub byte: usize,
    /// Offset of the next unread bit inside that byte, 0 (most
    /// significant) to 7.
    pub bit: u8,
}

impl<'a> BitReader<'a> {
    /// The current bit offset from the start of the buffer.
    pub open spec fn pos(&self) -> nat {
        (8 * self.byte + self.bit) as nat
    }

    /// The reader is well formed: the bit offset stays inside a byte and
    /// the position never passes the end of the buffer.
    pub open spec fn wf(&self) -> bool {
        &&& self.bit < 8
        &&& self.pos() <= 8 * self.data@.len()
    }

    /// Creates a reader positioned at the first bit of `data`.
    pub fn new(data: &'a [u8]) -> (r: Self)
        ensures
            r.wf(),
            r.data@ == data@,
            r.pos() == 0,
    {
        BitReader { data, byte: 0, bit: 0 }
    }

    /// True when at least `n` more bits can be read.
    pub fn has_bits(&self, n: u8) -> (r: bool)
        requires
            self.wf(),
        ensures
            r == (self.pos() + n <= 8 * self.data@.len()),
    {
        let rem_bytes = self.data.len() - self.byte;
        if rem_bytes >= 33 {
            true
        } else {
            let rem_bits = rem_bytes * 8 - self.bit as usize;
            n as usize <= rem_bits
        }
    }

    /// Reads a single bit as a boolean.
    pub fn read_bool(&mut self) -> (r: Result<bool, ParserError>)
        requires
            old(self).wf(),
        ensures
            final(self).wf(),
            final(self).data == old(self).data,
            match r {
                Ok(b) => {
                    &&& old(self).pos() + 1 <= 8 * old(self).data@.len()
                    &&& b == bit_at(old(self).data@, old(self).pos())
                    &&& final(self).pos() == old(self).pos() + 1
                },
                Err(e) => {
                    &&& e == ParserError::BitRead
                    &&& old(self).pos() + 1 > 8 * old(self).data@.len()
                    &&& *final(self) == *old(self)
                },
            },
    {
        if self.byte < self.data.len() {
            let b = self.data[self.byte];
            let v = (b >> (7 - self.bit)) & 1;
            proof {
                assert(old(self).pos() / 8 == self.byte);
                assert(old(self).pos() % 8 == self.bit);
            }
            if self.bit == 7 {
                self.bit = 0;
                self.byte = self.byte + 1;
            } else {
                self.bit = self.bit + 1;
            }
            Ok(v == 1)
        } else {
            Err(ParserError::BitRead)
        }
    }

    /// Reads `n` bits, 0 to 16, big-endian into an unsigned value.
    pub fn read_u16(&mut self, n: u8) -> (r: Result<u16, ParserError>)
        requires
            old(self).wf(),
            n <= 16,
        ensures
            final(self).wf(),
            final(self).data == old(self).data,
            match r {
                Ok(v) => {
                    &&& old(self).pos() + n <= 8 * old(self).data@.len()
                    &&& v as nat == bits_value(old(self).data@, old(self).pos(), n as nat)
                    &&& final(self).pos() == old(self).pos() + n
                },
                Err(e) => {
                    &&& e == ParserError::BitRead
                    &&& old(self).pos() + n > 8 * old(self).data@.len()
                    &&& *final(self) == *old(self)
                },
            },
    {
        if !self.has_bits(n) {
            return Err(ParserError::BitRead);
        }
        let ghost d = self.data@;
        let ghost p0 = self.pos();
        let mut acc: u16 = 0;
        let mut i: u8 = 0;
        while i < n
            invariant
                self.wf(),
                self.data@ == d,
                i <= n <= 16,
                p0 + n <= 8 * d.len(),
                self.pos() == p0 + i,
                acc as nat == bits_value(d, p0, i as nat),
            decreases n - i,
        {
            let b = match self.read_bool() {
                Ok(b) => b,
                Err(e) => {
                    return Err(e);
                },
            };
            proof {
                lemma_bits_value_bound(d, p0, i as nat);
                lemma_pow2_monotone(i as nat, 15);
                assert(pow2(15) == 32768) by {
                    reveal_with_fuel(pow2, 16);
                }
            }
            acc = 2 * acc + (if b {
                1
            } else {
                0
            });
            i = i + 1;
        }
        Ok(acc)
    }

    /// Reads `n` bits, 0 to 8, big-endian into an unsigned value.
    pub fn read_u8(&mut self, n: u8) -> (r: Result<u8, ParserError>)
        requires
            old(self).wf(),
            n <= 8,
        ensures
            final(self).wf(),
            final(self).data == old(self).data,
            match r {
                Ok(v) => {
                    &&& old(self).pos() + n <= 8 * old(self).data@.len()
                    &&& v as nat == bits_value(old(self).data@, old(self).pos(), n as nat)
                    &&& final(self).pos() == old(self).pos() + n
                },
                Err(e) => {
                    &&& e == ParserError::BitRead
                    &&& old(self).pos() + n > 8 * old(self).data@.len()
                    &&& *final(self) == *old(self)
                },
            },
    {
        match self.read_u16(n) {
            Ok(v) => {
                proof {
                    lemma_bits_value_bound(self.data@, old(self).pos(), n as nat);
                    lemma_pow2_monotone(n as nat, 8);
                    assert(pow2(8) == 256) by {
                        reveal_with_fuel(pow2, 9);
                    }
                }
                Ok(v as u8)
            },
            Err(e) => Err(e),
        }
    }

    /// Reads an `n`-bit magnitude, 0 to 7 bits, followed by one sign bit;
    /// the sign bit negates the magnitude.
    pub fn read_inverse_i8(&mut self, n: u8) -> (r: Result<i8, ParserError>)
        requires
            old(self).wf(),
            n < 8,
        ensures
            final(self).wf(),
            final(self).data == old(self).data,
            match r {
                Ok(v) => {
                    &&& old(self).pos() + n + 1 <= 8 * old(self).data@.len()
                    &&& v as int == signed_value(old(self).data@, old(self).pos(), n as nat)
                    &&& final(self).pos() == old(self).pos() + n + 1
                },
                Err(e) => {
                    &&& e == ParserError::BitRead
                    &&& old(self).pos() + n + 1 > 8 * old(self).data@.len()
                    &&& *final(self) == *old(self)
                },
            },
    {
        let ghost s0 = *old(self);
        let byte0 = self.byte;
        let bit0 = self.bit;
        let mag = match self.read_u8(n) {
            Ok(v) => v,
            Err(e) => {
                return Err(e);
            },
        };
        proof {
            lemma_bits_value_bound(s0.data@, s0.pos(), n as nat);
            lemma_pow2_monotone(n as nat, 7);
            assert(pow2(7) == 128) by {
                reveal_with_fuel(pow2, 8);
            }
        }
        match self.read_bool() {
            Ok(sign) => {
                if sign {
                    Ok(-(mag as i8))
                } else {
                    Ok(mag as i8)
                }
            },
            Err(e) => {
                // Undo the magnitude read so that a failing read leaves
                // the reader where it started.
                self.byte = byte0;
                self.bit = bit0;
                Err(e)
            },
        }
    }

    /// Reads an `n`-bit magnitude, 0 to 15 bits, followed by one sign bit;
    /// the sign bit negates the magnitude.
    pub fn read_inverse_i16(&mut self, n: u8) -> (r: Result<i16, ParserError>)
        requires
            old(self).wf(),
            n < 16,
        ensures
            final(self).wf(),
            final(self).data == old(self).data,
            match r {
                Ok(v) => {
                    &&& old(self).pos() + n + 1 <= 8 * old(self).data@.len()
                    &&& v as int == signed_value(old(self).data@, old(self).pos(), n as nat)
                    &&& final(self).pos() == old(self).pos() + n + 1
                },
                Err(e) => {
                    &&& e == ParserError::BitRead
                    &&& old(self).pos() + n + 1 > 8 * old(self).data@.len()
                    &&& *final(self) == *old(self)
                },
            },
    {
        let ghost s0 = *old(self);
        let byte0 = self.byte;
        let bit0 = self.bit;
        let mag = match self.read_u16(n) {
            Ok(v) => v,
            Err(e) => {
                return Err(e);
            },
        };
        proof {
            lemma_bits_value_bound(s0.data@, s0.pos(), n as nat);
            lemma_pow2_monotone(n as nat, 15);
            assert(pow2(15) == 32768) by {
                reveal_with_fuel(pow2, 16);
            }
        }
        match self.read_bool() {
            Ok(sign) => {
                if sign {
                    Ok(-(mag as i16))
                } else {
                    Ok(mag as i16)
                }
            },
            Err(e) => {
                // Undo the magnitude read so that a failing read leaves
                // the reader where it started.
                self.byte = byte0;
                self.bit = bit0;
                Err(e)
            },
        }
    }

    /// True when the bit position is a multiple of 8.
    pub fn is_byte_aligned(&self) -> (r: bool)
        requires
            self.wf(),
        ensures
            r == (self.pos() % 8 == 0),
    {
        proof {
            lemma_mod8(self.byte as int, self.bit as int);
        }
        self.bit == 0
    }

    /// The current bit offset from the start of the buffer.  The count
    /// is returned in a type wide enough for any buffer length.
    pub fn position(&self) -> (r: u128)
        requires
            self.wf(),
        ensures
            r == self.pos(),
    {
        8 * (self.byte as u128) + (self.bit as u128)
    }

    /// The number of whole bytes consumed so far; when the reader is byte
    /// aligned this is exactly the bit position divided by 8.
    pub fn position_in_bytes(&self) -> (r: usize)
        requires
            self.wf(),
        ensures
            r == self.byte,
            self.pos() % 8 == 0 ==> 8 * r == self.pos(),
    {
        proof {
            lemma_mod8(self.byte as int, self.bit as int);
        }
        self.byte
    }
}

} // verus!
