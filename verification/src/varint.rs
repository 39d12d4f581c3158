//! Base-128 variable-length integers (protobuf "varints") for 32-bit values.
//!
//! A value is written seven bits at a time, least significant group first; every
//! byte but the last has its high bit set. A 32-bit value takes one to five bytes.
use crate::cursor::Cursor;
use vstd::prelude::*;

verus! {

/// The varint encoding of `v`.
pub open spec fn varint_bytes(v: u32) -> Seq<u8>
    decreases v,
{
    if v < 0x80 {
        seq![v as u8]
    } else {
        proof {
            assert(v >= 0x80 ==> (v >> 7) < v) by (bit_vector);
        }
        seq![((v & 0x7f) | 0x80) as u8] + varint_bytes(v >> 7)
    }
}

/// The value of the varint at the front of `s`, and the number of bytes it
/// takes, when it ends within `fuel` bytes and within `s`.
pub open spec fn varint_decode(s: Seq<u8>, fuel: nat) -> Option<(u32, nat)>
    decreases fuel,
{
    if fuel == 0 || s.len() == 0 {
        None
    } else if s[0] < 0x80 {
        Some(((s[0] & 0x7f) as u32, 1))
    } else {
        match varint_decode(s.drop_first(), (fuel - 1) as nat) {
            Some((v, n)) => Some((((s[0] & 0x7f) as u32) | (v << 7u32), n + 1)),
            None => None,
        }
    }
}

/// The varint that the reader accepts at the front of `s`: it must end within
/// five bytes.
pub open spec fn varint_read(s: Seq<u8>) -> Option<(u32, nat)> {
    varint_decode(s, 5)
}

/// A varint that is read takes one to five bytes, all within `s`.
pub proof fn lemma_varint_read_len(s: Seq<u8>)
    ensures
        varint_read(s) matches Some((v, n)) ==> 1 <= n <= 5 && n <= s.len(),
{
    lemma_varint_decode_len(s, 5);
}

proof fn lemma_varint_decode_len(s: Seq<u8>, fuel: nat)
    ensures
        varint_decode(s, fuel) matches Some((v, n)) ==> 1 <= n <= fuel && n <= s.len(),
    decreases fuel,
{
    if fuel > 0 && s.len() > 0 && s[0] >= 0x80 {
        lemma_varint_decode_len(s.drop_first(), (fuel - 1) as nat);
    }
}

/// Number of bytes in the varint encoding of `v`, by magnitude.
pub open spec fn varint_len(v: u32) -> nat {
    if v < 0x80 {
        1
    } else if v < 0x4000 {
        2
    } else if v < 0x20_0000 {
        3
    } else if v < 0x1000_0000 {
        4
    } else {
        5
    }
}

/// The encoding of `v` has `varint_len(v)` bytes.
pub proof fn lemma_varint_bytes_len(v: u32)
    ensures
        varint_bytes(v).len() == varint_len(v),
        1 <= varint_bytes(v).len() <= 5,
    decreases v,
{
    if v >= 0x80 {
        assert(v >= 0x80 ==> (v >> 7) < v) by (bit_vector);
        lemma_varint_bytes_len(v >> 7);
        assert(v >= 0x80 && v < 0x4000 ==> (v >> 7) < 0x80) by (bit_vector);
        assert(v >= 0x4000 ==> (v >> 7) >= 0x80) by (bit_vector);
        assert(v >= 0x4000 && v < 0x20_0000 ==> (v >> 7) < 0x4000) by (bit_vector);
        assert(v >= 0x20_0000 ==> (v >> 7) >= 0x4000) by (bit_vector);
        assert(v >= 0x20_0000 && v < 0x1000_0000 ==> (v >> 7) < 0x20_0000) by (bit_vector);
        assert(v >= 0x1000_0000 ==> (v >> 7) >= 0x20_0000) by (bit_vector);
        assert((v >> 7) < 0x1000_0000) by (bit_vector);
    }
}

/// Decoding the encoding of `v` gives `v` back and consumes exactly the
/// encoding, whatever bytes follow it.
pub proof fn lemma_varint_roundtrip(v: u32, rest: Seq<u8>)
    ensures
        varint_read(varint_bytes(v) + rest) == Some((v, varint_bytes(v).len())),
{
    lemma_varint_bytes_len(v);
    lemma_varint_decode_bytes(v, rest, 5);
}

proof fn lemma_varint_decode_bytes(v: u32, rest: Seq<u8>, fuel: nat)
    requires
        varint_bytes(v).len() <= fuel,
    ensures
        varint_decode(varint_bytes(v) + rest, fuel) == Some((v, varint_bytes(v).len())),
    decreases v,
{
    let s = varint_bytes(v) + rest;
    if v < 0x80 {
        assert(s[0] == v as u8);
        assert(v < 0x80 ==> (v as u8) < 0x80 && (((v as u8) & 0x7f) as u32) == v) by (bit_vector);
    } else {
        assert(v >= 0x80 ==> (v >> 7) < v) by (bit_vector);
        lemma_varint_decode_bytes(v >> 7, rest, (fuel - 1) as nat);
        assert(s.drop_first() =~= varint_bytes(v >> 7) + rest);
        let b = ((v & 0x7f) | 0x80) as u8;
        assert(s[0] == b);
        assert(b >= 0x80 && (((b & 0x7f) as u32) | ((v >> 7) << 7u32)) == v) by (bit_vector)
            requires
                b == ((v & 0x7f) | 0x80) as u8,
        ;
    }
}

proof fn lemma_accumulate(x: u32, b: u32, d: u32, sh: u32)
    requires
        sh <= 21,
    ensures
        (x | ((b | (d << 7u32)) << sh)) == ((x | (b << sh)) | (d << ((sh + 7) as u32))),
{
    assert(sh <= 21 ==> (x | ((b | (d << 7u32)) << sh)) == ((x | (b << sh)) | (d << ((sh + 7)
        as u32)))) by (bit_vector);
}

/// Number of bytes that `write_var_i32` writes for `value`.
pub fn len_of(value: i32) -> (n: usize)
    ensures
        n == varint_bytes(value as u32).len(),
{
    proof {
        lemma_varint_bytes_len(value as u32);
    }
    let v = value as u32;
    if v < 0x80 {
        1
    } else if v < 0x4000 {
        2
    } else if v < 0x20_0000 {
        3
    } else if v < 0x1000_0000 {
        4
    } else {
        5
    }
}

impl<'buffer> Cursor<&'buffer [u8]> {
    /// Reads a 32-bit varint and advances past it.
    /// Panics when the varint runs past the buffer or past five bytes.
    pub fn read_var_i32(&mut self) -> (r: i32)
        requires
            varint_read(old(self)@) is Some,
        ensures
            r == varint_read(old(self)@).unwrap().0 as i32,
            final(self)@ == old(self)@.skip(varint_read(old(self)@).unwrap().1 as int),
    {
        let ghost s = self@;
        let ghost total = varint_read(s).unwrap().0;
        let mut x: u32 = 0;
        let mut shift: u32 = 0;
        let mut k: usize = 0;
        proof {
            let d = varint_read(s).unwrap().0;
            assert((0u32 | (d << 0u32)) == d) by (bit_vector);
            assert(s.skip(0) =~= s);
        }
        while k < 5
            invariant
                k <= 5,
                s == old(self)@,
                shift == 7 * k,
                varint_read(s) is Some,
                total == varint_read(s).unwrap().0,
                k <= s.len(),
                self@ == s.skip(k as int),
                varint_decode(s.skip(k as int), (5 - k) as nat) is Some,
                varint_read(s).unwrap().1 == k + varint_decode(s.skip(k as int), (5 - k) as nat).unwrap().1,
                total == (x | (varint_decode(s.skip(k as int), (5 - k) as nat).unwrap().0 << shift)),
            decreases 5 - k,
        {
            let ghost t = self@;
            let b = self.read_u8() as i32;
            let low = ((b & 0x7F) as u32);
            let ghost d = varint_decode(t, (5 - k) as nat).unwrap();
            assert(t[0] == b as u8);
            assert(0 <= b < 256);
            assert(((b & 0x7F) as u32) == (((b as u8) & 0x7f) as u32)) by (bit_vector)
                requires
                    0 <= b < 256,
            ;
            if (b & 0x80) == 0 {
                assert((b & 0x80) == 0 && 0 <= b < 256 ==> (b as u8) < 0x80) by (bit_vector);
                assert(d == (low, 1nat));
                x = x | (low << shift);
                assert(s.skip(k as int).skip(1) =~= s.skip(k + 1));
                return x as i32;
            }
            assert((b & 0x80) != 0 && 0 <= b < 256 ==> (b as u8) >= 0x80) by (bit_vector);
            assert(t.drop_first() =~= s.skip(k + 1));
            let ghost d2 = varint_decode(s.skip(k + 1), (5 - k - 1) as nat).unwrap();
            assert(d.0 == (low | (d2.0 << 7u32)));
            proof {
                if k < 4 {
                    lemma_accumulate(x, low, d2.0, shift);
                } else {
                    assert(varint_decode(s.skip(k + 1), 0) is None);
                }
            }
            x = x | (low << shift);
            shift = shift + 7;
            k = k + 1;
        }
        proof {
            assert(varint_decode(s.skip(5), 0) is None);
        }
        vstd::pervasive::unreached()
    }
}

impl<'buffer> Cursor<&'buffer mut [u8]> {
    /// Writes `value` as a varint of its 32 bits and advances past it.
    /// Panics when the buffer has no room for it.
    pub fn write_var_i32(&mut self, value: i32)
        requires
            varint_bytes(value as u32).len() <= old(self)@.len(),
        ensures
            final(self)@ == old(self)@.skip(varint_bytes(value as u32).len() as int),
            final(old(self).buffer)@ == varint_bytes(value as u32) + final(final(self).buffer)@,
    {
        let mut temp = value as u32;
        let ghost mut written: Seq<u8> = Seq::empty();
        loop
            invariant
                written + varint_bytes(temp) == varint_bytes(value as u32),
                written.len() <= old(self)@.len(),
                self@ == old(self)@.skip(written.len() as int),
                varint_bytes(temp).len() <= self@.len(),
                final(old(self).buffer)@ == written + final(self.buffer)@,
            decreases temp,
        {
            if (temp & !0x7fu32) == 0 {
                assert((temp & !0x7fu32) == 0 ==> temp < 0x80) by (bit_vector);
                let ghost before = self.buffer;
                self.write_u8(temp as u8);
                assert(varint_bytes(temp) =~= seq![temp as u8]);
                assert(written + seq![temp as u8] + final(self.buffer)@ =~= written + (seq![temp as u8] + final(self.buffer)@));
                assert(old(self)@.skip(written.len() as int).skip(1) =~= old(self)@.skip(varint_bytes(value as u32).len() as int));
                return;
            } else {
                assert((temp & !0x7fu32) != 0 ==> temp >= 0x80) by (bit_vector);
                assert(temp >= 0x80 ==> (temp >> 7) < temp) by (bit_vector);
                let b = ((temp & 0x7F) | 0x80) as u8;
                self.write_u8(b);
                proof {
                    assert(varint_bytes(temp) =~= seq![b] + varint_bytes(temp >> 7));
                    assert(written + seq![b] + varint_bytes(temp >> 7) =~= written + varint_bytes(temp));
                    assert(old(self)@.skip(written.len() as int).skip(1) =~= old(self)@.skip(written.len() + 1 as int));
                    written = written + seq![b];
                }
                temp >>= 7;
            }
        }
    }
}

} // verus!
