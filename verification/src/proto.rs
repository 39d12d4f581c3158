//! Protobuf wire format: tagged fields of four wire types, read from and written
//! to a byte cursor, and the conversions between field values and wires.
use crate::cursor::Cursor;
use crate::endian::{lemma_u32_roundtrip, lemma_u64_roundtrip, u32_from_le, u32_le_bytes, u64_from_le, u64_le_bytes};
use crate::varint::{
    len_of, lemma_varint_bytes_len, lemma_varint_read_len, lemma_varint_roundtrip, varint_bytes,
    varint_read,
};
use vstd::prelude::*;

verus! {

/// The encoding of a field's payload, carried in the low three bits of its tag.
#[derive(Clone, Copy, PartialEq, Eq, Structural, Debug)]
pub enum WireType {
    VarInt,
    Fixed64,
    Len,
    Fixed32,
}

/// The number that stands for `t` in a field tag.
pub open spec fn wire_type_code(t: WireType) -> u8 {
    match t {
        WireType::VarInt => 0,
        WireType::Fixed64 => 1,
        WireType::Len => 2,
        WireType::Fixed32 => 5,
    }
}

/// The wire type that the number `n` stands for, if any.
pub open spec fn wire_type_of_code(n: u8) -> Option<WireType> {
    if n == 0 {
        Some(WireType::VarInt)
    } else if n == 1 {
        Some(WireType::Fixed64)
    } else if n == 2 {
        Some(WireType::Len)
    } else if n == 5 {
        Some(WireType::Fixed32)
    } else {
        None
    }
}

impl WireType {
    /// The wire type numbered `n`, if any.
    pub fn from_u8(n: u8) -> (r: Option<WireType>)
        ensures
            r == wire_type_of_code(n),
    {
        match n {
            0 => Some(WireType::VarInt),
            1 => Some(WireType::Fixed64),
            2 => Some(WireType::Len),
            5 => Some(WireType::Fixed32),
            _ => None,
        }
    }

    /// The number of this wire type.
    pub fn as_u8(self) -> (n: u8)
        ensures
            n == wire_type_code(self),
    {
        match self {
            WireType::VarInt => 0,
            WireType::Fixed64 => 1,
            WireType::Len => 2,
            WireType::Fixed32 => 5,
        }
    }
}

/// Every wire type is found again from its number.
pub proof fn lemma_wire_type_code(t: WireType)
    ensures
        wire_type_of_code(wire_type_code(t)) == Some(t),
        wire_type_code(t) < 8,
{
}

/// A field payload; a length-delimited payload borrows its bytes, shared or
/// mutable.
pub enum Wire<'a> {
    VarInt(i32),
    Fixed64(u64),
    Len(&'a [u8]),
    LenMut(&'a mut [u8]),
    Fixed32(u32),
}

/// Length that a byte string of `n` bytes announces for itself as a field:
/// nothing when empty, else its own length prefix and its bytes.
pub open spec fn slice_wire_len(n: nat) -> nat {
    if n == 0 {
        0
    } else {
        varint_bytes((n as i32) as u32).len() + n
    }
}

/// The wire type of `w`.
pub open spec fn wire_type(w: Wire) -> WireType {
    match w {
        Wire::VarInt(_) => WireType::VarInt,
        Wire::Fixed64(_) => WireType::Fixed64,
        Wire::Len(_) => WireType::Len,
        Wire::LenMut(_) => WireType::Len,
        Wire::Fixed32(_) => WireType::Fixed32,
    }
}

/// The bytes of a length-delimited payload, as they are now.
pub open spec fn wire_payload(w: Wire) -> Seq<u8> {
    match w {
        Wire::Len(x) => x@,
        Wire::LenMut(x) => x@,
        _ => Seq::empty(),
    }
}

/// The bytes that `Wire::write` writes for `w`.
pub open spec fn wire_bytes(w: Wire) -> Seq<u8> {
    match w {
        Wire::VarInt(v) => varint_bytes(v as u32),
        Wire::Fixed64(v) => u64_le_bytes(v),
        Wire::Fixed32(v) => u32_le_bytes(v),
        _ => varint_bytes((slice_wire_len(wire_payload(w).len()) as i32) as u32) + wire_payload(w),
    }
}

/// The length that `Wire::len` gives for `w`.
pub open spec fn wire_len(w: Wire) -> nat {
    match w {
        Wire::VarInt(v) => varint_bytes(v as u32).len(),
        Wire::Fixed64(_) => 8,
        Wire::Fixed32(_) => 4,
        _ => {
            let l = slice_wire_len(wire_payload(w).len());
            varint_bytes((l as i32) as u32).len() + l
        },
    }
}

/// Whether `Wire::read` of wire type `ty` accepts the bytes `s`: the payload is
/// complete, and a length prefix is non-negative.
pub open spec fn wire_readable(s: Seq<u8>, ty: WireType) -> bool {
    match ty {
        WireType::VarInt => varint_read(s) is Some,
        WireType::Fixed64 => s.len() >= 8,
        WireType::Fixed32 => s.len() >= 4,
        WireType::Len => match varint_read(s) {
            Some((v, n)) => v < 0x8000_0000 && n + v <= s.len(),
            None => false,
        },
    }
}

/// The number of bytes that `Wire::read` of wire type `ty` takes from `s`.
pub open spec fn wire_read_len(s: Seq<u8>, ty: WireType) -> nat {
    match ty {
        WireType::VarInt => varint_read(s).unwrap().1,
        WireType::Fixed64 => 8,
        WireType::Fixed32 => 4,
        WireType::Len => (varint_read(s).unwrap().1 + varint_read(s).unwrap().0) as nat,
    }
}

/// What `Wire::read` of wire type `ty` finds at the front of `s`: the wire
/// agrees with `w`.
pub open spec fn wire_read_as(s: Seq<u8>, ty: WireType, w: Wire) -> bool {
    match ty {
        WireType::VarInt => w == Wire::VarInt(varint_read(s).unwrap().0 as i32),
        WireType::Fixed64 => w == Wire::Fixed64(u64_from_le(s)),
        WireType::Fixed32 => w == Wire::Fixed32(u32_from_le(s)),
        WireType::Len => w is Len && wire_payload(w) == s.subrange(
            varint_read(s).unwrap().1 as int,
            wire_read_len(s, ty) as int,
        ),
    }
}

impl<'buffer> Wire<'buffer> {
    /// Reads a payload of wire type `ty` from the cursor.
    /// Panics when the payload is cut short or its length is negative.
    pub fn read<'cursor>(cursor: &'cursor mut Cursor<&'buffer [u8]>, ty: WireType) -> (w: Wire<
        'buffer,
    >)
        requires
            wire_readable(old(cursor)@, ty),
        ensures
            wire_read_as(old(cursor)@, ty, w),
            wire_type(w) == ty,
            final(cursor)@ == old(cursor)@.skip(wire_read_len(old(cursor)@, ty) as int),
    {
        let ghost s = cursor@;
        match ty {
            WireType::VarInt => Wire::VarInt(cursor.read_var_i32()),
            WireType::Fixed64 => Wire::Fixed64(cursor.read_u64_le()),
            WireType::Len => {
                let len = cursor.read_var_i32() as usize;
                let w = Wire::Len(cursor.take_slice(len));
                proof {
                    let (v, n) = varint_read(s).unwrap();
                    assert(s.skip(n as int).take(v as int) =~= s.subrange(n as int, n + v));
                    assert(s.skip(n as int).skip(v as int) =~= s.skip(n + v));
                }
                w
            },
            WireType::Fixed32 => Wire::Fixed32(cursor.read_u32_le()),
        }
    }

    /// Number of bytes that `write` writes for this payload.
    pub fn len(&self) -> (n: usize)
        requires
            wire_len(*self) <= usize::MAX,
        ensures
            n == wire_len(*self),
    {
        match self {
            Wire::VarInt(v) => len_of(*v),
            Wire::Fixed64(_) => 8,
            Wire::Len(x) => {
                let l = x.wire_len();
                len_of(l as i32) + l
            },
            Wire::LenMut(x) => {
                let b: &[u8] = &**x;
                let l = b.wire_len();
                len_of(l as i32) + l
            },
            Wire::Fixed32(_) => 4,
        }
    }

    /// The wire type of this payload.
    pub fn ty(&self) -> (t: WireType)
        ensures
            t == wire_type(*self),
    {
        match self {
            Wire::VarInt(_) => WireType::VarInt,
            Wire::Fixed64(_) => WireType::Fixed64,
            Wire::Len(_) => WireType::Len,
            Wire::LenMut(_) => WireType::Len,
            Wire::Fixed32(_) => WireType::Fixed32,
        }
    }

    /// Writes this payload to the cursor.
    /// Panics when the cursor has no room for it.
    pub fn write(&self, cursor: &mut Cursor<&'buffer mut [u8]>)
        requires
            wire_bytes(*self).len() <= old(cursor)@.len(),
            slice_wire_len(wire_payload(*self).len()) <= usize::MAX,
        ensures
            final(cursor)@ == old(cursor)@.skip(wire_bytes(*self).len() as int),
            final(old(cursor).buffer)@ == wire_bytes(*self) + final(final(cursor).buffer)@,
    {
        match self {
            Wire::VarInt(x) => cursor.write_var_i32(*x),
            Wire::Fixed64(x) => {
                proof {
                    lemma_u64_roundtrip(*x, Seq::empty());
                }
                cursor.write_u64_le(*x)
            },
            Wire::Len(buf) => {
                let b: &[u8] = *buf;
                proof {
                    lemma_varint_bytes_len((slice_wire_len(b@.len()) as i32) as u32);
                }
                Self::write_len_delimited(cursor, b);
            },
            Wire::LenMut(buf) => {
                let b: &[u8] = &**buf;
                proof {
                    lemma_varint_bytes_len((slice_wire_len(b@.len()) as i32) as u32);
                }
                Self::write_len_delimited(cursor, b);
            },
            Wire::Fixed32(x) => {
                proof {
                    lemma_u32_roundtrip(*x, Seq::empty());
                }
                cursor.write_u32_le(*x)
            },
        }
    }

    /// Writes a byte string's announced length, then its bytes.
    fn write_len_delimited(cursor: &mut Cursor<&'buffer mut [u8]>, buf: &[u8])
        requires
            slice_wire_len(buf@.len()) <= usize::MAX,
            varint_bytes((slice_wire_len(buf@.len()) as i32) as u32).len() + buf@.len() <= old(
                cursor,
            )@.len(),
        ensures
            final(cursor)@ == old(cursor)@.skip(
                (varint_bytes((slice_wire_len(buf@.len()) as i32) as u32).len() + buf@.len()) as int,
            ),
            final(old(cursor).buffer)@ == varint_bytes((slice_wire_len(buf@.len()) as i32) as u32)
                + buf@ + final(final(cursor).buffer)@,
    {
        let l = buf.wire_len();
        let ghost prefix = varint_bytes((l as i32) as u32);
        cursor.write_var_i32(l as i32);
        let ghost mid = cursor.buffer;
        cursor.write_bytes(buf);
        proof {
            assert(old(cursor)@.skip(prefix.len() as int).skip(buf@.len() as int) =~= old(
                cursor,
            )@.skip((prefix.len() + buf@.len()) as int));
            let tail = final(cursor.buffer)@;
            assert(prefix + (buf@ + tail) =~= prefix + buf@ + tail);
        }
    }

    /// The integer of a varint payload.
    pub fn to_var_int(self) -> (r: Option<i32>)
        ensures
            r == (match self {
                Wire::VarInt(x) => Some(x),
                _ => None,
            }),
    {
        if let Wire::VarInt(x) = self {
            Some(x)
        } else {
            None
        }
    }

    /// The integer of a varint payload.
    /// Panics, naming `field`, when the payload is of another wire type.
    pub fn expect_var_int(self, field: &'static str) -> (r: i32)
        requires
            self is VarInt,
        ensures
            self == Wire::VarInt(r),
    {
        if let Wire::VarInt(x) = self {
            x
        } else {
            vstd::pervasive::unreached()
        }
    }

    /// The integer of a 64-bit payload.
    pub fn to_fixed64(self) -> (r: Option<u64>)
        ensures
            r == (match self {
                Wire::Fixed64(x) => Some(x),
                _ => None,
            }),
    {
        if let Wire::Fixed64(x) = self {
            Some(x)
        } else {
            None
        }
    }

    /// The integer of a 64-bit payload.
    /// Panics, naming `field`, when the payload is of another wire type.
    pub fn expect_fixed64(self, field: &'static str) -> (r: u64)
        requires
            self is Fixed64,
        ensures
            self == Wire::Fixed64(r),
    {
        if let Wire::Fixed64(x) = self {
            x
        } else {
            vstd::pervasive::unreached()
        }
    }

    /// The bytes of a length-delimited payload, shared or mutable.
    pub fn to_len(self) -> (r: Option<&'buffer [u8]>)
        ensures
            self is Len || self is LenMut <==> r is Some,
            r matches Some(b) ==> b@ == wire_payload(self),
    {
        match self {
            Wire::Len(x) => Some(x),
            Wire::LenMut(x) => {
                let b: &'buffer [u8] = x;
                Some(b)
            },
            _ => None,
        }
    }

    /// The bytes of a length-delimited payload, shared or mutable.
    /// Panics, naming `field`, when the payload is of another wire type.
    pub fn expect_len(self, field: &'static str) -> (r: &'buffer [u8])
        requires
            self is Len || self is LenMut,
        ensures
            r@ == wire_payload(self),
    {
        match self {
            Wire::Len(x) => x,
            Wire::LenMut(x) => {
                let b: &'buffer [u8] = x;
                b
            },
            _ => vstd::pervasive::unreached(),
        }
    }

    /// The bytes of a mutable length-delimited payload.
    pub fn to_len_mut(self) -> (r: Option<&'buffer [u8]>)
        ensures
            self is LenMut <==> r is Some,
            r matches Some(b) ==> b@ == wire_payload(self),
    {
        if let Wire::LenMut(x) = self {
            let b: &'buffer [u8] = x;
            Some(b)
        } else {
            None
        }
    }

    /// The bytes of a mutable length-delimited payload.
    /// Panics, naming `field`, when the payload is of another kind.
    pub fn expect_len_mut(self, field: &'static str) -> (r: &'buffer mut [u8])
        requires
            self is LenMut,
        ensures
            self matches Wire::LenMut(x) && r@ == x@ && final(x)@ == final(r)@,
    {
        match self {
            Wire::LenMut(x) => x,
            _ => vstd::pervasive::unreached(),
        }
    }

    /// The integer of a 32-bit payload.
    pub fn to_fixed32(self) -> (r: Option<u32>)
        ensures
            r == (match self {
                Wire::Fixed32(x) => Some(x),
                _ => None,
            }),
    {
        if let Wire::Fixed32(x) = self {
            Some(x)
        } else {
            None
        }
    }

    /// The integer of a 32-bit payload.
    /// Panics, naming `field`, when the payload is of another wire type.
    pub fn expect_fixed32(self, field: &'static str) -> (r: u32)
        requires
            self is Fixed32,
        ensures
            self == Wire::Fixed32(r),
    {
        if let Wire::Fixed32(x) = self {
            x
        } else {
            vstd::pervasive::unreached()
        }
    }
}

/// `Wire::len` is the number of bytes that `Wire::write` writes, for every
/// payload but a non-empty byte string (whose announced length `len` counts
/// twice).
pub proof fn lemma_wire_len(w: Wire)
    requires
        wire_payload(w).len() == 0,
    ensures
        wire_bytes(w).len() == wire_len(w),
{
}

/// Reading back a fixed-width or varint payload, or an empty byte string, that
/// `Wire::write` wrote gives the same payload and takes exactly its bytes,
/// whatever follows them.
pub proof fn lemma_wire_roundtrip(w: Wire, rest: Seq<u8>)
    requires
        w is VarInt || w is Fixed64 || w is Fixed32 || (w is Len && wire_payload(w).len() == 0),
    ensures
        wire_readable(wire_bytes(w) + rest, wire_type(w)),
        wire_read_as(wire_bytes(w) + rest, wire_type(w), w),
        wire_read_len(wire_bytes(w) + rest, wire_type(w)) == wire_bytes(w).len(),
{
    match w {
        Wire::VarInt(v) => {
            lemma_varint_roundtrip(v as u32, rest);
            assert((v as u32) as i32 == v) by (bit_vector);
        },
        Wire::Fixed64(v) => {
            lemma_u64_roundtrip(v, rest);
        },
        Wire::Fixed32(v) => {
            lemma_u32_roundtrip(v, rest);
        },
        _ => {
            let s = wire_bytes(w) + rest;
            assert(wire_bytes(w) =~= varint_bytes(0));
            lemma_varint_roundtrip(0, rest);
            assert(s.subrange(1, 1) =~= wire_payload(w));
        },
    }
}

/// The tag that starts a field: its number and its wire type.
pub open spec fn tag_of(id: usize, ty: WireType) -> u32 {
    ((id as u32) << 3u32) | (wire_type_code(ty) as u32)
}

/// Whether `ReadWire::read_wire` accepts the bytes `s`: a tag of a known wire
/// type, then its payload.
pub open spec fn field_readable(s: Seq<u8>) -> bool {
    match varint_read(s) {
        Some((tag, n)) => match wire_type_of_code((tag & 7) as u8) {
            Some(ty) => wire_readable(s.skip(n as int), ty),
            None => false,
        },
        None => false,
    }
}

/// The field number in the tag at the front of `s`.
pub open spec fn field_id(s: Seq<u8>) -> usize {
    (((varint_read(s).unwrap().0 as i32) >> 3i32) as usize)
}

/// The wire type in the tag at the front of `s`.
pub open spec fn field_type(s: Seq<u8>) -> WireType {
    wire_type_of_code((varint_read(s).unwrap().0 & 7) as u8).unwrap()
}

/// The number of bytes of the whole field at the front of `s`: its tag and
/// its payload.
pub open spec fn field_len(s: Seq<u8>) -> nat {
    varint_read(s).unwrap().1 + wire_read_len(
        s.skip(varint_read(s).unwrap().1 as int),
        field_type(s),
    )
}

/// The bytes after the tag of the field at the front of `s`.
pub open spec fn field_body(s: Seq<u8>) -> Seq<u8> {
    s.skip(varint_read(s).unwrap().1 as int)
}

/// Reading fields: a tag, then a payload.
pub trait ReadWire<'buffer> {
    /// Whether a whole field can be read.
    spec fn field_ready(&self) -> bool;

    /// Reads a field: its number and its payload.
    fn read_wire<'cursor>(&'cursor mut self) -> (usize, Wire<'buffer>)
        requires
            old(self).field_ready(),
    ;
}

/// Writing fields: a tag, then a payload.
pub trait WriteWire<'a> {
    /// Whether a field of number `id` with payload `wire` fits.
    spec fn field_fits(&self, id: usize, wire: Wire<'a>) -> bool;

    /// Writes field `id` with payload `wire`.
    fn write_wire(&mut self, id: usize, wire: Wire<'a>)
        requires
            old(self).field_fits(id, wire),
    ;
}

impl<'buffer> ReadWire<'buffer> for Cursor<&'buffer [u8]> {
    open spec fn field_ready(&self) -> bool {
        field_readable(self@)
    }

    fn read_wire<'cursor>(&'cursor mut self) -> (r: (usize, Wire<'buffer>))
        ensures
            r.0 == field_id(old(self)@),
            wire_read_as(
                old(self)@.skip(varint_read(old(self)@).unwrap().1 as int),
                field_type(old(self)@),
                r.1,
            ),
            final(self)@ == old(self)@.skip(
                (varint_read(old(self)@).unwrap().1 + wire_read_len(
                    old(self)@.skip(varint_read(old(self)@).unwrap().1 as int),
                    field_type(old(self)@),
                )) as int,
            ),
    {
        let ghost s = self@;
        let tag = self.read_var_i32();
        let id = (tag >> 3) as usize;
        let code = (tag & 0x07) as u8;
        proof {
            let t = varint_read(s).unwrap().0;
            assert(((t as i32) & 0x07i32) as u8 == (t & 7) as u8) by (bit_vector);
        }
        let ty = match WireType::from_u8(code) {
            Some(ty) => ty,
            None => vstd::pervasive::unreached(),
        };
        let w = Wire::read(self, ty);
        proof {
            let n = varint_read(s).unwrap().1;
            lemma_varint_read_len(s);
            lemma_varint_read_len(s.skip(n as int));
            let m = wire_read_len(s.skip(n as int), ty);
            assert(s.skip(n as int).skip(m as int) =~= s.skip((n + m) as int));
        }
        (id, w)
    }
}

impl<'a> WriteWire<'a> for Cursor<&'a mut [u8]> {
    open spec fn field_fits(&self, id: usize, wire: Wire<'a>) -> bool {
        &&& varint_bytes(tag_of(id, wire_type(wire))).len() + wire_bytes(wire).len() <= self@.len()
        &&& slice_wire_len(wire_payload(wire).len()) <= usize::MAX
    }

    fn write_wire(&mut self, id: usize, wire: Wire<'a>)
        ensures
            final(self)@ == old(self)@.skip(
                (varint_bytes(tag_of(id, wire_type(wire))).len() + wire_bytes(wire).len()) as int,
            ),
            final(old(self).buffer)@ == varint_bytes(tag_of(id, wire_type(wire))) + wire_bytes(
                wire,
            ) + final(final(self).buffer)@,
    {
        let tag = ((id as u32) << 3) | (wire.ty().as_u8() as u32);
        let ghost prefix = varint_bytes(tag);
        proof {
            assert((tag as i32) as u32 == tag) by (bit_vector);
        }
        self.write_var_i32(tag as i32);
        wire.write(self);
        proof {
            let k = prefix.len() + wire_bytes(wire).len();
            assert(old(self)@.skip(prefix.len() as int).skip(wire_bytes(wire).len() as int)
                =~= old(self)@.skip(k as int));
            let tail = final(self.buffer)@;
            assert(prefix + (wire_bytes(wire) + tail) =~= prefix + wire_bytes(wire) + tail);
        }
    }
}

/// Reading back a field that `write_wire` wrote gives its number and payload,
/// for a fixed-width or varint payload or an empty byte string, and a field
/// number below 2^28.
pub proof fn lemma_field_roundtrip(id: usize, w: Wire, rest: Seq<u8>)
    requires
        id < 0x1000_0000,
        w is VarInt || w is Fixed64 || w is Fixed32 || (w is Len && wire_payload(w).len() == 0),
    ensures
        ({
            let s = varint_bytes(tag_of(id, wire_type(w))) + wire_bytes(w) + rest;
            let n = varint_bytes(tag_of(id, wire_type(w))).len();
            &&& field_readable(s)
            &&& field_id(s) == id
            &&& field_type(s) == wire_type(w)
            &&& varint_read(s).unwrap().1 == n
            &&& wire_read_as(s.skip(n as int), field_type(s), w)
            &&& wire_read_len(s.skip(n as int), field_type(s)) == wire_bytes(w).len()
        }),
{
    let ty = wire_type(w);
    let tag = tag_of(id, ty);
    let code = wire_type_code(ty);
    let tb = varint_bytes(tag);
    let s = tb + wire_bytes(w) + rest;
    assert(s =~= tb + (wire_bytes(w) + rest));
    lemma_varint_roundtrip(tag, wire_bytes(w) + rest);
    assert(s.skip(tb.len() as int) =~= wire_bytes(w) + rest);
    lemma_wire_roundtrip(w, rest);
    assert(code < 8);
    assert(id < 0x1000_0000 && code < 8 ==> ((((id as u32) << 3u32) | (code as u32)) & 7) as u8
        == code) by (bit_vector);
    assert(id < 0x1000_0000 && code < 8 ==> ((((((id as u32) << 3u32) | (code as u32)) as i32)
        >> 3i32) as usize) == id) by (bit_vector);
}

/// Decoding a field value from its payload.
pub trait FromWire<'a>: Default + Sized {
    /// Whether a payload decodes to a value.
    spec fn accepts(wire: Wire<'a>) -> bool;

    /// Whether `v` is the value that the payload decodes to.
    spec fn decodes_to(wire: Wire<'a>, v: Self) -> bool;

    /// Decodes a value from its payload.
    /// Panics, naming `field`, when the payload is of the wrong wire type.
    fn from_wire(wire: Wire<'a>, field: &'static str) -> (r: Self)
        requires
            Self::accepts(wire),
        ensures
            Self::decodes_to(wire, r),
    ;
}

/// Encoding a field value as a payload.
pub trait ToWire<'a>: Default + Sized {
    /// Whether `r` is what `to_wire` gives for this value: its payload, or
    /// none when the value is the default and so is left out of a message.
    spec fn is_payload(&self, r: Option<Wire<'a>>) -> bool;

    /// The number of bytes `to_wire` takes off the cursor to build the payload
    /// in.
    spec fn payload_room(&self) -> nat;

    /// Whether `to_wire` builds the payload without running out of room.
    spec fn payload_fits(&self) -> bool;

    /// The number of bytes this value adds to a message, tag excluded.
    spec fn encoded_len(&self) -> nat;

    /// The payload of this value, if it is written at all. A payload that is
    /// built in place is built in the next `payload_room()` bytes of the
    /// cursor, and what it holds in the end is what those bytes hold.
    /// Panics when the cursor has fewer bytes than that, or when the payload
    /// does not fit in them.
    fn to_wire(&self, cursor: &mut Cursor<&'a mut [u8]>) -> (r: Option<Wire<'a>>)
        requires
            self.payload_fits(),
            self.payload_room() <= old(cursor)@.len(),
        ensures
            self.is_payload(r),
            final(cursor)@ == old(cursor)@.skip(self.payload_room() as int),
            match r {
                Some(Wire::LenMut(p)) => final(old(cursor).buffer)@
                    == final(p)@ + final(final(cursor).buffer)@,
                _ => final(old(cursor).buffer)@ == final(final(cursor).buffer)@,
            },
    ;

    /// The number of bytes this value adds to a message, tag excluded.
    fn wire_len(&self) -> (n: usize)
        requires
            self.encoded_len() <= usize::MAX,
        ensures
            n == self.encoded_len(),
    ;
}

/// The bytes a message holds for field `id` with payload `w`: its tag and the
/// payload as `Wire::write` writes it; nothing when there is no payload.
pub open spec fn field_bytes(id: usize, w: Option<Wire>) -> Seq<u8> {
    match w {
        Some(w) => varint_bytes(tag_of(id, wire_type(w))) + wire_bytes(w),
        None => Seq::empty(),
    }
}

/// The payload of a `bool`: 1 as a varint when true, none when false.
pub open spec fn bool_payload<'a>(v: bool) -> Option<Wire<'a>> {
    if v {
        Some(Wire::VarInt(1))
    } else {
        None
    }
}

/// The payload of a `u32`: its four bytes, none when zero.
pub open spec fn u32_payload<'a>(v: u32) -> Option<Wire<'a>> {
    if v == 0 {
        None
    } else {
        Some(Wire::Fixed32(v))
    }
}

/// The payload of an optional `u32`: its 32 bits as a varint, none when absent.
pub open spec fn option_u32_payload<'a>(v: Option<u32>) -> Option<Wire<'a>> {
    match v {
        Some(x) => Some(Wire::VarInt(x as i32)),
        None => None,
    }
}

/// The payload of a `u64`: its eight bytes, none when zero.
pub open spec fn u64_payload<'a>(v: u64) -> Option<Wire<'a>> {
    if v == 0 {
        None
    } else {
        Some(Wire::Fixed64(v))
    }
}

/// The payload of a byte string: the string itself, none when empty.
pub open spec fn bytes_payload<'a>(v: &'a [u8]) -> Option<Wire<'a>> {
    if v@.len() > 0 {
        Some(Wire::Len(v))
    } else {
        None
    }
}

impl<'a> FromWire<'a> for bool {
    open spec fn accepts(wire: Wire<'a>) -> bool {
        wire is VarInt
    }

    open spec fn decodes_to(wire: Wire<'a>, v: bool) -> bool {
        wire matches Wire::VarInt(x) && v == (x != 0)
    }

    fn from_wire(wire: Wire<'a>, field: &'static str) -> (r: bool) {
        wire.expect_var_int(field) != 0
    }
}

impl<'a> ToWire<'a> for bool {
    open spec fn is_payload(&self, r: Option<Wire<'a>>) -> bool {
        r == bool_payload(*self)
    }

    open spec fn payload_room(&self) -> nat {
        0
    }

    open spec fn payload_fits(&self) -> bool {
        true
    }

    open spec fn encoded_len(&self) -> nat {
        if *self {
            1
        } else {
            0
        }
    }

    fn to_wire(&self, cursor: &mut Cursor<&'a mut [u8]>) -> (r: Option<Wire<'a>>) {
        if *self {
            Some(Wire::VarInt(1))
        } else {
            None
        }
    }

    fn wire_len(&self) -> (n: usize) {
        if *self {
            1
        } else {
            0
        }
    }
}

impl<'a> FromWire<'a> for u32 {
    open spec fn accepts(wire: Wire<'a>) -> bool {
        wire is Fixed32
    }

    open spec fn decodes_to(wire: Wire<'a>, v: u32) -> bool {
        wire == Wire::Fixed32(v)
    }

    fn from_wire(wire: Wire<'a>, field: &'static str) -> (r: u32) {
        wire.expect_fixed32(field)
    }
}

impl<'a> ToWire<'a> for u32 {
    open spec fn is_payload(&self, r: Option<Wire<'a>>) -> bool {
        r == u32_payload(*self)
    }

    open spec fn payload_room(&self) -> nat {
        0
    }

    open spec fn payload_fits(&self) -> bool {
        true
    }

    open spec fn encoded_len(&self) -> nat {
        if *self == 0 {
            0
        } else {
            4
        }
    }

    fn to_wire(&self, cursor: &mut Cursor<&'a mut [u8]>) -> (r: Option<Wire<'a>>) {
        if *self == 0 {
            None
        } else {
            Some(Wire::Fixed32(*self))
        }
    }

    fn wire_len(&self) -> (n: usize) {
        if *self == 0 {
            0
        } else {
            4
        }
    }
}

impl<'a> FromWire<'a> for Option<u32> {
    open spec fn accepts(wire: Wire<'a>) -> bool {
        wire is VarInt
    }

    open spec fn decodes_to(wire: Wire<'a>, v: Option<u32>) -> bool {
        wire matches Wire::VarInt(x) && v == Some(x as u32)
    }

    fn from_wire(wire: Wire<'a>, field: &'static str) -> (r: Option<u32>) {
        Some(wire.expect_var_int(field) as u32)
    }
}

impl<'a> ToWire<'a> for Option<u32> {
    open spec fn is_payload(&self, r: Option<Wire<'a>>) -> bool {
        r == option_u32_payload(*self)
    }

    open spec fn payload_room(&self) -> nat {
        0
    }

    open spec fn payload_fits(&self) -> bool {
        true
    }

    open spec fn encoded_len(&self) -> nat {
        match *self {
            Some(x) => varint_bytes(((x as i32) as u32)).len(),
            None => 0,
        }
    }

    fn to_wire(&self, cursor: &mut Cursor<&'a mut [u8]>) -> (r: Option<Wire<'a>>) {
        match *self {
            Some(x) => Some(Wire::VarInt(x as i32)),
            None => None,
        }
    }

    fn wire_len(&self) -> (n: usize) {
        if let Some(x) = *self {
            len_of(x as i32)
        } else {
            0
        }
    }
}

impl<'a> FromWire<'a> for u64 {
    open spec fn accepts(wire: Wire<'a>) -> bool {
        wire is Fixed64
    }

    open spec fn decodes_to(wire: Wire<'a>, v: u64) -> bool {
        wire == Wire::Fixed64(v)
    }

    fn from_wire(wire: Wire<'a>, field: &'static str) -> (r: u64) {
        wire.expect_fixed64(field)
    }
}

impl<'a> ToWire<'a> for u64 {
    open spec fn is_payload(&self, r: Option<Wire<'a>>) -> bool {
        r == u64_payload(*self)
    }

    open spec fn payload_room(&self) -> nat {
        0
    }

    open spec fn payload_fits(&self) -> bool {
        true
    }

    open spec fn encoded_len(&self) -> nat {
        if *self == 0 {
            0
        } else {
            8
        }
    }

    fn to_wire(&self, cursor: &mut Cursor<&'a mut [u8]>) -> (r: Option<Wire<'a>>) {
        if *self == 0 {
            None
        } else {
            Some(Wire::Fixed64(*self))
        }
    }

    fn wire_len(&self) -> (n: usize) {
        if *self == 0 {
            0
        } else {
            8
        }
    }
}

impl<'a> FromWire<'a> for &'a [u8] {
    open spec fn accepts(wire: Wire<'a>) -> bool {
        wire is Len || wire is LenMut
    }

    open spec fn decodes_to(wire: Wire<'a>, v: &'a [u8]) -> bool {
        (wire is Len || wire is LenMut) && v@ == wire_payload(wire)
    }

    fn from_wire(wire: Wire<'a>, field: &'static str) -> (r: &'a [u8]) {
        wire.expect_len(field)
    }
}

impl<'a> ToWire<'a> for &'a [u8] {
    open spec fn is_payload(&self, r: Option<Wire<'a>>) -> bool {
        r == bytes_payload(*self)
    }

    open spec fn payload_room(&self) -> nat {
        0
    }

    open spec fn payload_fits(&self) -> bool {
        true
    }

    open spec fn encoded_len(&self) -> nat {
        slice_wire_len(self@.len())
    }

    fn to_wire(&self, cursor: &mut Cursor<&'a mut [u8]>) -> (r: Option<Wire<'a>>) {
        if self.len() > 0 {
            Some(Wire::Len(*self))
        } else {
            None
        }
    }

    fn wire_len(&self) -> (n: usize) {
        if self.len() == 0 {
            return 0;
        }
        len_of(self.len() as i32) + self.len()
    }
}

/// A `bool` is left out of a message exactly when it is false; otherwise its
/// payload decodes back to it and has the length `wire_len` announces.
pub proof fn lemma_bool_wire_roundtrip(v: bool)
    ensures
        bool_payload(v) is None <==> v == false,
        bool_payload(v) matches Some(w) ==> <bool as FromWire>::accepts(w) && <bool as FromWire>::decodes_to(w, v)
            && wire_len(w) == v.encoded_len(),
{
}

/// A `u32` is left out of a message exactly when it is zero; otherwise its
/// payload decodes back to it and has the length `wire_len` announces.
pub proof fn lemma_u32_wire_roundtrip(v: u32)
    ensures
        u32_payload(v) is None <==> v == 0,
        u32_payload(v) matches Some(w) ==> <u32 as FromWire>::accepts(w) && <u32 as FromWire>::decodes_to(w, v)
            && wire_len(w) == v.encoded_len(),
{
}

/// A `u64` is left out of a message exactly when it is zero; otherwise its
/// payload decodes back to it and has the length `wire_len` announces.
pub proof fn lemma_u64_wire_roundtrip(v: u64)
    ensures
        u64_payload(v) is None <==> v == 0,
        u64_payload(v) matches Some(w) ==> <u64 as FromWire>::accepts(w) && <u64 as FromWire>::decodes_to(w, v)
            && wire_len(w) == v.encoded_len(),
{
}

/// An optional `u32` is left out of a message exactly when it is absent;
/// otherwise its payload decodes back to it and has the length `wire_len`
/// announces.
pub proof fn lemma_option_u32_wire_roundtrip(v: Option<u32>)
    ensures
        option_u32_payload(v) is None <==> v is None,
        option_u32_payload(v) matches Some(w) ==> <Option<u32> as FromWire>::accepts(w)
            && <Option<u32> as FromWire>::decodes_to(w, v) && wire_len(w) == v.encoded_len(),
{
    if let Some(x) = v {
        assert(((x as i32) as u32) == x) by (bit_vector);
    }
}

/// A byte string is left out of a message exactly when it is empty;
/// otherwise its payload decodes back to its bytes. (Its `wire_len` is the
/// length of its own length prefix and bytes, which is shorter than `Wire::len`
/// of its payload.)
pub proof fn lemma_slice_wire_roundtrip<'a>(v: &'a [u8])
    ensures
        bytes_payload(v) is None <==> v@.len() == 0,
        bytes_payload(v) matches Some(w) ==> <&'a [u8] as FromWire<'a>>::accepts(w)
            && <&'a [u8] as FromWire<'a>>::decodes_to(w, v),
{
}

} // verus!
