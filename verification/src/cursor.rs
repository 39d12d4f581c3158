//! A byte cursor over a borrowed buffer, in the manner of `std::io::Cursor`, with
//! big- and little-endian integer support and no heap allocation.
//!
//! A cursor owns a *window* on a buffer: every read or write takes bytes off the
//! front of the window. For a reading cursor the window is a shared slice; for a
//! writing cursor it is a mutable slice, and what a write stores is seen by the
//! owner of the buffer once the cursor is gone.
use crate::endian::{
    u16_be_bytes, u16_from_be, u16_from_le, u16_le_bytes, u32_be_bytes, u32_from_be, u32_from_le,
    u32_le_bytes, u64_be_bytes, u64_from_be, u64_from_le, u64_le_bytes,
};
use vstd::prelude::*;

verus! {

/// A buffer window that shrinks from the front as bytes are read or written.
pub struct Cursor<T> {
    /// The part of the buffer that has not been read (or written) yet.
    pub buffer: T,
}

impl<'buffer> View for Cursor<&'buffer [u8]> {
    type V = Seq<u8>;

    /// The bytes that remain to be read.
    open spec fn view(&self) -> Seq<u8> {
        self.buffer@
    }
}

impl<'buffer> View for Cursor<&'buffer mut [u8]> {
    type V = Seq<u8>;

    /// The current contents of the space that remains to be written.
    open spec fn view(&self) -> Seq<u8> {
        self.buffer@
    }
}

impl<'buffer> Cursor<&'buffer [u8]> {
    /// Constructs a new cursor object on top of a slice.
    pub fn new(buffer: &'buffer [u8]) -> (c: Self)
        ensures
            c@ == buffer@,
    {
        Self { buffer }
    }

    /// Returns the length of the underlying buffer.
    #[allow(clippy::len_without_is_empty)]
    pub fn len(&self) -> (n: usize)
        ensures
            n == self@.len(),
    {
        self.get_buf().len()
    }

    /// Returns the underlying buffer.
    pub fn get_buf(&self) -> (b: &'buffer [u8])
        ensures
            b@ == self@,
    {
        self.buffer
    }

    /// Whether any byte remains to be read.
    pub fn has_next(&self) -> (r: bool)
        ensures
            r == (self@.len() > 0),
    {
        self.buffer.len() > 0
    }

    /// Returns the underlying buffer.
    pub fn into_inner(self) -> (b: &'buffer [u8])
        ensures
            b@ == self@,
    {
        self.buffer
    }

    /// Splits the next `N` bytes off the buffer.
    /// Panics if fewer than `N` bytes remain.
    pub fn split_off_chunk<const N: usize>(&mut self) -> (chunk: &'buffer [u8])
        requires
            N <= old(self)@.len(),
        ensures
            chunk@ == old(self)@.take(N as int),
            final(self)@ == old(self)@.skip(N as int),
    {
        self.take_slice(N)
    }

    /// Splits the next `len` bytes off the buffer.
    /// Panics if fewer than `len` bytes remain.
    pub fn take_slice(&mut self, len: usize) -> (s: &'buffer [u8])
        requires
            len <= old(self)@.len(),
        ensures
            s@ == old(self)@.take(len as int),
            final(self)@ == old(self)@.skip(len as int),
    {
        let (head, tail) = self.buffer.split_at(len);
        self.buffer = tail;
        head
    }

    /// Reads data from the underlying buffer to the given slice and advances
    /// cursor position.
    /// Panics if there is not enough data remaining to fill the slice.
    pub fn read_bytes(&mut self, len: usize) -> (s: &'buffer [u8])
        requires
            len <= old(self)@.len(),
        ensures
            s@ == old(self)@.take(len as int),
            final(self)@ == old(self)@.skip(len as int),
    {
        self.take_slice(len)
    }

    /// Reads a 8bit integer value from the underlying buffer and advances
    /// cursor position.
    /// Panics if there is not enough data remaining.
    pub fn read_u8(&mut self) -> (v: u8)
        requires
            1 <= old(self)@.len(),
        ensures
            v == old(self)@[0],
            final(self)@ == old(self)@.skip(1),
    {
        let b = self.take_slice(1);
        b[0]
    }

    /// Reads a 16bit integer value from the underlying buffer and advances
    /// cursor position.
    /// Panics if there is not enough data remaining.
    pub fn read_u16_be(&mut self) -> (v: u16)
        requires
            2 <= old(self)@.len(),
        ensures
            v == u16_from_be(old(self)@),
            final(self)@ == old(self)@.skip(2),
    {
        let b = self.split_off_chunk::<2>();
        ((b[0] as u16) << 8) | (b[1] as u16)
    }

    /// Reads a 16bit integer value from the underlying buffer and advances
    /// cursor position.
    /// Panics if there is not enough data remaining.
    pub fn read_u16_le(&mut self) -> (v: u16)
        requires
            2 <= old(self)@.len(),
        ensures
            v == u16_from_le(old(self)@),
            final(self)@ == old(self)@.skip(2),
    {
        let b = self.split_off_chunk::<2>();
        (b[0] as u16) | ((b[1] as u16) << 8)
    }

    /// Reads a 32bit integer value from the underlying buffer and advances
    /// cursor position.
    /// Panics if there is not enough data remaining.
    pub fn read_u32_be(&mut self) -> (v: u32)
        requires
            4 <= old(self)@.len(),
        ensures
            v == u32_from_be(old(self)@),
            final(self)@ == old(self)@.skip(4),
    {
        let b = self.split_off_chunk::<4>();
        ((b[0] as u32) << 24) | ((b[1] as u32) << 16) | ((b[2] as u32) << 8) | (b[3] as u32)
    }

    /// Reads a 32bit integer value from the underlying buffer and advances
    /// cursor position.
    /// Panics if there is not enough data remaining.
    pub fn read_u32_le(&mut self) -> (v: u32)
        requires
            4 <= old(self)@.len(),
        ensures
            v == u32_from_le(old(self)@),
            final(self)@ == old(self)@.skip(4),
    {
        let b = self.split_off_chunk::<4>();
        (b[0] as u32) | ((b[1] as u32) << 8) | ((b[2] as u32) << 16) | ((b[3] as u32) << 24)
    }

    /// Reads a 64bit integer value from the underlying buffer and advances
    /// cursor position.
    /// Panics if there is not enough data remaining.
    pub fn read_u64_be(&mut self) -> (v: u64)
        requires
            8 <= old(self)@.len(),
        ensures
            v == u64_from_be(old(self)@),
            final(self)@ == old(self)@.skip(8),
    {
        let b = self.split_off_chunk::<8>();
        ((b[0] as u64) << 56) | ((b[1] as u64) << 48) | ((b[2] as u64) << 40) | ((b[3] as u64)
            << 32) | ((b[4] as u64) << 24) | ((b[5] as u64) << 16) | ((b[6] as u64) << 8) | (
        b[7] as u64)
    }

    /// Reads a 64bit integer value from the underlying buffer and advances
    /// cursor position.
    /// Panics if there is not enough data remaining.
    pub fn read_u64_le(&mut self) -> (v: u64)
        requires
            8 <= old(self)@.len(),
        ensures
            v == u64_from_le(old(self)@),
            final(self)@ == old(self)@.skip(8),
    {
        let b = self.split_off_chunk::<8>();
        (b[0] as u64) | ((b[1] as u64) << 8) | ((b[2] as u64) << 16) | ((b[3] as u64) << 24) | ((
        b[4] as u64) << 32) | ((b[5] as u64) << 40) | ((b[6] as u64) << 48) | ((b[7] as u64)
            << 56)
    }
}

impl<'buffer> Cursor<&'buffer mut [u8]> {
    /// Constructs a new cursor object on top of a slice.
    pub fn new(buffer: &'buffer mut [u8]) -> (c: Self)
        ensures
            c@ == old(buffer)@,
            final(c.buffer)@ == final(buffer)@,
    {
        Self { buffer }
    }

    /// Returns the length of the underlying buffer.
    #[allow(clippy::len_without_is_empty)]
    pub fn len(&self) -> (n: usize)
        ensures
            n == self@.len(),
    {
        self.buffer.len()
    }

    /// Returns the underlying buffer, for as long as the cursor lives.
    pub fn get_buf_mut(&'buffer mut self) -> (b: &'buffer mut [u8])
        ensures
            b@ == old(self)@,
            final(self)@ == final(b)@,
    {
        &mut *self.buffer
    }

    /// Returns the underlying buffer.
    pub fn into_inner_mut(self) -> (b: &'buffer mut [u8])
        ensures
            b@ == self@,
            final(b)@ == final(self.buffer)@,
    {
        self.buffer
    }

    /// Splits the next `N` bytes off the buffer, for the caller to fill.
    /// Panics if fewer than `N` bytes remain.
    pub fn split_off_chunk_mut<const N: usize>(&mut self) -> (chunk: &'buffer mut [u8])
        requires
            N <= old(self)@.len(),
        ensures
            chunk@ == old(self)@.take(N as int),
            final(self)@ == old(self)@.skip(N as int),
            final(old(self).buffer)@ == final(chunk)@ + final(final(self).buffer)@,
    {
        self.take_slice_mut(N)
    }

    /// Splits the next `len` bytes off the buffer, for the caller to fill.
    /// Panics if fewer than `len` bytes remain.
    pub fn take_slice_mut(&mut self, len: usize) -> (s: &'buffer mut [u8])
        requires
            len <= old(self)@.len(),
        ensures
            s@ == old(self)@.take(len as int),
            final(self)@ == old(self)@.skip(len as int),
            final(old(self).buffer)@ == final(s)@ + final(final(self).buffer)@,
    {
        let mut whole: &'buffer mut [u8] = &mut [];
        core::mem::swap(&mut whole, &mut self.buffer);
        let (head, tail) = whole.split_at_mut(len);
        self.buffer = tail;
        head
    }

    /// Writes the given slice to the underlying buffer and advances
    /// cursor position.
    /// Panics if there is not enough space remaining to write the slice.
    pub fn write_bytes(&mut self, src: &[u8])
        requires
            src@.len() <= old(self)@.len(),
        ensures
            final(self)@ == old(self)@.skip(src@.len() as int),
            final(old(self).buffer)@ == src@ + final(final(self).buffer)@,
    {
        let window = self.take_slice_mut(src.len());
        let n = src.len();
        let mut i: usize = 0;
        while i < n
            invariant
                n == src@.len(),
                window@.len() == n,
                i <= n,
                forall|k: int| 0 <= k < i ==> window@[k] == src@[k],
            decreases n - i,
        {
            window[i] = src[i];
            i = i + 1;
        }
        assert(window@ =~= src@);
    }

    /// Writes a 8bit integer value to the underlying buffer and advances
    /// cursor position.
    /// Panics if there is not enough space remaining.
    pub fn write_u8(&mut self, val: u8)
        requires
            1 <= old(self)@.len(),
        ensures
            final(self)@ == old(self)@.skip(1),
            final(old(self).buffer)@ == seq![val] + final(final(self).buffer)@,
    {
        let v = self.take_slice_mut(1);
        v[0] = val;
        assert(v@ =~= seq![val]);
    }

    /// Reads a 8bit integer value, as a reading cursor does, and advances
    /// cursor position; the byte stays in the buffer.
    /// Panics if there is not enough data remaining.
    pub fn read_u8(&mut self) -> (v: u8)
        requires
            1 <= old(self)@.len(),
        ensures
            v == old(self)@[0],
            final(self)@ == old(self)@.skip(1),
            final(old(self).buffer)@ == old(self)@.take(1) + final(final(self).buffer)@,
    {
        let b = self.take_slice_mut(1);
        b[0]
    }

    /// Reads a little-endian 32bit integer value, as a reading cursor does,
    /// and advances cursor position; the bytes stay in the buffer.
    /// Panics if there is not enough data remaining.
    pub fn read_u32_le(&mut self) -> (v: u32)
        requires
            4 <= old(self)@.len(),
        ensures
            v == u32_from_le(old(self)@),
            final(self)@ == old(self)@.skip(4),
            final(old(self).buffer)@ == old(self)@.take(4) + final(final(self).buffer)@,
    {
        let b = self.take_slice_mut(4);
        (b[0] as u32) | ((b[1] as u32) << 8) | ((b[2] as u32) << 16) | ((b[3] as u32) << 24)
    }

    /// Stores `bytes` in a window of the same length.
    fn fill(window: &mut [u8], bytes: &[u8])
        requires
            old(window)@.len() == bytes@.len(),
        ensures
            final(window)@ == bytes@,
    {
        let n = bytes.len();
        let mut i: usize = 0;
        while i < n
            invariant
                n == bytes@.len(),
                window@.len() == n,
                i <= n,
                forall|k: int| 0 <= k < i ==> window@[k] == bytes@[k],
            decreases n - i,
        {
            window[i] = bytes[i];
            i = i + 1;
        }
        assert(window@ =~= bytes@);
    }

    /// Writes a 16bit integer value to the underlying buffer and advances
    /// cursor position.
    /// Panics if there is not enough space remaining.
    pub fn write_u16_be(&mut self, val: u16)
        requires
            2 <= old(self)@.len(),
        ensures
            final(self)@ == old(self)@.skip(2),
            final(old(self).buffer)@ == u16_be_bytes(val) + final(final(self).buffer)@,
    {
        let bytes = self.split_off_chunk_mut::<2>();
        let b = [(val >> 8) as u8, val as u8];
        assert(b@ =~= u16_be_bytes(val));
        Self::fill(bytes, &b);
    }

    /// Writes a 16bit integer value to the underlying buffer and advances
    /// cursor position.
    /// Panics if there is not enough space remaining.
    pub fn write_u16_le(&mut self, val: u16)
        requires
            2 <= old(self)@.len(),
        ensures
            final(self)@ == old(self)@.skip(2),
            final(old(self).buffer)@ == u16_le_bytes(val) + final(final(self).buffer)@,
    {
        let bytes = self.split_off_chunk_mut::<2>();
        let b = [val as u8, (val >> 8) as u8];
        assert(b@ =~= u16_le_bytes(val));
        Self::fill(bytes, &b);
    }

    /// Writes a 32bit integer value to the underlying buffer and advances
    /// cursor position.
    /// Panics if there is not enough space remaining.
    pub fn write_u32_be(&mut self, val: u32)
        requires
            4 <= old(self)@.len(),
        ensures
            final(self)@ == old(self)@.skip(4),
            final(old(self).buffer)@ == u32_be_bytes(val) + final(final(self).buffer)@,
    {
        let bytes = self.split_off_chunk_mut::<4>();
        let b = [(val >> 24) as u8, (val >> 16) as u8, (val >> 8) as u8, val as u8];
        assert(b@ =~= u32_be_bytes(val));
        Self::fill(bytes, &b);
    }

    /// Writes a 32bit integer value to the underlying buffer and advances
    /// cursor position.
    /// Panics if there is not enough space remaining.
    pub fn write_u32_le(&mut self, val: u32)
        requires
            4 <= old(self)@.len(),
        ensures
            final(self)@ == old(self)@.skip(4),
            final(old(self).buffer)@ == u32_le_bytes(val) + final(final(self).buffer)@,
    {
        let bytes = self.split_off_chunk_mut::<4>();
        let b = [val as u8, (val >> 8) as u8, (val >> 16) as u8, (val >> 24) as u8];
        assert(b@ =~= u32_le_bytes(val));
        Self::fill(bytes, &b);
    }

    /// Writes a 64bit integer value to the underlying buffer and advances
    /// cursor position.
    /// Panics if there is not enough space remaining.
    pub fn write_u64_be(&mut self, val: u64)
        requires
            8 <= old(self)@.len(),
        ensures
            final(self)@ == old(self)@.skip(8),
            final(old(self).buffer)@ == u64_be_bytes(val) + final(final(self).buffer)@,
    {
        let bytes = self.split_off_chunk_mut::<8>();
        let b = [
            (val >> 56) as u8,
            (val >> 48) as u8,
            (val >> 40) as u8,
            (val >> 32) as u8,
            (val >> 24) as u8,
            (val >> 16) as u8,
            (val >> 8) as u8,
            val as u8,
        ];
        assert(b@ =~= u64_be_bytes(val));
        Self::fill(bytes, &b);
    }

    /// Writes a 64bit integer value to the underlying buffer and advances
    /// cursor position.
    /// Panics if there is not enough space remaining.
    pub fn write_u64_le(&mut self, val: u64)
        requires
            8 <= old(self)@.len(),
        ensures
            final(self)@ == old(self)@.skip(8),
            final(old(self).buffer)@ == u64_le_bytes(val) + final(final(self).buffer)@,
    {
        let bytes = self.split_off_chunk_mut::<8>();
        let b = [
            val as u8,
            (val >> 8) as u8,
            (val >> 16) as u8,
            (val >> 24) as u8,
            (val >> 32) as u8,
            (val >> 40) as u8,
            (val >> 48) as u8,
            (val >> 56) as u8,
        ];
        assert(b@ =~= u64_le_bytes(val));
        Self::fill(bytes, &b);
    }
}

} // verus!
