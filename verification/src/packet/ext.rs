//! The wire alphabet: the primitive fields that every packet layout is made
//! of, read from a cursor over buffered bytes and written to a send buffer.
//!
//! The alphabet holds unsigned 8-bit numbers, unsigned 16-bit numbers in both
//! byte orders, signed and unsigned 32-bit numbers in little-endian order, and
//! text: a 16-bit little-endian count of bytes, then that many bytes of UTF-8.

use super::game::Error;
use crate::buf::{
    buffer_put_i32_le, buffer_put_slice, buffer_put_u16, buffer_put_u16_le, buffer_put_u32_le,
    buffer_put_u8, buffer_slice, held, lossy_text, slice_copy_to, slice_get_i32_le,
    slice_get_u16, slice_get_u16_le, slice_get_u32_le, slice_get_u8, slice_remaining, utf8_lossy,
};
use crate::endian::{
    i32_from_le, i32_to_le, lemma_u16_le_round_trip, u16_from_be, u16_from_le, u16_to_be,
    u16_to_le, u32_from_le, u32_to_le,
};
use vstd::prelude::*;
use vstd::string::StringSliceAdditionalSpecFns;
use vstd::utf8::{
    decode_utf8, encode_utf8, encode_utf8_decode_utf8, encode_utf8_valid_utf8, valid_utf8,
};

verus! {

/// What a read of a field of `width` bytes does to a cursor that stood before
/// `before`: with that many bytes there, it yields `value` and stands before
/// `after`, `width` bytes on; with fewer it is incomplete and has not moved.
pub open spec fn reads_fixed<T>(
    before: Seq<u8>,
    width: nat,
    value: T,
    result: Result<T, Error>,
    after: Seq<u8>,
) -> bool {
    if before.len() >= width {
        result == Ok::<T, Error>(value) && after == before.skip(width as int)
    } else {
        result == Err::<T, Error>(Error::Incomplete) && after == before
    }
}

/// What a read of a text field does to a cursor that stood before `before`.
/// Without two bytes for the count it is incomplete and has not moved. With
/// the count but fewer bytes behind it than the count says, it is incomplete
/// and stands behind the count. Otherwise it yields the counted bytes as text
/// and stands behind them.
pub open spec fn reads_text(before: Seq<u8>, result: Result<String, Error>, after: Seq<u8>) -> bool {
    if before.len() < 2 {
        result == Err::<String, Error>(Error::Incomplete) && after == before
    } else if before.len() - 2 < u16_from_le(before) {
        result == Err::<String, Error>(Error::Incomplete) && after == before.skip(2)
    } else {
        &&& result matches Ok(text)
        &&& is_text_of(text@, before.subrange(2, 2 + u16_from_le(before)))
        &&& after == before.skip(2 + u16_from_le(before))
    }
}

/// Whether `text` is what a text field of these bytes reads as: the bytes
/// decoded where they are UTF-8, and in any case what the lossy conversion of
/// std makes of them.
pub open spec fn is_text_of(text: Seq<char>, bytes: Seq<u8>) -> bool {
    &&& text == utf8_lossy(bytes)
    &&& valid_utf8(bytes) ==> text == decode_utf8(bytes)
}

/// The bytes of a text field that holds `text`: the count of its bytes in
/// UTF-8, cut to 16 bits, then the bytes.
pub open spec fn text_field(text: Seq<char>) -> Seq<u8> {
    u16_to_le((encode_utf8(text).len() % 0x1_0000) as u16) + encode_utf8(text)
}

/// A text whose UTF-8 fits the 16-bit count reads back as it was written,
/// whatever follows it: any read that meets `reads_text` on the written field
/// yields the text and stands behind the field.
pub proof fn lemma_text_round_trip(
    text: Seq<char>,
    rest: Seq<u8>,
    result: Result<String, Error>,
    after: Seq<u8>,
)
    requires
        encode_utf8(text).len() <= u16::MAX,
        reads_text(text_field(text) + rest, result, after),
    ensures
        result matches Ok(read) && read@ == text,
        after == rest,
{
    let bytes = encode_utf8(text);
    let count = bytes.len() as u16;
    let wire = text_field(text) + rest;
    assert(wire =~= u16_to_le(count) + (bytes + rest));
    lemma_u16_le_round_trip(count, bytes + rest);
    assert(wire.subrange(2, 2 + count) =~= bytes);
    assert(wire.skip(2 + count) =~= rest);
    encode_utf8_valid_utf8(text);
    encode_utf8_decode_utf8(text);
}

/// A cursor over buffered bytes, from which the fields of a packet are read.
pub trait ReadExt {
    /// The bytes that the cursor has not moved past, the next one first.
    spec fn unread(&self) -> Seq<u8>;

    /// Reads one byte.
    fn read_u8(&mut self) -> (result: Result<u8, Error>)
        ensures
            reads_fixed(
                old(self).unread(),
                1,
                old(self).unread()[0],
                result,
                final(self).unread(),
            ),
    ;

    /// Reads an unsigned 16-bit number in big-endian order.
    fn read_u16(&mut self) -> (result: Result<u16, Error>)
        ensures
            reads_fixed(
                old(self).unread(),
                2,
                u16_from_be(old(self).unread()) as u16,
                result,
                final(self).unread(),
            ),
    ;

    /// Reads an unsigned 16-bit number in little-endian order.
    fn read_u16_le(&mut self) -> (result: Result<u16, Error>)
        ensures
            reads_fixed(
                old(self).unread(),
                2,
                u16_from_le(old(self).unread()) as u16,
                result,
                final(self).unread(),
            ),
    ;

    /// Reads a signed 32-bit number in little-endian order.
    fn read_i32_le(&mut self) -> (result: Result<i32, Error>)
        ensures
            reads_fixed(
                old(self).unread(),
                4,
                i32_from_le(old(self).unread()) as i32,
                result,
                final(self).unread(),
            ),
    ;

    /// Reads an unsigned 32-bit number in little-endian order.
    fn read_u32_le(&mut self) -> (result: Result<u32, Error>)
        ensures
            reads_fixed(
                old(self).unread(),
                4,
                u32_from_le(old(self).unread()) as u32,
                result,
                final(self).unread(),
            ),
    ;

    /// Reads a text field. Bytes that are no UTF-8 do not fail the read: they
    /// are replaced.
    fn read_string(&mut self) -> (result: Result<String, Error>)
        ensures
            reads_text(old(self).unread(), result, final(self).unread()),
    ;
}

impl<'a> ReadExt for &'a [u8] {
    open spec fn unread(&self) -> Seq<u8> {
        self@
    }

    fn read_u8(&mut self) -> (result: Result<u8, Error>) {
        if slice_remaining(self) >= 1 {
            Ok(slice_get_u8(self))
        } else {
            Err(Error::Incomplete)
        }
    }

    fn read_u16(&mut self) -> (result: Result<u16, Error>) {
        if slice_remaining(self) >= 2 {
            Ok(slice_get_u16(self))
        } else {
            Err(Error::Incomplete)
        }
    }

    fn read_u16_le(&mut self) -> (result: Result<u16, Error>) {
        if slice_remaining(self) >= 2 {
            Ok(slice_get_u16_le(self))
        } else {
            Err(Error::Incomplete)
        }
    }

    fn read_i32_le(&mut self) -> (result: Result<i32, Error>) {
        if slice_remaining(self) >= 4 {
            Ok(slice_get_i32_le(self))
        } else {
            Err(Error::Incomplete)
        }
    }

    fn read_u32_le(&mut self) -> (result: Result<u32, Error>) {
        if slice_remaining(self) >= 4 {
            Ok(slice_get_u32_le(self))
        } else {
            Err(Error::Incomplete)
        }
    }

    fn read_string(&mut self) -> (result: Result<String, Error>) {
        let len = match self.read_u16_le() {
            Ok(len) => len as usize,
            Err(e) => {
                return Err(e);
            },
        };
        if slice_remaining(self) >= len {
            let mut buf = vec![0u8; len];
            slice_copy_to(self, &mut buf);
            proof {
                let before = old(self)@;
                assert(before.skip(2).take(len as int) =~= before.subrange(2, 2 + len));
                assert(before.skip(2).skip(len as int) =~= before.skip(2 + len));
            }
            Ok(lossy_text(&buf))
        } else {
            Err(Error::Incomplete)
        }
    }
}

/// A send buffer, to which the fields of a packet are written.
pub trait WriteExt {
    /// The bytes that the buffer holds, the oldest first.
    spec fn written(&self) -> Seq<u8>;

    /// Writes one byte.
    fn write_u8(&mut self, n: u8)
        requires
            old(self).written().len() + 1 <= isize::MAX,
        ensures
            final(self).written() == old(self).written().push(n),
    ;

    /// Writes an unsigned 16-bit number in big-endian order.
    fn write_u16(&mut self, n: u16)
        requires
            old(self).written().len() + 2 <= isize::MAX,
        ensures
            final(self).written() == old(self).written() + u16_to_be(n),
    ;

    /// Writes an unsigned 16-bit number in little-endian order.
    fn write_u16_le(&mut self, n: u16)
        requires
            old(self).written().len() + 2 <= isize::MAX,
        ensures
            final(self).written() == old(self).written() + u16_to_le(n),
    ;

    /// Writes a signed 32-bit number in little-endian order.
    fn write_i32_le(&mut self, n: i32)
        requires
            old(self).written().len() + 4 <= isize::MAX,
        ensures
            final(self).written() == old(self).written() + i32_to_le(n),
    ;

    /// Writes an unsigned 32-bit number in little-endian order.
    fn write_u32_le(&mut self, n: u32)
        requires
            old(self).written().len() + 4 <= isize::MAX,
        ensures
            final(self).written() == old(self).written() + u32_to_le(n),
    ;

    /// Writes a text field. The count wraps at 16 bits while all the bytes are
    /// written, so a text of more than 65535 bytes does not read back.
    fn write_string(&mut self, n: &str)
        requires
            old(self).written().len() + 2 + n.spec_bytes().len() <= isize::MAX,
        ensures
            final(self).written() == old(self).written() + text_field(n@),
    ;
}

/// Whether `buffer` can take `count` more bytes: a buffer holds no more than
/// `isize::MAX`.
pub fn room_for(buffer: &bytes::BytesMut, count: usize) -> (enough: bool)
    ensures
        enough == (held(*buffer).len() + count <= isize::MAX),
{
    let limit: usize = isize::MAX as usize;
    count <= limit - buffer_slice(buffer).len()
}

impl WriteExt for bytes::BytesMut {
    open spec fn written(&self) -> Seq<u8> {
        held(*self)
    }

    fn write_u8(&mut self, n: u8) {
        buffer_put_u8(self, n)
    }

    fn write_u16(&mut self, n: u16) {
        buffer_put_u16(self, n)
    }

    fn write_u16_le(&mut self, n: u16) {
        buffer_put_u16_le(self, n)
    }

    fn write_i32_le(&mut self, n: i32) {
        buffer_put_i32_le(self, n)
    }

    fn write_u32_le(&mut self, n: u32) {
        buffer_put_u32_le(self, n)
    }

    fn write_string(&mut self, n: &str) {
        let buf = n.as_bytes();
        let count: u16 = (buf.len() % 0x1_0000) as u16;
        self.write_u16_le(count);
        buffer_put_slice(self, buf);
        proof {
            assert(held(*self) =~= held(*old(self)) + text_field(n@));
        }
    }
}

} // verus!
