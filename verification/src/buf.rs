//! What the library takes on trust about the byte buffers it works on.
//!
//! The buffers are those of the `bytes` crate: a `BytesMut` holds traffic that
//! waits to be parsed or to be sent, and a byte slice is the cursor that a
//! parse runs over. Nothing in this file is proved. Each item states what the
//! source of `bytes`, or the documentation of std, says of one function; the
//! rest of the library is verified against these statements.

use crate::endian::{
    i32_from_le, i32_to_le, u16_from_be, u16_from_le, u16_to_be, u16_to_le, u32_from_le, u32_to_le,
};
use vstd::prelude::*;
use vstd::utf8::{decode_utf8, valid_utf8};

verus! {

/// `bytes::BytesMut`, a growable queue of bytes: written at the back, consumed
/// from the front.
#[verifier::external_type_specification]
#[verifier::external_body]
pub struct ExBytesMut(bytes::BytesMut);

/// The bytes that a buffer holds, the next to be consumed first.
pub uninterp spec fn held(buffer: bytes::BytesMut) -> Seq<u8>;

/// The text that `String::from_utf8_lossy` makes of `bytes`.
pub uninterp spec fn utf8_lossy(bytes: Seq<u8>) -> Seq<char>;

/// `BytesMut::with_capacity`: a buffer that holds nothing. The capacity is
/// room set aside and no limit. Above `isize::MAX` the allocation panics.
pub assume_specification[ bytes::BytesMut::with_capacity ](capacity: usize) -> (buffer:
    bytes::BytesMut)
    requires
        capacity <= isize::MAX,
    ensures
        held(buffer) == Seq::<u8>::empty(),
;

/// `Deref` of `BytesMut`: everything the buffer holds, as a slice. A slice is
/// never longer than `isize::MAX`.
#[verifier::external_body]
pub(crate) fn buffer_slice(buffer: &bytes::BytesMut) -> (slice: &[u8])
    ensures
        slice@ == held(*buffer),
        slice@.len() <= isize::MAX,
{
    &buffer[..]
}

/// `Buf::advance` of `BytesMut`: drops the first `cnt` bytes. It panics past
/// the end.
#[verifier::external_body]
pub(crate) fn buffer_advance(buffer: &mut bytes::BytesMut, cnt: usize)
    requires
        cnt <= held(*old(buffer)).len(),
    ensures
        held(*final(buffer)) == held(*old(buffer)).skip(cnt as int),
{
    bytes::Buf::advance(buffer, cnt)
}

/// `BufMut::has_remaining_mut` of `BytesMut`: whether one more byte can be
/// written, which is so below `isize::MAX` bytes.
#[verifier::external_body]
pub(crate) fn buffer_has_room(buffer: &bytes::BytesMut) -> (room: bool)
    ensures
        room == (held(*buffer).len() < isize::MAX),
{
    bytes::BufMut::has_remaining_mut(buffer)
}

/// `BufMut::put_slice` of `BytesMut`: appends `src`, growing the buffer as
/// needed. Growth past `isize::MAX` bytes panics.
#[verifier::external_body]
pub(crate) fn buffer_put_slice(buffer: &mut bytes::BytesMut, src: &[u8])
    requires
        held(*old(buffer)).len() + src@.len() <= isize::MAX,
    ensures
        held(*final(buffer)) == held(*old(buffer)) + src@,
{
    bytes::BufMut::put_slice(buffer, src)
}

/// `BufMut::put_u8` of `BytesMut`: appends the byte.
#[verifier::external_body]
pub(crate) fn buffer_put_u8(buffer: &mut bytes::BytesMut, n: u8)
    requires
        held(*old(buffer)).len() + 1 <= isize::MAX,
    ensures
        held(*final(buffer)) == held(*old(buffer)).push(n),
{
    bytes::BufMut::put_u8(buffer, n)
}

/// `BufMut::put_u16` of `BytesMut`: appends the two bytes, big-endian.
#[verifier::external_body]
pub(crate) fn buffer_put_u16(buffer: &mut bytes::BytesMut, n: u16)
    requires
        held(*old(buffer)).len() + 2 <= isize::MAX,
    ensures
        held(*final(buffer)) == held(*old(buffer)) + u16_to_be(n),
{
    bytes::BufMut::put_u16(buffer, n)
}

/// `BufMut::put_u16_le` of `BytesMut`: appends the two bytes, little-endian.
#[verifier::external_body]
pub(crate) fn buffer_put_u16_le(buffer: &mut bytes::BytesMut, n: u16)
    requires
        held(*old(buffer)).len() + 2 <= isize::MAX,
    ensures
        held(*final(buffer)) == held(*old(buffer)) + u16_to_le(n),
{
    bytes::BufMut::put_u16_le(buffer, n)
}

/// `BufMut::put_i32_le` of `BytesMut`: appends the four bytes of the two's
/// complement, little-endian.
#[verifier::external_body]
pub(crate) fn buffer_put_i32_le(buffer: &mut bytes::BytesMut, n: i32)
    requires
        held(*old(buffer)).len() + 4 <= isize::MAX,
    ensures
        held(*final(buffer)) == held(*old(buffer)) + i32_to_le(n),
{
    bytes::BufMut::put_i32_le(buffer, n)
}

/// `BufMut::put_u32_le` of `BytesMut`: appends the four bytes, little-endian.
#[verifier::external_body]
pub(crate) fn buffer_put_u32_le(buffer: &mut bytes::BytesMut, n: u32)
    requires
        held(*old(buffer)).len() + 4 <= isize::MAX,
    ensures
        held(*final(buffer)) == held(*old(buffer)) + u32_to_le(n),
{
    bytes::BufMut::put_u32_le(buffer, n)
}

/// `Buf::remaining` of a slice: its length.
#[verifier::external_body]
pub(crate) fn slice_remaining(cursor: &&[u8]) -> (n: usize)
    ensures
        n == cursor@.len(),
{
    bytes::Buf::remaining(cursor)
}

/// `Buf::get_u8` of a slice: the first byte, and the cursor moves past it. It
/// panics on an empty slice.
#[verifier::external_body]
pub(crate) fn slice_get_u8(cursor: &mut &[u8]) -> (n: u8)
    requires
        old(cursor)@.len() >= 1,
    ensures
        n == old(cursor)@[0],
        final(cursor)@ == old(cursor)@.skip(1),
{
    bytes::Buf::get_u8(cursor)
}

/// `Buf::get_u16` of a slice: the first two bytes as a big-endian number, and
/// the cursor moves past them. It panics on fewer bytes.
#[verifier::external_body]
pub(crate) fn slice_get_u16(cursor: &mut &[u8]) -> (n: u16)
    requires
        old(cursor)@.len() >= 2,
    ensures
        n == u16_from_be(old(cursor)@),
        final(cursor)@ == old(cursor)@.skip(2),
{
    bytes::Buf::get_u16(cursor)
}

/// `Buf::get_u16_le` of a slice: the first two bytes as a little-endian
/// number, and the cursor moves past them. It panics on fewer bytes.
#[verifier::external_body]
pub(crate) fn slice_get_u16_le(cursor: &mut &[u8]) -> (n: u16)
    requires
        old(cursor)@.len() >= 2,
    ensures
        n == u16_from_le(old(cursor)@),
        final(cursor)@ == old(cursor)@.skip(2),
{
    bytes::Buf::get_u16_le(cursor)
}

/// `Buf::get_i32_le` of a slice: the first four bytes as a little-endian
/// number in two's complement, and the cursor moves past them. It panics on
/// fewer bytes.
#[verifier::external_body]
pub(crate) fn slice_get_i32_le(cursor: &mut &[u8]) -> (n: i32)
    requires
        old(cursor)@.len() >= 4,
    ensures
        n == i32_from_le(old(cursor)@),
        final(cursor)@ == old(cursor)@.skip(4),
{
    bytes::Buf::get_i32_le(cursor)
}

/// `Buf::get_u32_le` of a slice: the first four bytes as a little-endian
/// number, and the cursor moves past them. It panics on fewer bytes.
#[verifier::external_body]
pub(crate) fn slice_get_u32_le(cursor: &mut &[u8]) -> (n: u32)
    requires
        old(cursor)@.len() >= 4,
    ensures
        n == u32_from_le(old(cursor)@),
        final(cursor)@ == old(cursor)@.skip(4),
{
    bytes::Buf::get_u32_le(cursor)
}

/// `Buf::copy_to_slice` of a slice: fills `dst` from the front of the cursor,
/// which moves past what was copied. It panics where the cursor is shorter
/// than `dst`.
#[verifier::external_body]
pub(crate) fn slice_copy_to(cursor: &mut &[u8], dst: &mut Vec<u8>)
    requires
        old(cursor)@.len() >= old(dst)@.len(),
    ensures
        final(dst)@ == old(cursor)@.take(old(dst)@.len() as int),
        final(cursor)@ == old(cursor)@.skip(old(dst)@.len() as int),
{
    bytes::Buf::copy_to_slice(cursor, dst)
}

/// `String::from_utf8_lossy`: the bytes as text. Valid UTF-8 is decoded as it
/// stands; in anything else each invalid sequence gives way to U+FFFD.
#[verifier::external_body]
pub(crate) fn lossy_text(bytes: &Vec<u8>) -> (text: String)
    ensures
        text@ == utf8_lossy(bytes@),
        valid_utf8(bytes@) ==> text@ == decode_utf8(bytes@),
{
    String::from_utf8_lossy(bytes).into_owned()
}

} // verus!
