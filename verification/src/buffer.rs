use bytes::BytesMut;
use vstd::prelude::*;

verus! {

/// Makes `bytes::BytesMut` known to the verifier as a type whose inside it
/// does not see. What a buffer holds is spoken of through `buffer_bytes`.
#[verifier::external_type_specification]
#[verifier::external_body]
pub struct ExBytesMut(BytesMut);

/// The bytes that a `BytesMut` holds, first to last: what `as_ref` shows.
pub uninterp spec fn buffer_bytes(buf: BytesMut) -> Seq<u8>;

/// `BytesMut::new` gives a buffer that holds nothing.
pub assume_specification[ BytesMut::new ]() -> (buf: BytesMut)
    ensures
        buffer_bytes(buf) == Seq::<u8>::empty(),
;

/// `BytesMut::len` is the number of bytes held.
pub assume_specification[ BytesMut::len ](buf: &BytesMut) -> (n: usize)
    ensures
        n == buffer_bytes(*buf).len(),
;

/// `BytesMut::is_empty` tells whether no byte is held.
pub assume_specification[ BytesMut::is_empty ](buf: &BytesMut) -> (b: bool)
    ensures
        b == (buffer_bytes(*buf).len() == 0),
;

/// `BytesMut::extend_from_slice` appends the given bytes. It panics when the
/// new length does not fit in `usize`, which the precondition excludes.
pub assume_specification[ BytesMut::extend_from_slice ](buf: &mut BytesMut, extend: &[u8])
    requires
        buffer_bytes(*old(buf)).len() + extend@.len() <= usize::MAX,
    ensures
        buffer_bytes(*final(buf)) == buffer_bytes(*old(buf)) + extend@,
;

/// `BytesMut::clear` drops every byte held.
pub assume_specification[ BytesMut::clear ](buf: &mut BytesMut)
    ensures
        buffer_bytes(*final(buf)) == Seq::<u8>::empty(),
;

/// `BytesMut::split_to` hands out the first `at` bytes and keeps the rest.
/// It panics when `at` exceeds the length, which the precondition excludes.
pub assume_specification[ BytesMut::split_to ](buf: &mut BytesMut, at: usize) -> (head: BytesMut)
    requires
        at <= buffer_bytes(*old(buf)).len(),
    ensures
        buffer_bytes(head) == buffer_bytes(*old(buf)).take(at as int),
        buffer_bytes(*final(buf)) == buffer_bytes(*old(buf)).skip(at as int),
;

/// `AsRef<[u8]>::as_ref` of a `BytesMut` borrows the bytes held.
pub assume_specification[ <BytesMut as core::convert::AsRef<[u8]>>::as_ref ](buf: &BytesMut) -> (s: &[u8])
    ensures
        s@ == buffer_bytes(*buf),
;

} // verus!
