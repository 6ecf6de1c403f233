//! Messages as the bytes that travel through a virtqueue.
use crate::bytes::sits_at;
use vstd::prelude::*;

verus! {

/// A message that can be turned into its bytes.
///
/// Fields follow each other without gaps, in the order of their declaration, least significant
/// byte first.
pub trait IntoBytes: Sized {
    /// The bytes of the message.
    spec fn wire(&self) -> Seq<u8>;

    /// How many bytes a message of this type has.
    spec fn wire_len() -> nat;

    /// Every message of this type has the same, non-zero number of bytes.
    proof fn wire_has_len(&self)
        ensures
            self.wire().len() == Self::wire_len(),
            Self::wire_len() > 0,
    ;

    /// Whether `self` is what `bytes` hold from `at` on, with zeros taken for what is missing at
    /// the end.
    spec fn is_at(&self, bytes: Seq<u8>, at: int) -> bool;

    /// A message is at the place at which it was written.
    proof fn is_where_written(&self, bytes: Seq<u8>, at: int)
        requires
            sits_at(bytes, at, self.wire()),
        ensures
            self.is_at(bytes, at),
    ;

    /// No two messages are at the same place.
    proof fn is_alone(self, other: Self, bytes: Seq<u8>, at: int)
        requires
            self.is_at(bytes, at),
            other.is_at(bytes, at),
        ensures
            self == other,
    ;

    /// The message as bytes.
    fn as_bytes(&self) -> (out: Vec<u8>)
        ensures
            out@ == self.wire(),
    ;
}

/// A message that can be read from bytes.
pub trait FromBytes: IntoBytes {
    /// How many bytes a message of this type has.
    fn size() -> (n: usize)
        ensures
            n == Self::wire_len(),
    ;

    /// Reads the message that stands at `at`.
    fn read_at(bytes: &[u8], at: usize) -> (message: Self)
        requires
            at + Self::wire_len() <= usize::MAX,
        ensures
            message.is_at(bytes@, at as int),
    ;
}

/// A message that is turned into bytes and read back is the same message.
pub proof fn message_reads_back<M: IntoBytes>(written: M, read: M)
    requires
        read.is_at(written.wire(), 0),
    ensures
        read == written,
{
    written.is_where_written(written.wire(), 0);
    read.is_alone(written, written.wire(), 0);
}

/// Different messages have different bytes.
pub proof fn bytes_tell_messages_apart<M: IntoBytes>(first: M, second: M)
    requires
        first.wire() == second.wire(),
    ensures
        first == second,
{
    first.is_where_written(first.wire(), 0);
    second.is_where_written(first.wire(), 0);
    first.is_alone(second, first.wire(), 0);
}

/// What stands behind a message does not change how it is read, nor does what stands before it.
pub proof fn message_reads_back_between<M: IntoBytes>(
    written: M,
    read: M,
    before: Seq<u8>,
    after: Seq<u8>,
)
    requires
        read.is_at(before + written.wire() + after, before.len() as int),
    ensures
        read == written,
{
    let bytes = before + written.wire() + after;
    assert(sits_at(bytes, before.len() as int, written.wire()));
    written.is_where_written(bytes, before.len() as int);
    read.is_alone(written, bytes, before.len() as int);
}

} // verus!
