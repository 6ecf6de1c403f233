//! How laws read bytes and events.
//!
//! The laws speak of what is on the wire, byte by byte, and of what the device answers. What they
//! say does not rest on how messages are built or read elsewhere.
use crate::bytes::{byte_at, sits_at, u32_at, u64_at, zeros};
use crate::error::Error;
use crate::header::CtrlHeader;
use crate::plan::setback;
use crate::request::{asked_once, control, cursor, used, written};
use crate::transport::{Answer, Event};
use crate::wire::IntoBytes;
use vstd::prelude::*;

verus! {

/// The number in the four bytes from `at` on, least significant first.
pub open spec fn word(b: Seq<u8>, at: int) -> int {
    b[at] + 0x100 * b[at + 1] + 0x1_0000 * b[at + 2] + 0x100_0000 * b[at + 3]
}

/// The number in the eight bytes from `at` on, least significant first.
pub open spec fn long(b: Seq<u8>, at: int) -> int {
    word(b, at) + 0x1_0000_0000 * word(b, at + 4)
}

/// Whether there are `len` bytes, all of them zero.
pub open spec fn blank(b: Seq<u8>, len: int) -> bool {
    &&& b.len() == len
    &&& forall|i: int| 0 <= i < len ==> #[trigger] b[i] == 0
}

/// Whether a message of `len` bytes starts with a header of type `code`.
pub open spec fn headed(
    b: Seq<u8>,
    len: int,
    code: int,
    flags: int,
    fence_id: int,
    ctx_id: int,
) -> bool {
    &&& b.len() == len
    &&& word(b, 0) == code
    &&& word(b, 4) == flags
    &&& long(b, 8) == fence_id
    &&& word(b, 16) == ctx_id
    &&& word(b, 20) == 0
}

/// Whether `n` things were added to a history, and nothing in it was changed.
pub open spec fn grown(before: Seq<Event>, after: Seq<Event>, n: int) -> bool {
    &&& after.len() == before.len() + n
    &&& forall|i: int| 0 <= i < before.len() ==> #[trigger] after[i] == before[i]
}

/// A buffer that the device was given to read.
pub open spec fn input(e: Event, i: int) -> Seq<u8> {
    e.ask->Exchange_inputs[i]
}

/// What the device left in a buffer that it was given to write to.
pub open spec fn reply(e: Event, i: int) -> Seq<u8> {
    e.answer->Reply_outputs[i]
}

/// How many bytes the device says that it wrote, or why the queue failed.
pub open spec fn count(e: Event) -> Result<u32, Error> {
    e.answer->used
}

/// Whether buffers were exchanged on a queue: `inputs` of them to read, and one blank buffer to
/// write to for each of the lengths in `rooms`, which come back as long as they were.
pub open spec fn exchanged(e: Event, queue: int, inputs: int, rooms: Seq<int>) -> bool {
    &&& e.ask is Exchange
    &&& e.ask->Exchange_queue == queue
    &&& e.ask->Exchange_inputs.len() == inputs
    &&& e.ask->Exchange_outputs.len() == rooms.len()
    &&& forall|i: int|
        0 <= i < rooms.len() ==> blank(#[trigger] e.ask->Exchange_outputs[i], rooms[i])
    &&& e.answer is Reply
    &&& e.answer->Reply_outputs.len() == rooms.len()
    &&& forall|i: int| 0 <= i < rooms.len() ==> #[trigger] reply(e, i).len() == rooms[i]
}

/// Whether a reply has the type `code`, or why it counts as an error.
pub open spec fn replied(e: Event, code: int) -> Result<(), Error> {
    match count(e) {
        Err(error) => Err(error),
        Ok(_) => if word(reply(e, 0), 0) == code {
            Ok(())
        } else {
            Err(Error::IoError)
        },
    }
}

/// Whether a history grew by one control command with a blank room for a header.
pub open spec fn commanded(before: Seq<Event>, after: Seq<Event>, inputs: int) -> bool {
    &&& grown(before, after, 1)
    &&& exchanged(after.last(), 0, inputs, seq![24])
}

/// Whether a result is what the reply to a command says: success for the code of a plain
/// acknowledgement, an I/O error for any other, and the error of the queue where it failed.
pub open spec fn as_acknowledged(e: Event, r: Result<(), Error>) -> bool {
    r == replied(e, 0x1100)
}

/// Why a step failed, if it did: the configuration space could not be read, a queue could not be
/// set up, memory could not be had, a queue did not take a command, or the device did not
/// acknowledge one.
pub open spec fn failure(e: Event) -> Option<Error> {
    match e.answer {
        Answer::Config(Err(error)) => Some(error),
        Answer::Queue(Err(error)) => Some(error),
        Answer::Memory(Err(error)) => Some(error),
        Answer::Reply { used: Err(error), .. } => Some(error),
        Answer::Reply { used: Ok(_), outputs } => if outputs.len() == 0 || word(outputs[0], 0)
            == 0x1100 {
            None
        } else {
            Some(Error::IoError)
        },
        _ => None,
    }
}

/// Whether a call of at most `steps` steps stopped behind the first one that failed, with the
/// reason as its error; or took all of them, and then ended with `refusal` or, without one, well.
pub open spec fn stopped<R>(
    done: Seq<Event>,
    steps: int,
    refusal: Option<Error>,
    r: Result<R, Error>,
) -> bool {
    &&& done.len() <= steps
    &&& forall|i: int| 0 <= i < done.len() - 1 ==> failure(#[trigger] done[i]) is None
    &&& if done.len() > 0 && failure(done[done.len() - 1]) is Some {
        r == Err::<R, Error>(failure(done[done.len() - 1])->Some_0)
    } else {
        done.len() == steps && match refusal {
            Some(error) => r == Err::<R, Error>(error),
            None => r is Ok,
        }
    }
}

/// What was added to a history.
pub open spec fn added(before: Seq<Event>, after: Seq<Event>) -> Seq<Event> {
    Seq::new((after.len() - before.len()) as nat, |i: int| after[before.len() + i])
}

/// Whether a bit is set, given by its weight.
pub open spec fn bit(bits: u64, weight: int) -> bool {
    bits as int / weight % 2 == 1
}

/// The fields of a message read as the numbers in its bytes.
pub proof fn fields_are_words(b: Seq<u8>)
    ensures
        forall|at: int| 0 <= at && at + 4 <= b.len() ==> #[trigger] u32_at(b, at) == word(b, at),
        forall|at: int| 0 <= at && at + 8 <= b.len() ==> #[trigger] u64_at(b, at) == long(b, at),
{
    assert forall|at: int| 0 <= at && at + 8 <= b.len() implies #[trigger] u64_at(b, at) == long(
        b,
        at,
    ) by {
        assert(u32_at(b, at) == word(b, at));
        assert(u32_at(b, at + 4) == word(b, at + 4));
    }
}

/// A message stands in its own bytes, whose fields are numbers.
pub(crate) proof fn message_words<M: IntoBytes>(m: M)
    ensures
        m.is_at(m.wire(), 0),
        m.wire().len() == M::wire_len(),
        forall|at: int|
            0 <= at && at + 4 <= m.wire().len() ==> #[trigger] u32_at(m.wire(), at) == word(
                m.wire(),
                at,
            ),
        forall|at: int|
            0 <= at && at + 8 <= m.wire().len() ==> #[trigger] u64_at(m.wire(), at) == long(
                m.wire(),
                at,
            ),
{
    assert(sits_at(m.wire(), 0, m.wire()));
    m.is_where_written(m.wire(), 0);
    m.wire_has_len();
    fields_are_words(m.wire());
}

/// What a header is read as.
pub(crate) proof fn header_words(h: CtrlHeader, b: Seq<u8>)
    requires
        h.is_at(b, 0),
        b.len() >= 24,
        h.ring_idx == 0,
        h._padding@ == seq![0u8, 0, 0],
    ensures
        headed(
            b,
            b.len() as int,
            h.hdr_type.0 as int,
            h.flags as int,
            h.fence_id as int,
            h.ctx_id as int,
        ),
{
    fields_are_words(b);
    assert(u32_at(b, 0) == word(b, 0));
    assert(h._padding@[0] == byte_at(b, 21));
    assert(h._padding@[1] == byte_at(b, 22));
    assert(h._padding@[2] == byte_at(b, 23));
}

/// What a control request with one buffer and one response looks like.
pub(crate) proof fn control_words(before: Seq<Event>, after: Seq<Event>, request: Seq<u8>, n: nat)
    requires
        asked_once(before, after, control(request, n)),
        n >= 4,
    ensures
        grown(before, after, 1),
        exchanged(after.last(), 0, 1, seq![n as int]),
        input(after.last(), 0) == request,
        used(after.last().answer) == count(after.last()),
        written(after.last().answer, 0) == reply(after.last(), 0),
        reply(after.last(), 0).len() == n,
        forall|at: int|
            0 <= at && at + 4 <= n ==> #[trigger] u32_at(reply(after.last(), 0), at) == word(
                reply(after.last(), 0),
                at,
            ),
        forall|at: int|
            0 <= at && at + 8 <= n ==> #[trigger] u64_at(reply(after.last(), 0), at) == long(
                reply(after.last(), 0),
                at,
            ),
{
    let e = after.last();
    assert(e.ask->Exchange_outputs =~= seq![zeros(n)]);
    assert(e.answer->Reply_outputs[0].len() == e.ask->Exchange_outputs[0].len());
    fields_are_words(reply(e, 0));
    assert forall|i: int| 0 <= i < before.len() implies #[trigger] after[i] == before[i] by {
        assert(after == before.push(e));
    }
}

/// What a step with one control request and one response looks like.
pub(crate) proof fn step_words(e: Event, request: Seq<u8>, n: nat)
    requires
        e.ask == control(request, n),
        e.is_answered(),
        n >= 4,
    ensures
        exchanged(e, 0, 1, seq![n as int]),
        input(e, 0) == request,
        used(e.answer) == count(e),
        written(e.answer, 0) == reply(e, 0),
        reply(e, 0).len() == n,
        n == 24 ==> failure(e) == setback(e),
        forall|at: int|
            0 <= at && at + 4 <= n ==> #[trigger] u32_at(reply(e, 0), at) == word(reply(e, 0), at),
{
    let after = seq![e];
    assert(after =~= Seq::<Event>::empty().push(e));
    control_words(Seq::<Event>::empty(), after, request, n);
    assert(u32_at(reply(e, 0), 0) == word(reply(e, 0), 0));
}

/// What a cursor request looks like.
pub(crate) proof fn cursor_words(before: Seq<Event>, after: Seq<Event>, request: Seq<u8>)
    requires
        asked_once(before, after, cursor(request)),
    ensures
        grown(before, after, 1),
        exchanged(after.last(), 1, 1, seq![]),
        input(after.last(), 0) == request,
        used(after.last().answer) == count(after.last()),
{
    let e = after.last();
    assert forall|i: int| 0 <= i < before.len() implies #[trigger] after[i] == before[i] by {
        assert(after == before.push(e));
    }
}

} // verus!
