//! A transport without a device: it answers from a script and keeps a record.
//!
//! It serves to try out how a driver deals with what a device may answer.
use crate::bytes::{push_bytes, zeroed};
use crate::config::Features;
use crate::dma::{BufferDirection, DmaBuffer, PAGE_SIZE};
use crate::error::Error;
use crate::transport::{slices, vectors, Answer, Ask, Event, InterruptStatus, Transport};
use vstd::prelude::*;

verus! {

/// One thing that a driver asked for. See [`Ask`]; features are given by their bits.
#[derive(Debug, PartialEq, Eq)]
pub enum Asked {
    BeginInit { supported: u64 },
    ReadConfig { offset: usize },
    QueueNew { queue: u16, size: u16, indirect: bool, event_idx: bool, access_platform: bool },
    FinishInit,
    QueueUnset { queue: u16 },
    AckInterrupt,
    Exchange { queue: u16, inputs: Vec<Vec<u8>>, outputs: Vec<Vec<u8>> },
    MemoryWritten { address: u64, contents: Vec<u8> },
    DmaNew { pages: usize, direction: BufferDirection, access_platform: bool },
}

impl View for Asked {
    type V = Ask;

    open spec fn view(&self) -> Ask {
        match self {
            Asked::BeginInit { supported } => Ask::BeginInit {
                supported: Features { bits: *supported },
            },
            Asked::ReadConfig { offset } => Ask::ReadConfig { offset: *offset },
            Asked::QueueNew { queue, size, indirect, event_idx, access_platform } => Ask::QueueNew {
                queue: *queue,
                size: *size,
                indirect: *indirect,
                event_idx: *event_idx,
                access_platform: *access_platform,
            },
            Asked::FinishInit => Ask::FinishInit,
            Asked::QueueUnset { queue } => Ask::QueueUnset { queue: *queue },
            Asked::AckInterrupt => Ask::AckInterrupt,
            Asked::Exchange { queue, inputs, outputs } => Ask::Exchange {
                queue: *queue,
                inputs: vectors(inputs@),
                outputs: vectors(outputs@),
            },
            Asked::MemoryWritten { address, contents } => Ask::MemoryWritten {
                address: *address,
                contents: contents@,
            },
            Asked::DmaNew { pages, direction, access_platform } => Ask::DmaNew {
                pages: *pages,
                direction: *direction,
                access_platform: *access_platform,
            },
        }
    }
}

/// What comes of one thing that a driver asks for. See [`Answer`]; features are given by their
/// bits.
#[derive(Debug, PartialEq, Eq)]
pub enum Answered {
    Done,
    Features(u64),
    Config(Result<u32, Error>),
    Queue(Result<(), Error>),
    Status(InterruptStatus),
    Reply { used: Result<u32, Error>, outputs: Vec<Vec<u8>> },
    Memory(Result<u64, Error>),
}

impl View for Answered {
    type V = Answer;

    open spec fn view(&self) -> Answer {
        match self {
            Answered::Done => Answer::Done,
            Answered::Features(bits) => Answer::Features(Features { bits: *bits }),
            Answered::Config(r) => Answer::Config(*r),
            Answered::Queue(r) => Answer::Queue(*r),
            Answered::Status(status) => Answer::Status(*status),
            Answered::Reply { used, outputs } => Answer::Reply {
                used: *used,
                outputs: vectors(outputs@),
            },
            Answered::Memory(r) => Answer::Memory(*r),
        }
    }
}

/// One thing that a driver asked for, and what came of it.
#[derive(Debug, PartialEq, Eq)]
pub struct Recorded {
    pub ask: Asked,
    pub answer: Answered,
}

/// Memory that stands for memory which a device can reach.
#[derive(Debug)]
pub struct ReplayMemory {
    paddr: u64,
    bytes: Vec<u8>,
}

impl DmaBuffer for ReplayMemory {
    closed spec fn address(&self) -> u64 {
        self.paddr
    }

    closed spec fn contents(&self) -> Seq<u8> {
        self.bytes@
    }

    fn paddr(&self) -> (paddr: u64) {
        self.paddr
    }

    fn raw_slice(&mut self) -> (bytes: &mut [u8]) {
        self.bytes.as_mut_slice()
    }
}

/// A transport that answers from a script and keeps a record.
///
/// Each call that has an answer takes the next entry of the script. Where the script has ended,
/// or its next entry is of another kind than the call, the call fails with [`Error::NotReady`];
/// one that cannot fail finds no feature, or no reason for an interrupt.
#[derive(Debug)]
pub struct ReplayTransport {
    script: Vec<Answered>,
    record: Vec<Recorded>,
}

/// The events of a record.
pub open spec fn events(record: Seq<Recorded>) -> Seq<Event> {
    record.map_values(|r: Recorded| Event { ask: r.ask@, answer: r.answer@ })
}

/// What a script answers next, if it has anything left.
pub open spec fn next_answer(script: Seq<Answered>) -> Option<Answered> {
    if script.len() == 0 {
        None
    } else {
        Some(script[0])
    }
}

/// What is left of a script after its next answer.
pub open spec fn rest(script: Seq<Answered>) -> Seq<Answered> {
    if script.len() == 0 {
        script
    } else {
        script.skip(1)
    }
}

/// A buffer after `bytes` were written to its beginning, as far as it reaches.
pub open spec fn overwritten(buffer: Seq<u8>, bytes: Seq<u8>) -> Seq<u8> {
    Seq::new(buffer.len(), |i: int| if i < bytes.len() { bytes[i] } else { buffer[i] })
}

/// Buffers after the device wrote each of `replies` to one of them.
pub open spec fn replied(buffers: Seq<Seq<u8>>, replies: Seq<Seq<u8>>) -> Seq<Seq<u8>> {
    Seq::new(
        buffers.len(),
        |i: int| if i < replies.len() { overwritten(buffers[i], replies[i]) } else { buffers[i] },
    )
}

impl ReplayTransport {
    /// What is left of the script.
    pub closed spec fn script(&self) -> Seq<Answered> {
        self.script@
    }

    /// The entries of the record.
    pub closed spec fn entries(&self) -> Seq<Recorded> {
        self.record@
    }

    /// A transport that has not been asked for anything.
    pub fn new(script: Vec<Answered>) -> (transport: Self)
        ensures
            transport.script() == script@,
            transport.history() == Seq::<Event>::empty(),
    {
        let transport = ReplayTransport { script, record: Vec::new() };
        assert(transport.history() =~= Seq::<Event>::empty());
        transport
    }

    /// Everything that was asked so far, and what came of it.
    pub fn record(&self) -> (record: &Vec<Recorded>)
        ensures
            events(record@) == self.history(),
    {
        &self.record
    }

    fn next(&mut self) -> (answer: Option<Answered>)
        ensures
            answer == next_answer(old(self).script()),
            final(self).script() == rest(old(self).script()),
            final(self).history() == old(self).history(),
    {
        if self.script.len() == 0 {
            None
        } else {
            let answer = self.script.remove(0);
            assert(self.script@ =~= old(self).script@.skip(1));
            Some(answer)
        }
    }

    fn keep(&mut self, ask: Asked, answer: Answered)
        ensures
            final(self).script() == old(self).script(),
            final(self).history() == old(self).history().push(
                Event { ask: ask@, answer: answer@ },
            ),
    {
        self.record.push(Recorded { ask, answer });
        assert(self.history() =~= old(self).history().push(
            Event { ask: ask@, answer: answer@ },
        ));
    }
}

impl Transport for ReplayTransport {
    type Dma = ReplayMemory;

    closed spec fn history(&self) -> Seq<Event> {
        events(self.record@)
    }

    fn begin_init(&mut self, supported: Features) -> (negotiated: Features)
        ensures
            negotiated == match next_answer(old(self).script()) {
                Some(Answered::Features(offered)) => Features { bits: offered & supported.bits },
                _ => Features { bits: 0 },
            },
            final(self).script() == rest(old(self).script()),
    {
        let negotiated = match self.next() {
            Some(Answered::Features(offered)) => Features { bits: offered & supported.bits },
            _ => Features { bits: 0 },
        };
        self.keep(
            Asked::BeginInit { supported: supported.bits },
            Answered::Features(negotiated.bits),
        );
        negotiated
    }

    fn read_config_u32(&mut self, offset: usize) -> (r: Result<u32, Error>)
        ensures
            r == match next_answer(old(self).script()) {
                Some(Answered::Config(r)) => r,
                _ => Err(Error::NotReady),
            },
            final(self).script() == rest(old(self).script()),
    {
        let r = match self.next() {
            Some(Answered::Config(r)) => r,
            _ => Err(Error::NotReady),
        };
        self.keep(Asked::ReadConfig { offset }, Answered::Config(r));
        r
    }

    fn queue_new(
        &mut self,
        queue: u16,
        size: u16,
        indirect: bool,
        event_idx: bool,
        access_platform: bool,
    ) -> (r: Result<(), Error>)
        ensures
            r == match next_answer(old(self).script()) {
                Some(Answered::Queue(r)) => r,
                _ => Err(Error::NotReady),
            },
            final(self).script() == rest(old(self).script()),
    {
        let r = match self.next() {
            Some(Answered::Queue(r)) => r,
            _ => Err(Error::NotReady),
        };
        self.keep(
            Asked::QueueNew { queue, size, indirect, event_idx, access_platform },
            Answered::Queue(r),
        );
        r
    }

    fn finish_init(&mut self)
        ensures
            final(self).script() == old(self).script(),
    {
        self.keep(Asked::FinishInit, Answered::Done);
    }

    fn queue_unset(&mut self, queue: u16)
        ensures
            final(self).script() == old(self).script(),
    {
        self.keep(Asked::QueueUnset { queue }, Answered::Done);
    }

    fn ack_interrupt(&mut self) -> (status: InterruptStatus)
        ensures
            status == match next_answer(old(self).script()) {
                Some(Answered::Status(status)) => status,
                _ => InterruptStatus { bits: 0 },
            },
            final(self).script() == rest(old(self).script()),
    {
        let status = match self.next() {
            Some(Answered::Status(status)) => status,
            _ => InterruptStatus { bits: 0 },
        };
        self.keep(Asked::AckInterrupt, Answered::Status(status));
        status
    }

    fn add_notify_wait_pop(
        &mut self,
        queue: u16,
        inputs: &[&[u8]],
        outputs: &mut Vec<Vec<u8>>,
    ) -> (used: Result<u32, Error>)
        ensures
            match next_answer(old(self).script()) {
                Some(Answered::Reply { used: count, outputs: replies }) => {
                    &&& used == count
                    &&& vectors(final(outputs)@) == replied(
                        vectors(old(outputs)@),
                        vectors(replies@),
                    )
                },
                _ => {
                    &&& used == Err::<u32, Error>(Error::NotReady)
                    &&& vectors(final(outputs)@) == vectors(old(outputs)@)
                },
            },
            final(self).script() == rest(old(self).script()),
    {
        let asked = Asked::Exchange {
            queue,
            inputs: copies_of_slices(inputs),
            outputs: copies(outputs),
        };
        let used = match self.next() {
            Some(Answered::Reply { used, outputs: replies }) => {
                reply(outputs, &replies);
                used
            },
            _ => Err(Error::NotReady),
        };
        assert(vectors(outputs@).len() == vectors(old(outputs)@).len());
        assert forall|i: int| 0 <= i < old(outputs)@.len() implies (#[trigger] outputs@[i])@.len()
            == old(outputs)@[i]@.len() by {
            assert(vectors(outputs@)[i] == outputs@[i]@);
            assert(vectors(old(outputs)@)[i] == old(outputs)@[i]@);
        }
        self.keep(asked, Answered::Reply { used, outputs: copies(outputs) });
        used
    }

    fn dma_new(
        &mut self,
        pages: usize,
        direction: BufferDirection,
        access_platform: bool,
    ) -> (r: Result<ReplayMemory, Error>)
        ensures
            match next_answer(old(self).script()) {
                Some(Answered::Memory(Err(e))) => r == Err::<ReplayMemory, Error>(e),
                Some(Answered::Memory(Ok(paddr))) => if pages * PAGE_SIZE <= usize::MAX {
                    r matches Ok(memory) && memory.address() == paddr
                } else {
                    r == Err::<ReplayMemory, Error>(Error::DmaError)
                },
                _ => r == Err::<ReplayMemory, Error>(Error::NotReady),
            },
            final(self).script() == rest(old(self).script()),
    {
        let r = match self.next() {
            Some(Answered::Memory(Ok(paddr))) => match pages.checked_mul(PAGE_SIZE) {
                Some(size) => Ok(ReplayMemory { paddr, bytes: zeroed(size) }),
                None => Err(Error::DmaError),
            },
            Some(Answered::Memory(Err(e))) => Err(e),
            _ => Err(Error::NotReady),
        };
        let address = match &r {
            Ok(memory) => Ok(memory.paddr),
            Err(e) => Err(*e),
        };
        self.keep(
            Asked::DmaNew { pages, direction, access_platform },
            Answered::Memory(address),
        );
        r
    }

    fn memory_written(&mut self, memory: &ReplayMemory)
        ensures
            final(self).script() == old(self).script(),
    {
        let mut contents: Vec<u8> = Vec::new();
        push_bytes(&mut contents, memory.bytes.as_slice());
        assert(contents@ =~= memory.bytes@);
        self.keep(Asked::MemoryWritten { address: memory.paddr, contents }, Answered::Done);
    }
}

/// Copies buffers.
fn copies(buffers: &Vec<Vec<u8>>) -> (out: Vec<Vec<u8>>)
    ensures
        vectors(out@) == vectors(buffers@),
{
    let mut out: Vec<Vec<u8>> = Vec::new();
    let mut i: usize = 0;
    while i < buffers.len()
        invariant
            i <= buffers@.len(),
            out@.len() == i,
            forall|k: int| 0 <= k < i ==> (#[trigger] out@[k])@ == buffers@[k]@,
        decreases buffers@.len() - i,
    {
        let mut copy: Vec<u8> = Vec::new();
        push_bytes(&mut copy, buffers[i].as_slice());
        assert(copy@ =~= buffers@[i as int]@);
        out.push(copy);
        i += 1;
    }
    assert(vectors(out@) =~= vectors(buffers@));
    out
}

/// Copies buffers.
fn copies_of_slices(buffers: &[&[u8]]) -> (out: Vec<Vec<u8>>)
    ensures
        vectors(out@) == slices(buffers@),
{
    let mut out: Vec<Vec<u8>> = Vec::new();
    let mut i: usize = 0;
    while i < buffers.len()
        invariant
            i <= buffers@.len(),
            out@.len() == i,
            forall|k: int| 0 <= k < i ==> (#[trigger] out@[k])@ == buffers@[k]@,
        decreases buffers@.len() - i,
    {
        let mut copy: Vec<u8> = Vec::new();
        push_bytes(&mut copy, buffers[i]);
        assert(copy@ =~= buffers@[i as int]@);
        out.push(copy);
        i += 1;
    }
    assert(vectors(out@) =~= slices(buffers@));
    out
}

/// Writes `bytes` to the beginning of a buffer, as far as it reaches.
fn overwrite(buffer: &mut Vec<u8>, bytes: &Vec<u8>)
    ensures
        final(buffer)@ == overwritten(old(buffer)@, bytes@),
{
    let mut i: usize = 0;
    while i < bytes.len() && i < buffer.len()
        invariant
            i <= bytes@.len(),
            buffer@.len() == old(buffer)@.len(),
            i <= buffer@.len(),
            forall|k: int| 0 <= k < i ==> buffer@[k] == bytes@[k],
            forall|k: int| i <= k < buffer@.len() ==> buffer@[k] == old(buffer)@[k],
        decreases bytes@.len() - i,
    {
        buffer.set(i, bytes[i]);
        i += 1;
    }
    assert(buffer@ =~= overwritten(old(buffer)@, bytes@));
}

/// Writes each of `replies` to one of the buffers.
fn reply(buffers: &mut Vec<Vec<u8>>, replies: &Vec<Vec<u8>>)
    ensures
        vectors(final(buffers)@) == replied(vectors(old(buffers)@), vectors(replies@)),
{
    let mut i: usize = 0;
    while i < replies.len() && i < buffers.len()
        invariant
            i <= replies@.len(),
            buffers@.len() == old(buffers)@.len(),
            i <= buffers@.len(),
            forall|k: int|
                0 <= k < i ==> (#[trigger] buffers@[k])@ == overwritten(
                    old(buffers)@[k]@,
                    replies@[k]@,
                ),
            forall|k: int|
                i <= k < buffers@.len() ==> (#[trigger] buffers@[k])@ == old(buffers)@[k]@,
        decreases replies@.len() - i,
    {
        overwrite(&mut buffers[i], &replies[i]);
        i += 1;
    }
    assert(vectors(buffers@) =~= replied(vectors(old(buffers)@), vectors(replies@)));
}

} // verus!
