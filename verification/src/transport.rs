//! What the driver asks of the world around it.
use crate::bytes::zeros;
use crate::config::Features;
use crate::dma::{BufferDirection, DmaBuffer, PAGE_SIZE};
use crate::error::Error;
use vstd::prelude::*;

verus! {

/// Why the device raised an interrupt.
#[derive(Clone, Copy, Debug, PartialEq, Eq, Structural)]
pub struct InterruptStatus {
    /// Bit 0: a virtqueue was used. Bit 1: the configuration changed.
    pub bits: u32,
}

/// How many descriptors a virtqueue has.
///
/// A command takes at most three buffers (its header, the data that belongs to it, and the
/// response), and all buffers of a command must fit into the queue at once.
pub const QUEUE_SIZE: u16 = 16;

/// One thing that the driver asks for.
pub enum Ask {
    /// Offer the features `supported` and learn which of them the device has.
    BeginInit { supported: Features },
    /// Read four bytes of the configuration space.
    ReadConfig { offset: usize },
    /// Set up a virtqueue.
    QueueNew { queue: u16, size: u16, indirect: bool, event_idx: bool, access_platform: bool },
    /// Tell the device that the driver is ready.
    FinishInit,
    /// Take a virtqueue down.
    QueueUnset { queue: u16 },
    /// Acknowledge an interrupt.
    AckInterrupt,
    /// Hand buffers to the device and wait until it has used them. `inputs` are the buffers that
    /// the device reads, `outputs` those that it may write, as they are when it gets them.
    Exchange { queue: u16, inputs: Seq<Seq<u8>>, outputs: Seq<Seq<u8>> },
    /// Note that the driver has filled memory with `contents`.
    MemoryWritten { address: u64, contents: Seq<u8> },
    /// Allocate zeroed memory that the device can reach.
    DmaNew { pages: usize, direction: BufferDirection, access_platform: bool },
}

/// What came of one thing that the driver asked for.
pub enum Answer {
    /// It was done.
    Done,
    /// The features that were negotiated.
    Features(Features),
    /// What was read from the configuration space.
    Config(Result<u32, Error>),
    /// Whether the virtqueue was set up.
    Queue(Result<(), Error>),
    /// Why the interrupt was raised.
    Status(InterruptStatus),
    /// How many bytes the device says that it wrote, and the writable buffers afterwards.
    Reply { used: Result<u32, Error>, outputs: Seq<Seq<u8>> },
    /// The physical address of the memory.
    Memory(Result<u64, Error>),
}

/// One thing that the driver asked for, and what came of it.
pub struct Event {
    pub ask: Ask,
    pub answer: Answer,
}

impl Event {
    /// Whether the answer is one to what was asked: it is of the kind that belongs to the ask,
    /// and where the device wrote to buffers, they are as many and as long as before.
    pub open spec fn is_answered(self) -> bool {
        match self.ask {
            Ask::BeginInit { .. } => self.answer is Features,
            Ask::ReadConfig { .. } => self.answer is Config,
            Ask::QueueNew { .. } => self.answer is Queue,
            Ask::FinishInit => self.answer is Done,
            Ask::QueueUnset { .. } => self.answer is Done,
            Ask::AckInterrupt => self.answer is Status,
            Ask::Exchange { outputs, .. } => self.answer matches Answer::Reply {
                outputs: replies,
                ..
            } && replies.len() == outputs.len() && forall|i: int|
                0 <= i < outputs.len() ==> (#[trigger] replies[i]).len() == outputs[i].len(),
            Ask::MemoryWritten { .. } => self.answer is Done,
            Ask::DmaNew { .. } => self.answer is Memory,
        }
    }
}

/// The contents of buffers.
pub open spec fn slices(buffers: Seq<&[u8]>) -> Seq<Seq<u8>> {
    Seq::new(buffers.len(), |i: int| buffers[i]@)
}

/// The contents of buffers.
pub open spec fn vectors(buffers: Seq<Vec<u8>>) -> Seq<Seq<u8>> {
    Seq::new(buffers.len(), |i: int| buffers[i]@)
}

/// The address of memory, where there is some.
pub open spec fn address_of<D: DmaBuffer>(memory: Result<D, Error>) -> Result<u64, Error> {
    match memory {
        Ok(memory) => Ok(memory.address()),
        Err(e) => Err(e),
    }
}

/// A virtio transport, with its virtqueues and the memory that the device can reach.
///
/// Nothing is known of the device: each method may fail, and may answer anything. What is fixed
/// is that the transport does what it is asked, in order, and nothing else: `history` is the list
/// of what it was asked and of what came of it. No transport has to keep such a list at run time:
/// `history` is for proofs alone.
pub trait Transport {
    /// Memory that the device can reach.
    type Dma: DmaBuffer;

    /// Everything that was asked so far, and what came of it.
    spec fn history(&self) -> Seq<Event>;

    /// Resets the device and starts its initialisation. Returns the features that both sides
    /// have.
    fn begin_init(&mut self, supported: Features) -> (negotiated: Features)
        ensures
            final(self).history() == old(self).history().push(
                Event {
                    ask: Ask::BeginInit { supported },
                    answer: Answer::Features(negotiated),
                },
            ),
    ;

    /// Reads the four bytes at `offset` of the configuration space.
    fn read_config_u32(&mut self, offset: usize) -> (r: Result<u32, Error>)
        ensures
            final(self).history() == old(self).history().push(
                Event { ask: Ask::ReadConfig { offset }, answer: Answer::Config(r) },
            ),
    ;

    /// Sets up a virtqueue with `size` descriptors.
    fn queue_new(
        &mut self,
        queue: u16,
        size: u16,
        indirect: bool,
        event_idx: bool,
        access_platform: bool,
    ) -> (r: Result<(), Error>)
        ensures
            final(self).history() == old(self).history().push(
                Event {
                    ask: Ask::QueueNew { queue, size, indirect, event_idx, access_platform },
                    answer: Answer::Queue(r),
                },
            ),
    ;

    /// Tells the device that the driver is ready.
    fn finish_init(&mut self)
        ensures
            final(self).history() == old(self).history().push(
                Event { ask: Ask::FinishInit, answer: Answer::Done },
            ),
    ;

    /// Takes a virtqueue down, so that the device no longer reaches its memory.
    fn queue_unset(&mut self, queue: u16)
        ensures
            final(self).history() == old(self).history().push(
                Event { ask: Ask::QueueUnset { queue }, answer: Answer::Done },
            ),
    ;

    /// Acknowledges an interrupt.
    fn ack_interrupt(&mut self) -> (status: InterruptStatus)
        ensures
            final(self).history() == old(self).history().push(
                Event { ask: Ask::AckInterrupt, answer: Answer::Status(status) },
            ),
    ;

    /// Puts the buffers into a virtqueue, notifies the device and waits until it has used them.
    /// Returns how many bytes the device says that it wrote into `outputs`.
    ///
    /// The device writes into the buffers of `outputs` in place: how many they are and how long
    /// each is stays as it was.
    fn add_notify_wait_pop(
        &mut self,
        queue: u16,
        inputs: &[&[u8]],
        outputs: &mut Vec<Vec<u8>>,
    ) -> (used: Result<u32, Error>)
        requires
            inputs@.len() > 0,
            inputs@.len() + old(outputs)@.len() <= QUEUE_SIZE,
            forall|i: int| 0 <= i < inputs@.len() ==> (#[trigger] inputs@[i])@.len() > 0,
        ensures
            final(outputs)@.len() == old(outputs)@.len(),
            forall|i: int|
                0 <= i < old(outputs)@.len() ==> (#[trigger] final(outputs)@[i])@.len() == old(
                    outputs,
                )@[i]@.len(),
            final(self).history() == old(self).history().push(
                Event {
                    ask: Ask::Exchange {
                        queue,
                        inputs: slices(inputs@),
                        outputs: vectors(old(outputs)@),
                    },
                    answer: Answer::Reply { used, outputs: vectors(final(outputs)@) },
                },
            ),
    ;

    /// Allocates zeroed memory that the device can reach.
    fn dma_new(
        &mut self,
        pages: usize,
        direction: BufferDirection,
        access_platform: bool,
    ) -> (r: Result<Self::Dma, Error>)
        ensures
            r matches Ok(memory) ==> memory.contents() == zeros(
                pages as nat * PAGE_SIZE as nat,
            ),
            final(self).history() == old(self).history().push(
                Event {
                    ask: Ask::DmaNew { pages, direction, access_platform },
                    answer: Answer::Memory(address_of(r)),
                },
            ),
    ;

    /// Notes that the driver has filled `memory`.
    ///
    /// Driver and device see the same memory at all times, so that there is nothing to do at run
    /// time. The note puts what the memory holds into the history, before the commands that follow.
    fn memory_written(&mut self, memory: &Self::Dma)
        ensures
            final(self).history() == old(self).history().push(
                Event {
                    ask: Ask::MemoryWritten {
                        address: memory.address(),
                        contents: memory.contents(),
                    },
                    answer: Answer::Done,
                },
            ),
    ;
}

} // verus!
