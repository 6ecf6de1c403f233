//! How a device is started, what a driver then remembers, and how it lets go of the device.
use crate::config::{Features, Startup, SUPPORTED_FEATURES};
use crate::driver::{initialise, VirtIOGpu};
use crate::error::Error;
use crate::laws::init_stops_at_setback;
use crate::laws::reading::{added, bit, failure, grown, stopped};
use crate::plan::{init_plan, initialised, setback, since, startup, Next};
use crate::transport::{Answer, Ask, Event, InterruptStatus, Transport};
use vstd::prelude::*;

verus! {

/// The features that were negotiated, in the first step of a start.
pub open spec fn bits(done: Seq<Event>) -> u64 {
    done[0].answer->Features_0.bits
}

/// Whether a step sets up a queue of sixteen descriptors in the way that `bits` allow.
pub open spec fn queue_set_up(e: Event, queue: int, bits: u64) -> bool {
    &&& e.ask is QueueNew
    &&& e.ask->QueueNew_queue == queue
    &&& e.ask->size == 16
    &&& e.ask->indirect == bit(bits, 0x1000_0000)
    &&& e.ask->event_idx == bit(bits, 0x2000_0000)
    &&& e.ask->QueueNew_access_platform == bit(bits, 0x2_0000_0000)
    &&& e.answer is Queue
}

/// Whether the steps of a start are what they should be, as far as it got: offer features, read
/// three numbers of the configuration space, set up the control queue and the cursor queue, and
/// tell the device.
pub open spec fn started_in_order(done: Seq<Event>) -> bool {
    &&& done.len() > 0
    &&& done[0].ask is BeginInit
    &&& done[0].ask->supported.bits == 0x3_3000_001b
    &&& done[0].answer is Features
    &&& done.len() > 1 ==> done[1].ask == (Ask::ReadConfig { offset: 0 })
        && done[1].answer is Config
    &&& done.len() > 2 ==> done[2].ask == (Ask::ReadConfig { offset: 8 })
        && done[2].answer is Config
    &&& done.len() > 3 ==> done[3].ask == (Ask::ReadConfig { offset: 12 })
        && done[3].answer is Config
    &&& done.len() > 4 ==> queue_set_up(done[4], 0, bits(done))
    &&& done.len() > 5 ==> queue_set_up(done[5], 1, bits(done))
    &&& done.len() > 6 ==> done[6].ask is FinishInit && done[6].answer is Done
}

/// A feature is a bit.
proof fn features_are_bits(b: u64)
    ensures
        (b & 0x1 == 0x1) == bit(b, 0x1),
        (b & 0x2 == 0x2) == bit(b, 0x2),
        (b & 0x8 == 0x8) == bit(b, 0x8),
        (b & 0x1000_0000 == 0x1000_0000) == bit(b, 0x1000_0000),
        (b & 0x2000_0000 == 0x2000_0000) == bit(b, 0x2000_0000),
        (b & 0x2_0000_0000 == 0x2_0000_0000) == bit(b, 0x2_0000_0000),
{
    assert({
        &&& (b & 0x1 == 0x1) == (b / 0x1 % 2 == 1)
        &&& (b & 0x2 == 0x2) == (b / 0x2 % 2 == 1)
        &&& (b & 0x8 == 0x8) == (b / 0x8 % 2 == 1)
        &&& (b & 0x1000_0000 == 0x1000_0000) == (b / 0x1000_0000 % 2 == 1)
        &&& (b & 0x2000_0000 == 0x2000_0000) == (b / 0x2000_0000 % 2 == 1)
        &&& (b & 0x2_0000_0000 == 0x2_0000_0000) == (b / 0x2_0000_0000 % 2 == 1)
    }) by (bit_vector);
}

/// A start as the history tells it.
proof fn start_in_history(before: Seq<Event>, after: Seq<Event>, r: Result<Startup, Error>)
    requires
        initialised(before, after, r),
    ensures
        grown(before, after, after.len() - before.len()),
        started_in_order(added(before, after)),
        stopped(added(before, after), 7, None, r),
        r matches Ok(learnt) ==> {
            let done = added(before, after);
            &&& learnt.features.bits == bits(done)
            &&& learnt.events_read == done[1].answer->Config_0->Ok_0
            &&& learnt.num_scanouts == done[2].answer->Config_0->Ok_0
            &&& learnt.num_capsets == done[3].answer->Config_0->Ok_0
        },
{
    init_stops_at_setback(before, after, r);
    let plan = |done: Seq<Event>| init_plan(done);
    let done = since(before, after);
    assert(added(before, after) =~= done);
    assert(plan(done) == Next::<Startup>::End(r));
    assert(done.take(0) =~= Seq::<Event>::empty());
    assert(plan(done.take(0)) == Next::<Startup>::Ask(done[0].ask));
    features_are_bits(bits(done));
    assert(SUPPORTED_FEATURES == 0x3_3000_001b) by (bit_vector);
    assert forall|i: int| 0 <= i < done.len() implies {
        &&& done[i].is_answered()
        &&& init_plan(done.take(i)) == Next::<Startup>::Ask((#[trigger] done[i]).ask)
        &&& i > 0 ==> done.take(i)[0] == done[0]
    } by {
        assert(plan(done.take(i)) == Next::<Startup>::Ask(done[i].ask));
    }
    assert forall|i: int| 0 <= i < done.len() implies failure(#[trigger] done[i]) == setback(
        done[i],
    ) by {
        assert(done[i].is_answered());
    }
    if done.len() > 1 {
        assert(init_plan(done.take(1)) == Next::<Startup>::Ask(done[1].ask));
    }
    if done.len() > 2 {
        assert(init_plan(done.take(2)) == Next::<Startup>::Ask(done[2].ask));
    }
    if done.len() > 3 {
        assert(init_plan(done.take(3)) == Next::<Startup>::Ask(done[3].ask));
    }
    if done.len() > 4 {
        assert(init_plan(done.take(4)) == Next::<Startup>::Ask(done[4].ask));
    }
    if done.len() > 5 {
        assert(init_plan(done.take(5)) == Next::<Startup>::Ask(done[5].ask));
    }
    if done.len() > 6 {
        assert(init_plan(done.take(6)) == Next::<Startup>::Ask(done[6].ask));
    }
    assert(done.len() > 0 ==> done.last() == done[done.len() - 1]);
    assert forall|i: int| 0 <= i < before.len() implies #[trigger] after[i] == before[i] by {
        assert(before.is_prefix_of(after));
    }
}

/// A start takes its steps in order, stops at the first one that fails, with the reason as its
/// error, and otherwise returns what the device answered on the way.
pub proof fn initialise_law<T: Transport>(transport: &mut T, r: Result<Startup, Error>)
    requires
        call_ensures(initialise::<T>, (transport,), r),
    ensures
        ({
            let done = added(old(transport).history(), final(transport).history());
            &&& grown(old(transport).history(), final(transport).history(), done.len() as int)
            &&& started_in_order(done)
            &&& stopped(done, 7, None, r)
            &&& r matches Ok(learnt) ==> {
                &&& learnt.features.bits == bits(done)
                &&& learnt.events_read == done[1].answer->Config_0->Ok_0
                &&& learnt.num_scanouts == done[2].answer->Config_0->Ok_0
                &&& learnt.num_capsets == done[3].answer->Config_0->Ok_0
            }
        }),
{
    start_in_history(old(transport).history(), final(transport).history(), r);
}

/// A new driver has started its device. It remembers of each feature whether its own bit was
/// negotiated, and has neither framebuffer nor pointer. Where there is none, a start has failed,
/// with the same error.
pub proof fn new_law<T: Transport>(transport: T, r: Result<VirtIOGpu<T>, Error>)
    requires
        call_ensures(VirtIOGpu::<T>::new, (transport,), r),
    ensures
        r matches Ok(gpu) ==> {
            let done = added(transport.history(), gpu.history());
            &&& grown(transport.history(), gpu.history(), 7)
            &&& started_in_order(done)
            &&& forall|i: int| 0 <= i < 7 ==> failure(#[trigger] done[i]) is None
            &&& gpu@.has_edid == bit(bits(done), 0x2)
            &&& gpu@.access_platform == bit(bits(done), 0x2_0000_0000)
            &&& gpu@.has_virgl == bit(bits(done), 0x1)
            &&& gpu@.has_resource_blob == bit(bits(done), 0x8)
            &&& gpu@.rect is None
            &&& gpu@.frame_buffer is None
            &&& gpu@.cursor_buffer is None
        },
        r matches Err(e) ==> exists|after: T|
            {
                let done = added(transport.history(), #[trigger] after.history());
                &&& grown(transport.history(), after.history(), done.len() as int)
                &&& started_in_order(done)
                &&& stopped(done, 7, None, Err::<Startup, Error>(e))
            },
{
    match r {
        Ok(gpu) => {
            let learnt = startup(since(transport.history(), gpu.history()));
            start_in_history(transport.history(), gpu.history(), Ok(learnt));
            features_are_bits(learnt.features.bits);
            let done = added(transport.history(), gpu.history());
            assert forall|i: int| 0 <= i < 7 implies failure(#[trigger] done[i]) is None by {
                if i == 6 {
                    assert(done[done.len() - 1] == done[6]);
                }
            }
        },
        Err(e) => {
            let after = choose|after: T| #[trigger]
                initialised(transport.history(), after.history(), Err(e));
            start_in_history(transport.history(), after.history(), Err(e));
            let done = added(transport.history(), after.history());
            assert(started_in_order(done));
        },
    }
}

/// A driver of a started device remembers of each feature whether its own bit was negotiated, and
/// nothing else.
pub proof fn with_features_law<T: Transport>(transport: T, features: Features, gpu: VirtIOGpu<T>)
    requires
        call_ensures(VirtIOGpu::<T>::with_features, (transport, features), gpu),
    ensures
        gpu.history() == transport.history(),
        gpu@.has_edid == bit(features.bits, 0x2),
        gpu@.access_platform == bit(features.bits, 0x2_0000_0000),
        gpu@.has_virgl == bit(features.bits, 0x1),
        gpu@.has_resource_blob == bit(features.bits, 0x8),
        gpu@.rect is None,
        gpu@.frame_buffer is None,
        gpu@.cursor_buffer is None,
{
    features_are_bits(features.bits);
}

/// What a new driver says of its features is what was negotiated.
pub proof fn new_driver_tells_its_features<T: Transport>(
    transport: T,
    gpu: VirtIOGpu<T>,
    virgl: bool,
    blob: bool,
)
    requires
        call_ensures(VirtIOGpu::<T>::new, (transport,), Ok::<VirtIOGpu<T>, Error>(gpu)),
        call_ensures(VirtIOGpu::<T>::has_virgl, (&gpu,), virgl),
        call_ensures(VirtIOGpu::<T>::has_resource_blob, (&gpu,), blob),
    ensures
        virgl == bit(bits(added(transport.history(), gpu.history())), 0x1),
        blob == bit(bits(added(transport.history(), gpu.history())), 0x8),
{
    new_law(transport, Ok(gpu));
}

/// A driver says of its features what it remembers, and shows the transport that it uses.
pub proof fn driver_tells_what_it_remembers<T: Transport>(
    gpu: &VirtIOGpu<T>,
    virgl: bool,
    blob: bool,
    transport: &T,
)
    requires
        call_ensures(VirtIOGpu::<T>::has_virgl, (gpu,), virgl),
        call_ensures(VirtIOGpu::<T>::has_resource_blob, (gpu,), blob),
        call_ensures(VirtIOGpu::<T>::transport, (gpu,), transport),
    ensures
        virgl == gpu@.has_virgl,
        blob == gpu@.has_resource_blob,
        transport.history() == gpu.history(),
{
}

/// A set has a flag if every bit of the flag is in it.
pub proof fn contains_law(features: &Features, flags: u64, r: bool)
    requires
        call_ensures(Features::contains, (features, flags), r),
    ensures
        r == (features.bits | flags == features.bits),
{
    let b = features.bits;
    assert((b & flags == flags) == (b | flags == b)) by (bit_vector);
}

/// Both queues are taken down, the control queue first.
pub proof fn unset_queues_law<T: Transport>(gpu: &mut VirtIOGpu<T>)
    requires
        call_ensures(VirtIOGpu::<T>::unset_queues, (gpu,), ()),
    ensures
        final(gpu)@ == old(gpu)@,
        grown(old(gpu).history(), final(gpu).history(), 2),
        ({
            let done = added(old(gpu).history(), final(gpu).history());
            &&& done[0].ask == (Ask::QueueUnset { queue: 0 })
            &&& done[1].ask == (Ask::QueueUnset { queue: 1 })
        }),
{
}

/// An interrupt is acknowledged once, and its reason returned.
pub proof fn ack_interrupt_law<T: Transport>(gpu: &mut VirtIOGpu<T>, status: InterruptStatus)
    requires
        call_ensures(VirtIOGpu::<T>::ack_interrupt, (gpu,), status),
    ensures
        final(gpu)@ == old(gpu)@,
        grown(old(gpu).history(), final(gpu).history(), 1),
        final(gpu).history().last().ask is AckInterrupt,
        final(gpu).history().last().answer == Answer::Status(status),
{
}

} // verus!
