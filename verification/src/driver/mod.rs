//! The driver of the device.
use crate::bytes::{zeroed, zeros};
use crate::config::{Config, Features, Startup, SUPPORTED_FEATURES};
use crate::display::Rect;
use crate::dma::{spec_pages, DmaBuffer, PAGE_SIZE};
use crate::error::Error;
use crate::plan::{
    frame_size, init_plan, initialised, nothing_done, one_more, screen, since, startup,
};
use crate::request::{
    asked_once, control, cursor, taken, used, written, QUEUE_CURSOR, QUEUE_TRANSMIT,
};
use crate::transport::{slices, vectors, Answer, Ask, Event, InterruptStatus, Transport, QUEUE_SIZE};
use crate::wire::{FromBytes, IntoBytes};
use vstd::prelude::*;

pub mod pointer;
pub mod resources;
pub mod screen;
pub mod virgl;

verus! {

/// The shared memory region that host-visible blobs are mapped into.
pub const VIRTIO_GPU_SHM_ID_HOST_VISIBLE: u8 = 1;

/// What a driver remembers.
pub struct GpuView<D> {
    /// The area of the framebuffer that was asked for last.
    pub rect: Option<Rect>,
    /// The memory of the framebuffer.
    pub frame_buffer: Option<D>,
    /// The memory of the pointer image.
    pub cursor_buffer: Option<D>,
    /// Whether the EDID feature was negotiated.
    pub has_edid: bool,
    /// Whether the device reaches memory through the platform's translation.
    pub access_platform: bool,
    /// Whether the VIRGL (3D) feature was negotiated.
    pub has_virgl: bool,
    /// Whether the blob resource feature was negotiated.
    pub has_resource_blob: bool,
}

impl<D: DmaBuffer> GpuView<D> {
    /// What holds of a driver at all times: while there is a framebuffer, its area is known, starts
    /// at the origin, and its memory is as long as the pixels of that area take, in whole pages.
    pub open spec fn wf(self) -> bool {
        self.frame_buffer matches Some(memory) ==> {
            &&& self.rect matches Some(rect)
            &&& rect == screen(rect.width, rect.height)
            &&& frame_size(rect.width, rect.height) <= u32::MAX
            &&& memory.contents().len() == spec_pages(frame_size(rect.width, rect.height))
                * PAGE_SIZE
        }
    }
}

/// A virtio based graphics adapter.
///
/// It can operate in 2D mode and in 3D (virgl) mode.
/// 3D mode will offload rendering ops to the host gpu and therefore requires
/// a gpu with 3D support on the host machine.
/// In 2D mode the virtio-gpu device provides support for ARGB Hardware cursors
/// and multiple scanouts (aka heads).
///
/// Before a driver is dropped, its queues have to be taken down with
/// [`VirtIOGpu::unset_queues`].
pub struct VirtIOGpu<T: Transport> {
    transport: T,
    rect: Option<Rect>,
    /// DMA area of frame buffer.
    frame_buffer_dma: Option<T::Dma>,
    /// DMA area of cursor image buffer.
    cursor_buffer_dma: Option<T::Dma>,
    /// Whether EDID feature was negotiated.
    has_edid: bool,
    /// Whether the device reaches memory through the platform's translation.
    access_platform: bool,
    /// Whether VIRGL (3D) feature was negotiated.
    has_virgl: bool,
    /// Whether the blob resource feature was negotiated (blob resources, dma-buf sharing,
    /// host-visible memory).
    has_resource_blob: bool,
}

impl<T: Transport> View for VirtIOGpu<T> {
    type V = GpuView<T::Dma>;

    closed spec fn view(&self) -> GpuView<T::Dma> {
        GpuView {
            rect: self.rect,
            frame_buffer: self.frame_buffer_dma,
            cursor_buffer: self.cursor_buffer_dma,
            has_edid: self.has_edid,
            access_platform: self.access_platform,
            has_virgl: self.has_virgl,
            has_resource_blob: self.has_resource_blob,
        }
    }
}

/// Starts the device: negotiates features, reads the configuration and sets up both queues.
/// Returns what it learnt of the device on the way.
///
/// [`VirtIOGpu::with_features`] makes a driver of a device that was started.
pub fn initialise<T: Transport>(transport: &mut T) -> (r: Result<Startup, Error>)
    ensures
        initialised(old(transport).history(), final(transport).history(), r),
{
    let ghost plan = |done: Seq<Event>| init_plan(done);
    let ghost before = transport.history();
    proof {
        nothing_done(plan, before);
    }
    let ghost now = transport.history();
    let negotiated_features = transport.begin_init(Features { bits: SUPPORTED_FEATURES });
    proof {
        one_more(plan, before, now, transport.history(), transport.history().last().ask);
    }

    // read configuration space
    let ghost now = transport.history();
    let events_read = transport.read_config_u32(Config::EVENTS_READ);
    proof {
        one_more(plan, before, now, transport.history(), transport.history().last().ask);
    }
    let events_read = events_read?;
    let ghost now = transport.history();
    let num_scanouts = transport.read_config_u32(Config::NUM_SCANOUTS);
    proof {
        one_more(plan, before, now, transport.history(), transport.history().last().ask);
    }
    let num_scanouts = num_scanouts?;
    let ghost now = transport.history();
    let num_capsets = transport.read_config_u32(Config::NUM_CAPSETS);
    proof {
        one_more(plan, before, now, transport.history(), transport.history().last().ask);
    }
    let num_capsets = num_capsets?;
    let access_platform = negotiated_features.contains(Features::ACCESS_PLATFORM);

    let ghost now = transport.history();
    let control_queue = transport.queue_new(
        QUEUE_TRANSMIT,
        QUEUE_SIZE,
        negotiated_features.contains(Features::RING_INDIRECT_DESC),
        negotiated_features.contains(Features::RING_EVENT_IDX),
        access_platform,
    );
    proof {
        one_more(plan, before, now, transport.history(), transport.history().last().ask);
    }
    if let Err(e) = control_queue {
        return Err(e);
    }
    let ghost now = transport.history();
    let cursor_queue = transport.queue_new(
        QUEUE_CURSOR,
        QUEUE_SIZE,
        negotiated_features.contains(Features::RING_INDIRECT_DESC),
        negotiated_features.contains(Features::RING_EVENT_IDX),
        access_platform,
    );
    proof {
        one_more(plan, before, now, transport.history(), transport.history().last().ask);
    }
    if let Err(e) = cursor_queue {
        return Err(e);
    }
    let ghost now = transport.history();
    transport.finish_init();
    proof {
        one_more(plan, before, now, transport.history(), transport.history().last().ask);
    }
    Ok(Startup { features: negotiated_features, events_read, num_scanouts, num_capsets })
}

/// The driver of a device with which `features` were negotiated, before any other call.
pub open spec fn started<D>(features: Features) -> GpuView<D> {
    GpuView {
        rect: None,
        frame_buffer: None,
        cursor_buffer: None,
        has_edid: features.has(Features::EDID),
        access_platform: features.has(Features::ACCESS_PLATFORM),
        has_virgl: features.has(Features::VIRGL),
        has_resource_blob: features.has(Features::RESOURCE_BLOB),
    }
}

impl<T: Transport> VirtIOGpu<T> {
    /// Everything that was asked of the transport, and what came of it.
    pub closed spec fn history(&self) -> Seq<Event> {
        self.transport.history()
    }

    /// Create a new VirtIO-Gpu driver.
    ///
    /// Where this fails, the transport is dropped. To keep it, call [`initialise`] and
    /// [`VirtIOGpu::with_features`], which do the same in two steps.
    pub fn new(transport: T) -> (r: Result<Self, Error>)
        ensures
            match r {
                Ok(gpu) => {
                    let learnt = startup(since(transport.history(), gpu.history()));
                    &&& initialised(transport.history(), gpu.history(), Ok(learnt))
                    &&& gpu@ == started::<T::Dma>(learnt.features)
                    &&& gpu@.wf()
                },
                Err(e) => exists|after: T| #[trigger]
                    initialised(transport.history(), after.history(), Err(e)),
            },
    {
        let mut transport = transport;
        let ghost before = transport.history();
        match initialise(&mut transport) {
            Ok(learnt) => Ok(VirtIOGpu::with_features(transport, learnt.features)),
            Err(e) => {
                assert(initialised(before, transport.history(), Err(e)));
                Err(e)
            },
        }
    }

    /// The driver of a device that [`initialise`] has started, with the features that were
    /// negotiated.
    pub fn with_features(transport: T, features: Features) -> (gpu: Self)
        ensures
            gpu.history() == transport.history(),
            gpu@ == started::<T::Dma>(features),
            gpu@.wf(),
    {
        VirtIOGpu {
            frame_buffer_dma: None,
            cursor_buffer_dma: None,
            rect: None,
            has_edid: features.contains(Features::EDID),
            access_platform: features.contains(Features::ACCESS_PLATFORM),
            has_virgl: features.contains(Features::VIRGL),
            has_resource_blob: features.contains(Features::RESOURCE_BLOB),
            transport,
        }
    }

    /// Takes both queues down, so that the device does not try to reach their memory after it
    /// has been freed. No call may follow.
    pub fn unset_queues(&mut self)
        ensures
            final(self)@ == old(self)@,
            final(self).history() == old(self).history().push(
                Event {
                    ask: Ask::QueueUnset { queue: QUEUE_TRANSMIT },
                    answer: Answer::Done,
                },
            ).push(
                Event { ask: Ask::QueueUnset { queue: QUEUE_CURSOR }, answer: Answer::Done },
            ),
    {
        self.transport.queue_unset(QUEUE_TRANSMIT);
        self.transport.queue_unset(QUEUE_CURSOR);
    }

    /// The transport that the driver uses.
    pub fn transport(&self) -> (transport: &T)
        ensures
            transport.history() == self.history(),
    {
        &self.transport
    }

    /// Acknowledge interrupt.
    pub fn ack_interrupt(&mut self) -> (status: InterruptStatus)
        ensures
            final(self)@ == old(self)@,
            final(self).history() == old(self).history().push(
                Event { ask: Ask::AckInterrupt, answer: Answer::Status(status) },
            ),
    {
        self.transport.ack_interrupt()
    }

    /// Send a request to the device and block for a response.
    fn request<Req: IntoBytes, Rsp: FromBytes>(&mut self, req: Req) -> (r: Result<Rsp, Error>)
        ensures
            final(self)@ == old(self)@,
            asked_once(
                old(self).history(),
                final(self).history(),
                control(req.wire(), Rsp::wire_len()),
            ),
            match used(final(self).history().last().answer) {
                Ok(_) => r matches Ok(rsp) && rsp.is_at(
                    written(final(self).history().last().answer, 0),
                    0,
                ),
                Err(e) => r == Err::<Rsp, Error>(e),
            },
    {
        proof {
            req.wire_has_len();
        }
        let request = req.as_bytes();
        let inputs: [&[u8]; 1] = [request.as_slice()];
        let mut outputs: Vec<Vec<u8>> = Vec::new();
        outputs.push(zeroed(Rsp::size()));
        assert(slices(inputs@) =~= seq![req.wire()]);
        assert(vectors(outputs@) =~= seq![zeros(Rsp::wire_len())]);
        self.transport.add_notify_wait_pop(QUEUE_TRANSMIT, inputs.as_slice(), &mut outputs)?;
        Ok(Rsp::read_at(outputs[0].as_slice(), 0))
    }

    /// Like `request`, but in addition to the fixed-length response `Rsp` also accepts further
    /// response bytes in `extra_response`.
    ///
    /// Returns the number of bytes written to `extra_response` by the device.
    fn request_with_extra_response<Req: IntoBytes, Rsp: FromBytes>(
        &mut self,
        req: Req,
        extra_response: &mut Vec<u8>,
    ) -> (r: Result<(Rsp, usize), Error>)
        ensures
            final(self)@ == old(self)@,
            asked_once(
                old(self).history(),
                final(self).history(),
                Ask::Exchange {
                    queue: QUEUE_TRANSMIT,
                    inputs: seq![req.wire()],
                    outputs: seq![zeros(Rsp::wire_len()), old(extra_response)@],
                },
            ),
            final(extra_response)@ == written(final(self).history().last().answer, 1),
            final(extra_response)@.len() == old(extra_response)@.len(),
            match used(final(self).history().last().answer) {
                Ok(used_len) => r matches Ok((rsp, extra_len)) && rsp.is_at(
                    written(final(self).history().last().answer, 0),
                    0,
                ) && extra_len == extra_bytes(
                    used_len,
                    Rsp::wire_len(),
                    old(extra_response)@.len(),
                ),
                Err(e) => r == Err::<(Rsp, usize), Error>(e),
            },
    {
        proof {
            req.wire_has_len();
        }
        let request = req.as_bytes();
        let inputs: [&[u8]; 1] = [request.as_slice()];
        let mut outputs: Vec<Vec<u8>> = Vec::new();
        outputs.push(zeroed(Rsp::size()));
        let mut extra: Vec<u8> = Vec::new();
        extra.append(extra_response);
        assert(extra@ =~= old(extra_response)@);
        outputs.push(extra);
        assert(slices(inputs@) =~= seq![req.wire()]);
        assert(vectors(outputs@) =~= seq![zeros(Rsp::wire_len()), old(extra_response)@]);
        let result = self.transport.add_notify_wait_pop(
            QUEUE_TRANSMIT,
            inputs.as_slice(),
            &mut outputs,
        );
        assert(written(self.history().last().answer, 1) == outputs@[1]@);
        assert(outputs@[1]@.len() == old(extra_response)@.len());
        extra_response.append(&mut outputs[1]);
        assert(extra_response@ =~= written(self.history().last().answer, 1));
        let used_len: usize = result? as usize;
        let rsp = Rsp::read_at(outputs[0].as_slice(), 0);
        let beyond: usize = used_len.saturating_sub(Rsp::size());
        Ok(
            (
                rsp,
                if beyond < extra_response.len() {
                    beyond
                } else {
                    extra_response.len()
                },
            ),
        )
    }

    /// Send a mouse cursor operation request to the device and block until it has been taken.
    fn cursor_request<Req: IntoBytes>(&mut self, req: Req) -> (r: Result<(), Error>)
        ensures
            final(self)@ == old(self)@,
            asked_once(
                old(self).history(),
                final(self).history(),
                cursor(req.wire()),
            ),
            r == taken(final(self).history().last().answer),
    {
        proof {
            req.wire_has_len();
        }
        let request = req.as_bytes();
        let inputs: [&[u8]; 1] = [request.as_slice()];
        let mut outputs: Vec<Vec<u8>> = Vec::new();
        assert(slices(inputs@) =~= seq![req.wire()]);
        assert(vectors(outputs@) =~= seq![]);
        self.transport.add_notify_wait_pop(QUEUE_CURSOR, inputs.as_slice(), &mut outputs)?;
        Ok(())
    }

    /// Send a request with additional data (as a second device-readable buffer)
    /// and block for a response. Used where a command stream or memory entries
    /// are sent as a separate scatter-gather buffer alongside the header.
    fn request_with_data<Req: IntoBytes, Rsp: FromBytes>(&mut self, req: Req, data: &[u8]) -> (r:
        Result<Rsp, Error>)
        ensures
            final(self)@ == old(self)@,
            asked_once(
                old(self).history(),
                final(self).history(),
                Ask::Exchange {
                    queue: QUEUE_TRANSMIT,
                    inputs: if data@.len() == 0 {
                        seq![req.wire()]
                    } else {
                        seq![req.wire(), data@]
                    },
                    outputs: seq![zeros(Rsp::wire_len())],
                },
            ),
            match used(final(self).history().last().answer) {
                Ok(_) => r matches Ok(rsp) && rsp.is_at(
                    written(final(self).history().last().answer, 0),
                    0,
                ),
                Err(e) => r == Err::<Rsp, Error>(e),
            },
    {
        proof {
            req.wire_has_len();
        }
        let request = req.as_bytes();
        let mut outputs: Vec<Vec<u8>> = Vec::new();
        outputs.push(zeroed(Rsp::size()));
        assert(vectors(outputs@) =~= seq![zeros(Rsp::wire_len())]);
        if data.len() == 0 {
            let inputs: [&[u8]; 1] = [request.as_slice()];
            assert(slices(inputs@) =~= seq![req.wire()]);
            self.transport.add_notify_wait_pop(QUEUE_TRANSMIT, inputs.as_slice(), &mut outputs)?;
        } else {
            let inputs: [&[u8]; 2] = [request.as_slice(), data];
            assert(slices(inputs@) =~= seq![req.wire(), data@]);
            self.transport.add_notify_wait_pop(QUEUE_TRANSMIT, inputs.as_slice(), &mut outputs)?;
        }
        Ok(Rsp::read_at(outputs[0].as_slice(), 0))
    }
}

/// How many bytes of a second buffer of `extra_len` bytes the device wrote, if it wrote
/// `used_len` bytes in all and the first buffer has `first_len` bytes.
pub open spec fn extra_bytes(used_len: u32, first_len: nat, extra_len: nat) -> nat {
    if used_len <= first_len {
        0
    } else if used_len - first_len <= extra_len {
        (used_len - first_len) as nat
    } else {
        extra_len
    }
}

} // verus!
