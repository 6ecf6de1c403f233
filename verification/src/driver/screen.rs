//! Calls on the display and its framebuffer.
use crate::bytes::{bytes_at, u32_at, zeros};
use crate::command::Command;
use crate::display::{CmdGetEdid, Rect, RespDisplayInfo, RespEdid};
use crate::dma::{pages, spec_pages, BufferDirection, DmaBuffer, PAGE_SIZE};
use crate::driver::{GpuView, VirtIOGpu};
use crate::edid::{largest_first, preferred, supported, Edid};
use crate::error::Error;
use crate::header::CtrlHeader;
use crate::plan::{
    change_resolution_steps, display_mode, flush_plan, flushed, frame_size, framebuffer_set_up,
    memory_address, nothing_done, one_more, resolution_changed, rest_carried_out, screen,
    setup_framebuffer_steps, since, teardown_len, torn_down, RESOURCE_ID_FB, SCANOUT_ID,
};
use crate::request::{asked_once, control, get_display_info_request, get_edid_request, response};
use crate::transport::{Event, Transport};
use crate::wire::IntoBytes;
use vstd::prelude::*;

verus! {

/// The memory of a framebuffer before anything is drawn.
pub open spec fn blank_frame(width: u32, height: u32) -> Seq<u8> {
    zeros(spec_pages(frame_size(width, height)) * PAGE_SIZE as nat)
}

/// What a change of the resolution makes of a driver where it succeeds. `done` are the steps that
/// it took, `contents` is what the caller leaves in the new framebuffer.
pub open spec fn has_new_frame<D: DmaBuffer>(
    before: GpuView<D>,
    after: GpuView<D>,
    width: u32,
    height: u32,
    done: Seq<Event>,
    contents: Seq<u8>,
) -> bool {
    &&& after.frame_buffer matches Some(memory)
    &&& memory.address() == memory_address(done[teardown_len(before.frame_buffer is Some) + 1])
    &&& memory.contents() == contents
    &&& after == (GpuView {
        rect: Some(screen(width, height)),
        frame_buffer: Some(memory),
        ..before
    })
}

/// What a change of the resolution makes of a driver where it fails. Once the framebuffer is torn
/// down, its memory is given back, and the new area is what later calls use.
pub open spec fn has_no_new_frame<D: DmaBuffer>(
    before: GpuView<D>,
    after: GpuView<D>,
    width: u32,
    height: u32,
    done: Seq<Event>,
) -> bool {
    after == if torn_down(before.frame_buffer is Some, done) {
        GpuView { rect: Some(screen(width, height)), frame_buffer: None, ..before }
    } else {
        before
    }
}

impl<T: Transport> VirtIOGpu<T> {
    /// Get the resolution (width, height).
    pub fn resolution(&mut self) -> (r: Result<(u32, u32), Error>)
        ensures
            final(self)@ == old(self)@,
            asked_once(
                old(self).history(),
                final(self).history(),
                control(get_display_info_request().wire(), 408),
            ),
            r == display_mode(final(self).history().last().answer),
    {
        let display_info = self.get_display_info()?;
        Ok((display_info.pmodes[0].rect.width, display_info.pmodes[0].rect.height))
    }

    /// Get the EDID data for the specified scanout.
    ///
    /// Requires the EDID feature to have been negotiated.
    pub fn get_edid(&mut self, scanout: u32) -> (r: Result<Edid, Error>)
        ensures
            final(self)@ == old(self)@,
            !old(self)@.has_edid ==> final(self).history() == old(self).history() && r == Err::<
                Edid,
                Error,
            >(Error::Unsupported),
            old(self)@.has_edid ==> asked_once(
                old(self).history(),
                final(self).history(),
                control(get_edid_request(scanout).wire(), 1056),
            ),
            old(self)@.has_edid ==> match response(
                final(self).history().last().answer,
                Command::OK_EDID,
            ) {
                Ok(reply) => r matches Ok(edid) && edid.data@ == bytes_at(reply, 32, 1024)
                    && edid.size == u32_at(reply, 24),
                Err(e) => r == Err::<Edid, Error>(e),
            },
    {
        if !self.has_edid {
            return Err(Error::Unsupported);
        }
        let rsp: RespEdid = self.request(
            CmdGetEdid {
                header: CtrlHeader::with_type(Command(Command::GET_EDID)),
                scanout,
                _padding: 0,
            },
        )?;
        rsp.header.check_type(Command(Command::OK_EDID))?;
        Ok(Edid { data: rsp.edid, size: rsp.size })
    }

    /// Get the preferred resolution from the EDID data.
    ///
    /// Parses the first Detailed Timing Descriptor in the EDID to extract
    /// the preferred display resolution. Returns (width, height).
    pub fn edid_preferred_resolution(&mut self) -> (r: Result<(u32, u32), Error>)
        ensures
            final(self)@ == old(self)@,
            !old(self)@.has_edid ==> final(self).history() == old(self).history() && r == Err::<
                (u32, u32),
                Error,
            >(Error::Unsupported),
            old(self)@.has_edid ==> asked_once(
                old(self).history(),
                final(self).history(),
                control(get_edid_request(SCANOUT_ID).wire(), 1056),
            ),
            old(self)@.has_edid ==> match response(
                final(self).history().last().answer,
                Command::OK_EDID,
            ) {
                Ok(reply) => r == preferred(bytes_at(reply, 32, 1024), u32_at(reply, 24)),
                Err(e) => r == Err::<(u32, u32), Error>(e),
            },
    {
        let edid = self.get_edid(SCANOUT_ID)?;
        edid.preferred_resolution()
    }

    /// Get the list of supported resolutions from EDID data.
    ///
    /// Returns up to 8 resolutions from the Standard Timings block, sorted
    /// by total pixel count (largest first). Each entry is (width, height).
    pub fn edid_supported_resolutions(&mut self) -> (r: Result<Vec<(u32, u32)>, Error>)
        ensures
            final(self)@ == old(self)@,
            !old(self)@.has_edid ==> final(self).history() == old(self).history() && r == Err::<
                Vec<(u32, u32)>,
                Error,
            >(Error::Unsupported),
            old(self)@.has_edid ==> asked_once(
                old(self).history(),
                final(self).history(),
                control(get_edid_request(SCANOUT_ID).wire(), 1056),
            ),
            old(self)@.has_edid ==> match response(
                final(self).history().last().answer,
                Command::OK_EDID,
            ) {
                Ok(reply) => r matches Ok(list) && list@ == supported(
                    bytes_at(reply, 32, 1024),
                    u32_at(reply, 24),
                ) && list@.len() <= 8 && largest_first(list@),
                Err(e) => r == Err::<Vec<(u32, u32)>, Error>(e),
            },
    {
        let edid = self.get_edid(SCANOUT_ID)?;
        Ok(edid.standard_timings())
    }

    /// Get the display modes of all scanouts.
    pub fn get_display_info(&mut self) -> (r: Result<RespDisplayInfo, Error>)
        ensures
            final(self)@ == old(self)@,
            asked_once(
                old(self).history(),
                final(self).history(),
                control(get_display_info_request().wire(), 408),
            ),
            match response(final(self).history().last().answer, Command::OK_DISPLAY_INFO) {
                Ok(modes) => r matches Ok(info) && info.is_at(modes, 0),
                Err(e) => r == Err::<RespDisplayInfo, Error>(e),
            },
    {
        let info: RespDisplayInfo = self.request(
            CtrlHeader::with_type(Command(Command::GET_DISPLAY_INFO)),
        )?;
        info.header.check_type(Command(Command::OK_DISPLAY_INFO))?;
        Ok(info)
    }

    /// Setup framebuffer at the display's default resolution.
    ///
    /// It is as if [`change_resolution`](Self::change_resolution) were called with the resolution
    /// that the display reports.
    pub fn setup_framebuffer(&mut self) -> (r: Result<&mut [u8], Error>)
        ensures
            framebuffer_set_up(
                old(self)@.frame_buffer is Some,
                old(self)@.access_platform,
                old(self).history(),
                final(self).history(),
                match r {
                    Ok(_) => Ok(()),
                    Err(e) => Err(e),
                },
            ),
            old(self)@.wf() && (r matches Ok(bytes) ==> final(bytes)@.len() == bytes@.len())
                ==> final(self)@.wf(),
            ({
                let done = since(old(self).history(), final(self).history());
                match display_mode(done[0].answer) {
                    Err(_) => final(self)@ == old(self)@,
                    Ok((width, height)) => match r {
                        Ok(bytes) => {
                            &&& bytes@ == blank_frame(width, height)
                            &&& has_new_frame(
                                old(self)@,
                                final(self)@,
                                width,
                                height,
                                done.skip(1),
                                final(bytes)@,
                            )
                        },
                        Err(_) => has_no_new_frame(
                            old(self)@,
                            final(self)@,
                            width,
                            height,
                            done.skip(1),
                        ),
                    },
                }
            }),
    {
        let ghost before = self.history();
        let ghost plan = setup_framebuffer_steps(
            self@.frame_buffer is Some,
            self@.access_platform,
        );
        proof {
            nothing_done(plan, before);
        }
        let display_info = self.get_display_info();
        proof {
            one_more(plan, before, before, self.history(), self.history().last().ask);
        }
        let display_info = match display_info {
            Ok(info) => info,
            Err(e) => {
                return Err(e);
            },
        };
        let (width, height): (u32, u32) = (
            display_info.pmodes[0].rect.width,
            display_info.pmodes[0].rect.height,
        );
        let ghost now = self.history();
        let ghost had = self@.frame_buffer is Some;
        let ghost platform = self@.access_platform;
        let memory = self.replace_frame_buffer(width, height);
        proof {
            rest_carried_out(
                plan,
                change_resolution_steps(had, platform, width, height),
                before,
                now,
                self.history(),
                match memory {
                    Ok(_) => Ok(()),
                    Err(e) => Err(e),
                },
            );
        }
        match memory {
            Ok(memory) => Ok(self.keep_frame_buffer(memory)),
            Err(e) => Err(e),
        }
    }

    /// Set or change the framebuffer resolution. If a framebuffer already exists, tears down the
    /// existing resource before creating the new one. Can be called before or after
    /// [`setup_framebuffer`](Self::setup_framebuffer) to set an explicit resolution.
    ///
    /// Returns a mutable slice to the new framebuffer memory.
    ///
    /// Where the pixels take more bytes than 32 bits can count, this fails with
    /// [`Error::InvalidParam`] once the new resource has been created.
    pub fn change_resolution(&mut self, width: u32, height: u32) -> (r: Result<&mut [u8], Error>)
        ensures
            resolution_changed(
                old(self)@.frame_buffer is Some,
                old(self)@.access_platform,
                width,
                height,
                old(self).history(),
                final(self).history(),
                match r {
                    Ok(_) => Ok(()),
                    Err(e) => Err(e),
                },
            ),
            old(self)@.wf() && (r matches Ok(bytes) ==> final(bytes)@.len() == bytes@.len())
                ==> final(self)@.wf(),
            ({
                let done = since(old(self).history(), final(self).history());
                match r {
                    Ok(bytes) => {
                        &&& bytes@ == blank_frame(width, height)
                        &&& has_new_frame(
                            old(self)@,
                            final(self)@,
                            width,
                            height,
                            done,
                            final(bytes)@,
                        )
                    },
                    Err(_) => has_no_new_frame(old(self)@, final(self)@, width, height, done),
                }
            }),
    {
        match self.replace_frame_buffer(width, height) {
            Ok(memory) => Ok(self.keep_frame_buffer(memory)),
            Err(e) => Err(e),
        }
    }

    /// Has the device drop the framebuffer that there is, and set up a new one. Returns the
    /// memory of the new one.
    #[verifier::rlimit(30)]
    fn replace_frame_buffer(&mut self, width: u32, height: u32) -> (r: Result<T::Dma, Error>)
        ensures
            resolution_changed(
                old(self)@.frame_buffer is Some,
                old(self)@.access_platform,
                width,
                height,
                old(self).history(),
                final(self).history(),
                match r {
                    Ok(_) => Ok(()),
                    Err(e) => Err(e),
                },
            ),
            has_no_new_frame(
                old(self)@,
                final(self)@,
                width,
                height,
                since(old(self).history(), final(self).history()),
            ),
            r matches Ok(memory) ==> {
                let done = since(old(self).history(), final(self).history());
                let torn = teardown_len(old(self)@.frame_buffer is Some);
                &&& torn_down(old(self)@.frame_buffer is Some, done)
                &&& memory.address() == memory_address(done[torn + 1])
                &&& memory.contents() == blank_frame(width, height)
            },
    {
        let rect = Rect { x: 0, y: 0, width, height };
        let ghost before = self.history();
        let ghost had = self@.frame_buffer is Some;
        let ghost platform = self@.access_platform;
        let ghost plan = change_resolution_steps(had, platform, width, height);
        proof {
            nothing_done(plan, before);
        }

        // Tear down existing framebuffer if one exists
        if self.frame_buffer_dma.is_some() {
            let ghost now = self.history();
            let result = self.set_scanout(Rect::default(), SCANOUT_ID, 0);
            proof {
                one_more(plan, before, now, self.history(), self.history().last().ask);
            }
            result?;
            let ghost now = self.history();
            let result = self.resource_detach_backing(RESOURCE_ID_FB);
            proof {
                one_more(plan, before, now, self.history(), self.history().last().ask);
            }
            result?;
            let ghost now = self.history();
            let result = self.resource_unref(RESOURCE_ID_FB);
            proof {
                one_more(plan, before, now, self.history(), self.history().last().ask);
            }
            result?;
            self.frame_buffer_dma = None;
        }
        self.rect = Some(rect);
        let ghost now = self.history();
        let result = self.resource_create_2d(RESOURCE_ID_FB, width, height);
        proof {
            one_more(plan, before, now, self.history(), self.history().last().ask);
        }
        result?;
        if !frame_fits(width, height) {
            return Err(Error::InvalidParam);
        }
        assert(width * height <= u32::MAX && width * height * 4 == frame_size(width, height));
        let size: u32 = width * height * 4;
        let ghost now = self.history();
        let result = self.transport.dma_new(
            pages(size as usize),
            BufferDirection::DriverToDevice,
            self.access_platform,
        );
        proof {
            one_more(plan, before, now, self.history(), self.history().last().ask);
        }
        let frame_buffer_dma = result?;

        let ghost now = self.history();
        let result = self.resource_attach_backing(RESOURCE_ID_FB, frame_buffer_dma.paddr(), size);
        proof {
            one_more(plan, before, now, self.history(), self.history().last().ask);
        }
        result?;
        let ghost now = self.history();
        let result = self.set_scanout(rect, SCANOUT_ID, RESOURCE_ID_FB);
        proof {
            one_more(plan, before, now, self.history(), self.history().last().ask);
        }
        result?;
        Ok(frame_buffer_dma)
    }

    /// Keeps the memory of the framebuffer, for the caller to draw into.
    fn keep_frame_buffer(&mut self, memory: T::Dma) -> (bytes: &mut [u8])
        ensures
            bytes@ == memory.contents(),
            final(self).history() == old(self).history(),
            final(self)@.frame_buffer matches Some(kept) && kept.address() == memory.address()
                && kept.contents() == final(bytes)@ && final(self)@ == (GpuView {
                frame_buffer: Some(kept),
                ..old(self)@
            }),
    {
        self.frame_buffer_dma.insert(memory).raw_slice()
    }

    /// Flush framebuffer to screen.
    pub fn flush(&mut self) -> (r: Result<(), Error>)
        ensures
            final(self)@ == old(self)@,
            flushed(old(self)@.rect, old(self).history(), final(self).history(), r),
    {
        let ghost before = self.history();
        let ghost known = self.rect;
        let ghost plan = |done: Seq<Event>| flush_plan(known, done);
        proof {
            nothing_done(plan, before);
        }
        let rect = match self.rect {
            Some(rect) => rect,
            None => {
                return Err(Error::NotReady);
            },
        };
        // copy data from guest to host
        let ghost now = self.history();
        let result = self.transfer_to_host_2d(rect, 0, RESOURCE_ID_FB);
        proof {
            one_more(plan, before, now, self.history(), self.history().last().ask);
        }
        result?;
        // flush data to screen
        let ghost now = self.history();
        let result = self.resource_flush(rect, RESOURCE_ID_FB);
        proof {
            one_more(plan, before, now, self.history(), self.history().last().ask);
        }
        result?;
        Ok(())
    }
}

/// Whether 32 bits can count the bytes of a framebuffer.
fn frame_fits(width: u32, height: u32) -> (r: bool)
    ensures
        r == (frame_size(width, height) <= u32::MAX),
{
    assert(0 <= width * height <= 0xffff_ffff * 0xffff_ffff) by (nonlinear_arith)
        requires
            0 <= width <= 0xffff_ffff,
            0 <= height <= 0xffff_ffff,
    ;
    width as u64 * height as u64 <= 0x3fff_ffff
}

} // verus!
