//! Calls on 2D resources, which are also the way to destroy a resource of any kind.
use crate::command::Command;
use crate::display::Rect;
use crate::driver::VirtIOGpu;
use crate::error::Error;
use crate::header::CtrlHeader;
use crate::request::{
    acknowledged, asked_once, command, resource_attach_backing_request, resource_create_2d_request,
    resource_detach_backing_request, resource_flush_request, resource_unref_request,
    set_scanout_request, transfer_to_host_2d_request,
};
use crate::resource::{
    Format, MemEntry, ResourceAttachBacking, ResourceAttachBackingSingleEntry, ResourceCreate2D,
    ResourceDetachBacking, ResourceFlush, ResourceUnref, SetScanout, TransferToHost2D,
};
use crate::transport::Transport;
use crate::wire::IntoBytes;
use vstd::prelude::*;

verus! {

impl<T: Transport> VirtIOGpu<T> {
    /// Create a 2D resource with the given dimensions.
    ///
    /// Format is always `B8G8R8A8UNORM`. Use [`VirtIOGpu::resource_attach_backing`]
    /// to give the resource guest-visible memory, and [`VirtIOGpu::set_scanout`] to
    /// bind it as the display output.
    pub fn resource_create_2d(
        &mut self,
        resource_id: u32,
        width: u32,
        height: u32,
    ) -> (r: Result<(), Error>)
        ensures
            final(self)@ == old(self)@,
            asked_once(
                old(self).history(),
                final(self).history(),
                command(resource_create_2d_request(resource_id, width, height).wire()),
            ),
            r == acknowledged(final(self).history().last().answer),
    {
        let rsp: CtrlHeader = self.request(
            ResourceCreate2D {
                header: CtrlHeader::with_type(Command(Command::RESOURCE_CREATE_2D)),
                resource_id,
                format: Format::B8G8R8A8UNORM,
                width,
                height,
            },
        )?;
        rsp.check_type(Command(Command::OK_NODATA))
    }

    /// Bind a resource as the scanout (display output) for the given scanout ID.
    /// The `rect` specifies the display area.
    pub fn set_scanout(
        &mut self,
        rect: Rect,
        scanout_id: u32,
        resource_id: u32,
    ) -> (r: Result<(), Error>)
        ensures
            final(self)@ == old(self)@,
            asked_once(
                old(self).history(),
                final(self).history(),
                command(set_scanout_request(rect, scanout_id, resource_id).wire()),
            ),
            r == acknowledged(final(self).history().last().answer),
    {
        let rsp: CtrlHeader = self.request(
            SetScanout {
                header: CtrlHeader::with_type(Command(Command::SET_SCANOUT)),
                rect,
                scanout_id,
                resource_id,
            },
        )?;
        rsp.check_type(Command(Command::OK_NODATA))
    }

    /// Flush a resource's contents to the display. The `rect` specifies the
    /// area to refresh.
    pub fn resource_flush(
        &mut self,
        rect: Rect,
        resource_id: u32,
    ) -> (r: Result<(), Error>)
        ensures
            final(self)@ == old(self)@,
            asked_once(
                old(self).history(),
                final(self).history(),
                command(resource_flush_request(rect, resource_id).wire()),
            ),
            r == acknowledged(final(self).history().last().answer),
    {
        let rsp: CtrlHeader = self.request(
            ResourceFlush {
                header: CtrlHeader::with_type(Command(Command::RESOURCE_FLUSH)),
                rect,
                resource_id,
                _padding: 0,
            },
        )?;
        rsp.check_type(Command(Command::OK_NODATA))
    }

    /// Transfer data from guest to host for a 2D resource within the given rectangle.
    pub fn transfer_to_host_2d(
        &mut self,
        rect: Rect,
        offset: u64,
        resource_id: u32,
    ) -> (r: Result<(), Error>)
        ensures
            final(self)@ == old(self)@,
            asked_once(
                old(self).history(),
                final(self).history(),
                command(transfer_to_host_2d_request(rect, offset, resource_id).wire()),
            ),
            r == acknowledged(final(self).history().last().answer),
    {
        let rsp: CtrlHeader = self.request(
            TransferToHost2D {
                header: CtrlHeader::with_type(Command(Command::TRANSFER_TO_HOST_2D)),
                rect,
                offset,
                resource_id,
                _padding: 0,
            },
        )?;
        rsp.check_type(Command(Command::OK_NODATA))
    }

    /// Attach a single DMA-backed memory region to a resource.
    ///
    /// The host uses `paddr` to read/write guest memory for the resource.
    /// This must be called after [`VirtIOGpu::resource_create_2d`] and before any
    /// [`VirtIOGpu::transfer_to_host_2d`] or [`VirtIOGpu::set_scanout`].
    pub fn resource_attach_backing(
        &mut self,
        resource_id: u32,
        paddr: u64,
        length: u32,
    ) -> (r: Result<(), Error>)
        ensures
            final(self)@ == old(self)@,
            asked_once(
                old(self).history(),
                final(self).history(),
                command(resource_attach_backing_request(resource_id, paddr, length).wire()),
            ),
            r == acknowledged(final(self).history().last().answer),
    {
        let rsp: CtrlHeader = self.request(
            ResourceAttachBackingSingleEntry {
                header: ResourceAttachBacking {
                    header: CtrlHeader::with_type(Command(Command::RESOURCE_ATTACH_BACKING)),
                    resource_id,
                    nr_entries: 1,
                },
                entry: MemEntry { addr: paddr, length, padding: 0 },
            },
        )?;
        rsp.check_type(Command(Command::OK_NODATA))
    }

    /// Detach the backing memory from a resource.
    ///
    /// Call this before [`VirtIOGpu::resource_unref`] to release the host's mapping
    /// of the guest memory region.
    pub fn resource_detach_backing(
        &mut self,
        resource_id: u32,
    ) -> (r: Result<(), Error>)
        ensures
            final(self)@ == old(self)@,
            asked_once(
                old(self).history(),
                final(self).history(),
                command(resource_detach_backing_request(resource_id).wire()),
            ),
            r == acknowledged(final(self).history().last().answer),
    {
        let rsp: CtrlHeader = self.request(
            ResourceDetachBacking {
                header: CtrlHeader::with_type(Command(Command::RESOURCE_DETACH_BACKING)),
                resource_id,
                _padding: 0,
            },
        )?;
        rsp.check_type(Command(Command::OK_NODATA))
    }

    /// Unreference a resource by its ID.
    ///
    /// This releases the host-side resource and is the only way to destroy
    /// a 3D resource (the protocol uses a single command for both 2D and 3D resources).
    pub fn resource_unref(
        &mut self,
        resource_id: u32,
    ) -> (r: Result<(), Error>)
        ensures
            final(self)@ == old(self)@,
            asked_once(
                old(self).history(),
                final(self).history(),
                command(resource_unref_request(resource_id).wire()),
            ),
            r == acknowledged(final(self).history().last().answer),
    {
        let rsp: CtrlHeader = self.request(
            ResourceUnref {
                header: CtrlHeader::with_type(Command(Command::RESOURCE_UNREF)),
                resource_id,
                _padding: 0,
            },
        )?;
        rsp.check_type(Command(Command::OK_NODATA))
    }
}

} // verus!
