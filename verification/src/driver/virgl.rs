//! 3D (virgl) calls: they need the VIRGL feature.
use crate::blob::CmdResourceCreateBlob;
use crate::bytes::{push_bytes, zeroed};
use crate::command::Command;
use crate::context::{
    CmdCtxCreate, CmdCtxResource, CmdGetCapset, CmdGetCapsetInfo, CmdResourceCreate3D, CmdSubmit3D,
    CmdTransferHost3D, GpuBox, RespCapsetInfo,
};
use crate::driver::{extra_bytes, VirtIOGpu};
use crate::error::Error;
use crate::header::CtrlHeader;
use crate::request::{
    acknowledged, asked_once, command, command_with_data, control, control_with_extra,
    ctx_attach_resource_request, ctx_create_wire, ctx_destroy_request, ctx_detach_resource_request,
    debug_name, get_capset_info_request, get_capset_request, mem_entries_wire,
    resource_create_3d_request, resource_create_blob_request, response, submit_3d_request,
    transfer_3d_request, used, written,
};
use crate::resource::MemEntry;
use crate::transport::{Answer, Transport};
use crate::wire::IntoBytes;
use vstd::prelude::*;

verus! {

/// Why a command stream of `len` bytes is not sent, if it is not.
pub open spec fn submit_refusal(has_virgl: bool, len: nat) -> Option<Error> {
    if !has_virgl {
        Some(Error::IoError)
    } else if len % 4 != 0 {
        Some(Error::InvalidParam)
    } else if len > u32::MAX {
        Some(Error::IoError)
    } else {
        None
    }
}

/// Why a blob with the backing `ranges` is not created, if it is not.
pub open spec fn blob_refusal(
    has_virgl: bool,
    has_resource_blob: bool,
    ranges: Seq<(u64, usize)>,
) -> Option<Error> {
    if !has_virgl {
        Some(Error::IoError)
    } else if !has_resource_blob {
        Some(Error::Unsupported)
    } else if ranges.len() > u32::MAX {
        Some(Error::IoError)
    } else if exists|i: int| 0 <= i < ranges.len() && (#[trigger] ranges[i]).1 > u32::MAX {
        Some(Error::InvalidParam)
    } else {
        None
    }
}

/// The capset data in a response: what the device wrote behind the header.
pub open spec fn capset_data(answer: Answer, size: nat) -> Seq<u8> {
    match used(answer) {
        Ok(used_len) => written(answer, 1).take(extra_bytes(used_len, 24, size) as int),
        Err(_) => seq![],
    }
}

impl<T: Transport> VirtIOGpu<T> {
    /// Whether the VIRGL (3D acceleration) feature was successfully negotiated.
    pub fn has_virgl(&self) -> (r: bool)
        ensures
            r == self@.has_virgl,
    {
        self.has_virgl
    }

    /// Whether the blob resource feature was negotiated. Blob resources are
    /// required for host-visible memory and dma-buf sharing (PRIME).
    pub fn has_resource_blob(&self) -> (r: bool)
        ensures
            r == self@.has_resource_blob,
    {
        self.has_resource_blob
    }

    /// Returns `Err` if the VIRGL feature was not negotiated. All 3D commands
    /// are undefined without it and the host would reject them anyway.
    pub fn require_virgl(&self) -> (r: Result<(), Error>)
        ensures
            r == if self@.has_virgl {
                Ok::<(), Error>(())
            } else {
                Err::<(), Error>(Error::IoError)
            },
    {
        if self.has_virgl {
            Ok(())
        } else {
            Err(Error::IoError)
        }
    }

    /// Query capset information by index (0-based).
    ///
    /// The returned `RespCapsetInfo` contains the capset ID, max version, and max
    /// data size. Callers should then use `get_capset` to retrieve the actual
    /// capset data.
    pub fn get_capset_info(&mut self, capset_index: u32) -> (r: Result<RespCapsetInfo, Error>)
        ensures
            final(self)@ == old(self)@,
            !old(self)@.has_virgl ==> final(self).history() == old(self).history() && r == Err::<
                RespCapsetInfo,
                Error,
            >(Error::IoError),
            old(self)@.has_virgl ==> asked_once(
                old(self).history(),
                final(self).history(),
                control(get_capset_info_request(capset_index).wire(), 40),
            ),
            old(self)@.has_virgl ==> match response(
                final(self).history().last().answer,
                Command::OK_CAPSET_INFO,
            ) {
                Ok(reply) => r matches Ok(info) && info.is_at(reply, 0),
                Err(e) => r == Err::<RespCapsetInfo, Error>(e),
            },
    {
        self.require_virgl()?;
        let rsp: RespCapsetInfo = self.request(
            CmdGetCapsetInfo {
                header: CtrlHeader::with_type(Command(Command::GET_CAPSET_INFO)),
                capset_index,
                _padding: 0,
            },
        )?;
        rsp.header.check_type(Command(Command::OK_CAPSET_INFO))?;
        Ok(rsp)
    }

    /// Retrieve capset data for a given capset ID and version.
    ///
    /// `size` should be the capset's `capset_max_size` as returned by
    /// [`get_capset_info`](Self::get_capset_info). It is only an upper bound: what is returned
    /// are the bytes that the device actually wrote.
    pub fn get_capset(&mut self, capset_id: u32, version: u32, size: u32) -> (r: Result<
        Vec<u8>,
        Error,
    >)
        ensures
            final(self)@ == old(self)@,
            !old(self)@.has_virgl ==> final(self).history() == old(self).history() && r == Err::<
                Vec<u8>,
                Error,
            >(Error::IoError),
            old(self)@.has_virgl ==> asked_once(
                old(self).history(),
                final(self).history(),
                control_with_extra(get_capset_request(capset_id, version).wire(), size as nat),
            ),
            old(self)@.has_virgl ==> match response(
                final(self).history().last().answer,
                Command::OK_CAPSET,
            ) {
                Ok(_) => r matches Ok(data) && data@ == capset_data(
                    final(self).history().last().answer,
                    size as nat,
                ) && data@.len() == extra_bytes(
                    used(final(self).history().last().answer)->Ok_0,
                    24,
                    size as nat,
                ),
                Err(e) => r == Err::<Vec<u8>, Error>(e),
            },
    {
        self.require_virgl()?;
        let mut extra_response = zeroed(size as usize);
        // `size` is only an upper bound: cut the data off behind the bytes that the device
        // actually wrote, so that no other bytes of the buffer get into the returned blob.
        let (hdr, used_len): (CtrlHeader, usize) = self.request_with_extra_response(
            CmdGetCapset {
                header: CtrlHeader::with_type(Command(Command::GET_CAPSET)),
                capset_id,
                capset_version: version,
            },
            &mut extra_response,
        )?;
        hdr.check_type(Command(Command::OK_CAPSET))?;
        extra_response.truncate(used_len);
        Ok(extra_response)
    }

    /// Create a 3D rendering context.
    ///
    /// `ctx_id` is assigned by the upper layer. `name` is a debug label for the
    /// host (truncated to 64 bytes).
    ///
    /// `context_init` carries the capset_id (e.g. 1 for VIRGL, 2 for VIRGL2).
    pub fn ctx_create(&mut self, ctx_id: u32, name: &str, context_init: u32) -> (r: Result<
        (),
        Error,
    >)
        ensures
            final(self)@ == old(self)@,
            !old(self)@.has_virgl ==> final(self).history() == old(self).history() && r == Err::<
                (),
                Error,
            >(Error::IoError),
            old(self)@.has_virgl ==> asked_once(
                old(self).history(),
                final(self).history(),
                command(ctx_create_wire(ctx_id, vstd::utf8::encode_utf8(name@), context_init)),
            ),
            old(self)@.has_virgl ==> r == acknowledged(final(self).history().last().answer),
    {
        self.require_virgl()?;
        let bytes = name.as_bytes();
        let nlen: usize = if bytes.len() < 64 {
            bytes.len()
        } else {
            64
        };
        let mut label: [u8; 64] = [0u8; 64];
        let mut i: usize = 0;
        while i < nlen
            invariant
                i <= nlen,
                nlen <= 64,
                nlen <= bytes@.len(),
                label@.len() == 64,
                forall|k: int| 0 <= k < i ==> label@[k] == bytes@[k],
                forall|k: int| i <= k < 64 ==> label@[k] == 0,
            decreases nlen - i,
        {
            label[i] = bytes[i];
            i += 1;
        }
        assert(label@ =~= debug_name(bytes@));
        let cmd = CmdCtxCreate {
            header: CtrlHeader::with_type_and_ctx(Command(Command::CTX_CREATE), ctx_id),
            nlen: nlen as u32,
            context_init,
            debug_name: label,
        };
        let rsp: CtrlHeader = self.request(cmd)?;
        rsp.check_type(Command(Command::OK_NODATA))
    }

    /// Destroy a 3D rendering context.
    pub fn ctx_destroy(
        &mut self,
        ctx_id: u32,
    ) -> (r: Result<(), Error>)
        ensures
            final(self)@ == old(self)@,
            !old(self)@.has_virgl ==> final(self).history() == old(self).history() && r == Err::<
                (),
                Error,
            >(Error::IoError),
            old(self)@.has_virgl ==> asked_once(
                old(self).history(),
                final(self).history(),
                command(ctx_destroy_request(ctx_id).wire()),
            ),
            old(self)@.has_virgl ==> r == acknowledged(final(self).history().last().answer),
    {
        self.require_virgl()?;
        let rsp: CtrlHeader = self.request(
            CtrlHeader::with_type_and_ctx(Command(Command::CTX_DESTROY), ctx_id),
        )?;
        rsp.check_type(Command(Command::OK_NODATA))
    }

    /// Attach a resource to a 3D context.
    pub fn ctx_attach_resource(
        &mut self,
        ctx_id: u32,
        resource_id: u32,
    ) -> (r: Result<(), Error>)
        ensures
            final(self)@ == old(self)@,
            !old(self)@.has_virgl ==> final(self).history() == old(self).history() && r == Err::<
                (),
                Error,
            >(Error::IoError),
            old(self)@.has_virgl ==> asked_once(
                old(self).history(),
                final(self).history(),
                command(ctx_attach_resource_request(ctx_id, resource_id).wire()),
            ),
            old(self)@.has_virgl ==> r == acknowledged(final(self).history().last().answer),
    {
        self.require_virgl()?;
        let rsp: CtrlHeader = self.request(
            CmdCtxResource {
                header: CtrlHeader::with_type_and_ctx(
                    Command(Command::CTX_ATTACH_RESOURCE),
                    ctx_id,
                ),
                resource_id,
                _padding: 0,
            },
        )?;
        rsp.check_type(Command(Command::OK_NODATA))
    }

    /// Detach a resource from a 3D context.
    pub fn ctx_detach_resource(
        &mut self,
        ctx_id: u32,
        resource_id: u32,
    ) -> (r: Result<(), Error>)
        ensures
            final(self)@ == old(self)@,
            !old(self)@.has_virgl ==> final(self).history() == old(self).history() && r == Err::<
                (),
                Error,
            >(Error::IoError),
            old(self)@.has_virgl ==> asked_once(
                old(self).history(),
                final(self).history(),
                command(ctx_detach_resource_request(ctx_id, resource_id).wire()),
            ),
            old(self)@.has_virgl ==> r == acknowledged(final(self).history().last().answer),
    {
        self.require_virgl()?;
        let rsp: CtrlHeader = self.request(
            CmdCtxResource {
                header: CtrlHeader::with_type_and_ctx(
                    Command(Command::CTX_DETACH_RESOURCE),
                    ctx_id,
                ),
                resource_id,
                _padding: 0,
            },
        )?;
        rsp.check_type(Command(Command::OK_NODATA))
    }

    /// Create a 3D resource (texture, render target, buffer, etc.).
    ///
    /// `target`, `format`, `bind`, `flags`, etc. are pipe-level constants
    /// (e.g. PIPE_TEXTURE_2D, PIPE_FORMAT_B8G8R8A8_UNORM, PIPE_BIND_RENDER_TARGET).
    /// The driver does not define these: the caller passes raw
    /// values from the Gallium/Mesa headers.
    pub fn resource_create_3d(
        &mut self,
        ctx_id: u32,
        resource_id: u32,
        target: u32,
        format: u32,
        bind: u32,
        width: u32,
        height: u32,
        depth: u32,
        array_size: u32,
        last_level: u32,
        nr_samples: u32,
        flags: u32,
    ) -> (r: Result<(), Error>)
        ensures
            final(self)@ == old(self)@,
            !old(self)@.has_virgl ==> final(self).history() == old(self).history() && r == Err::<
                (),
                Error,
            >(Error::IoError),
            old(self)@.has_virgl ==> asked_once(
                old(self).history(),
                final(self).history(),
                command(
                    resource_create_3d_request(
                        ctx_id,
                        resource_id,
                        target,
                        format,
                        bind,
                        width,
                        height,
                        depth,
                        array_size,
                        last_level,
                        nr_samples,
                        flags,
                    ).wire(),
                ),
            ),
            old(self)@.has_virgl ==> r == acknowledged(final(self).history().last().answer),
    {
        self.require_virgl()?;
        let rsp: CtrlHeader = self.request(
            CmdResourceCreate3D {
                header: CtrlHeader::with_type_and_ctx(Command(Command::RESOURCE_CREATE_3D), ctx_id),
                resource_id,
                target,
                format,
                bind,
                width,
                height,
                depth,
                array_size,
                last_level,
                nr_samples,
                flags,
                _padding: 0,
            },
        )?;
        rsp.check_type(Command(Command::OK_NODATA))
    }

    /// Transfer data from guest to host for a 3D resource.
    pub fn transfer_to_host_3d(
        &mut self,
        ctx_id: u32,
        resource_id: u32,
        box_: GpuBox,
        offset: u64,
        level: u32,
        stride: u32,
        layer_stride: u32,
    ) -> (r: Result<(), Error>)
        ensures
            final(self)@ == old(self)@,
            !old(self)@.has_virgl ==> final(self).history() == old(self).history() && r == Err::<
                (),
                Error,
            >(Error::IoError),
            old(self)@.has_virgl ==> asked_once(
                old(self).history(),
                final(self).history(),
                command(
                    transfer_3d_request(
                        Command::TRANSFER_TO_HOST_3D,
                        ctx_id,
                        resource_id,
                        box_,
                        offset,
                        level,
                        stride,
                        layer_stride,
                    ).wire(),
                ),
            ),
            old(self)@.has_virgl ==> r == acknowledged(final(self).history().last().answer),
    {
        self.require_virgl()?;
        let rsp: CtrlHeader = self.request(
            CmdTransferHost3D {
                header: CtrlHeader::with_type_and_ctx(
                    Command(Command::TRANSFER_TO_HOST_3D),
                    ctx_id,
                ),
                box_,
                offset,
                resource_id,
                level,
                stride,
                layer_stride,
            },
        )?;
        rsp.check_type(Command(Command::OK_NODATA))
    }

    /// Transfer data from host to guest for a 3D resource.
    pub fn transfer_from_host_3d(
        &mut self,
        ctx_id: u32,
        resource_id: u32,
        box_: GpuBox,
        offset: u64,
        level: u32,
        stride: u32,
        layer_stride: u32,
    ) -> (r: Result<(), Error>)
        ensures
            final(self)@ == old(self)@,
            !old(self)@.has_virgl ==> final(self).history() == old(self).history() && r == Err::<
                (),
                Error,
            >(Error::IoError),
            old(self)@.has_virgl ==> asked_once(
                old(self).history(),
                final(self).history(),
                command(
                    transfer_3d_request(
                        Command::TRANSFER_FROM_HOST_3D,
                        ctx_id,
                        resource_id,
                        box_,
                        offset,
                        level,
                        stride,
                        layer_stride,
                    ).wire(),
                ),
            ),
            old(self)@.has_virgl ==> r == acknowledged(final(self).history().last().answer),
    {
        self.require_virgl()?;
        let rsp: CtrlHeader = self.request(
            CmdTransferHost3D {
                header: CtrlHeader::with_type_and_ctx(
                    Command(Command::TRANSFER_FROM_HOST_3D),
                    ctx_id,
                ),
                box_,
                offset,
                resource_id,
                level,
                stride,
                layer_stride,
            },
        )?;
        rsp.check_type(Command(Command::OK_NODATA))
    }

    /// Submit a virgl command stream to a 3D context.
    ///
    /// `cmds` is the encoded virgl command stream produced by the Mesa virgl
    /// Gallium driver in userspace. It is sent as a separate scatter-gather
    /// buffer alongside the header.
    ///
    /// `fence_id` is assigned by the upper layer. The host signals the fence
    /// once the command stream has been fully processed.
    pub fn submit_3d(&mut self, ctx_id: u32, fence_id: u64, cmds: &[u8]) -> (r: Result<(), Error>)
        ensures
            final(self)@ == old(self)@,
            match submit_refusal(old(self)@.has_virgl, cmds@.len()) {
                Some(e) => final(self).history() == old(self).history() && r == Err::<(), Error>(
                    e,
                ),
                None => asked_once(
                    old(self).history(),
                    final(self).history(),
                    command_with_data(
                        submit_3d_request(ctx_id, fence_id, cmds@.len() as u32).wire(),
                        cmds@,
                    ),
                ) && r == acknowledged(final(self).history().last().answer),
            },
    {
        self.require_virgl()?;
        // The virgl command stream is a sequence of 32-bit dwords, and the host
        // takes `size / 4` of them, so a length that is not a multiple of 4 would
        // be silently truncated.
        if cmds.len() % 4 != 0 {
            return Err(Error::InvalidParam);
        }
        if cmds.len() > u32::MAX as usize {
            return Err(Error::IoError);
        }
        let size: u32 = cmds.len() as u32;
        let rsp: CtrlHeader = self.request_with_data(
            CmdSubmit3D {
                header: CtrlHeader::with_fence(Command(Command::SUBMIT_3D), ctx_id, fence_id),
                size,
                _padding: 0,
            },
            cmds,
        )?;
        rsp.check_type(Command(Command::OK_NODATA))
    }

    /// Create a blob resource (host-visible memory / dma-buf sharing).
    ///
    /// Requires the blob resource feature (see [`VirtIOGpu::has_resource_blob`]).
    ///
    /// - `blob_mem`: where the memory is, guest (0x1), host 3D (0x2) or both (0x3).
    /// - `blob_flags`: mappable (0x1) etc.
    /// - `size`: resource size in bytes.
    /// - `blob_id`: for host 3D blobs, the id of a host-side resource already
    ///   created on this context via virgl; for guest blobs, 0 unless assigning one.
    /// - `mem_entries`: guest backing as pairs of physical address and length, only for blobs
    ///   with guest memory. Host 3D blobs must pass an empty slice: hosts ignore or reject
    ///   backing entries for them.
    ///
    /// For blobs with guest memory the device reads and writes the guest
    /// memory at the physical addresses in `mem_entries`. The caller must
    /// guarantee that every range is valid, device-accessible memory and
    /// stays allocated and free of concurrent access for
    /// as long as the blob resource exists, that is until the matching
    /// [`VirtIOGpu::resource_unref`]. The ranges must also cover `size` bytes
    /// in total: a blob larger than its backing lets the device access guest
    /// memory past the end of the provided ranges.
    pub fn resource_create_blob(
        &mut self,
        ctx_id: u32,
        resource_id: u32,
        blob_mem: u32,
        blob_flags: u32,
        size: u64,
        blob_id: u64,
        mem_entries: &[(u64, usize)],
    ) -> (r: Result<(), Error>)
        ensures
            final(self)@ == old(self)@,
            match blob_refusal(
                old(self)@.has_virgl,
                old(self)@.has_resource_blob,
                mem_entries@,
            ) {
                Some(e) => final(self).history() == old(self).history() && r == Err::<(), Error>(
                    e,
                ),
                None => asked_once(
                    old(self).history(),
                    final(self).history(),
                    command_with_data(
                        resource_create_blob_request(
                            ctx_id,
                            resource_id,
                            blob_mem,
                            blob_flags,
                            mem_entries@.len() as u32,
                            blob_id,
                            size,
                        ).wire(),
                        mem_entries_wire(mem_entries@),
                    ),
                ) && r == acknowledged(final(self).history().last().answer),
            },
    {
        self.require_virgl()?;
        if !self.has_resource_blob {
            return Err(Error::Unsupported);
        }
        if mem_entries.len() > u32::MAX as usize {
            return Err(Error::IoError);
        }
        let nr_entries: u32 = mem_entries.len() as u32;
        let mut data: Vec<u8> = Vec::new();
        let mut i: usize = 0;
        assert(data@ =~= mem_entries_wire(mem_entries@.take(0)));
        while i < mem_entries.len()
            invariant
                i <= mem_entries@.len(),
                *self == *old(self),
                data@ == mem_entries_wire(mem_entries@.take(i as int)),
                forall|k: int| 0 <= k < i ==> (#[trigger] mem_entries@[k]).1 <= u32::MAX,
                old(self)@.has_virgl,
                old(self)@.has_resource_blob,
                mem_entries@.len() <= u32::MAX,
            decreases mem_entries@.len() - i,
        {
            let (addr, len): (u64, usize) = mem_entries[i];
            if len > u32::MAX as usize {
                return Err(Error::InvalidParam);
            }
            let entry = MemEntry { addr, length: len as u32, padding: 0 };
            push_bytes(&mut data, entry.as_bytes().as_slice());
            assert(mem_entries@.take(i + 1).drop_last() =~= mem_entries@.take(i as int));
            i += 1;
        }
        assert(mem_entries@.take(i as int) =~= mem_entries@);
        let rsp: CtrlHeader = self.request_with_data(
            CmdResourceCreateBlob {
                header: CtrlHeader::with_type_and_ctx(
                    Command(Command::RESOURCE_CREATE_BLOB),
                    ctx_id,
                ),
                resource_id,
                blob_mem,
                blob_flags,
                nr_entries,
                blob_id,
                size,
            },
            data.as_slice(),
        )?;
        rsp.check_type(Command(Command::OK_NODATA))
    }
}

} // verus!
