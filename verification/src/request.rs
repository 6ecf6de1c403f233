//! What each driver call sends to the device, and what it makes of the reply.
use crate::blob::CmdResourceCreateBlob;
use crate::bytes::{byte_at, le32, sits_at, u32_at, zeros};
use crate::command::Command;
use crate::context::{
    CmdCtxResource, CmdGetCapset, CmdGetCapsetInfo, CmdResourceCreate3D, CmdSubmit3D,
    CmdTransferHost3D, GpuBox,
};
use crate::cursor::{CursorPos, UpdateCursor};
use crate::display::{CmdGetEdid, Rect};
use crate::error::Error;
use crate::header::{ctx_header, fence_header, plain_header, CtrlHeader};
use crate::resource::{
    Format, MemEntry, ResourceAttachBacking, ResourceAttachBackingSingleEntry, ResourceCreate2D,
    ResourceDetachBacking, ResourceFlush, ResourceUnref, SetScanout, TransferToHost2D,
};
use crate::transport::{Answer, Ask, Event};
use crate::wire::IntoBytes;
use vstd::prelude::*;

verus! {

/// The queue for control commands.
pub const QUEUE_TRANSMIT: u16 = 0;

/// The queue for cursor commands.
pub const QUEUE_CURSOR: u16 = 1;

/// A request on the control queue, with room for a response of `response_len` bytes.
pub open spec fn control(request: Seq<u8>, response_len: nat) -> Ask {
    Ask::Exchange {
        queue: QUEUE_TRANSMIT,
        inputs: seq![request],
        outputs: seq![zeros(response_len)],
    }
}

/// A request on the control queue that the device answers with a bare header.
pub open spec fn command(request: Seq<u8>) -> Ask {
    control(request, 24)
}

/// A command with data in a second buffer. Data of no bytes takes no buffer.
pub open spec fn command_with_data(request: Seq<u8>, data: Seq<u8>) -> Ask {
    Ask::Exchange {
        queue: QUEUE_TRANSMIT,
        inputs: if data.len() == 0 {
            seq![request]
        } else {
            seq![request, data]
        },
        outputs: seq![zeros(24)],
    }
}

/// A request on the control queue with room for a bare header and for `extra_len` more bytes.
pub open spec fn control_with_extra(request: Seq<u8>, extra_len: nat) -> Ask {
    Ask::Exchange {
        queue: QUEUE_TRANSMIT,
        inputs: seq![request],
        outputs: seq![zeros(24), zeros(extra_len)],
    }
}

/// A request on the cursor queue, which the device does not answer.
pub open spec fn cursor(request: Seq<u8>) -> Ask {
    Ask::Exchange { queue: QUEUE_CURSOR, inputs: seq![request], outputs: seq![] }
}

/// Whether `after` is `before` and one thing more, which was to ask for `ask` and to be answered.
pub open spec fn asked_once(before: Seq<Event>, after: Seq<Event>, ask: Ask) -> bool {
    &&& after.len() == before.len() + 1
    &&& after == before.push(after.last())
    &&& after.last().ask == ask
    &&& after.last().is_answered()
}

/// How many bytes the device says that it wrote.
pub open spec fn used(answer: Answer) -> Result<u32, Error> {
    match answer {
        Answer::Reply { used, .. } => used,
        _ => Err(Error::IoError),
    }
}

/// What stands in a writable buffer after the device has used it.
pub open spec fn written(answer: Answer, i: int) -> Seq<u8> {
    match answer {
        Answer::Reply { outputs, .. } => outputs[i],
        _ => seq![],
    }
}

/// The response, if the device gave one of type `code`; else the error that the call reports:
/// that of the queue, or an I/O error for a response of any other type.
pub open spec fn response(answer: Answer, code: u32) -> Result<Seq<u8>, Error> {
    match used(answer) {
        Err(e) => Err(e),
        Ok(_) => if u32_at(written(answer, 0), 0) == code {
            Ok(written(answer, 0))
        } else {
            Err(Error::IoError)
        },
    }
}

/// Whether the device acknowledged a command that it answers with a bare header.
pub open spec fn acknowledged(answer: Answer) -> Result<(), Error> {
    match response(answer, Command::OK_NODATA) {
        Ok(_) => Ok(()),
        Err(e) => Err(e),
    }
}

/// Whether the queue took a command that the device does not answer.
pub open spec fn taken(answer: Answer) -> Result<(), Error> {
    match used(answer) {
        Ok(_) => Ok(()),
        Err(e) => Err(e),
    }
}

pub open spec fn get_display_info_request() -> CtrlHeader {
    plain_header(Command(Command::GET_DISPLAY_INFO))
}

pub open spec fn get_edid_request(scanout: u32) -> CmdGetEdid {
    CmdGetEdid { header: plain_header(Command(Command::GET_EDID)), scanout, _padding: 0 }
}

pub open spec fn resource_create_2d_request(
    resource_id: u32,
    width: u32,
    height: u32,
) -> ResourceCreate2D {
    ResourceCreate2D {
        header: plain_header(Command(Command::RESOURCE_CREATE_2D)),
        resource_id,
        format: Format::B8G8R8A8UNORM,
        width,
        height,
    }
}

pub open spec fn set_scanout_request(rect: Rect, scanout_id: u32, resource_id: u32) -> SetScanout {
    SetScanout {
        header: plain_header(Command(Command::SET_SCANOUT)),
        rect,
        scanout_id,
        resource_id,
    }
}

pub open spec fn resource_flush_request(rect: Rect, resource_id: u32) -> ResourceFlush {
    ResourceFlush {
        header: plain_header(Command(Command::RESOURCE_FLUSH)),
        rect,
        resource_id,
        _padding: 0,
    }
}

pub open spec fn transfer_to_host_2d_request(
    rect: Rect,
    offset: u64,
    resource_id: u32,
) -> TransferToHost2D {
    TransferToHost2D {
        header: plain_header(Command(Command::TRANSFER_TO_HOST_2D)),
        rect,
        offset,
        resource_id,
        _padding: 0,
    }
}

pub open spec fn resource_attach_backing_request(
    resource_id: u32,
    paddr: u64,
    length: u32,
) -> ResourceAttachBackingSingleEntry {
    ResourceAttachBackingSingleEntry {
        header: ResourceAttachBacking {
            header: plain_header(Command(Command::RESOURCE_ATTACH_BACKING)),
            resource_id,
            nr_entries: 1,
        },
        entry: MemEntry { addr: paddr, length, padding: 0 },
    }
}

pub open spec fn resource_detach_backing_request(resource_id: u32) -> ResourceDetachBacking {
    ResourceDetachBacking {
        header: plain_header(Command(Command::RESOURCE_DETACH_BACKING)),
        resource_id,
        _padding: 0,
    }
}

pub open spec fn resource_unref_request(resource_id: u32) -> ResourceUnref {
    ResourceUnref {
        header: plain_header(Command(Command::RESOURCE_UNREF)),
        resource_id,
        _padding: 0,
    }
}

pub open spec fn update_cursor_request(
    resource_id: u32,
    scanout_id: u32,
    pos_x: u32,
    pos_y: u32,
    hot_x: u32,
    hot_y: u32,
    is_move: bool,
) -> UpdateCursor {
    UpdateCursor {
        header: plain_header(
            Command(
                if is_move {
                    Command::MOVE_CURSOR
                } else {
                    Command::UPDATE_CURSOR
                },
            ),
        ),
        pos: CursorPos { scanout_id, x: pos_x, y: pos_y, _padding: 0 },
        resource_id,
        hot_x,
        hot_y,
        _padding: 0,
    }
}

pub open spec fn get_capset_info_request(capset_index: u32) -> CmdGetCapsetInfo {
    CmdGetCapsetInfo {
        header: plain_header(Command(Command::GET_CAPSET_INFO)),
        capset_index,
        _padding: 0,
    }
}

pub open spec fn get_capset_request(capset_id: u32, version: u32) -> CmdGetCapset {
    CmdGetCapset {
        header: plain_header(Command(Command::GET_CAPSET)),
        capset_id,
        capset_version: version,
    }
}

/// How many bytes of a debug name of `len` bytes are sent.
pub open spec fn debug_name_len(len: nat) -> nat {
    if len <= 64 {
        len
    } else {
        64
    }
}

/// The debug name as it is sent: 64 bytes, the rest of the name cut off, zeros after its end.
pub open spec fn debug_name(name: Seq<u8>) -> Seq<u8> {
    let n = debug_name_len(name.len());
    name.take(n as int) + zeros((64 - n) as nat)
}

/// A debug name takes 64 bytes, begins with what is announced of the name, and ends in zeros.
pub proof fn debug_name_is_padded(name: Seq<u8>)
    ensures
        debug_name(name).len() == 64,
        debug_name(name).take(debug_name_len(name.len()) as int).is_prefix_of(name),
        name.len() <= 64 ==> debug_name(name).take(name.len() as int) == name,
        forall|i: int|
            debug_name_len(name.len()) <= i < 64 ==> #[trigger] debug_name(name)[i] == 0,
{
    let n = debug_name_len(name.len()) as int;
    assert(debug_name(name).take(n) =~= name.take(n));
    assert(name.len() <= 64 ==> name.take(n) =~= name);
}

/// The bytes of the command that creates a rendering context.
pub open spec fn ctx_create_wire(ctx_id: u32, name: Seq<u8>, context_init: u32) -> Seq<u8> {
    ctx_header(Command(Command::CTX_CREATE), ctx_id).wire() + le32(
        debug_name_len(name.len()) as u32,
    ) + le32(context_init) + debug_name(name)
}

pub open spec fn ctx_destroy_request(ctx_id: u32) -> CtrlHeader {
    ctx_header(Command(Command::CTX_DESTROY), ctx_id)
}

pub open spec fn ctx_attach_resource_request(ctx_id: u32, resource_id: u32) -> CmdCtxResource {
    CmdCtxResource {
        header: ctx_header(Command(Command::CTX_ATTACH_RESOURCE), ctx_id),
        resource_id,
        _padding: 0,
    }
}

pub open spec fn ctx_detach_resource_request(ctx_id: u32, resource_id: u32) -> CmdCtxResource {
    CmdCtxResource {
        header: ctx_header(Command(Command::CTX_DETACH_RESOURCE), ctx_id),
        resource_id,
        _padding: 0,
    }
}

pub open spec fn resource_create_3d_request(
    ctx_id: u32,
    resource_id: u32,
    target: u32,
    format: u32,
    bind: u32,
    width: u32,
    height: u32,
    depth: u32,
    array_size: u32,
    last_level: u32,
    nr_samples: u32,
    flags: u32,
) -> CmdResourceCreate3D {
    CmdResourceCreate3D {
        header: ctx_header(Command(Command::RESOURCE_CREATE_3D), ctx_id),
        resource_id,
        target,
        format,
        bind,
        width,
        height,
        depth,
        array_size,
        last_level,
        nr_samples,
        flags,
        _padding: 0,
    }
}

/// `code` says in which direction the transfer goes.
pub open spec fn transfer_3d_request(
    code: u32,
    ctx_id: u32,
    resource_id: u32,
    box_: GpuBox,
    offset: u64,
    level: u32,
    stride: u32,
    layer_stride: u32,
) -> CmdTransferHost3D {
    CmdTransferHost3D {
        header: ctx_header(Command(code), ctx_id),
        box_,
        offset,
        resource_id,
        level,
        stride,
        layer_stride,
    }
}

pub open spec fn submit_3d_request(ctx_id: u32, fence_id: u64, size: u32) -> CmdSubmit3D {
    CmdSubmit3D {
        header: fence_header(Command(Command::SUBMIT_3D), ctx_id, fence_id),
        size,
        _padding: 0,
    }
}

pub open spec fn resource_create_blob_request(
    ctx_id: u32,
    resource_id: u32,
    blob_mem: u32,
    blob_flags: u32,
    nr_entries: u32,
    blob_id: u64,
    size: u64,
) -> CmdResourceCreateBlob {
    CmdResourceCreateBlob {
        header: ctx_header(Command(Command::RESOURCE_CREATE_BLOB), ctx_id),
        resource_id,
        blob_mem,
        blob_flags,
        nr_entries,
        blob_id,
        size,
    }
}

/// The bytes of the memory entries that back a blob, for ranges of addresses and lengths.
pub open spec fn mem_entries_wire(ranges: Seq<(u64, usize)>) -> Seq<u8>
    decreases ranges.len(),
{
    if ranges.len() == 0 {
        seq![]
    } else {
        mem_entries_wire(ranges.drop_last()) + (MemEntry {
            addr: ranges.last().0,
            length: ranges.last().1 as u32,
            padding: 0,
        }).wire()
    }
}

/// There are as many memory entries as ranges, and each tells its own range.
pub proof fn mem_entries_tell_ranges(ranges: Seq<(u64, usize)>, entry: MemEntry, i: int)
    requires
        0 <= i < ranges.len(),
        ranges[i].1 <= u32::MAX,
        entry.is_at(mem_entries_wire(ranges), 16 * i),
    ensures
        mem_entries_wire(ranges).len() == 16 * ranges.len(),
        entry.addr == ranges[i].0,
        entry.length == ranges[i].1,
        entry.padding == 0,
{
    entry_sits_at(ranges, i);
    let written = MemEntry { addr: ranges[i].0, length: ranges[i].1 as u32, padding: 0 };
    written.is_where_written(mem_entries_wire(ranges), 16 * i);
    entry.is_alone(written, mem_entries_wire(ranges), 16 * i);
}

/// Each memory entry stands behind those before it.
pub(crate) proof fn entry_sits_at(ranges: Seq<(u64, usize)>, i: int)
    requires
        0 <= i < ranges.len(),
    ensures
        mem_entries_wire(ranges).len() == 16 * ranges.len(),
        sits_at(
            mem_entries_wire(ranges),
            16 * i,
            (MemEntry { addr: ranges[i].0, length: ranges[i].1 as u32, padding: 0 }).wire(),
        ),
    decreases ranges.len(),
{
    let last = MemEntry { addr: ranges.last().0, length: ranges.last().1 as u32, padding: 0 };
    last.wire_has_len();
    let others = ranges.drop_last();
    if others.len() > 0 {
        entry_sits_at(others, if i < others.len() { i } else { 0 });
    } else {
        assert(mem_entries_wire(others).len() == 0);
    }
    if i < others.len() {
        let written = MemEntry { addr: ranges[i].0, length: ranges[i].1 as u32, padding: 0 };
        written.wire_has_len();
        assert(others[i] == ranges[i]);
        assert forall|k: int| 0 <= k < written.wire().len() implies byte_at(
            mem_entries_wire(ranges),
            16 * i + k,
        ) == #[trigger] written.wire()[k] by {
            assert(byte_at(mem_entries_wire(others), 16 * i + k) == written.wire()[k]);
        }
    }
}

/// A command succeeds where the device says so, and only there; any other answer is an error.
pub proof fn only_ok_is_success(answer: Answer)
    ensures
        acknowledged(answer) is Ok <==> used(answer) is Ok && u32_at(written(answer, 0), 0)
            == Command::OK_NODATA,
        used(answer) is Ok && Command(u32_at(written(answer, 0), 0)).refuses() ==> acknowledged(
            answer,
        ) == Err::<(), Error>(Error::IoError),
{
}

} // verus!
