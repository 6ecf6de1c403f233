//! Where the fields of each message stand in its bytes.
use crate::bytes::bytes_at;
use crate::blob::{
    CmdResourceAssignUuid, CmdResourceCreateBlob, CmdResourceMapBlob, CmdResourceUnmapBlob,
    RespMapInfo, RespResourceUuid, SetScanoutBlob,
};
use crate::config::{Config};
use crate::context::{
    CmdCtxCreate, CmdCtxResource, CmdGetCapset, CmdGetCapsetInfo, CmdResourceCreate3D, CmdSubmit3D,
    CmdTransferHost3D, GpuBox, RespCapsetInfo,
};
use crate::cursor::{CursorPos, UpdateCursor};
use crate::display::{CmdGetEdid, DisplayOne, Rect, RespEdid};
use crate::header::{CtrlHeader};
use crate::resource::{
    Format, MemEntry, ResourceAttachBacking, ResourceAttachBackingSingleEntry, ResourceCreate2D,
    ResourceDetachBacking, ResourceFlush, ResourceUnref, SetScanout, TransferToHost2D,
};
use crate::laws::reading::{fields_are_words, long, message_words, word};
use crate::wire::{FromBytes, IntoBytes};
use vstd::prelude::*;

verus! {

/// The number that stands for a layout of pixels.
pub open spec fn pixel_code(format: Format) -> int {
    match format {
        Format::B8G8R8A8UNORM => 1,
        Format::B8G8R8X8UNORM => 2,
        Format::A8R8G8B8UNORM => 3,
        Format::X8R8G8B8UNORM => 4,
        Format::R8G8B8A8UNORM => 67,
        Format::X8B8G8R8UNORM => 68,
        Format::A8B8G8R8UNORM => 121,
        Format::R8G8B8X8UNORM => 134,
    }
}

/// The bytes of a `CtrlHeader`: each field in its own place, and nothing else.
pub proof fn ctrl_header_bytes(m: &CtrlHeader, out: Vec<u8>)
    requires
        call_ensures(<CtrlHeader as IntoBytes>::as_bytes, (m,), out),
    ensures
        out@.len() == 24,
        word(out@, 0) == m.hdr_type.0,
        word(out@, 4) == m.flags,
        long(out@, 8) == m.fence_id,
        word(out@, 16) == m.ctx_id,
        out@[20] == m.ring_idx,
        forall|i: int| 0 <= i < 3 ==> out@[21 + i] == #[trigger] m._padding@[i],
{
    message_words(*m);
    assert forall|i: int| 0 <= i < 3 implies out@[21 + i] == #[trigger] m._padding@[i] by {
        assert(m._padding@[i] == bytes_at(out@, 21, 3)[i]);
    }
}

/// A `CtrlHeader` is read from the bytes at its place.
pub proof fn ctrl_header_read(bytes: &[u8], at: usize, m: CtrlHeader)
    requires
        call_ensures(<CtrlHeader as FromBytes>::read_at, (bytes, at), m),
        at + 24 <= bytes@.len(),
    ensures
        word(bytes@, at as int) == m.hdr_type.0,
        word(bytes@, at + 4) == m.flags,
        long(bytes@, at + 8) == m.fence_id,
        word(bytes@, at + 16) == m.ctx_id,
        bytes@[at + 20] == m.ring_idx,
        forall|i: int| 0 <= i < 3 ==> bytes@[at + 21 + i] == #[trigger] m._padding@[i],
{
    fields_are_words(bytes@);
    assert forall|i: int| 0 <= i < 3 implies bytes@[at + 21 + i] == #[trigger] m._padding@[i] by {
        assert(m._padding@[i] == bytes_at(bytes@, at + 21, 3)[i]);
    }
}

/// The bytes of a `Rect`: each field in its own place, and nothing else.
pub proof fn rect_bytes(m: &Rect, out: Vec<u8>)
    requires
        call_ensures(<Rect as IntoBytes>::as_bytes, (m,), out),
    ensures
        out@.len() == 16,
        word(out@, 0) == m.x,
        word(out@, 4) == m.y,
        word(out@, 8) == m.width,
        word(out@, 12) == m.height,
{
    message_words(*m);
}

/// A `Rect` is read from the bytes at its place.
pub proof fn rect_read(bytes: &[u8], at: usize, m: Rect)
    requires
        call_ensures(<Rect as FromBytes>::read_at, (bytes, at), m),
        at + 16 <= bytes@.len(),
    ensures
        word(bytes@, at as int) == m.x,
        word(bytes@, at + 4) == m.y,
        word(bytes@, at + 8) == m.width,
        word(bytes@, at + 12) == m.height,
{
    fields_are_words(bytes@);
}

/// The bytes of a `DisplayOne`: each field in its own place, and nothing else.
pub proof fn display_one_bytes(m: &DisplayOne, out: Vec<u8>)
    requires
        call_ensures(<DisplayOne as IntoBytes>::as_bytes, (m,), out),
    ensures
        out@.len() == 24,
        word(out@, 0) == m.rect.x,
        word(out@, 4) == m.rect.y,
        word(out@, 8) == m.rect.width,
        word(out@, 12) == m.rect.height,
        word(out@, 16) == m.enabled,
        word(out@, 20) == m.flags,
{
    message_words(*m);
}

/// A `DisplayOne` is read from the bytes at its place.
pub proof fn display_one_read(bytes: &[u8], at: usize, m: DisplayOne)
    requires
        call_ensures(<DisplayOne as FromBytes>::read_at, (bytes, at), m),
        at + 24 <= bytes@.len(),
    ensures
        word(bytes@, at as int) == m.rect.x,
        word(bytes@, at + 4) == m.rect.y,
        word(bytes@, at + 8) == m.rect.width,
        word(bytes@, at + 12) == m.rect.height,
        word(bytes@, at + 16) == m.enabled,
        word(bytes@, at + 20) == m.flags,
{
    fields_are_words(bytes@);
}

/// The bytes of a `CmdGetEdid`: each field in its own place, and nothing else.
pub proof fn cmd_get_edid_bytes(m: &CmdGetEdid, out: Vec<u8>)
    requires
        call_ensures(<CmdGetEdid as IntoBytes>::as_bytes, (m,), out),
    ensures
        out@.len() == 32,
        word(out@, 0) == m.header.hdr_type.0,
        word(out@, 4) == m.header.flags,
        long(out@, 8) == m.header.fence_id,
        word(out@, 16) == m.header.ctx_id,
        out@[20] == m.header.ring_idx,
        forall|i: int| 0 <= i < 3 ==> out@[21 + i] == #[trigger] m.header._padding@[i],
        word(out@, 24) == m.scanout,
        word(out@, 28) == m._padding,
{
    message_words(*m);
    assert forall|i: int| 0 <= i < 3 implies out@[21 + i] == #[trigger] m.header._padding@[i] by {
        assert(m.header._padding@[i] == bytes_at(out@, 21, 3)[i]);
    }
}

/// The bytes of a `RespEdid`: each field in its own place, and nothing else.
pub proof fn resp_edid_bytes(m: &RespEdid, out: Vec<u8>)
    requires
        call_ensures(<RespEdid as IntoBytes>::as_bytes, (m,), out),
    ensures
        out@.len() == 1056,
        word(out@, 0) == m.header.hdr_type.0,
        word(out@, 4) == m.header.flags,
        long(out@, 8) == m.header.fence_id,
        word(out@, 16) == m.header.ctx_id,
        out@[20] == m.header.ring_idx,
        forall|i: int| 0 <= i < 3 ==> out@[21 + i] == #[trigger] m.header._padding@[i],
        word(out@, 24) == m.size,
        word(out@, 28) == m._padding,
        forall|i: int| 0 <= i < 1024 ==> out@[32 + i] == #[trigger] m.edid@[i],
{
    message_words(*m);
    assert forall|i: int| 0 <= i < 3 implies out@[21 + i] == #[trigger] m.header._padding@[i] by {
        assert(m.header._padding@[i] == bytes_at(out@, 21, 3)[i]);
    }
    assert forall|i: int| 0 <= i < 1024 implies out@[32 + i] == #[trigger] m.edid@[i] by {
        assert(m.edid@[i] == bytes_at(out@, 32, 1024)[i]);
    }
}

/// A `RespEdid` is read from the bytes at its place.
pub proof fn resp_edid_read(bytes: &[u8], at: usize, m: RespEdid)
    requires
        call_ensures(<RespEdid as FromBytes>::read_at, (bytes, at), m),
        at + 1056 <= bytes@.len(),
    ensures
        word(bytes@, at as int) == m.header.hdr_type.0,
        word(bytes@, at + 4) == m.header.flags,
        long(bytes@, at + 8) == m.header.fence_id,
        word(bytes@, at + 16) == m.header.ctx_id,
        bytes@[at + 20] == m.header.ring_idx,
        forall|i: int| 0 <= i < 3 ==> bytes@[at + 21 + i] == #[trigger] m.header._padding@[i],
        word(bytes@, at + 24) == m.size,
        word(bytes@, at + 28) == m._padding,
        forall|i: int| 0 <= i < 1024 ==> bytes@[at + 32 + i] == #[trigger] m.edid@[i],
{
    fields_are_words(bytes@);
    assert forall|i: int| 0 <= i < 3 implies bytes@[at + 21
        + i] == #[trigger] m.header._padding@[i] by {
        assert(m.header._padding@[i] == bytes_at(bytes@, at + 21, 3)[i]);
    }
    assert forall|i: int| 0 <= i < 1024 implies bytes@[at + 32 + i] == #[trigger] m.edid@[i] by {
        assert(m.edid@[i] == bytes_at(bytes@, at + 32, 1024)[i]);
    }
}

/// The bytes of a `Config`: each field in its own place, and nothing else.
pub proof fn config_bytes(m: &Config, out: Vec<u8>)
    requires
        call_ensures(<Config as IntoBytes>::as_bytes, (m,), out),
    ensures
        out@.len() == 20,
        word(out@, 0) == m.events_read,
        word(out@, 4) == m.events_clear,
        word(out@, 8) == m.num_scanouts,
        word(out@, 12) == m.num_capsets,
        word(out@, 16) == m.blob_alignment,
{
    message_words(*m);
}

/// A `Config` is read from the bytes at its place.
pub proof fn config_read(bytes: &[u8], at: usize, m: Config)
    requires
        call_ensures(<Config as FromBytes>::read_at, (bytes, at), m),
        at + 20 <= bytes@.len(),
    ensures
        word(bytes@, at as int) == m.events_read,
        word(bytes@, at + 4) == m.events_clear,
        word(bytes@, at + 8) == m.num_scanouts,
        word(bytes@, at + 12) == m.num_capsets,
        word(bytes@, at + 16) == m.blob_alignment,
{
    fields_are_words(bytes@);
}

/// The bytes of a `ResourceCreate2D`: each field in its own place, and nothing else.
pub proof fn resource_create_2d_bytes(m: &ResourceCreate2D, out: Vec<u8>)
    requires
        call_ensures(<ResourceCreate2D as IntoBytes>::as_bytes, (m,), out),
    ensures
        out@.len() == 40,
        word(out@, 0) == m.header.hdr_type.0,
        word(out@, 4) == m.header.flags,
        long(out@, 8) == m.header.fence_id,
        word(out@, 16) == m.header.ctx_id,
        out@[20] == m.header.ring_idx,
        forall|i: int| 0 <= i < 3 ==> out@[21 + i] == #[trigger] m.header._padding@[i],
        word(out@, 24) == m.resource_id,
        word(out@, 28) == pixel_code(m.format),
        word(out@, 32) == m.width,
        word(out@, 36) == m.height,
{
    message_words(*m);
    assert forall|i: int| 0 <= i < 3 implies out@[21 + i] == #[trigger] m.header._padding@[i] by {
        assert(m.header._padding@[i] == bytes_at(out@, 21, 3)[i]);
    }
}

/// The bytes of a `MemEntry`: each field in its own place, and nothing else.
pub proof fn mem_entry_bytes(m: &MemEntry, out: Vec<u8>)
    requires
        call_ensures(<MemEntry as IntoBytes>::as_bytes, (m,), out),
    ensures
        out@.len() == 16,
        long(out@, 0) == m.addr,
        word(out@, 8) == m.length,
        word(out@, 12) == m.padding,
{
    message_words(*m);
}

/// A `MemEntry` is read from the bytes at its place.
pub proof fn mem_entry_read(bytes: &[u8], at: usize, m: MemEntry)
    requires
        call_ensures(<MemEntry as FromBytes>::read_at, (bytes, at), m),
        at + 16 <= bytes@.len(),
    ensures
        long(bytes@, at as int) == m.addr,
        word(bytes@, at + 8) == m.length,
        word(bytes@, at + 12) == m.padding,
{
    fields_are_words(bytes@);
}

/// The bytes of a `ResourceAttachBacking`: each field in its own place, and nothing else.
pub proof fn resource_attach_backing_bytes(m: &ResourceAttachBacking, out: Vec<u8>)
    requires
        call_ensures(<ResourceAttachBacking as IntoBytes>::as_bytes, (m,), out),
    ensures
        out@.len() == 32,
        word(out@, 0) == m.header.hdr_type.0,
        word(out@, 4) == m.header.flags,
        long(out@, 8) == m.header.fence_id,
        word(out@, 16) == m.header.ctx_id,
        out@[20] == m.header.ring_idx,
        forall|i: int| 0 <= i < 3 ==> out@[21 + i] == #[trigger] m.header._padding@[i],
        word(out@, 24) == m.resource_id,
        word(out@, 28) == m.nr_entries,
{
    message_words(*m);
    assert forall|i: int| 0 <= i < 3 implies out@[21 + i] == #[trigger] m.header._padding@[i] by {
        assert(m.header._padding@[i] == bytes_at(out@, 21, 3)[i]);
    }
}

/// A `ResourceAttachBacking` is read from the bytes at its place.
pub proof fn resource_attach_backing_read(bytes: &[u8], at: usize, m: ResourceAttachBacking)
    requires
        call_ensures(<ResourceAttachBacking as FromBytes>::read_at, (bytes, at), m),
        at + 32 <= bytes@.len(),
    ensures
        word(bytes@, at as int) == m.header.hdr_type.0,
        word(bytes@, at + 4) == m.header.flags,
        long(bytes@, at + 8) == m.header.fence_id,
        word(bytes@, at + 16) == m.header.ctx_id,
        bytes@[at + 20] == m.header.ring_idx,
        forall|i: int| 0 <= i < 3 ==> bytes@[at + 21 + i] == #[trigger] m.header._padding@[i],
        word(bytes@, at + 24) == m.resource_id,
        word(bytes@, at + 28) == m.nr_entries,
{
    fields_are_words(bytes@);
    assert forall|i: int| 0 <= i < 3 implies bytes@[at + 21
        + i] == #[trigger] m.header._padding@[i] by {
        assert(m.header._padding@[i] == bytes_at(bytes@, at + 21, 3)[i]);
    }
}

/// The bytes of a `ResourceAttachBackingSingleEntry`: each field in its own place, and nothing
/// else.
pub proof fn resource_attach_backing_single_entry_bytes(
    m: &ResourceAttachBackingSingleEntry,
    out: Vec<u8>,
)
    requires
        call_ensures(<ResourceAttachBackingSingleEntry as IntoBytes>::as_bytes, (m,), out),
    ensures
        out@.len() == 48,
        word(out@, 0) == m.header.header.hdr_type.0,
        word(out@, 4) == m.header.header.flags,
        long(out@, 8) == m.header.header.fence_id,
        word(out@, 16) == m.header.header.ctx_id,
        out@[20] == m.header.header.ring_idx,
        forall|i: int| 0 <= i < 3 ==> out@[21 + i] == #[trigger] m.header.header._padding@[i],
        word(out@, 24) == m.header.resource_id,
        word(out@, 28) == m.header.nr_entries,
        long(out@, 32) == m.entry.addr,
        word(out@, 40) == m.entry.length,
        word(out@, 44) == m.entry.padding,
{
    message_words(*m);
    assert forall|i: int| 0 <= i < 3 implies out@[21
        + i] == #[trigger] m.header.header._padding@[i] by {
        assert(m.header.header._padding@[i] == bytes_at(out@, 21, 3)[i]);
    }
}

/// A `ResourceAttachBackingSingleEntry` is read from the bytes at its place.
pub proof fn resource_attach_backing_single_entry_read(
    bytes: &[u8],
    at: usize,
    m: ResourceAttachBackingSingleEntry,
)
    requires
        call_ensures(<ResourceAttachBackingSingleEntry as FromBytes>::read_at, (bytes, at), m),
        at + 48 <= bytes@.len(),
    ensures
        word(bytes@, at as int) == m.header.header.hdr_type.0,
        word(bytes@, at + 4) == m.header.header.flags,
        long(bytes@, at + 8) == m.header.header.fence_id,
        word(bytes@, at + 16) == m.header.header.ctx_id,
        bytes@[at + 20] == m.header.header.ring_idx,
        forall|i: int|
            0 <= i < 3 ==> bytes@[at + 21 + i] == #[trigger] m.header.header._padding@[i],
        word(bytes@, at + 24) == m.header.resource_id,
        word(bytes@, at + 28) == m.header.nr_entries,
        long(bytes@, at + 32) == m.entry.addr,
        word(bytes@, at + 40) == m.entry.length,
        word(bytes@, at + 44) == m.entry.padding,
{
    fields_are_words(bytes@);
    assert forall|i: int| 0 <= i < 3 implies bytes@[at + 21
        + i] == #[trigger] m.header.header._padding@[i] by {
        assert(m.header.header._padding@[i] == bytes_at(bytes@, at + 21, 3)[i]);
    }
}

/// The bytes of a `ResourceDetachBacking`: each field in its own place, and nothing else.
pub proof fn resource_detach_backing_bytes(m: &ResourceDetachBacking, out: Vec<u8>)
    requires
        call_ensures(<ResourceDetachBacking as IntoBytes>::as_bytes, (m,), out),
    ensures
        out@.len() == 32,
        word(out@, 0) == m.header.hdr_type.0,
        word(out@, 4) == m.header.flags,
        long(out@, 8) == m.header.fence_id,
        word(out@, 16) == m.header.ctx_id,
        out@[20] == m.header.ring_idx,
        forall|i: int| 0 <= i < 3 ==> out@[21 + i] == #[trigger] m.header._padding@[i],
        word(out@, 24) == m.resource_id,
        word(out@, 28) == m._padding,
{
    message_words(*m);
    assert forall|i: int| 0 <= i < 3 implies out@[21 + i] == #[trigger] m.header._padding@[i] by {
        assert(m.header._padding@[i] == bytes_at(out@, 21, 3)[i]);
    }
}

/// The bytes of a `ResourceUnref`: each field in its own place, and nothing else.
pub proof fn resource_unref_bytes(m: &ResourceUnref, out: Vec<u8>)
    requires
        call_ensures(<ResourceUnref as IntoBytes>::as_bytes, (m,), out),
    ensures
        out@.len() == 32,
        word(out@, 0) == m.header.hdr_type.0,
        word(out@, 4) == m.header.flags,
        long(out@, 8) == m.header.fence_id,
        word(out@, 16) == m.header.ctx_id,
        out@[20] == m.header.ring_idx,
        forall|i: int| 0 <= i < 3 ==> out@[21 + i] == #[trigger] m.header._padding@[i],
        word(out@, 24) == m.resource_id,
        word(out@, 28) == m._padding,
{
    message_words(*m);
    assert forall|i: int| 0 <= i < 3 implies out@[21 + i] == #[trigger] m.header._padding@[i] by {
        assert(m.header._padding@[i] == bytes_at(out@, 21, 3)[i]);
    }
}

/// A `ResourceUnref` is read from the bytes at its place.
pub proof fn resource_unref_read(bytes: &[u8], at: usize, m: ResourceUnref)
    requires
        call_ensures(<ResourceUnref as FromBytes>::read_at, (bytes, at), m),
        at + 32 <= bytes@.len(),
    ensures
        word(bytes@, at as int) == m.header.hdr_type.0,
        word(bytes@, at + 4) == m.header.flags,
        long(bytes@, at + 8) == m.header.fence_id,
        word(bytes@, at + 16) == m.header.ctx_id,
        bytes@[at + 20] == m.header.ring_idx,
        forall|i: int| 0 <= i < 3 ==> bytes@[at + 21 + i] == #[trigger] m.header._padding@[i],
        word(bytes@, at + 24) == m.resource_id,
        word(bytes@, at + 28) == m._padding,
{
    fields_are_words(bytes@);
    assert forall|i: int| 0 <= i < 3 implies bytes@[at + 21
        + i] == #[trigger] m.header._padding@[i] by {
        assert(m.header._padding@[i] == bytes_at(bytes@, at + 21, 3)[i]);
    }
}

/// The bytes of a `SetScanout`: each field in its own place, and nothing else.
pub proof fn set_scanout_bytes(m: &SetScanout, out: Vec<u8>)
    requires
        call_ensures(<SetScanout as IntoBytes>::as_bytes, (m,), out),
    ensures
        out@.len() == 48,
        word(out@, 0) == m.header.hdr_type.0,
        word(out@, 4) == m.header.flags,
        long(out@, 8) == m.header.fence_id,
        word(out@, 16) == m.header.ctx_id,
        out@[20] == m.header.ring_idx,
        forall|i: int| 0 <= i < 3 ==> out@[21 + i] == #[trigger] m.header._padding@[i],
        word(out@, 24) == m.rect.x,
        word(out@, 28) == m.rect.y,
        word(out@, 32) == m.rect.width,
        word(out@, 36) == m.rect.height,
        word(out@, 40) == m.scanout_id,
        word(out@, 44) == m.resource_id,
{
    message_words(*m);
    assert forall|i: int| 0 <= i < 3 implies out@[21 + i] == #[trigger] m.header._padding@[i] by {
        assert(m.header._padding@[i] == bytes_at(out@, 21, 3)[i]);
    }
}

/// The bytes of a `TransferToHost2D`: each field in its own place, and nothing else.
pub proof fn transfer_to_host2_d_bytes(m: &TransferToHost2D, out: Vec<u8>)
    requires
        call_ensures(<TransferToHost2D as IntoBytes>::as_bytes, (m,), out),
    ensures
        out@.len() == 56,
        word(out@, 0) == m.header.hdr_type.0,
        word(out@, 4) == m.header.flags,
        long(out@, 8) == m.header.fence_id,
        word(out@, 16) == m.header.ctx_id,
        out@[20] == m.header.ring_idx,
        forall|i: int| 0 <= i < 3 ==> out@[21 + i] == #[trigger] m.header._padding@[i],
        word(out@, 24) == m.rect.x,
        word(out@, 28) == m.rect.y,
        word(out@, 32) == m.rect.width,
        word(out@, 36) == m.rect.height,
        long(out@, 40) == m.offset,
        word(out@, 48) == m.resource_id,
        word(out@, 52) == m._padding,
{
    message_words(*m);
    assert forall|i: int| 0 <= i < 3 implies out@[21 + i] == #[trigger] m.header._padding@[i] by {
        assert(m.header._padding@[i] == bytes_at(out@, 21, 3)[i]);
    }
}

/// The bytes of a `ResourceFlush`: each field in its own place, and nothing else.
pub proof fn resource_flush_bytes(m: &ResourceFlush, out: Vec<u8>)
    requires
        call_ensures(<ResourceFlush as IntoBytes>::as_bytes, (m,), out),
    ensures
        out@.len() == 48,
        word(out@, 0) == m.header.hdr_type.0,
        word(out@, 4) == m.header.flags,
        long(out@, 8) == m.header.fence_id,
        word(out@, 16) == m.header.ctx_id,
        out@[20] == m.header.ring_idx,
        forall|i: int| 0 <= i < 3 ==> out@[21 + i] == #[trigger] m.header._padding@[i],
        word(out@, 24) == m.rect.x,
        word(out@, 28) == m.rect.y,
        word(out@, 32) == m.rect.width,
        word(out@, 36) == m.rect.height,
        word(out@, 40) == m.resource_id,
        word(out@, 44) == m._padding,
{
    message_words(*m);
    assert forall|i: int| 0 <= i < 3 implies out@[21 + i] == #[trigger] m.header._padding@[i] by {
        assert(m.header._padding@[i] == bytes_at(out@, 21, 3)[i]);
    }
}

/// The bytes of a `GpuBox`: each field in its own place, and nothing else.
pub proof fn gpu_box_bytes(m: &GpuBox, out: Vec<u8>)
    requires
        call_ensures(<GpuBox as IntoBytes>::as_bytes, (m,), out),
    ensures
        out@.len() == 24,
        word(out@, 0) == m.x,
        word(out@, 4) == m.y,
        word(out@, 8) == m.z,
        word(out@, 12) == m.w,
        word(out@, 16) == m.h,
        word(out@, 20) == m.d,
{
    message_words(*m);
}

/// The bytes of a `CmdGetCapsetInfo`: each field in its own place, and nothing else.
pub proof fn cmd_get_capset_info_bytes(m: &CmdGetCapsetInfo, out: Vec<u8>)
    requires
        call_ensures(<CmdGetCapsetInfo as IntoBytes>::as_bytes, (m,), out),
    ensures
        out@.len() == 32,
        word(out@, 0) == m.header.hdr_type.0,
        word(out@, 4) == m.header.flags,
        long(out@, 8) == m.header.fence_id,
        word(out@, 16) == m.header.ctx_id,
        out@[20] == m.header.ring_idx,
        forall|i: int| 0 <= i < 3 ==> out@[21 + i] == #[trigger] m.header._padding@[i],
        word(out@, 24) == m.capset_index,
        word(out@, 28) == m._padding,
{
    message_words(*m);
    assert forall|i: int| 0 <= i < 3 implies out@[21 + i] == #[trigger] m.header._padding@[i] by {
        assert(m.header._padding@[i] == bytes_at(out@, 21, 3)[i]);
    }
}

/// The bytes of a `RespCapsetInfo`: each field in its own place, and nothing else.
pub proof fn resp_capset_info_bytes(m: &RespCapsetInfo, out: Vec<u8>)
    requires
        call_ensures(<RespCapsetInfo as IntoBytes>::as_bytes, (m,), out),
    ensures
        out@.len() == 40,
        word(out@, 0) == m.header.hdr_type.0,
        word(out@, 4) == m.header.flags,
        long(out@, 8) == m.header.fence_id,
        word(out@, 16) == m.header.ctx_id,
        out@[20] == m.header.ring_idx,
        forall|i: int| 0 <= i < 3 ==> out@[21 + i] == #[trigger] m.header._padding@[i],
        word(out@, 24) == m.capset_id,
        word(out@, 28) == m.capset_max_version,
        word(out@, 32) == m.capset_max_size,
        word(out@, 36) == m._padding,
{
    message_words(*m);
    assert forall|i: int| 0 <= i < 3 implies out@[21 + i] == #[trigger] m.header._padding@[i] by {
        assert(m.header._padding@[i] == bytes_at(out@, 21, 3)[i]);
    }
}

/// A `RespCapsetInfo` is read from the bytes at its place.
pub proof fn resp_capset_info_read(bytes: &[u8], at: usize, m: RespCapsetInfo)
    requires
        call_ensures(<RespCapsetInfo as FromBytes>::read_at, (bytes, at), m),
        at + 40 <= bytes@.len(),
    ensures
        word(bytes@, at as int) == m.header.hdr_type.0,
        word(bytes@, at + 4) == m.header.flags,
        long(bytes@, at + 8) == m.header.fence_id,
        word(bytes@, at + 16) == m.header.ctx_id,
        bytes@[at + 20] == m.header.ring_idx,
        forall|i: int| 0 <= i < 3 ==> bytes@[at + 21 + i] == #[trigger] m.header._padding@[i],
        word(bytes@, at + 24) == m.capset_id,
        word(bytes@, at + 28) == m.capset_max_version,
        word(bytes@, at + 32) == m.capset_max_size,
        word(bytes@, at + 36) == m._padding,
{
    fields_are_words(bytes@);
    assert forall|i: int| 0 <= i < 3 implies bytes@[at + 21
        + i] == #[trigger] m.header._padding@[i] by {
        assert(m.header._padding@[i] == bytes_at(bytes@, at + 21, 3)[i]);
    }
}

/// The bytes of a `CmdGetCapset`: each field in its own place, and nothing else.
pub proof fn cmd_get_capset_bytes(m: &CmdGetCapset, out: Vec<u8>)
    requires
        call_ensures(<CmdGetCapset as IntoBytes>::as_bytes, (m,), out),
    ensures
        out@.len() == 32,
        word(out@, 0) == m.header.hdr_type.0,
        word(out@, 4) == m.header.flags,
        long(out@, 8) == m.header.fence_id,
        word(out@, 16) == m.header.ctx_id,
        out@[20] == m.header.ring_idx,
        forall|i: int| 0 <= i < 3 ==> out@[21 + i] == #[trigger] m.header._padding@[i],
        word(out@, 24) == m.capset_id,
        word(out@, 28) == m.capset_version,
{
    message_words(*m);
    assert forall|i: int| 0 <= i < 3 implies out@[21 + i] == #[trigger] m.header._padding@[i] by {
        assert(m.header._padding@[i] == bytes_at(out@, 21, 3)[i]);
    }
}

/// The bytes of a `CmdCtxCreate`: each field in its own place, and nothing else.
pub proof fn cmd_ctx_create_bytes(m: &CmdCtxCreate, out: Vec<u8>)
    requires
        call_ensures(<CmdCtxCreate as IntoBytes>::as_bytes, (m,), out),
    ensures
        out@.len() == 96,
        word(out@, 0) == m.header.hdr_type.0,
        word(out@, 4) == m.header.flags,
        long(out@, 8) == m.header.fence_id,
        word(out@, 16) == m.header.ctx_id,
        out@[20] == m.header.ring_idx,
        forall|i: int| 0 <= i < 3 ==> out@[21 + i] == #[trigger] m.header._padding@[i],
        word(out@, 24) == m.nlen,
        word(out@, 28) == m.context_init,
        forall|i: int| 0 <= i < 64 ==> out@[32 + i] == #[trigger] m.debug_name@[i],
{
    message_words(*m);
    assert forall|i: int| 0 <= i < 3 implies out@[21 + i] == #[trigger] m.header._padding@[i] by {
        assert(m.header._padding@[i] == bytes_at(out@, 21, 3)[i]);
    }
    assert forall|i: int| 0 <= i < 64 implies out@[32 + i] == #[trigger] m.debug_name@[i] by {
        assert(m.debug_name@[i] == bytes_at(out@, 32, 64)[i]);
    }
}

/// The bytes of a `CmdCtxResource`: each field in its own place, and nothing else.
pub proof fn cmd_ctx_resource_bytes(m: &CmdCtxResource, out: Vec<u8>)
    requires
        call_ensures(<CmdCtxResource as IntoBytes>::as_bytes, (m,), out),
    ensures
        out@.len() == 32,
        word(out@, 0) == m.header.hdr_type.0,
        word(out@, 4) == m.header.flags,
        long(out@, 8) == m.header.fence_id,
        word(out@, 16) == m.header.ctx_id,
        out@[20] == m.header.ring_idx,
        forall|i: int| 0 <= i < 3 ==> out@[21 + i] == #[trigger] m.header._padding@[i],
        word(out@, 24) == m.resource_id,
        word(out@, 28) == m._padding,
{
    message_words(*m);
    assert forall|i: int| 0 <= i < 3 implies out@[21 + i] == #[trigger] m.header._padding@[i] by {
        assert(m.header._padding@[i] == bytes_at(out@, 21, 3)[i]);
    }
}

/// The bytes of a `CmdResourceCreate3D`: each field in its own place, and nothing else.
pub proof fn cmd_resource_create3_d_bytes(m: &CmdResourceCreate3D, out: Vec<u8>)
    requires
        call_ensures(<CmdResourceCreate3D as IntoBytes>::as_bytes, (m,), out),
    ensures
        out@.len() == 72,
        word(out@, 0) == m.header.hdr_type.0,
        word(out@, 4) == m.header.flags,
        long(out@, 8) == m.header.fence_id,
        word(out@, 16) == m.header.ctx_id,
        out@[20] == m.header.ring_idx,
        forall|i: int| 0 <= i < 3 ==> out@[21 + i] == #[trigger] m.header._padding@[i],
        word(out@, 24) == m.resource_id,
        word(out@, 28) == m.target,
        word(out@, 32) == m.format,
        word(out@, 36) == m.bind,
        word(out@, 40) == m.width,
        word(out@, 44) == m.height,
        word(out@, 48) == m.depth,
        word(out@, 52) == m.array_size,
        word(out@, 56) == m.last_level,
        word(out@, 60) == m.nr_samples,
        word(out@, 64) == m.flags,
        word(out@, 68) == m._padding,
{
    message_words(*m);
    assert forall|i: int| 0 <= i < 3 implies out@[21 + i] == #[trigger] m.header._padding@[i] by {
        assert(m.header._padding@[i] == bytes_at(out@, 21, 3)[i]);
    }
}

/// The bytes of a `CmdTransferHost3D`: each field in its own place, and nothing else.
pub proof fn cmd_transfer_host3_d_bytes(m: &CmdTransferHost3D, out: Vec<u8>)
    requires
        call_ensures(<CmdTransferHost3D as IntoBytes>::as_bytes, (m,), out),
    ensures
        out@.len() == 72,
        word(out@, 0) == m.header.hdr_type.0,
        word(out@, 4) == m.header.flags,
        long(out@, 8) == m.header.fence_id,
        word(out@, 16) == m.header.ctx_id,
        out@[20] == m.header.ring_idx,
        forall|i: int| 0 <= i < 3 ==> out@[21 + i] == #[trigger] m.header._padding@[i],
        word(out@, 24) == m.box_.x,
        word(out@, 28) == m.box_.y,
        word(out@, 32) == m.box_.z,
        word(out@, 36) == m.box_.w,
        word(out@, 40) == m.box_.h,
        word(out@, 44) == m.box_.d,
        long(out@, 48) == m.offset,
        word(out@, 56) == m.resource_id,
        word(out@, 60) == m.level,
        word(out@, 64) == m.stride,
        word(out@, 68) == m.layer_stride,
{
    message_words(*m);
    assert forall|i: int| 0 <= i < 3 implies out@[21 + i] == #[trigger] m.header._padding@[i] by {
        assert(m.header._padding@[i] == bytes_at(out@, 21, 3)[i]);
    }
}

/// The bytes of a `CmdSubmit3D`: each field in its own place, and nothing else.
pub proof fn cmd_submit3_d_bytes(m: &CmdSubmit3D, out: Vec<u8>)
    requires
        call_ensures(<CmdSubmit3D as IntoBytes>::as_bytes, (m,), out),
    ensures
        out@.len() == 32,
        word(out@, 0) == m.header.hdr_type.0,
        word(out@, 4) == m.header.flags,
        long(out@, 8) == m.header.fence_id,
        word(out@, 16) == m.header.ctx_id,
        out@[20] == m.header.ring_idx,
        forall|i: int| 0 <= i < 3 ==> out@[21 + i] == #[trigger] m.header._padding@[i],
        word(out@, 24) == m.size,
        word(out@, 28) == m._padding,
{
    message_words(*m);
    assert forall|i: int| 0 <= i < 3 implies out@[21 + i] == #[trigger] m.header._padding@[i] by {
        assert(m.header._padding@[i] == bytes_at(out@, 21, 3)[i]);
    }
}

/// A `CmdSubmit3D` is read from the bytes at its place.
pub proof fn cmd_submit3_d_read(bytes: &[u8], at: usize, m: CmdSubmit3D)
    requires
        call_ensures(<CmdSubmit3D as FromBytes>::read_at, (bytes, at), m),
        at + 32 <= bytes@.len(),
    ensures
        word(bytes@, at as int) == m.header.hdr_type.0,
        word(bytes@, at + 4) == m.header.flags,
        long(bytes@, at + 8) == m.header.fence_id,
        word(bytes@, at + 16) == m.header.ctx_id,
        bytes@[at + 20] == m.header.ring_idx,
        forall|i: int| 0 <= i < 3 ==> bytes@[at + 21 + i] == #[trigger] m.header._padding@[i],
        word(bytes@, at + 24) == m.size,
        word(bytes@, at + 28) == m._padding,
{
    fields_are_words(bytes@);
    assert forall|i: int| 0 <= i < 3 implies bytes@[at + 21
        + i] == #[trigger] m.header._padding@[i] by {
        assert(m.header._padding@[i] == bytes_at(bytes@, at + 21, 3)[i]);
    }
}

/// The bytes of a `CmdResourceCreateBlob`: each field in its own place, and nothing else.
pub proof fn cmd_resource_create_blob_bytes(m: &CmdResourceCreateBlob, out: Vec<u8>)
    requires
        call_ensures(<CmdResourceCreateBlob as IntoBytes>::as_bytes, (m,), out),
    ensures
        out@.len() == 56,
        word(out@, 0) == m.header.hdr_type.0,
        word(out@, 4) == m.header.flags,
        long(out@, 8) == m.header.fence_id,
        word(out@, 16) == m.header.ctx_id,
        out@[20] == m.header.ring_idx,
        forall|i: int| 0 <= i < 3 ==> out@[21 + i] == #[trigger] m.header._padding@[i],
        word(out@, 24) == m.resource_id,
        word(out@, 28) == m.blob_mem,
        word(out@, 32) == m.blob_flags,
        word(out@, 36) == m.nr_entries,
        long(out@, 40) == m.blob_id,
        long(out@, 48) == m.size,
{
    message_words(*m);
    assert forall|i: int| 0 <= i < 3 implies out@[21 + i] == #[trigger] m.header._padding@[i] by {
        assert(m.header._padding@[i] == bytes_at(out@, 21, 3)[i]);
    }
}

/// The bytes of a `CmdResourceMapBlob`: each field in its own place, and nothing else.
pub proof fn cmd_resource_map_blob_bytes(m: &CmdResourceMapBlob, out: Vec<u8>)
    requires
        call_ensures(<CmdResourceMapBlob as IntoBytes>::as_bytes, (m,), out),
    ensures
        out@.len() == 40,
        word(out@, 0) == m.header.hdr_type.0,
        word(out@, 4) == m.header.flags,
        long(out@, 8) == m.header.fence_id,
        word(out@, 16) == m.header.ctx_id,
        out@[20] == m.header.ring_idx,
        forall|i: int| 0 <= i < 3 ==> out@[21 + i] == #[trigger] m.header._padding@[i],
        word(out@, 24) == m.resource_id,
        word(out@, 28) == m._padding,
        long(out@, 32) == m.offset,
{
    message_words(*m);
    assert forall|i: int| 0 <= i < 3 implies out@[21 + i] == #[trigger] m.header._padding@[i] by {
        assert(m.header._padding@[i] == bytes_at(out@, 21, 3)[i]);
    }
}

/// A `CmdResourceMapBlob` is read from the bytes at its place.
pub proof fn cmd_resource_map_blob_read(bytes: &[u8], at: usize, m: CmdResourceMapBlob)
    requires
        call_ensures(<CmdResourceMapBlob as FromBytes>::read_at, (bytes, at), m),
        at + 40 <= bytes@.len(),
    ensures
        word(bytes@, at as int) == m.header.hdr_type.0,
        word(bytes@, at + 4) == m.header.flags,
        long(bytes@, at + 8) == m.header.fence_id,
        word(bytes@, at + 16) == m.header.ctx_id,
        bytes@[at + 20] == m.header.ring_idx,
        forall|i: int| 0 <= i < 3 ==> bytes@[at + 21 + i] == #[trigger] m.header._padding@[i],
        word(bytes@, at + 24) == m.resource_id,
        word(bytes@, at + 28) == m._padding,
        long(bytes@, at + 32) == m.offset,
{
    fields_are_words(bytes@);
    assert forall|i: int| 0 <= i < 3 implies bytes@[at + 21
        + i] == #[trigger] m.header._padding@[i] by {
        assert(m.header._padding@[i] == bytes_at(bytes@, at + 21, 3)[i]);
    }
}

/// The bytes of a `CmdResourceUnmapBlob`: each field in its own place, and nothing else.
pub proof fn cmd_resource_unmap_blob_bytes(m: &CmdResourceUnmapBlob, out: Vec<u8>)
    requires
        call_ensures(<CmdResourceUnmapBlob as IntoBytes>::as_bytes, (m,), out),
    ensures
        out@.len() == 32,
        word(out@, 0) == m.header.hdr_type.0,
        word(out@, 4) == m.header.flags,
        long(out@, 8) == m.header.fence_id,
        word(out@, 16) == m.header.ctx_id,
        out@[20] == m.header.ring_idx,
        forall|i: int| 0 <= i < 3 ==> out@[21 + i] == #[trigger] m.header._padding@[i],
        word(out@, 24) == m.resource_id,
        word(out@, 28) == m._padding,
{
    message_words(*m);
    assert forall|i: int| 0 <= i < 3 implies out@[21 + i] == #[trigger] m.header._padding@[i] by {
        assert(m.header._padding@[i] == bytes_at(out@, 21, 3)[i]);
    }
}

/// A `CmdResourceUnmapBlob` is read from the bytes at its place.
pub proof fn cmd_resource_unmap_blob_read(bytes: &[u8], at: usize, m: CmdResourceUnmapBlob)
    requires
        call_ensures(<CmdResourceUnmapBlob as FromBytes>::read_at, (bytes, at), m),
        at + 32 <= bytes@.len(),
    ensures
        word(bytes@, at as int) == m.header.hdr_type.0,
        word(bytes@, at + 4) == m.header.flags,
        long(bytes@, at + 8) == m.header.fence_id,
        word(bytes@, at + 16) == m.header.ctx_id,
        bytes@[at + 20] == m.header.ring_idx,
        forall|i: int| 0 <= i < 3 ==> bytes@[at + 21 + i] == #[trigger] m.header._padding@[i],
        word(bytes@, at + 24) == m.resource_id,
        word(bytes@, at + 28) == m._padding,
{
    fields_are_words(bytes@);
    assert forall|i: int| 0 <= i < 3 implies bytes@[at + 21
        + i] == #[trigger] m.header._padding@[i] by {
        assert(m.header._padding@[i] == bytes_at(bytes@, at + 21, 3)[i]);
    }
}

/// The bytes of a `RespMapInfo`: each field in its own place, and nothing else.
pub proof fn resp_map_info_bytes(m: &RespMapInfo, out: Vec<u8>)
    requires
        call_ensures(<RespMapInfo as IntoBytes>::as_bytes, (m,), out),
    ensures
        out@.len() == 32,
        word(out@, 0) == m.header.hdr_type.0,
        word(out@, 4) == m.header.flags,
        long(out@, 8) == m.header.fence_id,
        word(out@, 16) == m.header.ctx_id,
        out@[20] == m.header.ring_idx,
        forall|i: int| 0 <= i < 3 ==> out@[21 + i] == #[trigger] m.header._padding@[i],
        word(out@, 24) == m.map_info,
        word(out@, 28) == m._padding,
{
    message_words(*m);
    assert forall|i: int| 0 <= i < 3 implies out@[21 + i] == #[trigger] m.header._padding@[i] by {
        assert(m.header._padding@[i] == bytes_at(out@, 21, 3)[i]);
    }
}

/// A `RespMapInfo` is read from the bytes at its place.
pub proof fn resp_map_info_read(bytes: &[u8], at: usize, m: RespMapInfo)
    requires
        call_ensures(<RespMapInfo as FromBytes>::read_at, (bytes, at), m),
        at + 32 <= bytes@.len(),
    ensures
        word(bytes@, at as int) == m.header.hdr_type.0,
        word(bytes@, at + 4) == m.header.flags,
        long(bytes@, at + 8) == m.header.fence_id,
        word(bytes@, at + 16) == m.header.ctx_id,
        bytes@[at + 20] == m.header.ring_idx,
        forall|i: int| 0 <= i < 3 ==> bytes@[at + 21 + i] == #[trigger] m.header._padding@[i],
        word(bytes@, at + 24) == m.map_info,
        word(bytes@, at + 28) == m._padding,
{
    fields_are_words(bytes@);
    assert forall|i: int| 0 <= i < 3 implies bytes@[at + 21
        + i] == #[trigger] m.header._padding@[i] by {
        assert(m.header._padding@[i] == bytes_at(bytes@, at + 21, 3)[i]);
    }
}

/// The bytes of a `CmdResourceAssignUuid`: each field in its own place, and nothing else.
pub proof fn cmd_resource_assign_uuid_bytes(m: &CmdResourceAssignUuid, out: Vec<u8>)
    requires
        call_ensures(<CmdResourceAssignUuid as IntoBytes>::as_bytes, (m,), out),
    ensures
        out@.len() == 32,
        word(out@, 0) == m.header.hdr_type.0,
        word(out@, 4) == m.header.flags,
        long(out@, 8) == m.header.fence_id,
        word(out@, 16) == m.header.ctx_id,
        out@[20] == m.header.ring_idx,
        forall|i: int| 0 <= i < 3 ==> out@[21 + i] == #[trigger] m.header._padding@[i],
        word(out@, 24) == m.resource_id,
        word(out@, 28) == m._padding,
{
    message_words(*m);
    assert forall|i: int| 0 <= i < 3 implies out@[21 + i] == #[trigger] m.header._padding@[i] by {
        assert(m.header._padding@[i] == bytes_at(out@, 21, 3)[i]);
    }
}

/// A `CmdResourceAssignUuid` is read from the bytes at its place.
pub proof fn cmd_resource_assign_uuid_read(bytes: &[u8], at: usize, m: CmdResourceAssignUuid)
    requires
        call_ensures(<CmdResourceAssignUuid as FromBytes>::read_at, (bytes, at), m),
        at + 32 <= bytes@.len(),
    ensures
        word(bytes@, at as int) == m.header.hdr_type.0,
        word(bytes@, at + 4) == m.header.flags,
        long(bytes@, at + 8) == m.header.fence_id,
        word(bytes@, at + 16) == m.header.ctx_id,
        bytes@[at + 20] == m.header.ring_idx,
        forall|i: int| 0 <= i < 3 ==> bytes@[at + 21 + i] == #[trigger] m.header._padding@[i],
        word(bytes@, at + 24) == m.resource_id,
        word(bytes@, at + 28) == m._padding,
{
    fields_are_words(bytes@);
    assert forall|i: int| 0 <= i < 3 implies bytes@[at + 21
        + i] == #[trigger] m.header._padding@[i] by {
        assert(m.header._padding@[i] == bytes_at(bytes@, at + 21, 3)[i]);
    }
}

/// The bytes of a `RespResourceUuid`: each field in its own place, and nothing else.
pub proof fn resp_resource_uuid_bytes(m: &RespResourceUuid, out: Vec<u8>)
    requires
        call_ensures(<RespResourceUuid as IntoBytes>::as_bytes, (m,), out),
    ensures
        out@.len() == 40,
        word(out@, 0) == m.header.hdr_type.0,
        word(out@, 4) == m.header.flags,
        long(out@, 8) == m.header.fence_id,
        word(out@, 16) == m.header.ctx_id,
        out@[20] == m.header.ring_idx,
        forall|i: int| 0 <= i < 3 ==> out@[21 + i] == #[trigger] m.header._padding@[i],
        forall|i: int| 0 <= i < 16 ==> out@[24 + i] == #[trigger] m.uuid@[i],
{
    message_words(*m);
    assert forall|i: int| 0 <= i < 3 implies out@[21 + i] == #[trigger] m.header._padding@[i] by {
        assert(m.header._padding@[i] == bytes_at(out@, 21, 3)[i]);
    }
    assert forall|i: int| 0 <= i < 16 implies out@[24 + i] == #[trigger] m.uuid@[i] by {
        assert(m.uuid@[i] == bytes_at(out@, 24, 16)[i]);
    }
}

/// A `RespResourceUuid` is read from the bytes at its place.
pub proof fn resp_resource_uuid_read(bytes: &[u8], at: usize, m: RespResourceUuid)
    requires
        call_ensures(<RespResourceUuid as FromBytes>::read_at, (bytes, at), m),
        at + 40 <= bytes@.len(),
    ensures
        word(bytes@, at as int) == m.header.hdr_type.0,
        word(bytes@, at + 4) == m.header.flags,
        long(bytes@, at + 8) == m.header.fence_id,
        word(bytes@, at + 16) == m.header.ctx_id,
        bytes@[at + 20] == m.header.ring_idx,
        forall|i: int| 0 <= i < 3 ==> bytes@[at + 21 + i] == #[trigger] m.header._padding@[i],
        forall|i: int| 0 <= i < 16 ==> bytes@[at + 24 + i] == #[trigger] m.uuid@[i],
{
    fields_are_words(bytes@);
    assert forall|i: int| 0 <= i < 3 implies bytes@[at + 21
        + i] == #[trigger] m.header._padding@[i] by {
        assert(m.header._padding@[i] == bytes_at(bytes@, at + 21, 3)[i]);
    }
    assert forall|i: int| 0 <= i < 16 implies bytes@[at + 24 + i] == #[trigger] m.uuid@[i] by {
        assert(m.uuid@[i] == bytes_at(bytes@, at + 24, 16)[i]);
    }
}

/// The bytes of a `SetScanoutBlob`: each field in its own place, and nothing else.
pub proof fn set_scanout_blob_bytes(m: &SetScanoutBlob, out: Vec<u8>)
    requires
        call_ensures(<SetScanoutBlob as IntoBytes>::as_bytes, (m,), out),
    ensures
        out@.len() == 96,
        word(out@, 0) == m.header.hdr_type.0,
        word(out@, 4) == m.header.flags,
        long(out@, 8) == m.header.fence_id,
        word(out@, 16) == m.header.ctx_id,
        out@[20] == m.header.ring_idx,
        forall|i: int| 0 <= i < 3 ==> out@[21 + i] == #[trigger] m.header._padding@[i],
        word(out@, 24) == m.rect.x,
        word(out@, 28) == m.rect.y,
        word(out@, 32) == m.rect.width,
        word(out@, 36) == m.rect.height,
        word(out@, 40) == m.scanout_id,
        word(out@, 44) == m.resource_id,
        word(out@, 48) == m.width,
        word(out@, 52) == m.height,
        word(out@, 56) == m.format,
        word(out@, 60) == m._padding,
        word(out@, 64) == m.strides@[0],
        word(out@, 68) == m.strides@[1],
        word(out@, 72) == m.strides@[2],
        word(out@, 76) == m.strides@[3],
        word(out@, 80) == m.offsets@[0],
        word(out@, 84) == m.offsets@[1],
        word(out@, 88) == m.offsets@[2],
        word(out@, 92) == m.offsets@[3],
{
    message_words(*m);
    assert forall|i: int| 0 <= i < 3 implies out@[21 + i] == #[trigger] m.header._padding@[i] by {
        assert(m.header._padding@[i] == bytes_at(out@, 21, 3)[i]);
    }
}

/// A `SetScanoutBlob` is read from the bytes at its place.
pub proof fn set_scanout_blob_read(bytes: &[u8], at: usize, m: SetScanoutBlob)
    requires
        call_ensures(<SetScanoutBlob as FromBytes>::read_at, (bytes, at), m),
        at + 96 <= bytes@.len(),
    ensures
        word(bytes@, at as int) == m.header.hdr_type.0,
        word(bytes@, at + 4) == m.header.flags,
        long(bytes@, at + 8) == m.header.fence_id,
        word(bytes@, at + 16) == m.header.ctx_id,
        bytes@[at + 20] == m.header.ring_idx,
        forall|i: int| 0 <= i < 3 ==> bytes@[at + 21 + i] == #[trigger] m.header._padding@[i],
        word(bytes@, at + 24) == m.rect.x,
        word(bytes@, at + 28) == m.rect.y,
        word(bytes@, at + 32) == m.rect.width,
        word(bytes@, at + 36) == m.rect.height,
        word(bytes@, at + 40) == m.scanout_id,
        word(bytes@, at + 44) == m.resource_id,
        word(bytes@, at + 48) == m.width,
        word(bytes@, at + 52) == m.height,
        word(bytes@, at + 56) == m.format,
        word(bytes@, at + 60) == m._padding,
        word(bytes@, at + 64) == m.strides@[0],
        word(bytes@, at + 68) == m.strides@[1],
        word(bytes@, at + 72) == m.strides@[2],
        word(bytes@, at + 76) == m.strides@[3],
        word(bytes@, at + 80) == m.offsets@[0],
        word(bytes@, at + 84) == m.offsets@[1],
        word(bytes@, at + 88) == m.offsets@[2],
        word(bytes@, at + 92) == m.offsets@[3],
{
    fields_are_words(bytes@);
    assert forall|i: int| 0 <= i < 3 implies bytes@[at + 21
        + i] == #[trigger] m.header._padding@[i] by {
        assert(m.header._padding@[i] == bytes_at(bytes@, at + 21, 3)[i]);
    }
}

/// The bytes of a `CursorPos`: each field in its own place, and nothing else.
pub proof fn cursor_pos_bytes(m: &CursorPos, out: Vec<u8>)
    requires
        call_ensures(<CursorPos as IntoBytes>::as_bytes, (m,), out),
    ensures
        out@.len() == 16,
        word(out@, 0) == m.scanout_id,
        word(out@, 4) == m.x,
        word(out@, 8) == m.y,
        word(out@, 12) == m._padding,
{
    message_words(*m);
}

/// The bytes of a `UpdateCursor`: each field in its own place, and nothing else.
pub proof fn update_cursor_bytes(m: &UpdateCursor, out: Vec<u8>)
    requires
        call_ensures(<UpdateCursor as IntoBytes>::as_bytes, (m,), out),
    ensures
        out@.len() == 56,
        word(out@, 0) == m.header.hdr_type.0,
        word(out@, 4) == m.header.flags,
        long(out@, 8) == m.header.fence_id,
        word(out@, 16) == m.header.ctx_id,
        out@[20] == m.header.ring_idx,
        forall|i: int| 0 <= i < 3 ==> out@[21 + i] == #[trigger] m.header._padding@[i],
        word(out@, 24) == m.pos.scanout_id,
        word(out@, 28) == m.pos.x,
        word(out@, 32) == m.pos.y,
        word(out@, 36) == m.pos._padding,
        word(out@, 40) == m.resource_id,
        word(out@, 44) == m.hot_x,
        word(out@, 48) == m.hot_y,
        word(out@, 52) == m._padding,
{
    message_words(*m);
    assert forall|i: int| 0 <= i < 3 implies out@[21 + i] == #[trigger] m.header._padding@[i] by {
        assert(m.header._padding@[i] == bytes_at(out@, 21, 3)[i]);
    }
}

/// How many bytes a message takes that can be read.
pub proof fn sizes_law()
    ensures
        forall|n: usize| #[trigger]
            call_ensures(<CtrlHeader as FromBytes>::size, (), n) ==> n == 24,
        forall|n: usize| #[trigger] call_ensures(<Rect as FromBytes>::size, (), n) ==> n == 16,
        forall|n: usize| #[trigger]
            call_ensures(<DisplayOne as FromBytes>::size, (), n) ==> n == 24,
        forall|n: usize| #[trigger]
            call_ensures(<RespEdid as FromBytes>::size, (), n) ==> n == 1056,
        forall|n: usize| #[trigger] call_ensures(<Config as FromBytes>::size, (), n) ==> n == 20,
        forall|n: usize| #[trigger] call_ensures(<MemEntry as FromBytes>::size, (), n) ==> n == 16,
        forall|n: usize| #[trigger]
            call_ensures(<ResourceAttachBacking as FromBytes>::size, (), n) ==> n == 32,
        forall|n: usize| #[trigger]
            call_ensures(<ResourceAttachBackingSingleEntry as FromBytes>::size, (), n) ==> n == 48,
        forall|n: usize| #[trigger]
            call_ensures(<ResourceUnref as FromBytes>::size, (), n) ==> n == 32,
        forall|n: usize| #[trigger]
            call_ensures(<RespCapsetInfo as FromBytes>::size, (), n) ==> n == 40,
        forall|n: usize| #[trigger]
            call_ensures(<CmdSubmit3D as FromBytes>::size, (), n) ==> n == 32,
        forall|n: usize| #[trigger]
            call_ensures(<CmdResourceMapBlob as FromBytes>::size, (), n) ==> n == 40,
        forall|n: usize| #[trigger]
            call_ensures(<CmdResourceUnmapBlob as FromBytes>::size, (), n) ==> n == 32,
        forall|n: usize| #[trigger]
            call_ensures(<RespMapInfo as FromBytes>::size, (), n) ==> n == 32,
        forall|n: usize| #[trigger]
            call_ensures(<CmdResourceAssignUuid as FromBytes>::size, (), n) ==> n == 32,
        forall|n: usize| #[trigger]
            call_ensures(<RespResourceUuid as FromBytes>::size, (), n) ==> n == 40,
        forall|n: usize| #[trigger]
            call_ensures(<SetScanoutBlob as FromBytes>::size, (), n) ==> n == 96,
{
}

} // verus!
