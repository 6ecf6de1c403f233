//! Commands on blob resources, and on resources that are shared.
use crate::bytes::{
    bytes_at, le32, le64, parts_sit_at, push_bytes, push_u32, push_u64, read_array, read_u32,
    read_u64, sits_at, u32_at, u32_reads_back, u64_at, u64_reads_back,
};
use crate::display::Rect;
use crate::header::CtrlHeader;
use crate::wire::{FromBytes, IntoBytes};
use vstd::prelude::*;

verus! {

/// Creates a blob resource; `nr_entries` memory entries follow in a separate buffer.
#[derive(Debug)]
pub struct CmdResourceCreateBlob {
    pub header: CtrlHeader,
    pub resource_id: u32,
    /// Where the memory of the blob is.
    pub blob_mem: u32,
    /// How the blob is used.
    pub blob_flags: u32,
    pub nr_entries: u32,
    /// The id of the host-side resource.
    pub blob_id: u64,
    /// Size of the blob in bytes.
    pub size: u64,
}

impl IntoBytes for CmdResourceCreateBlob {
    open spec fn wire(&self) -> Seq<u8> {
        self.header.wire() + le32(self.resource_id) + le32(self.blob_mem) + le32(self.blob_flags)
            + le32(self.nr_entries) + le64(self.blob_id) + le64(self.size)
    }

    open spec fn wire_len() -> nat {
        56
    }

    proof fn wire_has_len(&self) {
        self.header.wire_has_len();
    }

    open spec fn is_at(&self, bytes: Seq<u8>, at: int) -> bool {
        &&& self.header.is_at(bytes, at)
        &&& self.resource_id == u32_at(bytes, at + 24)
        &&& self.blob_mem == u32_at(bytes, at + 28)
        &&& self.blob_flags == u32_at(bytes, at + 32)
        &&& self.nr_entries == u32_at(bytes, at + 36)
        &&& self.blob_id == u64_at(bytes, at + 40)
        &&& self.size == u64_at(bytes, at + 48)
    }

    proof fn is_where_written(&self, bytes: Seq<u8>, at: int) {
        self.header.wire_has_len();
        let to_1 = self.header.wire();
        let to_2 = to_1 + le32(self.resource_id);
        let to_3 = to_2 + le32(self.blob_mem);
        let to_4 = to_3 + le32(self.blob_flags);
        let to_5 = to_4 + le32(self.nr_entries);
        let to_6 = to_5 + le64(self.blob_id);
        parts_sit_at(bytes, at, to_6, le64(self.size));
        parts_sit_at(bytes, at, to_5, le64(self.blob_id));
        parts_sit_at(bytes, at, to_4, le32(self.nr_entries));
        parts_sit_at(bytes, at, to_3, le32(self.blob_flags));
        parts_sit_at(bytes, at, to_2, le32(self.blob_mem));
        parts_sit_at(bytes, at, to_1, le32(self.resource_id));
        self.header.is_where_written(bytes, at);
        u32_reads_back(bytes, at + 24, self.resource_id);
        u32_reads_back(bytes, at + 28, self.blob_mem);
        u32_reads_back(bytes, at + 32, self.blob_flags);
        u32_reads_back(bytes, at + 36, self.nr_entries);
        u64_reads_back(bytes, at + 40, self.blob_id);
        u64_reads_back(bytes, at + 48, self.size);
    }

    proof fn is_alone(self, other: Self, bytes: Seq<u8>, at: int) {
        self.header.is_alone(other.header, bytes, at);
    }

    fn as_bytes(&self) -> (out: Vec<u8>) {
        let mut out = self.header.as_bytes();
        push_u32(&mut out, self.resource_id);
        push_u32(&mut out, self.blob_mem);
        push_u32(&mut out, self.blob_flags);
        push_u32(&mut out, self.nr_entries);
        push_u64(&mut out, self.blob_id);
        push_u64(&mut out, self.size);
        assert(out@ =~= self.wire());
        out
    }
}

/// Maps a blob resource into the host-visible memory region.
#[derive(Clone, Copy, Debug)]
pub struct CmdResourceMapBlob {
    pub header: CtrlHeader,
    pub resource_id: u32,
    pub _padding: u32,
    pub offset: u64,
}

impl IntoBytes for CmdResourceMapBlob {
    open spec fn wire(&self) -> Seq<u8> {
        self.header.wire() + le32(self.resource_id) + le32(self._padding) + le64(self.offset)
    }

    open spec fn wire_len() -> nat {
        40
    }

    proof fn wire_has_len(&self) {
        self.header.wire_has_len();
    }

    open spec fn is_at(&self, bytes: Seq<u8>, at: int) -> bool {
        &&& self.header.is_at(bytes, at)
        &&& self.resource_id == u32_at(bytes, at + 24)
        &&& self._padding == u32_at(bytes, at + 28)
        &&& self.offset == u64_at(bytes, at + 32)
    }

    proof fn is_where_written(&self, bytes: Seq<u8>, at: int) {
        self.header.wire_has_len();
        let to_1 = self.header.wire();
        let to_2 = to_1 + le32(self.resource_id);
        let to_3 = to_2 + le32(self._padding);
        parts_sit_at(bytes, at, to_3, le64(self.offset));
        parts_sit_at(bytes, at, to_2, le32(self._padding));
        parts_sit_at(bytes, at, to_1, le32(self.resource_id));
        self.header.is_where_written(bytes, at);
        u32_reads_back(bytes, at + 24, self.resource_id);
        u32_reads_back(bytes, at + 28, self._padding);
        u64_reads_back(bytes, at + 32, self.offset);
    }

    proof fn is_alone(self, other: Self, bytes: Seq<u8>, at: int) {
        self.header.is_alone(other.header, bytes, at);
    }

    fn as_bytes(&self) -> (out: Vec<u8>) {
        let mut out = self.header.as_bytes();
        push_u32(&mut out, self.resource_id);
        push_u32(&mut out, self._padding);
        push_u64(&mut out, self.offset);
        assert(out@ =~= self.wire());
        out
    }
}

impl FromBytes for CmdResourceMapBlob {
    fn size() -> (n: usize) {
        40
    }

    fn read_at(bytes: &[u8], at: usize) -> (message: Self) {
        CmdResourceMapBlob {
            header: CtrlHeader::read_at(bytes, at),
            resource_id: read_u32(bytes, at + 24),
            _padding: read_u32(bytes, at + 28),
            offset: read_u64(bytes, at + 32),
        }
    }
}

/// Unmaps a blob resource.
#[derive(Clone, Copy, Debug)]
pub struct CmdResourceUnmapBlob {
    pub header: CtrlHeader,
    pub resource_id: u32,
    pub _padding: u32,
}

impl IntoBytes for CmdResourceUnmapBlob {
    open spec fn wire(&self) -> Seq<u8> {
        self.header.wire() + le32(self.resource_id) + le32(self._padding)
    }

    open spec fn wire_len() -> nat {
        32
    }

    proof fn wire_has_len(&self) {
        self.header.wire_has_len();
    }

    open spec fn is_at(&self, bytes: Seq<u8>, at: int) -> bool {
        &&& self.header.is_at(bytes, at)
        &&& self.resource_id == u32_at(bytes, at + 24)
        &&& self._padding == u32_at(bytes, at + 28)
    }

    proof fn is_where_written(&self, bytes: Seq<u8>, at: int) {
        self.header.wire_has_len();
        let to_1 = self.header.wire();
        let to_2 = to_1 + le32(self.resource_id);
        parts_sit_at(bytes, at, to_2, le32(self._padding));
        parts_sit_at(bytes, at, to_1, le32(self.resource_id));
        self.header.is_where_written(bytes, at);
        u32_reads_back(bytes, at + 24, self.resource_id);
        u32_reads_back(bytes, at + 28, self._padding);
    }

    proof fn is_alone(self, other: Self, bytes: Seq<u8>, at: int) {
        self.header.is_alone(other.header, bytes, at);
    }

    fn as_bytes(&self) -> (out: Vec<u8>) {
        let mut out = self.header.as_bytes();
        push_u32(&mut out, self.resource_id);
        push_u32(&mut out, self._padding);
        assert(out@ =~= self.wire());
        out
    }
}

impl FromBytes for CmdResourceUnmapBlob {
    fn size() -> (n: usize) {
        32
    }

    fn read_at(bytes: &[u8], at: usize) -> (message: Self) {
        CmdResourceUnmapBlob {
            header: CtrlHeader::read_at(bytes, at),
            resource_id: read_u32(bytes, at + 24),
            _padding: read_u32(bytes, at + 28),
        }
    }
}

/// The mapping may be cached in no way.
pub const VIRTIO_GPU_MAP_CACHE_NONE: u32 = 0x00;

/// The mapping is cached.
pub const VIRTIO_GPU_MAP_CACHE_CACHED: u32 = 0x01;

/// The mapping is uncached.
pub const VIRTIO_GPU_MAP_CACHE_UNCACHED: u32 = 0x02;

/// The mapping is write-combining.
pub const VIRTIO_GPU_MAP_CACHE_WC: u32 = 0x03;

/// How a mapped blob is cached.
#[derive(Clone, Copy, Debug)]
pub struct RespMapInfo {
    pub header: CtrlHeader,
    /// One of the `VIRTIO_GPU_MAP_CACHE_` values.
    pub map_info: u32,
    pub _padding: u32,
}

impl IntoBytes for RespMapInfo {
    open spec fn wire(&self) -> Seq<u8> {
        self.header.wire() + le32(self.map_info) + le32(self._padding)
    }

    open spec fn wire_len() -> nat {
        32
    }

    proof fn wire_has_len(&self) {
        self.header.wire_has_len();
    }

    open spec fn is_at(&self, bytes: Seq<u8>, at: int) -> bool {
        &&& self.header.is_at(bytes, at)
        &&& self.map_info == u32_at(bytes, at + 24)
        &&& self._padding == u32_at(bytes, at + 28)
    }

    proof fn is_where_written(&self, bytes: Seq<u8>, at: int) {
        self.header.wire_has_len();
        let to_1 = self.header.wire();
        let to_2 = to_1 + le32(self.map_info);
        parts_sit_at(bytes, at, to_2, le32(self._padding));
        parts_sit_at(bytes, at, to_1, le32(self.map_info));
        self.header.is_where_written(bytes, at);
        u32_reads_back(bytes, at + 24, self.map_info);
        u32_reads_back(bytes, at + 28, self._padding);
    }

    proof fn is_alone(self, other: Self, bytes: Seq<u8>, at: int) {
        self.header.is_alone(other.header, bytes, at);
    }

    fn as_bytes(&self) -> (out: Vec<u8>) {
        let mut out = self.header.as_bytes();
        push_u32(&mut out, self.map_info);
        push_u32(&mut out, self._padding);
        assert(out@ =~= self.wire());
        out
    }
}

impl FromBytes for RespMapInfo {
    fn size() -> (n: usize) {
        32
    }

    fn read_at(bytes: &[u8], at: usize) -> (message: Self) {
        RespMapInfo {
            header: CtrlHeader::read_at(bytes, at),
            map_info: read_u32(bytes, at + 24),
            _padding: read_u32(bytes, at + 28),
        }
    }
}

/// Has the device give a UUID to a resource.
#[derive(Clone, Copy, Debug)]
pub struct CmdResourceAssignUuid {
    pub header: CtrlHeader,
    pub resource_id: u32,
    pub _padding: u32,
}

impl IntoBytes for CmdResourceAssignUuid {
    open spec fn wire(&self) -> Seq<u8> {
        self.header.wire() + le32(self.resource_id) + le32(self._padding)
    }

    open spec fn wire_len() -> nat {
        32
    }

    proof fn wire_has_len(&self) {
        self.header.wire_has_len();
    }

    open spec fn is_at(&self, bytes: Seq<u8>, at: int) -> bool {
        &&& self.header.is_at(bytes, at)
        &&& self.resource_id == u32_at(bytes, at + 24)
        &&& self._padding == u32_at(bytes, at + 28)
    }

    proof fn is_where_written(&self, bytes: Seq<u8>, at: int) {
        self.header.wire_has_len();
        let to_1 = self.header.wire();
        let to_2 = to_1 + le32(self.resource_id);
        parts_sit_at(bytes, at, to_2, le32(self._padding));
        parts_sit_at(bytes, at, to_1, le32(self.resource_id));
        self.header.is_where_written(bytes, at);
        u32_reads_back(bytes, at + 24, self.resource_id);
        u32_reads_back(bytes, at + 28, self._padding);
    }

    proof fn is_alone(self, other: Self, bytes: Seq<u8>, at: int) {
        self.header.is_alone(other.header, bytes, at);
    }

    fn as_bytes(&self) -> (out: Vec<u8>) {
        let mut out = self.header.as_bytes();
        push_u32(&mut out, self.resource_id);
        push_u32(&mut out, self._padding);
        assert(out@ =~= self.wire());
        out
    }
}

impl FromBytes for CmdResourceAssignUuid {
    fn size() -> (n: usize) {
        32
    }

    fn read_at(bytes: &[u8], at: usize) -> (message: Self) {
        CmdResourceAssignUuid {
            header: CtrlHeader::read_at(bytes, at),
            resource_id: read_u32(bytes, at + 24),
            _padding: read_u32(bytes, at + 28),
        }
    }
}

/// The UUID of a resource.
#[derive(Clone, Copy, Debug)]
pub struct RespResourceUuid {
    pub header: CtrlHeader,
    pub uuid: [u8; 16],
}

impl IntoBytes for RespResourceUuid {
    open spec fn wire(&self) -> Seq<u8> {
        self.header.wire() + self.uuid@
    }

    open spec fn wire_len() -> nat {
        40
    }

    proof fn wire_has_len(&self) {
        self.header.wire_has_len();
    }

    open spec fn is_at(&self, bytes: Seq<u8>, at: int) -> bool {
        &&& self.header.is_at(bytes, at)
        &&& self.uuid@ == bytes_at(bytes, at + 24, 16)
    }

    proof fn is_where_written(&self, bytes: Seq<u8>, at: int) {
        self.header.wire_has_len();
        let to_1 = self.header.wire();
        parts_sit_at(bytes, at, to_1, self.uuid@);
        self.header.is_where_written(bytes, at);
        assert(self.uuid@ =~= bytes_at(bytes, at + 24, 16));
    }

    proof fn is_alone(self, other: Self, bytes: Seq<u8>, at: int) {
        self.header.is_alone(other.header, bytes, at);
        assert(self.uuid =~= other.uuid);
    }

    fn as_bytes(&self) -> (out: Vec<u8>) {
        let mut out = self.header.as_bytes();
        push_bytes(&mut out, self.uuid.as_slice());
        assert(out@ =~= self.wire());
        out
    }
}

impl FromBytes for RespResourceUuid {
    fn size() -> (n: usize) {
        40
    }

    fn read_at(bytes: &[u8], at: usize) -> (message: Self) {
        RespResourceUuid {
            header: CtrlHeader::read_at(bytes, at),
            uuid: read_array::<16>(bytes, at + 24),
        }
    }
}

/// The bytes of four numbers that follow each other.
pub open spec fn quad_wire(quad: [u32; 4]) -> Seq<u8> {
    le32(quad[0]) + le32(quad[1]) + le32(quad[2]) + le32(quad[3])
}

/// Whether `quad` is what `bytes` hold from `at` on.
pub open spec fn is_quad_at(quad: [u32; 4], bytes: Seq<u8>, at: int) -> bool {
    &&& quad[0] == u32_at(bytes, at)
    &&& quad[1] == u32_at(bytes, at + 4)
    &&& quad[2] == u32_at(bytes, at + 8)
    &&& quad[3] == u32_at(bytes, at + 12)
}

/// Four numbers are where they were written.
proof fn quad_is_where_written(quad: [u32; 4], bytes: Seq<u8>, at: int)
    requires
        sits_at(bytes, at, quad_wire(quad)),
    ensures
        is_quad_at(quad, bytes, at),
{
    let to_1 = le32(quad[0]);
    let to_2 = to_1 + le32(quad[1]);
    let to_3 = to_2 + le32(quad[2]);
    parts_sit_at(bytes, at, to_3, le32(quad[3]));
    parts_sit_at(bytes, at, to_2, le32(quad[2]));
    parts_sit_at(bytes, at, to_1, le32(quad[1]));
    u32_reads_back(bytes, at, quad[0]);
    u32_reads_back(bytes, at + 4, quad[1]);
    u32_reads_back(bytes, at + 8, quad[2]);
    u32_reads_back(bytes, at + 12, quad[3]);
}

/// Appends four numbers.
fn push_quad(out: &mut Vec<u8>, quad: [u32; 4])
    ensures
        final(out)@ == old(out)@ + quad_wire(quad),
{
    push_u32(out, quad[0]);
    push_u32(out, quad[1]);
    push_u32(out, quad[2]);
    push_u32(out, quad[3]);
    assert(out@ =~= old(out)@ + quad_wire(quad));
}

/// Reads four numbers.
fn read_quad(bytes: &[u8], at: usize) -> (quad: [u32; 4])
    requires
        at + 16 <= usize::MAX,
    ensures
        is_quad_at(quad, bytes@, at as int),
{
    [
        read_u32(bytes, at),
        read_u32(bytes, at + 4),
        read_u32(bytes, at + 8),
        read_u32(bytes, at + 12),
    ]
}

/// Binds a blob resource to a scanout.
#[derive(Clone, Copy, Debug)]
pub struct SetScanoutBlob {
    pub header: CtrlHeader,
    pub rect: Rect,
    pub scanout_id: u32,
    pub resource_id: u32,
    pub width: u32,
    pub height: u32,
    pub format: u32,
    pub _padding: u32,
    /// Bytes per row of each plane.
    pub strides: [u32; 4],
    /// Where each plane starts.
    pub offsets: [u32; 4],
}

impl IntoBytes for SetScanoutBlob {
    open spec fn wire(&self) -> Seq<u8> {
        self.header.wire() + self.rect.wire() + le32(self.scanout_id) + le32(self.resource_id)
            + le32(self.width) + le32(self.height) + le32(self.format) + le32(self._padding)
            + quad_wire(self.strides) + quad_wire(self.offsets)
    }

    open spec fn wire_len() -> nat {
        96
    }

    proof fn wire_has_len(&self) {
        self.header.wire_has_len();
        self.rect.wire_has_len();
    }

    open spec fn is_at(&self, bytes: Seq<u8>, at: int) -> bool {
        &&& self.header.is_at(bytes, at)
        &&& self.rect.is_at(bytes, at + 24)
        &&& self.scanout_id == u32_at(bytes, at + 40)
        &&& self.resource_id == u32_at(bytes, at + 44)
        &&& self.width == u32_at(bytes, at + 48)
        &&& self.height == u32_at(bytes, at + 52)
        &&& self.format == u32_at(bytes, at + 56)
        &&& self._padding == u32_at(bytes, at + 60)
        &&& is_quad_at(self.strides, bytes, at + 64)
        &&& is_quad_at(self.offsets, bytes, at + 80)
    }

    proof fn is_where_written(&self, bytes: Seq<u8>, at: int) {
        self.header.wire_has_len();
        self.rect.wire_has_len();
        let to_1 = self.header.wire();
        let to_2 = to_1 + self.rect.wire();
        let to_3 = to_2 + le32(self.scanout_id);
        let to_4 = to_3 + le32(self.resource_id);
        let to_5 = to_4 + le32(self.width);
        let to_6 = to_5 + le32(self.height);
        let to_7 = to_6 + le32(self.format);
        let to_8 = to_7 + le32(self._padding);
        let to_9 = to_8 + quad_wire(self.strides);
        parts_sit_at(bytes, at, to_9, quad_wire(self.offsets));
        parts_sit_at(bytes, at, to_8, quad_wire(self.strides));
        parts_sit_at(bytes, at, to_7, le32(self._padding));
        parts_sit_at(bytes, at, to_6, le32(self.format));
        parts_sit_at(bytes, at, to_5, le32(self.height));
        parts_sit_at(bytes, at, to_4, le32(self.width));
        parts_sit_at(bytes, at, to_3, le32(self.resource_id));
        parts_sit_at(bytes, at, to_2, le32(self.scanout_id));
        parts_sit_at(bytes, at, to_1, self.rect.wire());
        self.header.is_where_written(bytes, at);
        self.rect.is_where_written(bytes, at + 24);
        u32_reads_back(bytes, at + 40, self.scanout_id);
        u32_reads_back(bytes, at + 44, self.resource_id);
        u32_reads_back(bytes, at + 48, self.width);
        u32_reads_back(bytes, at + 52, self.height);
        u32_reads_back(bytes, at + 56, self.format);
        u32_reads_back(bytes, at + 60, self._padding);
        quad_is_where_written(self.strides, bytes, at + 64);
        quad_is_where_written(self.offsets, bytes, at + 80);
    }

    proof fn is_alone(self, other: Self, bytes: Seq<u8>, at: int) {
        self.header.is_alone(other.header, bytes, at);
        self.rect.is_alone(other.rect, bytes, at + 24);
        assert(self.strides =~= other.strides);
        assert(self.offsets =~= other.offsets);
    }

    fn as_bytes(&self) -> (out: Vec<u8>) {
        let mut out = self.header.as_bytes();
        push_bytes(&mut out, self.rect.as_bytes().as_slice());
        push_u32(&mut out, self.scanout_id);
        push_u32(&mut out, self.resource_id);
        push_u32(&mut out, self.width);
        push_u32(&mut out, self.height);
        push_u32(&mut out, self.format);
        push_u32(&mut out, self._padding);
        push_quad(&mut out, self.strides);
        push_quad(&mut out, self.offsets);
        assert(out@ =~= self.wire());
        out
    }
}

impl FromBytes for SetScanoutBlob {
    fn size() -> (n: usize) {
        96
    }

    fn read_at(bytes: &[u8], at: usize) -> (message: Self) {
        SetScanoutBlob {
            header: CtrlHeader::read_at(bytes, at),
            rect: Rect::read_at(bytes, at + 24),
            scanout_id: read_u32(bytes, at + 40),
            resource_id: read_u32(bytes, at + 44),
            width: read_u32(bytes, at + 48),
            height: read_u32(bytes, at + 52),
            format: read_u32(bytes, at + 56),
            _padding: read_u32(bytes, at + 60),
            strides: read_quad(bytes, at + 64),
            offsets: read_quad(bytes, at + 80),
        }
    }
}

} // verus!
