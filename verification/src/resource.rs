//! Commands on 2D resources.
use crate::bytes::{
    le32, le64, parts_sit_at, push_bytes, push_u32, push_u64, read_u32, read_u64, u32_at,
    u32_reads_back, u64_at, u64_reads_back,
};
use crate::display::Rect;
use crate::header::CtrlHeader;
use crate::wire::{FromBytes, IntoBytes};
use vstd::prelude::*;

verus! {

/// Creates a 2D resource.
#[derive(Debug)]
pub struct ResourceCreate2D {
    pub header: CtrlHeader,
    /// The id that the driver gives to the resource.
    pub resource_id: u32,
    /// The layout of a pixel.
    pub format: Format,
    pub width: u32,
    pub height: u32,
}

impl IntoBytes for ResourceCreate2D {
    open spec fn wire(&self) -> Seq<u8> {
        self.header.wire() + le32(self.resource_id) + self.format.wire() + le32(self.width)
            + le32(self.height)
    }

    open spec fn wire_len() -> nat {
        40
    }

    proof fn wire_has_len(&self) {
        self.header.wire_has_len();
        self.format.wire_has_len();
    }

    open spec fn is_at(&self, bytes: Seq<u8>, at: int) -> bool {
        &&& self.header.is_at(bytes, at)
        &&& self.resource_id == u32_at(bytes, at + 24)
        &&& self.format.is_at(bytes, at + 28)
        &&& self.width == u32_at(bytes, at + 32)
        &&& self.height == u32_at(bytes, at + 36)
    }

    proof fn is_where_written(&self, bytes: Seq<u8>, at: int) {
        self.header.wire_has_len();
        self.format.wire_has_len();
        let to_1 = self.header.wire();
        let to_2 = to_1 + le32(self.resource_id);
        let to_3 = to_2 + self.format.wire();
        let to_4 = to_3 + le32(self.width);
        parts_sit_at(bytes, at, to_4, le32(self.height));
        parts_sit_at(bytes, at, to_3, le32(self.width));
        parts_sit_at(bytes, at, to_2, self.format.wire());
        parts_sit_at(bytes, at, to_1, le32(self.resource_id));
        self.header.is_where_written(bytes, at);
        u32_reads_back(bytes, at + 24, self.resource_id);
        self.format.is_where_written(bytes, at + 28);
        u32_reads_back(bytes, at + 32, self.width);
        u32_reads_back(bytes, at + 36, self.height);
    }

    proof fn is_alone(self, other: Self, bytes: Seq<u8>, at: int) {
        self.header.is_alone(other.header, bytes, at);
        self.format.is_alone(other.format, bytes, at + 28);
    }

    fn as_bytes(&self) -> (out: Vec<u8>) {
        let mut out = self.header.as_bytes();
        push_u32(&mut out, self.resource_id);
        push_bytes(&mut out, self.format.as_bytes().as_slice());
        push_u32(&mut out, self.width);
        push_u32(&mut out, self.height);
        assert(out@ =~= self.wire());
        out
    }
}

/// The layout of a pixel. [`Format::code`] gives the number that stands for it; an `as` cast does
/// not.
#[derive(Clone, Copy, Debug, PartialEq, Eq, Structural)]
pub enum Format {
    B8G8R8A8UNORM,
    B8G8R8X8UNORM,
    A8R8G8B8UNORM,
    X8R8G8B8UNORM,
    R8G8B8A8UNORM,
    X8B8G8R8UNORM,
    A8B8G8R8UNORM,
    R8G8B8X8UNORM,
}

/// The code of a format.
pub open spec fn format_code(format: Format) -> u32 {
    match format {
        Format::B8G8R8A8UNORM => 1,
        Format::B8G8R8X8UNORM => 2,
        Format::A8R8G8B8UNORM => 3,
        Format::X8R8G8B8UNORM => 4,
        Format::R8G8B8A8UNORM => 67,
        Format::X8B8G8R8UNORM => 68,
        Format::A8B8G8R8UNORM => 121,
        Format::R8G8B8X8UNORM => 134,
    }
}

/// Formats with the same code are the same.
pub proof fn codes_tell_formats_apart(first: Format, second: Format)
    requires
        format_code(first) == format_code(second),
    ensures
        first == second,
{
}

impl Format {
    /// The code of the format.
    pub fn code(&self) -> (code: u32)
        ensures
            code == format_code(*self),
    {
        match self {
            Format::B8G8R8A8UNORM => 1,
            Format::B8G8R8X8UNORM => 2,
            Format::A8R8G8B8UNORM => 3,
            Format::X8R8G8B8UNORM => 4,
            Format::R8G8B8A8UNORM => 67,
            Format::X8B8G8R8UNORM => 68,
            Format::A8B8G8R8UNORM => 121,
            Format::R8G8B8X8UNORM => 134,
        }
    }

    /// How many bytes a pixel takes.
    pub fn stride(&self) -> (bytes: usize)
        ensures
            bytes == 4,
    {
        match self {
            Format::B8G8R8A8UNORM => 4,
            Format::B8G8R8X8UNORM => 4,
            Format::A8R8G8B8UNORM => 4,
            Format::X8R8G8B8UNORM => 4,
            Format::R8G8B8A8UNORM => 4,
            Format::X8B8G8R8UNORM => 4,
            Format::A8B8G8R8UNORM => 4,
            Format::R8G8B8X8UNORM => 4,
        }
    }
}

impl IntoBytes for Format {
    open spec fn wire(&self) -> Seq<u8> {
        le32(format_code(*self))
    }

    open spec fn wire_len() -> nat {
        4
    }

    proof fn wire_has_len(&self) {
    }

    open spec fn is_at(&self, bytes: Seq<u8>, at: int) -> bool {
        format_code(*self) == u32_at(bytes, at)
    }

    proof fn is_where_written(&self, bytes: Seq<u8>, at: int) {
        u32_reads_back(bytes, at, format_code(*self));
    }

    proof fn is_alone(self, other: Self, bytes: Seq<u8>, at: int) {
    }

    fn as_bytes(&self) -> (out: Vec<u8>) {
        let mut out: Vec<u8> = Vec::new();
        push_u32(&mut out, self.code());
        assert(out@ =~= self.wire());
        out
    }
}

/// One piece of guest memory that backs a resource.
#[derive(Clone, Copy, Debug)]
pub struct MemEntry {
    /// Its physical address.
    pub addr: u64,
    /// Its length in bytes.
    pub length: u32,
    pub padding: u32,
}

impl IntoBytes for MemEntry {
    open spec fn wire(&self) -> Seq<u8> {
        le64(self.addr) + le32(self.length) + le32(self.padding)
    }

    open spec fn wire_len() -> nat {
        16
    }

    proof fn wire_has_len(&self) {
    }

    open spec fn is_at(&self, bytes: Seq<u8>, at: int) -> bool {
        &&& self.addr == u64_at(bytes, at)
        &&& self.length == u32_at(bytes, at + 8)
        &&& self.padding == u32_at(bytes, at + 12)
    }

    proof fn is_where_written(&self, bytes: Seq<u8>, at: int) {
        let to_1 = le64(self.addr);
        let to_2 = to_1 + le32(self.length);
        parts_sit_at(bytes, at, to_2, le32(self.padding));
        parts_sit_at(bytes, at, to_1, le32(self.length));
        u64_reads_back(bytes, at, self.addr);
        u32_reads_back(bytes, at + 8, self.length);
        u32_reads_back(bytes, at + 12, self.padding);
    }

    proof fn is_alone(self, other: Self, bytes: Seq<u8>, at: int) {
    }

    fn as_bytes(&self) -> (out: Vec<u8>) {
        let mut out: Vec<u8> = Vec::new();
        push_u64(&mut out, self.addr);
        push_u32(&mut out, self.length);
        push_u32(&mut out, self.padding);
        assert(out@ =~= self.wire());
        out
    }
}

impl FromBytes for MemEntry {
    fn size() -> (n: usize) {
        16
    }

    fn read_at(bytes: &[u8], at: usize) -> (message: Self) {
        MemEntry {
            addr: read_u64(bytes, at),
            length: read_u32(bytes, at + 8),
            padding: read_u32(bytes, at + 12),
        }
    }
}

/// Gives a resource its backing; `nr_entries` memory entries follow.
#[derive(Debug)]
pub struct ResourceAttachBacking {
    pub header: CtrlHeader,
    pub resource_id: u32,
    pub nr_entries: u32,
}

impl IntoBytes for ResourceAttachBacking {
    open spec fn wire(&self) -> Seq<u8> {
        self.header.wire() + le32(self.resource_id) + le32(self.nr_entries)
    }

    open spec fn wire_len() -> nat {
        32
    }

    proof fn wire_has_len(&self) {
        self.header.wire_has_len();
    }

    open spec fn is_at(&self, bytes: Seq<u8>, at: int) -> bool {
        &&& self.header.is_at(bytes, at)
        &&& self.resource_id == u32_at(bytes, at + 24)
        &&& self.nr_entries == u32_at(bytes, at + 28)
    }

    proof fn is_where_written(&self, bytes: Seq<u8>, at: int) {
        self.header.wire_has_len();
        let to_1 = self.header.wire();
        let to_2 = to_1 + le32(self.resource_id);
        parts_sit_at(bytes, at, to_2, le32(self.nr_entries));
        parts_sit_at(bytes, at, to_1, le32(self.resource_id));
        self.header.is_where_written(bytes, at);
        u32_reads_back(bytes, at + 24, self.resource_id);
        u32_reads_back(bytes, at + 28, self.nr_entries);
    }

    proof fn is_alone(self, other: Self, bytes: Seq<u8>, at: int) {
        self.header.is_alone(other.header, bytes, at);
    }

    fn as_bytes(&self) -> (out: Vec<u8>) {
        let mut out = self.header.as_bytes();
        push_u32(&mut out, self.resource_id);
        push_u32(&mut out, self.nr_entries);
        assert(out@ =~= self.wire());
        out
    }
}

impl FromBytes for ResourceAttachBacking {
    fn size() -> (n: usize) {
        32
    }

    fn read_at(bytes: &[u8], at: usize) -> (message: Self) {
        ResourceAttachBacking {
            header: CtrlHeader::read_at(bytes, at),
            resource_id: read_u32(bytes, at + 24),
            nr_entries: read_u32(bytes, at + 28),
        }
    }
}

/// Gives a resource a backing of one piece of memory.
#[derive(Debug)]
pub struct ResourceAttachBackingSingleEntry {
    pub header: ResourceAttachBacking,
    pub entry: MemEntry,
}

impl IntoBytes for ResourceAttachBackingSingleEntry {
    open spec fn wire(&self) -> Seq<u8> {
        self.header.wire() + self.entry.wire()
    }

    open spec fn wire_len() -> nat {
        48
    }

    proof fn wire_has_len(&self) {
        self.header.wire_has_len();
        self.entry.wire_has_len();
    }

    open spec fn is_at(&self, bytes: Seq<u8>, at: int) -> bool {
        &&& self.header.is_at(bytes, at)
        &&& self.entry.is_at(bytes, at + 32)
    }

    proof fn is_where_written(&self, bytes: Seq<u8>, at: int) {
        self.header.wire_has_len();
        self.entry.wire_has_len();
        let to_1 = self.header.wire();
        parts_sit_at(bytes, at, to_1, self.entry.wire());
        self.header.is_where_written(bytes, at);
        self.entry.is_where_written(bytes, at + 32);
    }

    proof fn is_alone(self, other: Self, bytes: Seq<u8>, at: int) {
        self.header.is_alone(other.header, bytes, at);
        self.entry.is_alone(other.entry, bytes, at + 32);
    }

    fn as_bytes(&self) -> (out: Vec<u8>) {
        let mut out = self.header.as_bytes();
        push_bytes(&mut out, self.entry.as_bytes().as_slice());
        assert(out@ =~= self.wire());
        out
    }
}

impl FromBytes for ResourceAttachBackingSingleEntry {
    fn size() -> (n: usize) {
        48
    }

    fn read_at(bytes: &[u8], at: usize) -> (message: Self) {
        ResourceAttachBackingSingleEntry {
            header: ResourceAttachBacking::read_at(bytes, at),
            entry: MemEntry::read_at(bytes, at + 32),
        }
    }
}

/// Takes the backing away from a resource.
#[derive(Debug)]
pub struct ResourceDetachBacking {
    pub header: CtrlHeader,
    pub resource_id: u32,
    pub _padding: u32,
}

impl IntoBytes for ResourceDetachBacking {
    open spec fn wire(&self) -> Seq<u8> {
        self.header.wire() + le32(self.resource_id) + le32(self._padding)
    }

    open spec fn wire_len() -> nat {
        32
    }

    proof fn wire_has_len(&self) {
        self.header.wire_has_len();
    }

    open spec fn is_at(&self, bytes: Seq<u8>, at: int) -> bool {
        &&& self.header.is_at(bytes, at)
        &&& self.resource_id == u32_at(bytes, at + 24)
        &&& self._padding == u32_at(bytes, at + 28)
    }

    proof fn is_where_written(&self, bytes: Seq<u8>, at: int) {
        self.header.wire_has_len();
        let to_1 = self.header.wire();
        let to_2 = to_1 + le32(self.resource_id);
        parts_sit_at(bytes, at, to_2, le32(self._padding));
        parts_sit_at(bytes, at, to_1, le32(self.resource_id));
        self.header.is_where_written(bytes, at);
        u32_reads_back(bytes, at + 24, self.resource_id);
        u32_reads_back(bytes, at + 28, self._padding);
    }

    proof fn is_alone(self, other: Self, bytes: Seq<u8>, at: int) {
        self.header.is_alone(other.header, bytes, at);
    }

    fn as_bytes(&self) -> (out: Vec<u8>) {
        let mut out = self.header.as_bytes();
        push_u32(&mut out, self.resource_id);
        push_u32(&mut out, self._padding);
        assert(out@ =~= self.wire());
        out
    }
}

/// Destroys a resource.
#[derive(Debug)]
pub struct ResourceUnref {
    pub header: CtrlHeader,
    pub resource_id: u32,
    pub _padding: u32,
}

impl IntoBytes for ResourceUnref {
    open spec fn wire(&self) -> Seq<u8> {
        self.header.wire() + le32(self.resource_id) + le32(self._padding)
    }

    open spec fn wire_len() -> nat {
        32
    }

    proof fn wire_has_len(&self) {
        self.header.wire_has_len();
    }

    open spec fn is_at(&self, bytes: Seq<u8>, at: int) -> bool {
        &&& self.header.is_at(bytes, at)
        &&& self.resource_id == u32_at(bytes, at + 24)
        &&& self._padding == u32_at(bytes, at + 28)
    }

    proof fn is_where_written(&self, bytes: Seq<u8>, at: int) {
        self.header.wire_has_len();
        let to_1 = self.header.wire();
        let to_2 = to_1 + le32(self.resource_id);
        parts_sit_at(bytes, at, to_2, le32(self._padding));
        parts_sit_at(bytes, at, to_1, le32(self.resource_id));
        self.header.is_where_written(bytes, at);
        u32_reads_back(bytes, at + 24, self.resource_id);
        u32_reads_back(bytes, at + 28, self._padding);
    }

    proof fn is_alone(self, other: Self, bytes: Seq<u8>, at: int) {
        self.header.is_alone(other.header, bytes, at);
    }

    fn as_bytes(&self) -> (out: Vec<u8>) {
        let mut out = self.header.as_bytes();
        push_u32(&mut out, self.resource_id);
        push_u32(&mut out, self._padding);
        assert(out@ =~= self.wire());
        out
    }
}

impl FromBytes for ResourceUnref {
    fn size() -> (n: usize) {
        32
    }

    fn read_at(bytes: &[u8], at: usize) -> (message: Self) {
        ResourceUnref {
            header: CtrlHeader::read_at(bytes, at),
            resource_id: read_u32(bytes, at + 24),
            _padding: read_u32(bytes, at + 28),
        }
    }
}

/// Binds a resource to a scanout.
#[derive(Debug)]
pub struct SetScanout {
    pub header: CtrlHeader,
    /// The display area.
    pub rect: Rect,
    pub scanout_id: u32,
    /// The resource, or 0 to disable the scanout.
    pub resource_id: u32,
}

impl IntoBytes for SetScanout {
    open spec fn wire(&self) -> Seq<u8> {
        self.header.wire() + self.rect.wire() + le32(self.scanout_id) + le32(self.resource_id)
    }

    open spec fn wire_len() -> nat {
        48
    }

    proof fn wire_has_len(&self) {
        self.header.wire_has_len();
        self.rect.wire_has_len();
    }

    open spec fn is_at(&self, bytes: Seq<u8>, at: int) -> bool {
        &&& self.header.is_at(bytes, at)
        &&& self.rect.is_at(bytes, at + 24)
        &&& self.scanout_id == u32_at(bytes, at + 40)
        &&& self.resource_id == u32_at(bytes, at + 44)
    }

    proof fn is_where_written(&self, bytes: Seq<u8>, at: int) {
        self.header.wire_has_len();
        self.rect.wire_has_len();
        let to_1 = self.header.wire();
        let to_2 = to_1 + self.rect.wire();
        let to_3 = to_2 + le32(self.scanout_id);
        parts_sit_at(bytes, at, to_3, le32(self.resource_id));
        parts_sit_at(bytes, at, to_2, le32(self.scanout_id));
        parts_sit_at(bytes, at, to_1, self.rect.wire());
        self.header.is_where_written(bytes, at);
        self.rect.is_where_written(bytes, at + 24);
        u32_reads_back(bytes, at + 40, self.scanout_id);
        u32_reads_back(bytes, at + 44, self.resource_id);
    }

    proof fn is_alone(self, other: Self, bytes: Seq<u8>, at: int) {
        self.header.is_alone(other.header, bytes, at);
        self.rect.is_alone(other.rect, bytes, at + 24);
    }

    fn as_bytes(&self) -> (out: Vec<u8>) {
        let mut out = self.header.as_bytes();
        push_bytes(&mut out, self.rect.as_bytes().as_slice());
        push_u32(&mut out, self.scanout_id);
        push_u32(&mut out, self.resource_id);
        assert(out@ =~= self.wire());
        out
    }
}

/// Copies a part of the backing of a resource to the host.
#[derive(Debug)]
pub struct TransferToHost2D {
    pub header: CtrlHeader,
    /// The area that is copied.
    pub rect: Rect,
    /// Where the area starts in the backing.
    pub offset: u64,
    pub resource_id: u32,
    pub _padding: u32,
}

impl IntoBytes for TransferToHost2D {
    open spec fn wire(&self) -> Seq<u8> {
        self.header.wire() + self.rect.wire() + le64(self.offset) + le32(self.resource_id)
            + le32(self._padding)
    }

    open spec fn wire_len() -> nat {
        56
    }

    proof fn wire_has_len(&self) {
        self.header.wire_has_len();
        self.rect.wire_has_len();
    }

    open spec fn is_at(&self, bytes: Seq<u8>, at: int) -> bool {
        &&& self.header.is_at(bytes, at)
        &&& self.rect.is_at(bytes, at + 24)
        &&& self.offset == u64_at(bytes, at + 40)
        &&& self.resource_id == u32_at(bytes, at + 48)
        &&& self._padding == u32_at(bytes, at + 52)
    }

    proof fn is_where_written(&self, bytes: Seq<u8>, at: int) {
        self.header.wire_has_len();
        self.rect.wire_has_len();
        let to_1 = self.header.wire();
        let to_2 = to_1 + self.rect.wire();
        let to_3 = to_2 + le64(self.offset);
        let to_4 = to_3 + le32(self.resource_id);
        parts_sit_at(bytes, at, to_4, le32(self._padding));
        parts_sit_at(bytes, at, to_3, le32(self.resource_id));
        parts_sit_at(bytes, at, to_2, le64(self.offset));
        parts_sit_at(bytes, at, to_1, self.rect.wire());
        self.header.is_where_written(bytes, at);
        self.rect.is_where_written(bytes, at + 24);
        u64_reads_back(bytes, at + 40, self.offset);
        u32_reads_back(bytes, at + 48, self.resource_id);
        u32_reads_back(bytes, at + 52, self._padding);
    }

    proof fn is_alone(self, other: Self, bytes: Seq<u8>, at: int) {
        self.header.is_alone(other.header, bytes, at);
        self.rect.is_alone(other.rect, bytes, at + 24);
    }

    fn as_bytes(&self) -> (out: Vec<u8>) {
        let mut out = self.header.as_bytes();
        push_bytes(&mut out, self.rect.as_bytes().as_slice());
        push_u64(&mut out, self.offset);
        push_u32(&mut out, self.resource_id);
        push_u32(&mut out, self._padding);
        assert(out@ =~= self.wire());
        out
    }
}

/// Shows a part of a resource on the scanouts that it is bound to.
#[derive(Debug)]
pub struct ResourceFlush {
    pub header: CtrlHeader,
    /// The area to refresh.
    pub rect: Rect,
    pub resource_id: u32,
    pub _padding: u32,
}

impl IntoBytes for ResourceFlush {
    open spec fn wire(&self) -> Seq<u8> {
        self.header.wire() + self.rect.wire() + le32(self.resource_id) + le32(self._padding)
    }

    open spec fn wire_len() -> nat {
        48
    }

    proof fn wire_has_len(&self) {
        self.header.wire_has_len();
        self.rect.wire_has_len();
    }

    open spec fn is_at(&self, bytes: Seq<u8>, at: int) -> bool {
        &&& self.header.is_at(bytes, at)
        &&& self.rect.is_at(bytes, at + 24)
        &&& self.resource_id == u32_at(bytes, at + 40)
        &&& self._padding == u32_at(bytes, at + 44)
    }

    proof fn is_where_written(&self, bytes: Seq<u8>, at: int) {
        self.header.wire_has_len();
        self.rect.wire_has_len();
        let to_1 = self.header.wire();
        let to_2 = to_1 + self.rect.wire();
        let to_3 = to_2 + le32(self.resource_id);
        parts_sit_at(bytes, at, to_3, le32(self._padding));
        parts_sit_at(bytes, at, to_2, le32(self.resource_id));
        parts_sit_at(bytes, at, to_1, self.rect.wire());
        self.header.is_where_written(bytes, at);
        self.rect.is_where_written(bytes, at + 24);
        u32_reads_back(bytes, at + 40, self.resource_id);
        u32_reads_back(bytes, at + 44, self._padding);
    }

    proof fn is_alone(self, other: Self, bytes: Seq<u8>, at: int) {
        self.header.is_alone(other.header, bytes, at);
        self.rect.is_alone(other.rect, bytes, at + 24);
    }

    fn as_bytes(&self) -> (out: Vec<u8>) {
        let mut out = self.header.as_bytes();
        push_bytes(&mut out, self.rect.as_bytes().as_slice());
        push_u32(&mut out, self.resource_id);
        push_u32(&mut out, self._padding);
        assert(out@ =~= self.wire());
        out
    }
}

} // verus!
