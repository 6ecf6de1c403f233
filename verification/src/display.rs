//! Display modes, and what the device tells about its displays.
use crate::bytes::{
    bytes_at, le32, parts_sit_at, push_bytes, push_u32, read_array, read_u32, sits_at, u32_at,
    u32_reads_back,
};
use crate::header::CtrlHeader;
use crate::wire::{FromBytes, IntoBytes};
use vstd::prelude::*;

verus! {

/// Rectangle region used by 2D operations (scanout, flush, transfer).
#[derive(Clone, Copy, Debug)]
pub struct Rect {
    /// X offset.
    pub x: u32,
    /// Y offset.
    pub y: u32,
    /// Width in pixels.
    pub width: u32,
    /// Height in pixels.
    pub height: u32,
}

impl IntoBytes for Rect {
    open spec fn wire(&self) -> Seq<u8> {
        le32(self.x) + le32(self.y) + le32(self.width) + le32(self.height)
    }

    open spec fn wire_len() -> nat {
        16
    }

    proof fn wire_has_len(&self) {
    }

    open spec fn is_at(&self, bytes: Seq<u8>, at: int) -> bool {
        &&& self.x == u32_at(bytes, at)
        &&& self.y == u32_at(bytes, at + 4)
        &&& self.width == u32_at(bytes, at + 8)
        &&& self.height == u32_at(bytes, at + 12)
    }

    proof fn is_where_written(&self, bytes: Seq<u8>, at: int) {
        let to_1 = le32(self.x);
        let to_2 = to_1 + le32(self.y);
        let to_3 = to_2 + le32(self.width);
        parts_sit_at(bytes, at, to_3, le32(self.height));
        parts_sit_at(bytes, at, to_2, le32(self.width));
        parts_sit_at(bytes, at, to_1, le32(self.y));
        u32_reads_back(bytes, at, self.x);
        u32_reads_back(bytes, at + 4, self.y);
        u32_reads_back(bytes, at + 8, self.width);
        u32_reads_back(bytes, at + 12, self.height);
    }

    proof fn is_alone(self, other: Self, bytes: Seq<u8>, at: int) {
    }

    fn as_bytes(&self) -> (out: Vec<u8>) {
        let mut out: Vec<u8> = Vec::new();
        push_u32(&mut out, self.x);
        push_u32(&mut out, self.y);
        push_u32(&mut out, self.width);
        push_u32(&mut out, self.height);
        assert(out@ =~= self.wire());
        out
    }
}

impl FromBytes for Rect {
    fn size() -> (n: usize) {
        16
    }

    fn read_at(bytes: &[u8], at: usize) -> (message: Self) {
        Rect {
            x: read_u32(bytes, at),
            y: read_u32(bytes, at + 4),
            width: read_u32(bytes, at + 8),
            height: read_u32(bytes, at + 12),
        }
    }
}

impl Default for Rect {
    fn default() -> (rect: Rect)
        ensures
            rect == (Rect { x: 0, y: 0, width: 0, height: 0 }),
    {
        Rect { x: 0, y: 0, width: 0, height: 0 }
    }
}

/// One display mode, that of one scanout.
#[derive(Clone, Copy, Debug)]
pub struct DisplayOne {
    /// Position and size.
    pub rect: Rect,
    /// Not zero if the scanout is enabled.
    pub enabled: u32,
    pub flags: u32,
}

impl IntoBytes for DisplayOne {
    open spec fn wire(&self) -> Seq<u8> {
        self.rect.wire() + le32(self.enabled) + le32(self.flags)
    }

    open spec fn wire_len() -> nat {
        24
    }

    proof fn wire_has_len(&self) {
        self.rect.wire_has_len();
    }

    open spec fn is_at(&self, bytes: Seq<u8>, at: int) -> bool {
        &&& self.rect.is_at(bytes, at)
        &&& self.enabled == u32_at(bytes, at + 16)
        &&& self.flags == u32_at(bytes, at + 20)
    }

    proof fn is_where_written(&self, bytes: Seq<u8>, at: int) {
        self.rect.wire_has_len();
        let to_1 = self.rect.wire();
        let to_2 = to_1 + le32(self.enabled);
        parts_sit_at(bytes, at, to_2, le32(self.flags));
        parts_sit_at(bytes, at, to_1, le32(self.enabled));
        self.rect.is_where_written(bytes, at);
        u32_reads_back(bytes, at + 16, self.enabled);
        u32_reads_back(bytes, at + 20, self.flags);
    }

    proof fn is_alone(self, other: Self, bytes: Seq<u8>, at: int) {
        self.rect.is_alone(other.rect, bytes, at);
    }

    fn as_bytes(&self) -> (out: Vec<u8>) {
        let mut out = self.rect.as_bytes();
        push_u32(&mut out, self.enabled);
        push_u32(&mut out, self.flags);
        assert(out@ =~= self.wire());
        out
    }
}

impl FromBytes for DisplayOne {
    fn size() -> (n: usize) {
        24
    }

    fn read_at(bytes: &[u8], at: usize) -> (message: Self) {
        DisplayOne {
            rect: Rect::read_at(bytes, at),
            enabled: read_u32(bytes, at + 16),
            flags: read_u32(bytes, at + 20),
        }
    }
}

impl Default for DisplayOne {
    fn default() -> (mode: DisplayOne)
        ensures
            mode == (DisplayOne {
                rect: Rect { x: 0, y: 0, width: 0, height: 0 },
                enabled: 0,
                flags: 0,
            }),
    {
        DisplayOne { rect: Rect::default(), enabled: 0, flags: 0 }
    }
}

/// How many scanouts a device can have.
pub const VIRTIO_GPU_MAX_SCANOUTS: usize = 16;

/// The display modes of all scanouts.
#[derive(Clone, Copy, Debug)]
pub struct RespDisplayInfo {
    pub header: CtrlHeader,
    /// The mode of each scanout.
    pub pmodes: [DisplayOne; VIRTIO_GPU_MAX_SCANOUTS],
}

/// The bytes of display modes that follow each other.
pub open spec fn modes_wire(modes: Seq<DisplayOne>) -> Seq<u8>
    decreases modes.len(),
{
    if modes.len() == 0 {
        seq![]
    } else {
        modes_wire(modes.drop_last()) + modes.last().wire()
    }
}

/// Display modes take 24 bytes each.
proof fn modes_wire_len(modes: Seq<DisplayOne>)
    ensures
        modes_wire(modes).len() == 24 * modes.len(),
    decreases modes.len(),
{
    if modes.len() > 0 {
        modes_wire_len(modes.drop_last());
        modes.last().wire_has_len();
    }
}

/// Display modes that follow each other stand 24 bytes apart.
proof fn mode_sits_at(bytes: Seq<u8>, at: int, modes: Seq<DisplayOne>, i: int)
    requires
        sits_at(bytes, at, modes_wire(modes)),
        0 <= i < modes.len(),
    ensures
        sits_at(bytes, at + 24 * i, modes[i].wire()),
    decreases modes.len(),
{
    modes_wire_len(modes.drop_last());
    parts_sit_at(bytes, at, modes_wire(modes.drop_last()), modes.last().wire());
    if i < modes.len() - 1 {
        mode_sits_at(bytes, at, modes.drop_last(), i);
    }
}

impl IntoBytes for RespDisplayInfo {
    open spec fn wire(&self) -> Seq<u8> {
        self.header.wire() + modes_wire(self.pmodes@)
    }

    open spec fn wire_len() -> nat {
        408
    }

    proof fn wire_has_len(&self) {
        self.header.wire_has_len();
        modes_wire_len(self.pmodes@);
    }

    open spec fn is_at(&self, bytes: Seq<u8>, at: int) -> bool {
        &&& self.header.is_at(bytes, at)
        &&& forall|i: int|
            0 <= i < VIRTIO_GPU_MAX_SCANOUTS ==> (#[trigger] self.pmodes@[i]).is_at(
                bytes,
                at + 24 + 24 * i,
            )
    }

    proof fn is_where_written(&self, bytes: Seq<u8>, at: int) {
        self.header.wire_has_len();
        parts_sit_at(bytes, at, self.header.wire(), modes_wire(self.pmodes@));
        self.header.is_where_written(bytes, at);
        assert forall|i: int| 0 <= i < VIRTIO_GPU_MAX_SCANOUTS implies (
        #[trigger] self.pmodes@[i]).is_at(bytes, at + 24 + 24 * i) by {
            mode_sits_at(bytes, at + 24, self.pmodes@, i);
            self.pmodes@[i].is_where_written(bytes, at + 24 + 24 * i);
        }
    }

    proof fn is_alone(self, other: Self, bytes: Seq<u8>, at: int) {
        self.header.is_alone(other.header, bytes, at);
        assert forall|i: int| 0 <= i < VIRTIO_GPU_MAX_SCANOUTS implies self.pmodes@[i]
            == other.pmodes@[i] by {
            self.pmodes@[i].is_alone(other.pmodes@[i], bytes, at + 24 + 24 * i);
        }
        assert(self.pmodes =~= other.pmodes);
    }

    fn as_bytes(&self) -> (out: Vec<u8>) {
        let mut out = self.header.as_bytes();
        let mut i: usize = 0;
        assert(out@ =~= self.header.wire() + modes_wire(self.pmodes@.take(0)));
        while i < VIRTIO_GPU_MAX_SCANOUTS
            invariant
                i <= VIRTIO_GPU_MAX_SCANOUTS,
                self.pmodes@.len() == VIRTIO_GPU_MAX_SCANOUTS,
                out@ == self.header.wire() + modes_wire(self.pmodes@.take(i as int)),
            decreases VIRTIO_GPU_MAX_SCANOUTS - i,
        {
            push_bytes(&mut out, self.pmodes[i].as_bytes().as_slice());
            assert(self.pmodes@.take(i + 1).drop_last() =~= self.pmodes@.take(i as int));
            assert(out@ =~= self.header.wire() + modes_wire(self.pmodes@.take(i + 1)));
            i += 1;
        }
        assert(self.pmodes@.take(i as int) =~= self.pmodes@);
        out
    }
}

impl FromBytes for RespDisplayInfo {
    fn size() -> (n: usize) {
        408
    }

    fn read_at(bytes: &[u8], at: usize) -> (message: Self) {
        let header = CtrlHeader::read_at(bytes, at);
        let mut pmodes: [DisplayOne; VIRTIO_GPU_MAX_SCANOUTS] =
            [DisplayOne::default(); VIRTIO_GPU_MAX_SCANOUTS];
        let mut i: usize = 0;
        while i < VIRTIO_GPU_MAX_SCANOUTS
            invariant
                i <= VIRTIO_GPU_MAX_SCANOUTS,
                at + 408 <= usize::MAX,
                pmodes@.len() == VIRTIO_GPU_MAX_SCANOUTS,
                forall|k: int|
                    0 <= k < i ==> (#[trigger] pmodes@[k]).is_at(bytes@, at + 24 + 24 * k),
            decreases VIRTIO_GPU_MAX_SCANOUTS - i,
        {
            pmodes[i] = DisplayOne::read_at(bytes, at + 24 + 24 * i);
            i += 1;
        }
        RespDisplayInfo { header, pmodes }
    }
}

/// Asks for the EDID data of a scanout.
#[derive(Debug)]
pub struct CmdGetEdid {
    pub header: CtrlHeader,
    /// The scanout that is asked about.
    pub scanout: u32,
    pub _padding: u32,
}

impl IntoBytes for CmdGetEdid {
    open spec fn wire(&self) -> Seq<u8> {
        self.header.wire() + le32(self.scanout) + le32(self._padding)
    }

    open spec fn wire_len() -> nat {
        32
    }

    proof fn wire_has_len(&self) {
        self.header.wire_has_len();
    }

    open spec fn is_at(&self, bytes: Seq<u8>, at: int) -> bool {
        &&& self.header.is_at(bytes, at)
        &&& self.scanout == u32_at(bytes, at + 24)
        &&& self._padding == u32_at(bytes, at + 28)
    }

    proof fn is_where_written(&self, bytes: Seq<u8>, at: int) {
        self.header.wire_has_len();
        let to_1 = self.header.wire();
        let to_2 = to_1 + le32(self.scanout);
        parts_sit_at(bytes, at, to_2, le32(self._padding));
        parts_sit_at(bytes, at, to_1, le32(self.scanout));
        self.header.is_where_written(bytes, at);
        u32_reads_back(bytes, at + 24, self.scanout);
        u32_reads_back(bytes, at + 28, self._padding);
    }

    proof fn is_alone(self, other: Self, bytes: Seq<u8>, at: int) {
        self.header.is_alone(other.header, bytes, at);
    }

    fn as_bytes(&self) -> (out: Vec<u8>) {
        let mut out = self.header.as_bytes();
        push_u32(&mut out, self.scanout);
        push_u32(&mut out, self._padding);
        assert(out@ =~= self.wire());
        out
    }
}

/// The EDID data of a scanout.
#[derive(Debug)]
pub struct RespEdid {
    pub header: CtrlHeader,
    /// How many bytes of `edid` the device filled.
    pub size: u32,
    pub _padding: u32,
    /// The EDID blob.
    pub edid: [u8; 1024],
}

impl IntoBytes for RespEdid {
    open spec fn wire(&self) -> Seq<u8> {
        self.header.wire() + le32(self.size) + le32(self._padding) + self.edid@
    }

    open spec fn wire_len() -> nat {
        1056
    }

    proof fn wire_has_len(&self) {
        self.header.wire_has_len();
    }

    open spec fn is_at(&self, bytes: Seq<u8>, at: int) -> bool {
        &&& self.header.is_at(bytes, at)
        &&& self.size == u32_at(bytes, at + 24)
        &&& self._padding == u32_at(bytes, at + 28)
        &&& self.edid@ == bytes_at(bytes, at + 32, 1024)
    }

    proof fn is_where_written(&self, bytes: Seq<u8>, at: int) {
        self.header.wire_has_len();
        let to_1 = self.header.wire();
        let to_2 = to_1 + le32(self.size);
        let to_3 = to_2 + le32(self._padding);
        parts_sit_at(bytes, at, to_3, self.edid@);
        parts_sit_at(bytes, at, to_2, le32(self._padding));
        parts_sit_at(bytes, at, to_1, le32(self.size));
        self.header.is_where_written(bytes, at);
        u32_reads_back(bytes, at + 24, self.size);
        u32_reads_back(bytes, at + 28, self._padding);
        assert(self.edid@ =~= bytes_at(bytes, at + 32, 1024));
    }

    proof fn is_alone(self, other: Self, bytes: Seq<u8>, at: int) {
        self.header.is_alone(other.header, bytes, at);
        assert(self.edid =~= other.edid);
    }

    fn as_bytes(&self) -> (out: Vec<u8>) {
        let mut out = self.header.as_bytes();
        push_u32(&mut out, self.size);
        push_u32(&mut out, self._padding);
        push_bytes(&mut out, self.edid.as_slice());
        assert(out@ =~= self.wire());
        out
    }
}

impl FromBytes for RespEdid {
    fn size() -> (n: usize) {
        1056
    }

    fn read_at(bytes: &[u8], at: usize) -> (message: Self) {
        RespEdid {
            header: CtrlHeader::read_at(bytes, at),
            size: read_u32(bytes, at + 24),
            _padding: read_u32(bytes, at + 28),
            edid: read_array::<1024>(bytes, at + 32),
        }
    }
}

} // verus!
