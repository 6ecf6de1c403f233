//! Pointer commands.
use crate::bytes::{le32, parts_sit_at, push_bytes, push_u32, u32_at, u32_reads_back};
use crate::header::CtrlHeader;
use crate::wire::IntoBytes;
use vstd::prelude::*;

verus! {

/// A position of the pointer.
#[derive(Clone, Copy, Debug)]
pub struct CursorPos {
    pub scanout_id: u32,
    pub x: u32,
    pub y: u32,
    pub _padding: u32,
}

impl IntoBytes for CursorPos {
    open spec fn wire(&self) -> Seq<u8> {
        le32(self.scanout_id) + le32(self.x) + le32(self.y) + le32(self._padding)
    }

    open spec fn wire_len() -> nat {
        16
    }

    proof fn wire_has_len(&self) {
    }

    open spec fn is_at(&self, bytes: Seq<u8>, at: int) -> bool {
        &&& self.scanout_id == u32_at(bytes, at)
        &&& self.x == u32_at(bytes, at + 4)
        &&& self.y == u32_at(bytes, at + 8)
        &&& self._padding == u32_at(bytes, at + 12)
    }

    proof fn is_where_written(&self, bytes: Seq<u8>, at: int) {
        let to_1 = le32(self.scanout_id);
        let to_2 = to_1 + le32(self.x);
        let to_3 = to_2 + le32(self.y);
        parts_sit_at(bytes, at, to_3, le32(self._padding));
        parts_sit_at(bytes, at, to_2, le32(self.y));
        parts_sit_at(bytes, at, to_1, le32(self.x));
        u32_reads_back(bytes, at, self.scanout_id);
        u32_reads_back(bytes, at + 4, self.x);
        u32_reads_back(bytes, at + 8, self.y);
        u32_reads_back(bytes, at + 12, self._padding);
    }

    proof fn is_alone(self, other: Self, bytes: Seq<u8>, at: int) {
    }

    fn as_bytes(&self) -> (out: Vec<u8>) {
        let mut out: Vec<u8> = Vec::new();
        push_u32(&mut out, self.scanout_id);
        push_u32(&mut out, self.x);
        push_u32(&mut out, self.y);
        push_u32(&mut out, self._padding);
        assert(out@ =~= self.wire());
        out
    }
}

/// Sets or moves the pointer.
#[derive(Clone, Copy, Debug)]
pub struct UpdateCursor {
    pub header: CtrlHeader,
    pub pos: CursorPos,
    /// The resource that holds the pointer image.
    pub resource_id: u32,
    /// X offset of the hot spot.
    pub hot_x: u32,
    /// Y offset of the hot spot.
    pub hot_y: u32,
    pub _padding: u32,
}

impl IntoBytes for UpdateCursor {
    open spec fn wire(&self) -> Seq<u8> {
        self.header.wire() + self.pos.wire() + le32(self.resource_id) + le32(self.hot_x)
            + le32(self.hot_y) + le32(self._padding)
    }

    open spec fn wire_len() -> nat {
        56
    }

    proof fn wire_has_len(&self) {
        self.header.wire_has_len();
        self.pos.wire_has_len();
    }

    open spec fn is_at(&self, bytes: Seq<u8>, at: int) -> bool {
        &&& self.header.is_at(bytes, at)
        &&& self.pos.is_at(bytes, at + 24)
        &&& self.resource_id == u32_at(bytes, at + 40)
        &&& self.hot_x == u32_at(bytes, at + 44)
        &&& self.hot_y == u32_at(bytes, at + 48)
        &&& self._padding == u32_at(bytes, at + 52)
    }

    proof fn is_where_written(&self, bytes: Seq<u8>, at: int) {
        self.header.wire_has_len();
        self.pos.wire_has_len();
        let to_1 = self.header.wire();
        let to_2 = to_1 + self.pos.wire();
        let to_3 = to_2 + le32(self.resource_id);
        let to_4 = to_3 + le32(self.hot_x);
        let to_5 = to_4 + le32(self.hot_y);
        parts_sit_at(bytes, at, to_5, le32(self._padding));
        parts_sit_at(bytes, at, to_4, le32(self.hot_y));
        parts_sit_at(bytes, at, to_3, le32(self.hot_x));
        parts_sit_at(bytes, at, to_2, le32(self.resource_id));
        parts_sit_at(bytes, at, to_1, self.pos.wire());
        self.header.is_where_written(bytes, at);
        self.pos.is_where_written(bytes, at + 24);
        u32_reads_back(bytes, at + 40, self.resource_id);
        u32_reads_back(bytes, at + 44, self.hot_x);
        u32_reads_back(bytes, at + 48, self.hot_y);
        u32_reads_back(bytes, at + 52, self._padding);
    }

    proof fn is_alone(self, other: Self, bytes: Seq<u8>, at: int) {
        self.header.is_alone(other.header, bytes, at);
        self.pos.is_alone(other.pos, bytes, at + 24);
    }

    fn as_bytes(&self) -> (out: Vec<u8>) {
        let mut out = self.header.as_bytes();
        push_bytes(&mut out, self.pos.as_bytes().as_slice());
        push_u32(&mut out, self.resource_id);
        push_u32(&mut out, self.hot_x);
        push_u32(&mut out, self.hot_y);
        push_u32(&mut out, self._padding);
        assert(out@ =~= self.wire());
        out
    }
}

} // verus!
