//! The header of control messages.
use crate::bytes::{
    byte_at, bytes_at, le32, le64, parts_sit_at, push_bytes, push_u32, push_u64, read_array,
    read_u32, read_u64, read_u8, u32_at, u32_reads_back, u64_at, u64_reads_back,
};
use crate::command::Command;
use crate::error::Error;
use crate::wire::{FromBytes, IntoBytes};
use vstd::prelude::*;

verus! {

/// The message carries a fence.
pub const GPU_FLAG_FENCE: u32 = 1;

/// The message names the ring that its fence belongs to.
pub const GPU_FLAG_RING_INDEX: u32 = 2;

/// The header that every control message starts with.
#[derive(Clone, Copy, Debug)]
pub struct CtrlHeader {
    /// What the message asks for or answers.
    pub hdr_type: Command,
    /// A combination of the `GPU_FLAG_` bits.
    pub flags: u32,
    /// The fence that the device signals, with `GPU_FLAG_FENCE`.
    pub fence_id: u64,
    /// The rendering context of a 3D command.
    pub ctx_id: u32,
    /// Ring index for the fence. Only used with `GPU_FLAG_RING_INDEX` set in `flags`.
    pub ring_idx: u8,
    pub _padding: [u8; 3],
}

impl IntoBytes for CtrlHeader {
    open spec fn wire(&self) -> Seq<u8> {
        self.hdr_type.wire() + le32(self.flags) + le64(self.fence_id) + le32(self.ctx_id)
            + seq![self.ring_idx] + self._padding@
    }

    open spec fn wire_len() -> nat {
        24
    }

    proof fn wire_has_len(&self) {
        self.hdr_type.wire_has_len();
    }

    open spec fn is_at(&self, bytes: Seq<u8>, at: int) -> bool {
        &&& self.hdr_type.is_at(bytes, at)
        &&& self.flags == u32_at(bytes, at + 4)
        &&& self.fence_id == u64_at(bytes, at + 8)
        &&& self.ctx_id == u32_at(bytes, at + 16)
        &&& self.ring_idx == byte_at(bytes, at + 20)
        &&& self._padding@ == bytes_at(bytes, at + 21, 3)
    }

    proof fn is_where_written(&self, bytes: Seq<u8>, at: int) {
        self.hdr_type.wire_has_len();
        let to_1 = self.hdr_type.wire();
        let to_2 = to_1 + le32(self.flags);
        let to_3 = to_2 + le64(self.fence_id);
        let to_4 = to_3 + le32(self.ctx_id);
        let to_5 = to_4 + seq![self.ring_idx];
        parts_sit_at(bytes, at, to_5, self._padding@);
        parts_sit_at(bytes, at, to_4, seq![self.ring_idx]);
        parts_sit_at(bytes, at, to_3, le32(self.ctx_id));
        parts_sit_at(bytes, at, to_2, le64(self.fence_id));
        parts_sit_at(bytes, at, to_1, le32(self.flags));
        self.hdr_type.is_where_written(bytes, at);
        u32_reads_back(bytes, at + 4, self.flags);
        u64_reads_back(bytes, at + 8, self.fence_id);
        u32_reads_back(bytes, at + 16, self.ctx_id);
        assert(byte_at(bytes, at + 20 + 0) == seq![self.ring_idx][0]);
        assert(self._padding@ =~= bytes_at(bytes, at + 21, 3));
    }

    proof fn is_alone(self, other: Self, bytes: Seq<u8>, at: int) {
        self.hdr_type.is_alone(other.hdr_type, bytes, at);
        assert(self._padding =~= other._padding);
    }

    fn as_bytes(&self) -> (out: Vec<u8>) {
        let mut out = self.hdr_type.as_bytes();
        push_u32(&mut out, self.flags);
        push_u64(&mut out, self.fence_id);
        push_u32(&mut out, self.ctx_id);
        out.push(self.ring_idx);
        push_bytes(&mut out, self._padding.as_slice());
        assert(out@ =~= self.wire());
        out
    }
}

impl FromBytes for CtrlHeader {
    fn size() -> (n: usize) {
        24
    }

    fn read_at(bytes: &[u8], at: usize) -> (message: Self) {
        CtrlHeader {
            hdr_type: Command::read_at(bytes, at),
            flags: read_u32(bytes, at + 4),
            fence_id: read_u64(bytes, at + 8),
            ctx_id: read_u32(bytes, at + 16),
            ring_idx: read_u8(bytes, at + 20),
            _padding: read_array::<3>(bytes, at + 21),
        }
    }
}

impl CtrlHeader {
    /// A header of the given type, without context and without fence.
    pub fn with_type(hdr_type: Command) -> (header: CtrlHeader)
        ensures
            header == plain_header(hdr_type),
    {
        let header = CtrlHeader {
            hdr_type,
            flags: 0,
            fence_id: 0,
            ctx_id: 0,
            ring_idx: 0,
            _padding: [0; 3],
        };
        assert(header._padding =~= [0, 0, 0]);
        header
    }

    /// A header of the given type for the rendering context `ctx_id`.
    ///
    /// Used for 3D commands that target a specific rendering context.
    pub fn with_type_and_ctx(hdr_type: Command, ctx_id: u32) -> (header: CtrlHeader)
        ensures
            header == ctx_header(hdr_type, ctx_id),
    {
        let header = CtrlHeader {
            hdr_type,
            flags: 0,
            fence_id: 0,
            ctx_id,
            ring_idx: 0,
            _padding: [0; 3],
        };
        assert(header._padding =~= [0, 0, 0]);
        header
    }

    /// A header of the given type for the rendering context `ctx_id`, with a fence.
    ///
    /// Used to have the device signal that it has processed a command stream.
    pub fn with_fence(hdr_type: Command, ctx_id: u32, fence_id: u64) -> (header: CtrlHeader)
        ensures
            header == fence_header(hdr_type, ctx_id, fence_id),
    {
        let header = CtrlHeader {
            hdr_type,
            flags: GPU_FLAG_FENCE,
            fence_id,
            ctx_id,
            ring_idx: 0,
            _padding: [0; 3],
        };
        assert(header._padding =~= [0, 0, 0]);
        header
    }

    /// Returns an error if the type is not the expected one.
    pub fn check_type(&self, expected: Command) -> (r: Result<(), Error>)
        ensures
            r == if self.hdr_type == expected {
                Ok::<(), Error>(())
            } else {
                Err::<(), Error>(Error::IoError)
            },
    {
        if self.hdr_type == expected {
            Ok(())
        } else {
            Err(Error::IoError)
        }
    }
}

/// A header that says nothing but its type.
pub open spec fn plain_header(hdr_type: Command) -> CtrlHeader {
    ctx_header(hdr_type, 0)
}

/// A header for a rendering context.
pub open spec fn ctx_header(hdr_type: Command, ctx_id: u32) -> CtrlHeader {
    CtrlHeader { hdr_type, flags: 0, fence_id: 0, ctx_id, ring_idx: 0, _padding: [0, 0, 0] }
}

/// A header for a rendering context, with a fence.
pub open spec fn fence_header(hdr_type: Command, ctx_id: u32, fence_id: u64) -> CtrlHeader {
    CtrlHeader {
        hdr_type,
        flags: GPU_FLAG_FENCE,
        fence_id,
        ctx_id,
        ring_idx: 0,
        _padding: [0, 0, 0],
    }
}

} // verus!
