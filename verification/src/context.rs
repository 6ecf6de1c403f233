//! 3D commands: capsets, rendering contexts, 3D resources and command streams.
use crate::bytes::{
    bytes_at, le32, le64, parts_sit_at, push_bytes, push_u32, push_u64, read_u32, u32_at,
    u32_reads_back, u64_at, u64_reads_back,
};
use crate::header::CtrlHeader;
use crate::wire::{FromBytes, IntoBytes};
use vstd::prelude::*;

verus! {

/// 3D box used by transfers of 3D resources.
///
/// Describes a sub-region of a 3D texture.
#[derive(Clone, Copy, Debug)]
pub struct GpuBox {
    /// X offset within the resource.
    pub x: u32,
    /// Y offset within the resource.
    pub y: u32,
    /// Z offset within the resource.
    pub z: u32,
    /// Width of the sub-region.
    pub w: u32,
    /// Height of the sub-region.
    pub h: u32,
    /// Depth of the sub-region.
    pub d: u32,
}

impl IntoBytes for GpuBox {
    open spec fn wire(&self) -> Seq<u8> {
        le32(self.x) + le32(self.y) + le32(self.z) + le32(self.w) + le32(self.h) + le32(self.d)
    }

    open spec fn wire_len() -> nat {
        24
    }

    proof fn wire_has_len(&self) {
    }

    open spec fn is_at(&self, bytes: Seq<u8>, at: int) -> bool {
        &&& self.x == u32_at(bytes, at)
        &&& self.y == u32_at(bytes, at + 4)
        &&& self.z == u32_at(bytes, at + 8)
        &&& self.w == u32_at(bytes, at + 12)
        &&& self.h == u32_at(bytes, at + 16)
        &&& self.d == u32_at(bytes, at + 20)
    }

    proof fn is_where_written(&self, bytes: Seq<u8>, at: int) {
        let to_1 = le32(self.x);
        let to_2 = to_1 + le32(self.y);
        let to_3 = to_2 + le32(self.z);
        let to_4 = to_3 + le32(self.w);
        let to_5 = to_4 + le32(self.h);
        parts_sit_at(bytes, at, to_5, le32(self.d));
        parts_sit_at(bytes, at, to_4, le32(self.h));
        parts_sit_at(bytes, at, to_3, le32(self.w));
        parts_sit_at(bytes, at, to_2, le32(self.z));
        parts_sit_at(bytes, at, to_1, le32(self.y));
        u32_reads_back(bytes, at, self.x);
        u32_reads_back(bytes, at + 4, self.y);
        u32_reads_back(bytes, at + 8, self.z);
        u32_reads_back(bytes, at + 12, self.w);
        u32_reads_back(bytes, at + 16, self.h);
        u32_reads_back(bytes, at + 20, self.d);
    }

    proof fn is_alone(self, other: Self, bytes: Seq<u8>, at: int) {
    }

    fn as_bytes(&self) -> (out: Vec<u8>) {
        let mut out: Vec<u8> = Vec::new();
        push_u32(&mut out, self.x);
        push_u32(&mut out, self.y);
        push_u32(&mut out, self.z);
        push_u32(&mut out, self.w);
        push_u32(&mut out, self.h);
        push_u32(&mut out, self.d);
        assert(out@ =~= self.wire());
        out
    }
}

impl Default for GpuBox {
    fn default() -> (b: GpuBox)
        ensures
            b == (GpuBox { x: 0, y: 0, z: 0, w: 0, h: 0, d: 0 }),
    {
        GpuBox { x: 0, y: 0, z: 0, w: 0, h: 0, d: 0 }
    }
}

/// Asks which capset has a given index.
#[derive(Debug)]
pub struct CmdGetCapsetInfo {
    pub header: CtrlHeader,
    pub capset_index: u32,
    pub _padding: u32,
}

impl IntoBytes for CmdGetCapsetInfo {
    open spec fn wire(&self) -> Seq<u8> {
        self.header.wire() + le32(self.capset_index) + le32(self._padding)
    }

    open spec fn wire_len() -> nat {
        32
    }

    proof fn wire_has_len(&self) {
        self.header.wire_has_len();
    }

    open spec fn is_at(&self, bytes: Seq<u8>, at: int) -> bool {
        &&& self.header.is_at(bytes, at)
        &&& self.capset_index == u32_at(bytes, at + 24)
        &&& self._padding == u32_at(bytes, at + 28)
    }

    proof fn is_where_written(&self, bytes: Seq<u8>, at: int) {
        self.header.wire_has_len();
        let to_1 = self.header.wire();
        let to_2 = to_1 + le32(self.capset_index);
        parts_sit_at(bytes, at, to_2, le32(self._padding));
        parts_sit_at(bytes, at, to_1, le32(self.capset_index));
        self.header.is_where_written(bytes, at);
        u32_reads_back(bytes, at + 24, self.capset_index);
        u32_reads_back(bytes, at + 28, self._padding);
    }

    proof fn is_alone(self, other: Self, bytes: Seq<u8>, at: int) {
        self.header.is_alone(other.header, bytes, at);
    }

    fn as_bytes(&self) -> (out: Vec<u8>) {
        let mut out = self.header.as_bytes();
        push_u32(&mut out, self.capset_index);
        push_u32(&mut out, self._padding);
        assert(out@ =~= self.wire());
        out
    }
}

/// What the device tells about a capset.
#[derive(Debug)]
pub struct RespCapsetInfo {
    pub header: CtrlHeader,
    /// Capset ID (1 = VIRGL, 2 = VIRGL2).
    pub capset_id: u32,
    /// Maximum version of this capset supported by the device.
    pub capset_max_version: u32,
    /// Maximum size in bytes of one capset data blob.
    pub capset_max_size: u32,
    pub _padding: u32,
}

impl IntoBytes for RespCapsetInfo {
    open spec fn wire(&self) -> Seq<u8> {
        self.header.wire() + le32(self.capset_id) + le32(self.capset_max_version)
            + le32(self.capset_max_size) + le32(self._padding)
    }

    open spec fn wire_len() -> nat {
        40
    }

    proof fn wire_has_len(&self) {
        self.header.wire_has_len();
    }

    open spec fn is_at(&self, bytes: Seq<u8>, at: int) -> bool {
        &&& self.header.is_at(bytes, at)
        &&& self.capset_id == u32_at(bytes, at + 24)
        &&& self.capset_max_version == u32_at(bytes, at + 28)
        &&& self.capset_max_size == u32_at(bytes, at + 32)
        &&& self._padding == u32_at(bytes, at + 36)
    }

    proof fn is_where_written(&self, bytes: Seq<u8>, at: int) {
        self.header.wire_has_len();
        let to_1 = self.header.wire();
        let to_2 = to_1 + le32(self.capset_id);
        let to_3 = to_2 + le32(self.capset_max_version);
        let to_4 = to_3 + le32(self.capset_max_size);
        parts_sit_at(bytes, at, to_4, le32(self._padding));
        parts_sit_at(bytes, at, to_3, le32(self.capset_max_size));
        parts_sit_at(bytes, at, to_2, le32(self.capset_max_version));
        parts_sit_at(bytes, at, to_1, le32(self.capset_id));
        self.header.is_where_written(bytes, at);
        u32_reads_back(bytes, at + 24, self.capset_id);
        u32_reads_back(bytes, at + 28, self.capset_max_version);
        u32_reads_back(bytes, at + 32, self.capset_max_size);
        u32_reads_back(bytes, at + 36, self._padding);
    }

    proof fn is_alone(self, other: Self, bytes: Seq<u8>, at: int) {
        self.header.is_alone(other.header, bytes, at);
    }

    fn as_bytes(&self) -> (out: Vec<u8>) {
        let mut out = self.header.as_bytes();
        push_u32(&mut out, self.capset_id);
        push_u32(&mut out, self.capset_max_version);
        push_u32(&mut out, self.capset_max_size);
        push_u32(&mut out, self._padding);
        assert(out@ =~= self.wire());
        out
    }
}

impl FromBytes for RespCapsetInfo {
    fn size() -> (n: usize) {
        40
    }

    fn read_at(bytes: &[u8], at: usize) -> (message: Self) {
        RespCapsetInfo {
            header: CtrlHeader::read_at(bytes, at),
            capset_id: read_u32(bytes, at + 24),
            capset_max_version: read_u32(bytes, at + 28),
            capset_max_size: read_u32(bytes, at + 32),
            _padding: read_u32(bytes, at + 36),
        }
    }
}

/// Asks for the data of a capset.
#[derive(Debug)]
pub struct CmdGetCapset {
    pub header: CtrlHeader,
    pub capset_id: u32,
    pub capset_version: u32,
}

impl IntoBytes for CmdGetCapset {
    open spec fn wire(&self) -> Seq<u8> {
        self.header.wire() + le32(self.capset_id) + le32(self.capset_version)
    }

    open spec fn wire_len() -> nat {
        32
    }

    proof fn wire_has_len(&self) {
        self.header.wire_has_len();
    }

    open spec fn is_at(&self, bytes: Seq<u8>, at: int) -> bool {
        &&& self.header.is_at(bytes, at)
        &&& self.capset_id == u32_at(bytes, at + 24)
        &&& self.capset_version == u32_at(bytes, at + 28)
    }

    proof fn is_where_written(&self, bytes: Seq<u8>, at: int) {
        self.header.wire_has_len();
        let to_1 = self.header.wire();
        let to_2 = to_1 + le32(self.capset_id);
        parts_sit_at(bytes, at, to_2, le32(self.capset_version));
        parts_sit_at(bytes, at, to_1, le32(self.capset_id));
        self.header.is_where_written(bytes, at);
        u32_reads_back(bytes, at + 24, self.capset_id);
        u32_reads_back(bytes, at + 28, self.capset_version);
    }

    proof fn is_alone(self, other: Self, bytes: Seq<u8>, at: int) {
        self.header.is_alone(other.header, bytes, at);
    }

    fn as_bytes(&self) -> (out: Vec<u8>) {
        let mut out = self.header.as_bytes();
        push_u32(&mut out, self.capset_id);
        push_u32(&mut out, self.capset_version);
        assert(out@ =~= self.wire());
        out
    }
}

/// Creates a rendering context.
#[derive(Debug)]
pub struct CmdCtxCreate {
    pub header: CtrlHeader,
    /// Length of the debug name, at most 64.
    pub nlen: u32,
    /// Context init flags (the capset ID for virgl2, 0 for virgl1).
    pub context_init: u32,
    /// Debug name, zeros after its end.
    pub debug_name: [u8; 64],
}

impl IntoBytes for CmdCtxCreate {
    open spec fn wire(&self) -> Seq<u8> {
        self.header.wire() + le32(self.nlen) + le32(self.context_init) + self.debug_name@
    }

    open spec fn wire_len() -> nat {
        96
    }

    proof fn wire_has_len(&self) {
        self.header.wire_has_len();
    }

    open spec fn is_at(&self, bytes: Seq<u8>, at: int) -> bool {
        &&& self.header.is_at(bytes, at)
        &&& self.nlen == u32_at(bytes, at + 24)
        &&& self.context_init == u32_at(bytes, at + 28)
        &&& self.debug_name@ == bytes_at(bytes, at + 32, 64)
    }

    proof fn is_where_written(&self, bytes: Seq<u8>, at: int) {
        self.header.wire_has_len();
        let to_1 = self.header.wire();
        let to_2 = to_1 + le32(self.nlen);
        let to_3 = to_2 + le32(self.context_init);
        parts_sit_at(bytes, at, to_3, self.debug_name@);
        parts_sit_at(bytes, at, to_2, le32(self.context_init));
        parts_sit_at(bytes, at, to_1, le32(self.nlen));
        self.header.is_where_written(bytes, at);
        u32_reads_back(bytes, at + 24, self.nlen);
        u32_reads_back(bytes, at + 28, self.context_init);
        assert(self.debug_name@ =~= bytes_at(bytes, at + 32, 64));
    }

    proof fn is_alone(self, other: Self, bytes: Seq<u8>, at: int) {
        self.header.is_alone(other.header, bytes, at);
        assert(self.debug_name =~= other.debug_name);
    }

    fn as_bytes(&self) -> (out: Vec<u8>) {
        let mut out = self.header.as_bytes();
        push_u32(&mut out, self.nlen);
        push_u32(&mut out, self.context_init);
        push_bytes(&mut out, self.debug_name.as_slice());
        assert(out@ =~= self.wire());
        out
    }
}

/// Attaches a resource to a rendering context, or detaches it.
#[derive(Debug)]
pub struct CmdCtxResource {
    pub header: CtrlHeader,
    pub resource_id: u32,
    pub _padding: u32,
}

impl IntoBytes for CmdCtxResource {
    open spec fn wire(&self) -> Seq<u8> {
        self.header.wire() + le32(self.resource_id) + le32(self._padding)
    }

    open spec fn wire_len() -> nat {
        32
    }

    proof fn wire_has_len(&self) {
        self.header.wire_has_len();
    }

    open spec fn is_at(&self, bytes: Seq<u8>, at: int) -> bool {
        &&& self.header.is_at(bytes, at)
        &&& self.resource_id == u32_at(bytes, at + 24)
        &&& self._padding == u32_at(bytes, at + 28)
    }

    proof fn is_where_written(&self, bytes: Seq<u8>, at: int) {
        self.header.wire_has_len();
        let to_1 = self.header.wire();
        let to_2 = to_1 + le32(self.resource_id);
        parts_sit_at(bytes, at, to_2, le32(self._padding));
        parts_sit_at(bytes, at, to_1, le32(self.resource_id));
        self.header.is_where_written(bytes, at);
        u32_reads_back(bytes, at + 24, self.resource_id);
        u32_reads_back(bytes, at + 28, self._padding);
    }

    proof fn is_alone(self, other: Self, bytes: Seq<u8>, at: int) {
        self.header.is_alone(other.header, bytes, at);
    }

    fn as_bytes(&self) -> (out: Vec<u8>) {
        let mut out = self.header.as_bytes();
        push_u32(&mut out, self.resource_id);
        push_u32(&mut out, self._padding);
        assert(out@ =~= self.wire());
        out
    }
}

/// Creates a 3D resource.
#[derive(Debug)]
pub struct CmdResourceCreate3D {
    pub header: CtrlHeader,
    pub resource_id: u32,
    /// Pipe texture target (PIPE_TEXTURE_2D, PIPE_TEXTURE_3D, PIPE_BUFFER, ...).
    pub target: u32,
    /// Pipe format (PIPE_FORMAT_*).
    pub format: u32,
    /// Pipe bind flags (PIPE_BIND_*).
    pub bind: u32,
    pub width: u32,
    pub height: u32,
    pub depth: u32,
    pub array_size: u32,
    /// Number of mipmap levels.
    pub last_level: u32,
    /// Number of MSAA samples.
    pub nr_samples: u32,
    /// Resource flags.
    pub flags: u32,
    pub _padding: u32,
}

impl IntoBytes for CmdResourceCreate3D {
    open spec fn wire(&self) -> Seq<u8> {
        self.header.wire() + le32(self.resource_id) + le32(self.target) + le32(self.format)
            + le32(self.bind) + le32(self.width) + le32(self.height) + le32(self.depth)
            + le32(self.array_size) + le32(self.last_level) + le32(self.nr_samples)
            + le32(self.flags) + le32(self._padding)
    }

    open spec fn wire_len() -> nat {
        72
    }

    proof fn wire_has_len(&self) {
        self.header.wire_has_len();
    }

    open spec fn is_at(&self, bytes: Seq<u8>, at: int) -> bool {
        &&& self.header.is_at(bytes, at)
        &&& self.resource_id == u32_at(bytes, at + 24)
        &&& self.target == u32_at(bytes, at + 28)
        &&& self.format == u32_at(bytes, at + 32)
        &&& self.bind == u32_at(bytes, at + 36)
        &&& self.width == u32_at(bytes, at + 40)
        &&& self.height == u32_at(bytes, at + 44)
        &&& self.depth == u32_at(bytes, at + 48)
        &&& self.array_size == u32_at(bytes, at + 52)
        &&& self.last_level == u32_at(bytes, at + 56)
        &&& self.nr_samples == u32_at(bytes, at + 60)
        &&& self.flags == u32_at(bytes, at + 64)
        &&& self._padding == u32_at(bytes, at + 68)
    }

    proof fn is_where_written(&self, bytes: Seq<u8>, at: int) {
        self.header.wire_has_len();
        let to_1 = self.header.wire();
        let to_2 = to_1 + le32(self.resource_id);
        let to_3 = to_2 + le32(self.target);
        let to_4 = to_3 + le32(self.format);
        let to_5 = to_4 + le32(self.bind);
        let to_6 = to_5 + le32(self.width);
        let to_7 = to_6 + le32(self.height);
        let to_8 = to_7 + le32(self.depth);
        let to_9 = to_8 + le32(self.array_size);
        let to_10 = to_9 + le32(self.last_level);
        let to_11 = to_10 + le32(self.nr_samples);
        let to_12 = to_11 + le32(self.flags);
        parts_sit_at(bytes, at, to_12, le32(self._padding));
        parts_sit_at(bytes, at, to_11, le32(self.flags));
        parts_sit_at(bytes, at, to_10, le32(self.nr_samples));
        parts_sit_at(bytes, at, to_9, le32(self.last_level));
        parts_sit_at(bytes, at, to_8, le32(self.array_size));
        parts_sit_at(bytes, at, to_7, le32(self.depth));
        parts_sit_at(bytes, at, to_6, le32(self.height));
        parts_sit_at(bytes, at, to_5, le32(self.width));
        parts_sit_at(bytes, at, to_4, le32(self.bind));
        parts_sit_at(bytes, at, to_3, le32(self.format));
        parts_sit_at(bytes, at, to_2, le32(self.target));
        parts_sit_at(bytes, at, to_1, le32(self.resource_id));
        self.header.is_where_written(bytes, at);
        u32_reads_back(bytes, at + 24, self.resource_id);
        u32_reads_back(bytes, at + 28, self.target);
        u32_reads_back(bytes, at + 32, self.format);
        u32_reads_back(bytes, at + 36, self.bind);
        u32_reads_back(bytes, at + 40, self.width);
        u32_reads_back(bytes, at + 44, self.height);
        u32_reads_back(bytes, at + 48, self.depth);
        u32_reads_back(bytes, at + 52, self.array_size);
        u32_reads_back(bytes, at + 56, self.last_level);
        u32_reads_back(bytes, at + 60, self.nr_samples);
        u32_reads_back(bytes, at + 64, self.flags);
        u32_reads_back(bytes, at + 68, self._padding);
    }

    proof fn is_alone(self, other: Self, bytes: Seq<u8>, at: int) {
        self.header.is_alone(other.header, bytes, at);
    }

    fn as_bytes(&self) -> (out: Vec<u8>) {
        let mut out = self.header.as_bytes();
        push_u32(&mut out, self.resource_id);
        push_u32(&mut out, self.target);
        push_u32(&mut out, self.format);
        push_u32(&mut out, self.bind);
        push_u32(&mut out, self.width);
        push_u32(&mut out, self.height);
        push_u32(&mut out, self.depth);
        push_u32(&mut out, self.array_size);
        push_u32(&mut out, self.last_level);
        push_u32(&mut out, self.nr_samples);
        push_u32(&mut out, self.flags);
        push_u32(&mut out, self._padding);
        assert(out@ =~= self.wire());
        out
    }
}

/// Transfers a part of a 3D resource to the host, or from it.
#[derive(Debug)]
pub struct CmdTransferHost3D {
    pub header: CtrlHeader,
    /// The part that is transferred.
    pub box_: GpuBox,
    /// Byte offset within the resource.
    pub offset: u64,
    pub resource_id: u32,
    /// Mipmap level.
    pub level: u32,
    /// Row stride in bytes.
    pub stride: u32,
    /// Layer stride in bytes (for array textures and 3D textures).
    pub layer_stride: u32,
}

impl IntoBytes for CmdTransferHost3D {
    open spec fn wire(&self) -> Seq<u8> {
        self.header.wire() + self.box_.wire() + le64(self.offset) + le32(self.resource_id)
            + le32(self.level) + le32(self.stride) + le32(self.layer_stride)
    }

    open spec fn wire_len() -> nat {
        72
    }

    proof fn wire_has_len(&self) {
        self.header.wire_has_len();
        self.box_.wire_has_len();
    }

    open spec fn is_at(&self, bytes: Seq<u8>, at: int) -> bool {
        &&& self.header.is_at(bytes, at)
        &&& self.box_.is_at(bytes, at + 24)
        &&& self.offset == u64_at(bytes, at + 48)
        &&& self.resource_id == u32_at(bytes, at + 56)
        &&& self.level == u32_at(bytes, at + 60)
        &&& self.stride == u32_at(bytes, at + 64)
        &&& self.layer_stride == u32_at(bytes, at + 68)
    }

    proof fn is_where_written(&self, bytes: Seq<u8>, at: int) {
        self.header.wire_has_len();
        self.box_.wire_has_len();
        let to_1 = self.header.wire();
        let to_2 = to_1 + self.box_.wire();
        let to_3 = to_2 + le64(self.offset);
        let to_4 = to_3 + le32(self.resource_id);
        let to_5 = to_4 + le32(self.level);
        let to_6 = to_5 + le32(self.stride);
        parts_sit_at(bytes, at, to_6, le32(self.layer_stride));
        parts_sit_at(bytes, at, to_5, le32(self.stride));
        parts_sit_at(bytes, at, to_4, le32(self.level));
        parts_sit_at(bytes, at, to_3, le32(self.resource_id));
        parts_sit_at(bytes, at, to_2, le64(self.offset));
        parts_sit_at(bytes, at, to_1, self.box_.wire());
        self.header.is_where_written(bytes, at);
        self.box_.is_where_written(bytes, at + 24);
        u64_reads_back(bytes, at + 48, self.offset);
        u32_reads_back(bytes, at + 56, self.resource_id);
        u32_reads_back(bytes, at + 60, self.level);
        u32_reads_back(bytes, at + 64, self.stride);
        u32_reads_back(bytes, at + 68, self.layer_stride);
    }

    proof fn is_alone(self, other: Self, bytes: Seq<u8>, at: int) {
        self.header.is_alone(other.header, bytes, at);
        self.box_.is_alone(other.box_, bytes, at + 24);
    }

    fn as_bytes(&self) -> (out: Vec<u8>) {
        let mut out = self.header.as_bytes();
        push_bytes(&mut out, self.box_.as_bytes().as_slice());
        push_u64(&mut out, self.offset);
        push_u32(&mut out, self.resource_id);
        push_u32(&mut out, self.level);
        push_u32(&mut out, self.stride);
        push_u32(&mut out, self.layer_stride);
        assert(out@ =~= self.wire());
        out
    }
}

/// Submits a command stream, which follows in a separate buffer.
#[derive(Debug)]
pub struct CmdSubmit3D {
    pub header: CtrlHeader,
    /// Size of the command stream in bytes.
    pub size: u32,
    pub _padding: u32,
}

impl IntoBytes for CmdSubmit3D {
    open spec fn wire(&self) -> Seq<u8> {
        self.header.wire() + le32(self.size) + le32(self._padding)
    }

    open spec fn wire_len() -> nat {
        32
    }

    proof fn wire_has_len(&self) {
        self.header.wire_has_len();
    }

    open spec fn is_at(&self, bytes: Seq<u8>, at: int) -> bool {
        &&& self.header.is_at(bytes, at)
        &&& self.size == u32_at(bytes, at + 24)
        &&& self._padding == u32_at(bytes, at + 28)
    }

    proof fn is_where_written(&self, bytes: Seq<u8>, at: int) {
        self.header.wire_has_len();
        let to_1 = self.header.wire();
        let to_2 = to_1 + le32(self.size);
        parts_sit_at(bytes, at, to_2, le32(self._padding));
        parts_sit_at(bytes, at, to_1, le32(self.size));
        self.header.is_where_written(bytes, at);
        u32_reads_back(bytes, at + 24, self.size);
        u32_reads_back(bytes, at + 28, self._padding);
    }

    proof fn is_alone(self, other: Self, bytes: Seq<u8>, at: int) {
        self.header.is_alone(other.header, bytes, at);
    }

    fn as_bytes(&self) -> (out: Vec<u8>) {
        let mut out = self.header.as_bytes();
        push_u32(&mut out, self.size);
        push_u32(&mut out, self._padding);
        assert(out@ =~= self.wire());
        out
    }
}

impl FromBytes for CmdSubmit3D {
    fn size() -> (n: usize) {
        32
    }

    fn read_at(bytes: &[u8], at: usize) -> (message: Self) {
        CmdSubmit3D {
            header: CtrlHeader::read_at(bytes, at),
            size: read_u32(bytes, at + 24),
            _padding: read_u32(bytes, at + 28),
        }
    }
}

} // verus!
