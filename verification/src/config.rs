//! The features and the configuration space of the device.
use crate::bytes::{le32, parts_sit_at, push_u32, read_u32, sits_at, u32_at, u32_reads_back};
use crate::wire::{FromBytes, IntoBytes};
use vstd::prelude::*;

verus! {

/// A set of device features.
#[derive(Clone, Copy, PartialEq, Eq, Structural)]
pub struct Features {
    /// One bit for each feature.
    pub bits: u64,
}

impl Features {
    /// virgl 3D mode is supported.
    pub const VIRGL: u64 = 0x1;

    /// EDID is supported.
    pub const EDID: u64 = 0x2;

    /// Blob resources (host-visible memory, dma-buf sharing) are supported.
    pub const RESOURCE_BLOB: u64 = 0x8;

    /// Context init protocol (virgl2 capset, contexts per file descriptor).
    pub const CONTEXT_INIT: u64 = 0x10;

    /// Blob resource alignment requirements are exposed in the device configuration.
    pub const BLOB_ALIGNMENT: u64 = 0x20;

    // device independent
    pub const NOTIFY_ON_EMPTY: u64 = 0x100_0000;
    pub const ANY_LAYOUT: u64 = 0x800_0000;
    pub const RING_INDIRECT_DESC: u64 = 0x1000_0000;
    pub const RING_EVENT_IDX: u64 = 0x2000_0000;
    pub const UNUSED: u64 = 0x4000_0000;
    pub const VERSION_1: u64 = 0x1_0000_0000;

    // since virtio v1.1
    pub const ACCESS_PLATFORM: u64 = 0x2_0000_0000;
    pub const RING_PACKED: u64 = 0x4_0000_0000;
    pub const IN_ORDER: u64 = 0x8_0000_0000;
    pub const ORDER_PLATFORM: u64 = 0x10_0000_0000;
    pub const SR_IOV: u64 = 0x20_0000_0000;
    pub const NOTIFICATION_DATA: u64 = 0x40_0000_0000;

    /// Whether the set has every feature of `flags`.
    pub open spec fn has(self, flags: u64) -> bool {
        self.bits & flags == flags
    }

    /// Whether the set has every feature of `flags`.
    pub fn contains(&self, flags: u64) -> (r: bool)
        ensures
            r == self.has(flags),
    {
        self.bits & flags == flags
    }
}

impl Default for Features {
    /// No feature at all.
    fn default() -> (features: Features)
        ensures
            features == (Features { bits: 0 }),
    {
        Features { bits: 0 }
    }
}

/// The features that the driver knows how to use.
pub const SUPPORTED_FEATURES: u64 = Features::RING_EVENT_IDX | Features::RING_INDIRECT_DESC
    | Features::VERSION_1 | Features::ACCESS_PLATFORM | Features::EDID | Features::VIRGL
    | Features::CONTEXT_INIT | Features::RESOURCE_BLOB;

/// A device that offers a feature and a driver that supports it share it; nothing else is shared.
pub proof fn shared_features(offered: u64, supported: u64, flags: u64)
    ensures
        (Features { bits: offered & supported }).has(flags) <==> (Features {
            bits: offered,
        }).has(flags) && (Features { bits: supported }).has(flags),
{
    assert((offered & supported) & flags == flags <==> offered & flags == flags && supported & flags
        == flags) by (bit_vector);
}

/// The driver offers each feature that it looks at later on, and no legacy one.
pub proof fn offered_features()
    ensures
        ({
            let offered = Features { bits: SUPPORTED_FEATURES };
            &&& offered.has(Features::RING_EVENT_IDX)
            &&& offered.has(Features::RING_INDIRECT_DESC)
            &&& offered.has(Features::VERSION_1)
            &&& offered.has(Features::ACCESS_PLATFORM)
            &&& offered.has(Features::EDID)
            &&& offered.has(Features::VIRGL)
            &&& offered.has(Features::CONTEXT_INIT)
            &&& offered.has(Features::RESOURCE_BLOB)
            &&& !offered.has(Features::BLOB_ALIGNMENT)
            &&& !offered.has(Features::NOTIFY_ON_EMPTY)
            &&& !offered.has(Features::ANY_LAYOUT)
            &&& !offered.has(Features::UNUSED)
            &&& !offered.has(Features::RING_PACKED)
            &&& !offered.has(Features::IN_ORDER)
            &&& !offered.has(Features::ORDER_PLATFORM)
            &&& !offered.has(Features::SR_IOV)
            &&& !offered.has(Features::NOTIFICATION_DATA)
        }),
{
    assert({
        &&& SUPPORTED_FEATURES & 0x2000_0000 == 0x2000_0000
        &&& SUPPORTED_FEATURES & 0x1000_0000 == 0x1000_0000
        &&& SUPPORTED_FEATURES & 0x1_0000_0000 == 0x1_0000_0000
        &&& SUPPORTED_FEATURES & 0x2_0000_0000 == 0x2_0000_0000
        &&& SUPPORTED_FEATURES & 0x2 == 0x2
        &&& SUPPORTED_FEATURES & 0x1 == 0x1
        &&& SUPPORTED_FEATURES & 0x10 == 0x10
        &&& SUPPORTED_FEATURES & 0x8 == 0x8
        &&& SUPPORTED_FEATURES & 0x20 == 0
        &&& SUPPORTED_FEATURES & 0x100_0000 == 0
        &&& SUPPORTED_FEATURES & 0x800_0000 == 0
        &&& SUPPORTED_FEATURES & 0x4000_0000 == 0
        &&& SUPPORTED_FEATURES & 0x4_0000_0000 == 0
        &&& SUPPORTED_FEATURES & 0x8_0000_0000 == 0
        &&& SUPPORTED_FEATURES & 0x10_0000_0000 == 0
        &&& SUPPORTED_FEATURES & 0x20_0000_0000 == 0
        &&& SUPPORTED_FEATURES & 0x40_0000_0000 == 0
    }) by (bit_vector);
}

/// What a driver learns of a device when it starts it.
#[derive(Clone, Copy, PartialEq, Eq, Structural)]
pub struct Startup {
    /// The features that were negotiated.
    pub features: Features,
    /// The pending events, see [`Config`].
    pub events_read: u32,
    /// The maximum number of scanouts.
    pub num_scanouts: u32,
    /// The number of capsets.
    pub num_capsets: u32,
}

/// The configuration space of the device.
#[derive(Debug)]
pub struct Config {
    /// Signals pending events to the driver. Read-only.
    pub events_read: u32,
    /// Clears pending events in the device. Write-only.
    pub events_clear: u32,
    /// Specifies the maximum number of scanouts supported by the device. Read-only.
    ///
    /// Minimum value is 1, maximum value is 16.
    pub num_scanouts: u32,
    /// Specifies the number of capsets supported by the device. Read-only.
    pub num_capsets: u32,
    /// Specifies the alignment requirement for blob resources. Read-only.
    ///
    /// Valid when `Features::BLOB_ALIGNMENT` is negotiated.
    pub blob_alignment: u32,
}

impl IntoBytes for Config {
    open spec fn wire(&self) -> Seq<u8> {
        le32(self.events_read) + le32(self.events_clear) + le32(self.num_scanouts)
            + le32(self.num_capsets) + le32(self.blob_alignment)
    }

    open spec fn wire_len() -> nat {
        20
    }

    proof fn wire_has_len(&self) {
    }

    open spec fn is_at(&self, bytes: Seq<u8>, at: int) -> bool {
        &&& self.events_read == u32_at(bytes, at)
        &&& self.events_clear == u32_at(bytes, at + 4)
        &&& self.num_scanouts == u32_at(bytes, at + 8)
        &&& self.num_capsets == u32_at(bytes, at + 12)
        &&& self.blob_alignment == u32_at(bytes, at + 16)
    }

    proof fn is_where_written(&self, bytes: Seq<u8>, at: int) {
        let to_1 = le32(self.events_read);
        let to_2 = to_1 + le32(self.events_clear);
        let to_3 = to_2 + le32(self.num_scanouts);
        let to_4 = to_3 + le32(self.num_capsets);
        parts_sit_at(bytes, at, to_4, le32(self.blob_alignment));
        parts_sit_at(bytes, at, to_3, le32(self.num_capsets));
        parts_sit_at(bytes, at, to_2, le32(self.num_scanouts));
        parts_sit_at(bytes, at, to_1, le32(self.events_clear));
        u32_reads_back(bytes, at, self.events_read);
        u32_reads_back(bytes, at + 4, self.events_clear);
        u32_reads_back(bytes, at + 8, self.num_scanouts);
        u32_reads_back(bytes, at + 12, self.num_capsets);
        u32_reads_back(bytes, at + 16, self.blob_alignment);
    }

    proof fn is_alone(self, other: Self, bytes: Seq<u8>, at: int) {
    }

    fn as_bytes(&self) -> (out: Vec<u8>) {
        let mut out: Vec<u8> = Vec::new();
        push_u32(&mut out, self.events_read);
        push_u32(&mut out, self.events_clear);
        push_u32(&mut out, self.num_scanouts);
        push_u32(&mut out, self.num_capsets);
        push_u32(&mut out, self.blob_alignment);
        assert(out@ =~= self.wire());
        out
    }
}

impl FromBytes for Config {
    fn size() -> (n: usize) {
        20
    }

    fn read_at(bytes: &[u8], at: usize) -> (message: Self) {
        Config {
            events_read: read_u32(bytes, at),
            events_clear: read_u32(bytes, at + 4),
            num_scanouts: read_u32(bytes, at + 8),
            num_capsets: read_u32(bytes, at + 12),
            blob_alignment: read_u32(bytes, at + 16),
        }
    }
}

/// The bit of `events_read` that says that the display configuration has changed.
pub const EVENT_DISPLAY: u32 = 0x1;

impl Config {
    /// Where `events_read` stands in the configuration space.
    pub const EVENTS_READ: usize = 0;

    /// Where `events_clear` stands in the configuration space.
    pub const EVENTS_CLEAR: usize = 4;

    /// Where `num_scanouts` stands in the configuration space.
    pub const NUM_SCANOUTS: usize = 8;

    /// Where `num_capsets` stands in the configuration space.
    pub const NUM_CAPSETS: usize = 12;

    /// Where `blob_alignment` stands in the configuration space.
    pub const BLOB_ALIGNMENT: usize = 16;
}

/// A read of four bytes at the place of a field gives that field.
pub proof fn config_fields_are_in_place(config: Config)
    ensures
        u32_at(config.wire(), Config::EVENTS_READ as int) == config.events_read,
        u32_at(config.wire(), Config::EVENTS_CLEAR as int) == config.events_clear,
        u32_at(config.wire(), Config::NUM_SCANOUTS as int) == config.num_scanouts,
        u32_at(config.wire(), Config::NUM_CAPSETS as int) == config.num_capsets,
        u32_at(config.wire(), Config::BLOB_ALIGNMENT as int) == config.blob_alignment,
{
    assert(sits_at(config.wire(), 0, config.wire()));
    config.is_where_written(config.wire(), 0);
}

} // verus!
