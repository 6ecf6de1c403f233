use virtio_gpu::config::{Config, Features, EVENT_DISPLAY, SUPPORTED_FEATURES};
use virtio_gpu::dma::{pages, PAGE_SIZE};
use virtio_gpu::wire::{FromBytes, IntoBytes};

#[test]
fn feature_bits() {
    let bits = [
        (Features::VIRGL, 0),
        (Features::EDID, 1),
        (Features::RESOURCE_BLOB, 3),
        (Features::CONTEXT_INIT, 4),
        (Features::BLOB_ALIGNMENT, 5),
        (Features::NOTIFY_ON_EMPTY, 24),
        (Features::ANY_LAYOUT, 27),
        (Features::RING_INDIRECT_DESC, 28),
        (Features::RING_EVENT_IDX, 29),
        (Features::UNUSED, 30),
        (Features::VERSION_1, 32),
        (Features::ACCESS_PLATFORM, 33),
        (Features::RING_PACKED, 34),
        (Features::IN_ORDER, 35),
        (Features::ORDER_PLATFORM, 36),
        (Features::SR_IOV, 37),
        (Features::NOTIFICATION_DATA, 38),
    ];
    for (flag, bit) in bits {
        assert_eq!(flag, 1u64 << bit);
    }
}

#[test]
fn contains_needs_every_flag() {
    let some = Features { bits: Features::EDID | Features::VIRGL };
    assert!(some.contains(Features::EDID));
    assert!(some.contains(Features::VIRGL | Features::EDID));
    assert!(!some.contains(Features::RESOURCE_BLOB));
    assert!(!some.contains(Features::RESOURCE_BLOB | Features::EDID));
    assert!(some.contains(0));
    assert!(Features::default() == Features { bits: 0 });
    assert!(!Features::default().contains(Features::VIRGL));
}

#[test]
fn supported_features() {
    assert_eq!(SUPPORTED_FEATURES, 0x3_3000_001b);
    assert_eq!(EVENT_DISPLAY, 1);
}

#[test]
fn config_layout() {
    let config = Config {
        events_read: 1,
        events_clear: 2,
        num_scanouts: 3,
        num_capsets: 4,
        blob_alignment: 5,
    };
    let bytes = config.as_bytes();
    assert_eq!(bytes, vec![1, 0, 0, 0, 2, 0, 0, 0, 3, 0, 0, 0, 4, 0, 0, 0, 5, 0, 0, 0]);
    assert_eq!(bytes[Config::EVENTS_READ], 1);
    assert_eq!(bytes[Config::EVENTS_CLEAR], 2);
    assert_eq!(bytes[Config::NUM_SCANOUTS], 3);
    assert_eq!(bytes[Config::NUM_CAPSETS], 4);
    assert_eq!(bytes[Config::BLOB_ALIGNMENT], 5);
    assert_eq!(Config::read_at(&bytes, 0).num_capsets, 4);
}

#[test]
fn pages_are_rounded_up() {
    assert_eq!(pages(0), 0);
    assert_eq!(pages(1), 1);
    assert_eq!(pages(PAGE_SIZE), 1);
    assert_eq!(pages(PAGE_SIZE + 1), 2);
    assert_eq!(pages(1024 * 768 * 4), 768);
    assert_eq!(pages(usize::MAX), usize::MAX / PAGE_SIZE + 1);
}
