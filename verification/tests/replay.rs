use virtio_gpu::config::Features;
use virtio_gpu::dma::{BufferDirection, DmaBuffer};
use virtio_gpu::error::Error;
use virtio_gpu::replay::{Answered, Asked, Recorded, ReplayTransport};
use virtio_gpu::transport::{InterruptStatus, Transport};

#[test]
fn script_is_followed_and_recorded() {
    let mut transport = ReplayTransport::new(vec![
        Answered::Features(6),
        Answered::Config(Ok(5)),
        Answered::Queue(Err(Error::AlreadyUsed)),
    ]);
    assert_eq!(transport.begin_init(Features { bits: 3 }).bits, 2);
    assert_eq!(transport.read_config_u32(8), Ok(5));
    assert_eq!(transport.queue_new(1, 16, true, false, true), Err(Error::AlreadyUsed));
    transport.finish_init();
    transport.queue_unset(1);
    let expected = vec![
        Recorded {
            ask: Asked::BeginInit { supported: 3 },
            answer: Answered::Features(2),
        },
        Recorded { ask: Asked::ReadConfig { offset: 8 }, answer: Answered::Config(Ok(5)) },
        Recorded {
            ask: Asked::QueueNew {
                queue: 1,
                size: 16,
                indirect: true,
                event_idx: false,
                access_platform: true,
            },
            answer: Answered::Queue(Err(Error::AlreadyUsed)),
        },
        Recorded { ask: Asked::FinishInit, answer: Answered::Done },
        Recorded { ask: Asked::QueueUnset { queue: 1 }, answer: Answered::Done },
    ];
    assert_eq!(*transport.record(), expected);
}

#[test]
fn buffers_are_overwritten_in_place() {
    let mut transport = ReplayTransport::new(vec![
        Answered::Reply { used: Ok(9), outputs: vec![vec![1, 2], vec![3, 4, 5, 6]] },
    ]);
    let mut outputs = vec![vec![7, 7, 7], vec![8, 8], vec![9]];
    let request = [1u8, 2];
    assert_eq!(transport.add_notify_wait_pop(0, &[&request], &mut outputs), Ok(9));
    assert_eq!(outputs, vec![vec![1, 2, 7], vec![3, 4], vec![9]]);
    assert_eq!(
        transport.record()[0],
        Recorded {
            ask: Asked::Exchange {
                queue: 0,
                inputs: vec![vec![1, 2]],
                outputs: vec![vec![7, 7, 7], vec![8, 8], vec![9]],
            },
            answer: Answered::Reply {
                used: Ok(9),
                outputs: vec![vec![1, 2, 7], vec![3, 4], vec![9]],
            },
        }
    );
}

#[test]
fn nothing_comes_of_a_script_that_has_ended() {
    let mut transport = ReplayTransport::new(vec![]);
    let request = [0u8];
    let mut outputs = vec![vec![4]];
    assert_eq!(transport.begin_init(Features { bits: 1 }).bits, 0);
    assert_eq!(transport.read_config_u32(0), Err(Error::NotReady));
    assert_eq!(transport.queue_new(0, 16, false, false, false), Err(Error::NotReady));
    assert_eq!(transport.ack_interrupt(), InterruptStatus { bits: 0 });
    assert_eq!(
        transport.add_notify_wait_pop(0, &[&request], &mut outputs),
        Err(Error::NotReady)
    );
    assert_eq!(outputs, vec![vec![4]]);
    assert_eq!(
        transport.dma_new(1, BufferDirection::Both, false).err(),
        Some(Error::NotReady)
    );
    assert_eq!(transport.record().len(), 6);
}

#[test]
fn entries_of_another_kind_are_passed_over() {
    let mut transport = ReplayTransport::new(vec![Answered::Done, Answered::Config(Ok(1))]);
    assert_eq!(transport.read_config_u32(0), Err(Error::NotReady));
    assert_eq!(transport.read_config_u32(0), Ok(1));
}

#[test]
fn memory_is_zeroed_and_keeps_what_is_written() {
    let mut transport = ReplayTransport::new(vec![
        Answered::Memory(Ok(0x5000)),
        Answered::Memory(Err(Error::DmaError)),
        Answered::Memory(Ok(0x6000)),
    ]);
    let mut memory = match transport.dma_new(2, BufferDirection::DeviceToDriver, true) {
        Ok(memory) => memory,
        Err(e) => panic!("no memory: {:?}", e),
    };
    assert_eq!(memory.paddr(), 0x5000);
    assert_eq!(memory.raw_slice().to_vec(), vec![0; 8192]);
    memory.raw_slice()[8191] = 3;
    assert_eq!(memory.raw_slice()[8191], 3);
    transport.memory_written(&memory);
    let mut contents = vec![0; 8192];
    contents[8191] = 3;
    assert_eq!(transport.record()[1].ask, Asked::MemoryWritten { address: 0x5000, contents });
    assert_eq!(
        transport.dma_new(1, BufferDirection::Both, false).err(),
        Some(Error::DmaError)
    );
    assert_eq!(
        transport.dma_new(usize::MAX, BufferDirection::Both, false).err(),
        Some(Error::DmaError)
    );
}
