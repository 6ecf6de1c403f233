use virtio_gpu::config::{Config, Features, Startup, SUPPORTED_FEATURES};
use virtio_gpu::context::GpuBox;
use virtio_gpu::display::Rect;
use virtio_gpu::dma::BufferDirection;
use virtio_gpu::driver::{initialise, VirtIOGpu, VIRTIO_GPU_SHM_ID_HOST_VISIBLE};
use virtio_gpu::error::Error;
use virtio_gpu::replay::{Answered, Asked, ReplayTransport};
use virtio_gpu::transport::InterruptStatus;

/// How many steps an initialisation takes.
const INIT: usize = 7;

const FB: u32 = 0xbabe;
const POINTER: u32 = 0xdade;

const RECT: Rect = Rect { x: 1, y: 2, width: 3, height: 4 };
const BOX: GpuBox = GpuBox { x: 1, y: 2, z: 3, w: 4, h: 5, d: 6 };

fn words(words: &[u32]) -> Vec<u8> {
    words.iter().flat_map(|w| w.to_le_bytes()).collect()
}

fn header(code: u32) -> Vec<u8> {
    words(&[code, 0, 0, 0, 0, 0])
}

/// A command: its code, its context, and the fields behind the header.
fn message(code: u32, ctx_id: u32, fields: &[u32]) -> Vec<u8> {
    [words(&[code, 0, 0, 0, ctx_id, 0]), words(fields)].concat()
}

fn plain(code: u32, fields: &[u32]) -> Vec<u8> {
    message(code, 0, fields)
}

/// A device that answers with `bytes`.
fn reply(bytes: Vec<u8>) -> Answered {
    Answered::Reply { used: Ok(bytes.len() as u32), outputs: vec![bytes] }
}

fn ok() -> Answered {
    reply(header(0x1100))
}

/// A queue that fails.
fn fails(e: Error) -> Answered {
    Answered::Reply { used: Err(e), outputs: vec![] }
}

fn memory(paddr: u64) -> Answered {
    Answered::Memory(Ok(paddr))
}

fn init(features: u64) -> Vec<Answered> {
    vec![
        Answered::Features(features),
        Answered::Config(Ok(0)),
        Answered::Config(Ok(1)),
        Answered::Config(Ok(2)),
        Answered::Queue(Ok(())),
        Answered::Queue(Ok(())),
    ]
}

/// A driver of a device that has `features` and then answers as `script` says.
fn gpu(features: u64, script: Vec<Answered>) -> VirtIOGpu<ReplayTransport> {
    let mut answers = init(features);
    answers.extend(script);
    match VirtIOGpu::new(ReplayTransport::new(answers)) {
        Ok(gpu) => gpu,
        Err(e) => panic!("initialisation failed: {:?}", e),
    }
}

fn all() -> u64 {
    SUPPORTED_FEATURES
}

/// What a driver asked for since its initialisation.
fn asked(gpu: &VirtIOGpu<ReplayTransport>) -> Vec<&Asked> {
    gpu.transport().record()[INIT..].iter().map(|recorded| &recorded.ask).collect()
}

/// An exchange on the control queue.
fn exchange(inputs: Vec<Vec<u8>>, outputs: &[usize]) -> Asked {
    Asked::Exchange {
        queue: 0,
        inputs,
        outputs: outputs.iter().map(|n| vec![0; *n]).collect(),
    }
}

fn command(bytes: Vec<u8>) -> Asked {
    exchange(vec![bytes], &[24])
}

fn pointer(bytes: Vec<u8>) -> Asked {
    Asked::Exchange { queue: 1, inputs: vec![bytes], outputs: vec![] }
}

fn frame_memory(pages: usize, access_platform: bool) -> Asked {
    Asked::DmaNew { pages, direction: BufferDirection::DriverToDevice, access_platform }
}

fn display_info(width: u32, height: u32) -> Vec<u8> {
    let mut bytes = header(0x1101);
    bytes.extend(words(&[0, 0, width, height, 1, 0]));
    bytes.resize(408, 0);
    bytes
}

fn teardown() -> Vec<Asked> {
    vec![
        command(plain(0x103, &[0, 0, 0, 0, 0, 0])),
        command(plain(0x107, &[FB, 0])),
        command(plain(0x102, &[FB, 0])),
    ]
}

fn setup(width: u32, height: u32, pages: usize, platform: bool, paddr: u32) -> Vec<Asked> {
    vec![
        command(plain(0x101, &[FB, 1, width, height])),
        frame_memory(pages, platform),
        command(plain(0x106, &[FB, 1, paddr, 0, width * height * 4, 0])),
        command(plain(0x103, &[0, 0, width, height, 0, FB])),
    ]
}

fn references(asks: &[Asked]) -> Vec<&Asked> {
    asks.iter().collect()
}

// Initialisation

#[test]
fn new_negotiates_and_sets_up_queues() {
    let gpu = gpu(all(), vec![]);
    let record: Vec<&Asked> = gpu.transport().record().iter().map(|r| &r.ask).collect();
    let expected = [
        Asked::BeginInit { supported: 0x3_3000_001b },
        Asked::ReadConfig { offset: Config::EVENTS_READ },
        Asked::ReadConfig { offset: Config::NUM_SCANOUTS },
        Asked::ReadConfig { offset: Config::NUM_CAPSETS },
        Asked::QueueNew {
            queue: 0,
            size: 16,
            indirect: true,
            event_idx: true,
            access_platform: true,
        },
        Asked::QueueNew {
            queue: 1,
            size: 16,
            indirect: true,
            event_idx: true,
            access_platform: true,
        },
        Asked::FinishInit,
    ];
    assert_eq!(record, references(&expected));
    assert!(gpu.has_virgl());
    assert!(gpu.has_resource_blob());
    assert_eq!(VIRTIO_GPU_SHM_ID_HOST_VISIBLE, 1);
}

#[test]
fn new_remembers_only_what_was_negotiated() {
    let only_virgl = gpu(Features::VIRGL | Features::RING_EVENT_IDX | Features::SR_IOV, vec![]);
    assert!(only_virgl.has_virgl());
    assert!(!only_virgl.has_resource_blob());
    assert_eq!(
        only_virgl.transport().record()[4].ask,
        Asked::QueueNew {
            queue: 0,
            size: 16,
            indirect: false,
            event_idx: true,
            access_platform: false,
        }
    );
    let only_blob = gpu(Features::RESOURCE_BLOB, vec![]);
    assert!(!only_blob.has_virgl());
    assert!(only_blob.has_resource_blob());
}

#[test]
fn new_reports_the_first_failure() {
    for (step, answer, error) in [
        (1, Answered::Config(Err(Error::ConfigSpaceMissing)), Error::ConfigSpaceMissing),
        (2, Answered::Config(Err(Error::ConfigSpaceTooSmall)), Error::ConfigSpaceTooSmall),
        (3, Answered::Config(Err(Error::NotReady)), Error::NotReady),
        (4, Answered::Queue(Err(Error::AlreadyUsed)), Error::AlreadyUsed),
        (5, Answered::Queue(Err(Error::DmaError)), Error::DmaError),
    ] {
        let mut script = init(all());
        script[step] = answer;
        let mut transport = ReplayTransport::new(script);
        assert_eq!(initialise(&mut transport).err(), Some(error));
        assert_eq!(transport.record().len(), step + 1);
    }
}

#[test]
fn new_returns_the_error_of_initialise() {
    for (step, answer, error) in [
        (1, Answered::Config(Err(Error::ConfigSpaceMissing)), Error::ConfigSpaceMissing),
        (3, Answered::Config(Err(Error::ConfigSpaceTooSmall)), Error::ConfigSpaceTooSmall),
        (4, Answered::Queue(Err(Error::AlreadyUsed)), Error::AlreadyUsed),
        (5, Answered::Queue(Err(Error::QueueFull)), Error::QueueFull),
    ] {
        let mut script = init(all());
        script[step] = answer;
        match VirtIOGpu::new(ReplayTransport::new(script)) {
            Ok(_) => panic!("step {} failed", step),
            Err(e) => assert_eq!(e, error),
        }
    }
}

#[test]
fn initialise_returns_what_it_learnt() {
    let mut transport = ReplayTransport::new(init(Features::EDID | Features::SR_IOV));
    assert!(
        initialise(&mut transport)
            == Ok(Startup {
                features: Features { bits: Features::EDID },
                events_read: 0,
                num_scanouts: 1,
                num_capsets: 2,
            })
    );
    assert_eq!(transport.record().len(), INIT);
}

#[test]
fn with_features_goes_on_where_initialise_ended() {
    let mut script = init(Features::VIRGL);
    script.push(ok());
    let mut transport = ReplayTransport::new(script);
    let learnt = match initialise(&mut transport) {
        Ok(learnt) => learnt,
        Err(e) => panic!("initialisation failed: {:?}", e),
    };
    let mut gpu = VirtIOGpu::with_features(transport, learnt.features);
    assert!(gpu.has_virgl());
    assert!(!gpu.has_resource_blob());
    assert_eq!(gpu.transport().record().len(), INIT);
    assert_eq!(gpu.flush(), Err(Error::NotReady));
    assert_eq!(gpu.get_edid(0).err(), Some(Error::Unsupported));
    assert_eq!(gpu.ctx_destroy(1), Ok(()));
}

#[test]
fn queues_are_unset() {
    let mut gpu = gpu(all(), vec![]);
    gpu.unset_queues();
    assert_eq!(
        asked(&gpu),
        references(&[Asked::QueueUnset { queue: 0 }, Asked::QueueUnset { queue: 1 }])
    );
}

#[test]
fn interrupts_are_acknowledged() {
    let mut gpu = gpu(all(), vec![Answered::Status(InterruptStatus { bits: 3 })]);
    assert_eq!(gpu.ack_interrupt(), InterruptStatus { bits: 3 });
    assert_eq!(asked(&gpu), vec![&Asked::AckInterrupt]);
}

// Display

#[test]
fn resolution_is_that_of_the_first_scanout() {
    let mut gpu = gpu(all(), vec![reply(display_info(1280, 800))]);
    assert_eq!(gpu.resolution(), Ok((1280, 800)));
    assert_eq!(asked(&gpu), vec![&exchange(vec![header(0x100)], &[408])]);
}

#[test]
fn display_info_is_read() {
    let mut gpu = gpu(all(), vec![reply(display_info(1280, 800)), ok()]);
    match gpu.get_display_info() {
        Ok(info) => {
            assert_eq!((info.pmodes[0].rect.width, info.pmodes[0].rect.height), (1280, 800));
            assert_eq!((info.pmodes[0].enabled, info.pmodes[1].enabled), (1, 0));
        },
        Err(e) => panic!("no display info: {:?}", e),
    }
    assert_eq!(gpu.get_display_info().err(), Some(Error::IoError));
    let ask = exchange(vec![header(0x100)], &[408]);
    assert_eq!(asked(&gpu), vec![&ask, &ask]);
}

#[test]
fn resolution_checks_the_response() {
    let mut gpu = gpu(
        all(),
        vec![ok(), reply(header(0x1200)), fails(Error::QueueFull), fails(Error::WrongToken)],
    );
    assert_eq!(gpu.resolution(), Err(Error::IoError));
    assert_eq!(gpu.resolution(), Err(Error::IoError));
    assert_eq!(gpu.resolution(), Err(Error::QueueFull));
    assert_eq!(gpu.resolution(), Err(Error::WrongToken));
}

fn edid_reply() -> Vec<u8> {
    let mut bytes = header(0x1104);
    bytes.extend(words(&[128, 0]));
    let mut data = vec![1u8; 1024];
    data[38] = 49;
    data[39] = 0x40;
    data[40] = 129;
    data[41] = 0x80;
    data[54..62].copy_from_slice(&[0x02, 0x3a, 0x80, 0x18, 0x71, 0x38, 0x2d, 0x40]);
    bytes.extend(data);
    bytes
}

#[test]
fn edid_is_asked_for() {
    let mut gpu = gpu(all(), vec![reply(edid_reply()), ok()]);
    let edid = match gpu.get_edid(2) {
        Ok(edid) => edid,
        Err(e) => panic!("no EDID: {:?}", e),
    };
    assert_eq!(edid.size, 128);
    assert_eq!(edid.data.to_vec(), edid_reply()[32..].to_vec());
    assert_eq!(asked(&gpu), vec![&exchange(vec![plain(0x10a, &[2, 0])], &[1056])]);
    assert_eq!(gpu.get_edid(2).err(), Some(Error::IoError));
}

#[test]
fn edid_resolutions() {
    let mut gpu = gpu(all(), vec![reply(edid_reply()), reply(edid_reply())]);
    assert_eq!(gpu.edid_preferred_resolution(), Ok((1920, 1080)));
    assert_eq!(gpu.edid_supported_resolutions(), Ok(vec![(1280, 1024), (640, 480)]));
    let ask = exchange(vec![plain(0x10a, &[0, 0])], &[1056]);
    assert_eq!(asked(&gpu), vec![&ask, &ask]);
}

#[test]
fn edid_needs_its_feature() {
    let mut gpu = gpu(all() & !Features::EDID, vec![reply(edid_reply())]);
    assert_eq!(gpu.get_edid(0).err(), Some(Error::Unsupported));
    assert_eq!(gpu.edid_preferred_resolution(), Err(Error::Unsupported));
    assert_eq!(gpu.edid_supported_resolutions(), Err(Error::Unsupported));
    assert!(asked(&gpu).is_empty());
}

// Framebuffer

#[test]
fn framebuffer_is_set_up_in_the_resolution_of_the_display() {
    let mut gpu = gpu(
        all(),
        vec![reply(display_info(1024, 768)), ok(), memory(0x8000), ok(), ok()],
    );
    let frame = match gpu.setup_framebuffer() {
        Ok(frame) => frame,
        Err(e) => panic!("no framebuffer: {:?}", e),
    };
    assert_eq!(frame.len(), 1024 * 768 * 4);
    assert!(frame.iter().all(|b| *b == 0));
    let mut expected = vec![exchange(vec![header(0x100)], &[408])];
    expected.extend(setup(1024, 768, 768, true, 0x8000));
    assert_eq!(asked(&gpu), references(&expected));
}

#[test]
fn framebuffer_setup_needs_a_display_mode() {
    let mut gpu = gpu(all(), vec![ok(), fails(Error::NotReady)]);
    assert_eq!(gpu.setup_framebuffer().err(), Some(Error::IoError));
    assert_eq!(gpu.setup_framebuffer().err(), Some(Error::NotReady));
    assert_eq!(asked(&gpu).len(), 2);
    assert_eq!(gpu.flush(), Err(Error::NotReady));
}

#[test]
fn framebuffer_that_is_too_large_ends_with_its_resource() {
    let mut gpu = gpu(
        0,
        vec![
            ok(),
            memory(0x8000),
            ok(),
            ok(),
            reply(display_info(0x8000, 0x8000)),
            ok(),
            ok(),
            ok(),
            ok(),
            ok(),
            ok(),
        ],
    );
    assert!(gpu.change_resolution(640, 480).is_ok());
    assert_eq!(gpu.setup_framebuffer().err(), Some(Error::InvalidParam));
    assert_eq!(gpu.flush(), Ok(()));
    let mut expected = setup(640, 480, 300, false, 0x8000);
    expected.push(exchange(vec![header(0x100)], &[408]));
    expected.extend(teardown());
    expected.push(command(plain(0x101, &[FB, 1, 0x8000, 0x8000])));
    expected.push(command(plain(0x105, &[0, 0, 0x8000, 0x8000, 0, 0, FB, 0])));
    expected.push(command(plain(0x104, &[0, 0, 0x8000, 0x8000, FB, 0])));
    assert_eq!(asked(&gpu), references(&expected));
}

#[test]
fn framebuffer_that_is_too_large_reports_a_failing_step_first() {
    let mut gpu = gpu(
        0,
        vec![
            reply(header(0x1201)),
            reply(display_info(u32::MAX, u32::MAX)),
            fails(Error::QueueFull),
        ],
    );
    assert_eq!(gpu.change_resolution(0x8000, 0x8000).err(), Some(Error::IoError));
    assert_eq!(gpu.setup_framebuffer().err(), Some(Error::QueueFull));
    assert_eq!(
        asked(&gpu),
        references(&[
            command(plain(0x101, &[FB, 1, 0x8000, 0x8000])),
            exchange(vec![header(0x100)], &[408]),
            command(plain(0x101, &[FB, 1, u32::MAX, u32::MAX])),
        ])
    );
}

#[test]
fn largest_framebuffer_is_asked_for() {
    let mut gpu = gpu(0, vec![ok(), Answered::Memory(Err(Error::DmaError))]);
    assert_eq!(gpu.change_resolution(0x8000, 0x7fff).err(), Some(Error::DmaError));
    assert_eq!(*asked(&gpu)[1], frame_memory(0xfffe0, false));
}

#[test]
fn framebuffer_is_as_long_as_its_pages() {
    let mut gpu = gpu(0, vec![ok(), memory(0x8000), ok(), ok()]);
    assert_eq!(gpu.change_resolution(3, 5).map(|frame| frame.len()), Ok(4096));
    assert_eq!(asked(&gpu), references(&setup(3, 5, 1, false, 0x8000)));
}

#[test]
fn framebuffer_bytes_stay_what_they_are_drawn() {
    let mut gpu = gpu(0, vec![ok(), memory(0x8000), ok(), ok()]);
    match gpu.change_resolution(32, 32) {
        Ok(frame) => {
            frame[0] = 7;
            frame[4095] = 9;
        },
        Err(e) => panic!("no framebuffer: {:?}", e),
    }
    assert_eq!(asked(&gpu), references(&setup(32, 32, 1, false, 0x8000)));
}

#[test]
fn change_of_resolution_tears_the_old_framebuffer_down() {
    let mut gpu = gpu(
        0,
        vec![
            ok(),
            memory(0x8000),
            ok(),
            ok(),
            ok(),
            ok(),
            ok(),
            ok(),
            memory(0x9000),
            ok(),
            ok(),
        ],
    );
    assert_eq!(gpu.change_resolution(640, 480).map(|frame| frame.len()), Ok(640 * 480 * 4));
    assert_eq!(gpu.change_resolution(800, 600).map(|frame| frame.len()), Ok(469 * 4096));
    let mut expected = setup(640, 480, 300, false, 0x8000);
    expected.extend(teardown());
    expected.extend(setup(800, 600, 469, false, 0x9000));
    assert_eq!(asked(&gpu), references(&expected));
}

#[test]
fn change_of_resolution_stops_at_the_first_failure() {
    for step in 0..4 {
        let mut script = vec![ok(), memory(0x8000), ok(), ok()];
        script[step] = if step == 1 {
            Answered::Memory(Err(Error::DmaError))
        } else {
            reply(header(0x1201))
        };
        let mut gpu = gpu(0, script);
        let error = if step == 1 { Error::DmaError } else { Error::IoError };
        assert_eq!(gpu.change_resolution(640, 480).err(), Some(error));
        let expected = setup(640, 480, 300, false, 0x8000);
        assert_eq!(asked(&gpu), references(&expected[..step + 1]));
    }
}

#[test]
fn failed_teardown_keeps_the_framebuffer() {
    for step in 0..3 {
        let mut script = vec![ok(), memory(0x8000), ok(), ok(), ok(), ok(), ok()];
        script[4 + step] = fails(Error::IoError);
        script.truncate(5 + step);
        script.extend(vec![ok(), ok()]);
        let mut gpu = gpu(0, script);
        assert!(gpu.change_resolution(640, 480).is_ok());
        assert_eq!(gpu.change_resolution(800, 600).err(), Some(Error::IoError));
        assert_eq!(gpu.flush(), Ok(()));
        let mut expected = setup(640, 480, 300, false, 0x8000);
        expected.extend(teardown().into_iter().take(step + 1));
        expected.push(command(plain(0x105, &[0, 0, 640, 480, 0, 0, FB, 0])));
        expected.push(command(plain(0x104, &[0, 0, 640, 480, FB, 0])));
        assert_eq!(asked(&gpu), references(&expected));
    }
}

#[test]
fn failed_setup_leaves_no_framebuffer_to_tear_down() {
    let mut gpu = gpu(
        0,
        vec![reply(header(0x1200)), ok(), ok(), ok(), memory(0x8000), ok(), ok()],
    );
    assert_eq!(gpu.change_resolution(640, 480).err(), Some(Error::IoError));
    assert_eq!(gpu.flush(), Ok(()));
    assert!(gpu.change_resolution(640, 480).is_ok());
    let mut expected = vec![
        command(plain(0x101, &[FB, 1, 640, 480])),
        command(plain(0x105, &[0, 0, 640, 480, 0, 0, FB, 0])),
        command(plain(0x104, &[0, 0, 640, 480, FB, 0])),
    ];
    expected.extend(setup(640, 480, 300, false, 0x8000));
    assert_eq!(asked(&gpu), references(&expected));
}

#[test]
fn flush_needs_a_framebuffer() {
    let mut gpu = gpu(all(), vec![ok(), ok()]);
    assert_eq!(gpu.flush(), Err(Error::NotReady));
    assert!(asked(&gpu).is_empty());
}

#[test]
fn flush_transfers_and_shows() {
    let mut gpu = gpu(0, vec![ok(), memory(0x8000), ok(), ok(), ok(), ok()]);
    assert!(gpu.change_resolution(640, 480).is_ok());
    assert_eq!(gpu.flush(), Ok(()));
    assert_eq!(
        asked(&gpu)[4..],
        references(&[
            command(plain(0x105, &[0, 0, 640, 480, 0, 0, FB, 0])),
            command(plain(0x104, &[0, 0, 640, 480, FB, 0])),
        ])
    );
}

#[test]
fn flush_stops_at_the_first_failure() {
    let mut gpu = gpu(0, vec![ok(), memory(0x8000), ok(), ok(), reply(header(0x1203))]);
    assert!(gpu.change_resolution(640, 480).is_ok());
    assert_eq!(gpu.flush(), Err(Error::IoError));
    assert_eq!(asked(&gpu).len(), 5);
}

#[test]
fn same_answers_give_the_same_calls() {
    let run = || {
        let mut gpu = gpu(0, vec![ok(), memory(0x8000), ok(), reply(header(0x1200))]);
        let result = gpu.change_resolution(640, 480).map(|frame| frame.len());
        (result, asked(&gpu).len())
    };
    assert_eq!(run(), run());
    assert_eq!(run(), (Err(Error::IoError), 4));
}

// Pointer

fn image() -> Vec<u8> {
    (0..64 * 64 * 4).map(|i| (i % 251) as u8).collect()
}

#[test]
fn pointer_image_is_set() {
    let mut gpu = gpu(
        Features::ACCESS_PLATFORM,
        vec![memory(0x7000), ok(), ok(), ok(), Answered::Reply { used: Ok(0), outputs: vec![] }],
    );
    assert_eq!(gpu.setup_cursor(&image(), 10, 20, 3, 4), Ok(()));
    assert_eq!(
        asked(&gpu),
        references(&[
            frame_memory(4, true),
            Asked::MemoryWritten { address: 0x7000, contents: image() },
            command(plain(0x101, &[POINTER, 1, 64, 64])),
            command(plain(0x106, &[POINTER, 1, 0x7000, 0, 0x4000, 0])),
            command(plain(0x105, &[0, 0, 64, 64, 0, 0, POINTER, 0])),
            pointer(plain(0x300, &[0, 10, 20, 0, POINTER, 3, 4, 0])),
        ])
    );
}

#[test]
fn pointer_image_has_one_size() {
    let mut gpu = gpu(0, vec![memory(0x7000)]);
    assert_eq!(gpu.setup_cursor(&[], 0, 0, 0, 0), Err(Error::InvalidParam));
    assert_eq!(gpu.setup_cursor(&image()[1..], 0, 0, 0, 0), Err(Error::InvalidParam));
    assert_eq!(gpu.setup_cursor(&vec![0; 16385], 0, 0, 0, 0), Err(Error::InvalidParam));
    assert!(asked(&gpu).is_empty());
}

#[test]
fn pointer_setup_stops_at_the_first_failure() {
    for (step, asks) in [(0, 1), (1, 3), (2, 4), (3, 5), (4, 6)] {
        let mut script = vec![
            memory(0x7000),
            ok(),
            ok(),
            ok(),
            Answered::Reply { used: Ok(0), outputs: vec![] },
        ];
        script[step] = if step == 0 {
            Answered::Memory(Err(Error::DmaError))
        } else {
            fails(Error::DmaError)
        };
        let mut gpu = gpu(0, script);
        assert_eq!(gpu.setup_cursor(&image(), 0, 0, 0, 0), Err(Error::DmaError));
        assert_eq!(asked(&gpu).len(), asks);
    }
}

#[test]
fn pointer_is_moved() {
    let taken = || Answered::Reply { used: Ok(0), outputs: vec![] };
    let mut gpu = gpu(0, vec![taken(), fails(Error::QueueFull)]);
    assert_eq!(gpu.move_cursor(10, 20), Ok(()));
    assert_eq!(gpu.move_cursor(11, 21), Err(Error::QueueFull));
    assert_eq!(
        asked(&gpu),
        references(&[
            pointer(plain(0x301, &[0, 10, 20, 0, POINTER, 0, 0, 0])),
            pointer(plain(0x301, &[0, 11, 21, 0, POINTER, 0, 0, 0])),
        ])
    );
}

// 2D commands

#[test]
fn commands_2d_send_their_bytes() {
    let mut gpu = gpu(0, vec![ok(), ok(), ok(), ok(), ok(), ok(), ok()]);
    assert_eq!(gpu.resource_create_2d(5, 6, 7), Ok(()));
    assert_eq!(gpu.set_scanout(RECT, 8, 9), Ok(()));
    assert_eq!(gpu.resource_flush(RECT, 10), Ok(()));
    assert_eq!(gpu.transfer_to_host_2d(RECT, 0xc_0000_000b, 13), Ok(()));
    assert_eq!(gpu.resource_attach_backing(14, 0x10_0000_000f, 17), Ok(()));
    assert_eq!(gpu.resource_detach_backing(18), Ok(()));
    assert_eq!(gpu.resource_unref(19), Ok(()));
    assert_eq!(
        asked(&gpu),
        references(&[
            command(plain(0x101, &[5, 1, 6, 7])),
            command(plain(0x103, &[1, 2, 3, 4, 8, 9])),
            command(plain(0x104, &[1, 2, 3, 4, 10, 0])),
            command(plain(0x105, &[1, 2, 3, 4, 11, 12, 13, 0])),
            command(plain(0x106, &[14, 1, 15, 16, 17, 0])),
            command(plain(0x107, &[18, 0])),
            command(plain(0x102, &[19, 0])),
        ])
    );
}

#[test]
fn commands_2d_need_an_acknowledgement() {
    for (answer, error) in [
        (0x1200, Error::IoError),
        (0x1205, Error::IoError),
        (0x1101, Error::IoError),
        (0, Error::IoError),
    ] {
        let mut gpu = gpu(0, (0..7).map(|_| reply(header(answer))).collect());
        assert_eq!(gpu.resource_create_2d(5, 6, 7), Err(error));
        assert_eq!(gpu.set_scanout(RECT, 8, 9), Err(error));
        assert_eq!(gpu.resource_flush(RECT, 10), Err(error));
        assert_eq!(gpu.transfer_to_host_2d(RECT, 11, 13), Err(error));
        assert_eq!(gpu.resource_attach_backing(14, 15, 17), Err(error));
        assert_eq!(gpu.resource_detach_backing(18), Err(error));
        assert_eq!(gpu.resource_unref(19), Err(error));
    }
}

#[test]
fn commands_2d_report_what_the_queue_reports() {
    let mut gpu = gpu(0, vec![fails(Error::WrongToken), fails(Error::Unsupported)]);
    assert_eq!(gpu.resource_unref(19), Err(Error::WrongToken));
    assert_eq!(gpu.resource_detach_backing(19), Err(Error::Unsupported));
}

#[test]
fn silent_device_is_an_error() {
    let mut gpu = gpu(0, vec![Answered::Reply { used: Ok(0), outputs: vec![] }]);
    assert_eq!(gpu.resource_unref(1), Err(Error::IoError));
}

// 3D commands

#[test]
fn commands_3d_need_virgl() {
    assert_eq!(gpu(Features::VIRGL, vec![]).require_virgl(), Ok(()));
    let mut gpu = gpu(all() & !Features::VIRGL, vec![ok()]);
    assert!(!gpu.has_virgl());
    assert_eq!(gpu.require_virgl(), Err(Error::IoError));
    assert_eq!(gpu.get_capset_info(0).err(), Some(Error::IoError));
    assert_eq!(gpu.get_capset(1, 2, 3), Err(Error::IoError));
    assert_eq!(gpu.ctx_create(1, "name", 2), Err(Error::IoError));
    assert_eq!(gpu.ctx_destroy(1), Err(Error::IoError));
    assert_eq!(gpu.ctx_attach_resource(1, 2), Err(Error::IoError));
    assert_eq!(gpu.ctx_detach_resource(1, 2), Err(Error::IoError));
    assert_eq!(
        gpu.resource_create_3d(1, 2, 3, 4, 5, 6, 7, 8, 9, 10, 11, 12),
        Err(Error::IoError)
    );
    assert_eq!(gpu.transfer_to_host_3d(1, 2, BOX, 3, 4, 5, 6), Err(Error::IoError));
    assert_eq!(gpu.transfer_from_host_3d(1, 2, BOX, 3, 4, 5, 6), Err(Error::IoError));
    assert_eq!(gpu.submit_3d(1, 2, &[1, 2, 3]), Err(Error::IoError));
    assert_eq!(gpu.resource_create_blob(1, 2, 3, 4, 5, 6, &[]), Err(Error::IoError));
    assert!(asked(&gpu).is_empty());
}

#[test]
fn commands_3d_send_their_bytes() {
    let mut gpu = gpu(all(), (0..6).map(|_| ok()).collect());
    assert_eq!(gpu.ctx_destroy(1), Ok(()));
    assert_eq!(gpu.ctx_attach_resource(2, 3), Ok(()));
    assert_eq!(gpu.ctx_detach_resource(4, 5), Ok(()));
    assert_eq!(gpu.resource_create_3d(1, 2, 3, 4, 5, 6, 7, 8, 9, 10, 11, 12), Ok(()));
    assert_eq!(gpu.transfer_to_host_3d(7, 8, BOX, 0xa_0000_0009, 11, 12, 13), Ok(()));
    assert_eq!(gpu.transfer_from_host_3d(7, 8, BOX, 9, 11, 12, 13), Ok(()));
    assert_eq!(
        asked(&gpu),
        references(&[
            command(message(0x201, 1, &[])),
            command(message(0x202, 2, &[3, 0])),
            command(message(0x203, 4, &[5, 0])),
            command(message(0x204, 1, &[2, 3, 4, 5, 6, 7, 8, 9, 10, 11, 12, 0])),
            command(message(0x205, 7, &[1, 2, 3, 4, 5, 6, 9, 10, 8, 11, 12, 13])),
            command(message(0x206, 7, &[1, 2, 3, 4, 5, 6, 9, 0, 8, 11, 12, 13])),
        ])
    );
}

#[test]
fn commands_3d_need_an_acknowledgement() {
    let mut gpu = gpu(all(), (0..9).map(|_| reply(header(0x1204))).collect());
    assert_eq!(gpu.ctx_create(1, "name", 2), Err(Error::IoError));
    assert_eq!(gpu.ctx_destroy(1), Err(Error::IoError));
    assert_eq!(gpu.ctx_attach_resource(1, 2), Err(Error::IoError));
    assert_eq!(gpu.ctx_detach_resource(1, 2), Err(Error::IoError));
    assert_eq!(
        gpu.resource_create_3d(1, 2, 3, 4, 5, 6, 7, 8, 9, 10, 11, 12),
        Err(Error::IoError)
    );
    assert_eq!(gpu.transfer_to_host_3d(1, 2, BOX, 3, 4, 5, 6), Err(Error::IoError));
    assert_eq!(gpu.transfer_from_host_3d(1, 2, BOX, 3, 4, 5, 6), Err(Error::IoError));
    assert_eq!(gpu.submit_3d(1, 2, &[1, 2, 3, 4]), Err(Error::IoError));
    assert_eq!(gpu.resource_create_blob(1, 2, 3, 4, 5, 6, &[]), Err(Error::IoError));
    assert_eq!(asked(&gpu).len(), 9);
}

#[test]
fn capset_info_is_read() {
    let bytes = [header(0x1102), words(&[1, 2, 300, 0])].concat();
    let mut gpu = gpu(all(), vec![reply(bytes), ok()]);
    match gpu.get_capset_info(3) {
        Ok(info) => {
            assert_eq!(info.capset_id, 1);
            assert_eq!(info.capset_max_version, 2);
            assert_eq!(info.capset_max_size, 300);
        },
        Err(e) => panic!("no capset: {:?}", e),
    }
    assert_eq!(gpu.get_capset_info(3).err(), Some(Error::IoError));
    let ask = exchange(vec![plain(0x108, &[3, 0])], &[40]);
    assert_eq!(asked(&gpu), vec![&ask, &ask]);
}

fn capset(used: u32, data: Vec<u8>) -> Answered {
    Answered::Reply { used: Ok(used), outputs: vec![header(0x1103), data] }
}

#[test]
fn capset_is_cut_to_what_the_device_wrote() {
    let mut gpu = gpu(
        all(),
        vec![
            capset(24 + 3, vec![1, 2, 3, 4, 5]),
            capset(24 + 5, vec![1, 2, 3, 4, 5]),
            capset(1000, vec![1, 2, 3, 4, 5]),
            capset(24, vec![1, 2, 3, 4, 5]),
            capset(0, vec![1, 2, 3, 4, 5]),
        ],
    );
    assert_eq!(gpu.get_capset(1, 2, 5), Ok(vec![1, 2, 3]));
    assert_eq!(gpu.get_capset(1, 2, 5), Ok(vec![1, 2, 3, 4, 5]));
    assert_eq!(gpu.get_capset(1, 2, 5), Ok(vec![1, 2, 3, 4, 5]));
    assert_eq!(gpu.get_capset(1, 2, 5), Ok(vec![]));
    assert_eq!(gpu.get_capset(1, 2, 5), Ok(vec![]));
    assert_eq!(*asked(&gpu)[0], exchange(vec![plain(0x109, &[1, 2])], &[24, 5]));
}

#[test]
fn capset_checks_the_response() {
    let mut gpu = gpu(all(), vec![ok(), fails(Error::QueueFull)]);
    assert_eq!(gpu.get_capset(1, 2, 5), Err(Error::IoError));
    assert_eq!(gpu.get_capset(1, 2, 5), Err(Error::QueueFull));
}

#[test]
fn context_names_are_padded_and_cut() {
    let long = "x".repeat(70);
    let mut gpu = gpu(all(), vec![ok(), ok(), ok(), ok()]);
    assert_eq!(gpu.ctx_create(7, "mesa", 2), Ok(()));
    assert_eq!(gpu.ctx_create(7, "", 0), Ok(()));
    assert_eq!(gpu.ctx_create(7, &long[..64], 0), Ok(()));
    assert_eq!(gpu.ctx_create(7, &long, 0), Ok(()));
    let named = |nlen: u32, init: u32, name: &str| {
        let mut bytes = message(0x200, 7, &[nlen, init]);
        bytes.extend(name.as_bytes());
        bytes.resize(96, 0);
        command(bytes)
    };
    assert_eq!(
        asked(&gpu),
        references(&[
            named(4, 2, "mesa"),
            named(0, 0, ""),
            named(64, 0, &long[..64]),
            named(64, 0, &long[..64]),
        ])
    );
}

#[test]
fn command_streams_are_sent_with_a_fence() {
    let mut gpu = gpu(all(), vec![ok(), ok()]);
    let stream = vec![1, 2, 3, 4, 5, 6, 7, 8];
    assert_eq!(gpu.submit_3d(7, 0x2_0000_0001, &stream), Ok(()));
    assert_eq!(gpu.submit_3d(7, 3, &[]), Ok(()));
    assert_eq!(
        asked(&gpu),
        references(&[
            exchange(vec![words(&[0x207, 1, 1, 2, 7, 0, 8, 0]), stream], &[24]),
            exchange(vec![words(&[0x207, 1, 3, 0, 7, 0, 0, 0])], &[24]),
        ])
    );
}

#[test]
fn command_streams_are_whole_words() {
    let mut gpu = gpu(all(), vec![ok()]);
    for n in [1, 2, 3, 5, 6, 7] {
        assert_eq!(gpu.submit_3d(7, 1, &vec![0; n]), Err(Error::InvalidParam));
    }
    assert!(asked(&gpu).is_empty());
}

#[test]
fn blobs_are_created_with_their_ranges() {
    let mut gpu = gpu(all(), vec![ok(), ok()]);
    assert_eq!(gpu.resource_create_blob(1, 2, 3, 4, 0x6_0000_0005, 0x8_0000_0007, &[]), Ok(()));
    assert_eq!(
        gpu.resource_create_blob(1, 2, 3, 4, 5, 7, &[(0x2_0000_0001, 3), (4, 0xffff_ffff)]),
        Ok(())
    );
    assert_eq!(
        asked(&gpu),
        references(&[
            command(message(0x10c, 1, &[2, 3, 4, 0, 7, 8, 5, 6])),
            exchange(
                vec![
                    message(0x10c, 1, &[2, 3, 4, 2, 7, 0, 5, 0]),
                    words(&[1, 2, 3, 0, 4, 0, 0xffff_ffff, 0]),
                ],
                &[24]
            ),
        ])
    );
}

#[test]
fn blobs_need_their_feature() {
    let mut gpu = gpu(all() & !Features::RESOURCE_BLOB, vec![ok()]);
    assert_eq!(gpu.resource_create_blob(1, 2, 3, 4, 5, 6, &[]), Err(Error::Unsupported));
    assert!(asked(&gpu).is_empty());
}

#[test]
fn blob_ranges_have_32_bit_lengths() {
    let mut gpu = gpu(all(), vec![ok()]);
    assert_eq!(
        gpu.resource_create_blob(1, 2, 3, 4, 5, 6, &[(1, 2), (3, 0x1_0000_0000)]),
        Err(Error::InvalidParam)
    );
    assert!(asked(&gpu).is_empty());
}
