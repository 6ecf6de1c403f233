use virtio_gpu::edid::{Edid, BASE_BLOCK_LEN, DETAILED_TIMING, STANDARD_TIMINGS};
use virtio_gpu::error::Error;

/// A base block with no timing in use.
fn blank() -> Edid {
    let mut data = [0u8; 1024];
    for i in 0..16 {
        data[STANDARD_TIMINGS + i] = 1;
    }
    Edid { data, size: BASE_BLOCK_LEN }
}

fn with_detailed_timing(bytes: [u8; 8]) -> Edid {
    let mut edid = blank();
    edid.data[DETAILED_TIMING..DETAILED_TIMING + 8].copy_from_slice(&bytes);
    edid
}

#[test]
fn preferred_resolution_of_full_hd() {
    // 1920 is 0x780, 1080 is 0x438
    let edid = with_detailed_timing([0x02, 0x3a, 0x80, 0x18, 0x71, 0x38, 0x2d, 0x40]);
    assert_eq!(edid.preferred_resolution(), Ok((1920, 1080)));
}

#[test]
fn preferred_resolution_takes_the_upper_bits() {
    let edid = with_detailed_timing([1, 0, 0xff, 0, 0xf0, 0x01, 0, 0x0f]);
    assert_eq!(edid.preferred_resolution(), Ok((0xfff, 1)));
}

#[test]
fn preferred_resolution_needs_a_pixel_clock() {
    let edid = with_detailed_timing([0, 0, 0x80, 0x18, 0x71, 0x38, 0x2d, 0x40]);
    assert_eq!(edid.preferred_resolution(), Err(Error::IoError));
    let edid = with_detailed_timing([0, 1, 0x80, 0x18, 0x71, 0x38, 0x2d, 0x40]);
    assert_eq!(edid.preferred_resolution(), Ok((1920, 1080)));
}

#[test]
fn preferred_resolution_needs_a_whole_block() {
    let mut edid = with_detailed_timing([0x02, 0x3a, 0x80, 0x18, 0x71, 0x38, 0x2d, 0x40]);
    edid.size = 127;
    assert_eq!(edid.preferred_resolution(), Err(Error::IoError));
    edid.size = 256;
    assert_eq!(edid.preferred_resolution(), Ok((1920, 1080)));
}

#[test]
fn standard_timings_by_aspect_ratio() {
    let mut edid = blank();
    // 640 = (49 + 31) * 8, in each of the four aspect ratios
    for (i, second) in [0x00u8, 0x40, 0x80, 0xc0].into_iter().enumerate() {
        edid.data[STANDARD_TIMINGS + 2 * i] = 49;
        edid.data[STANDARD_TIMINGS + 2 * i + 1] = second;
    }
    assert_eq!(
        edid.standard_timings(),
        vec![(640, 512), (640, 480), (640, 400), (640, 360)]
    );
}

#[test]
fn standard_timings_skip_unused_entries() {
    let mut edid = blank();
    assert_eq!(edid.standard_timings(), vec![]);
    edid.data[STANDARD_TIMINGS] = 0;
    edid.data[STANDARD_TIMINGS + 1] = 0xc0;
    edid.data[STANDARD_TIMINGS + 4] = 1;
    edid.data[STANDARD_TIMINGS + 5] = 0x40;
    assert_eq!(edid.standard_timings(), vec![(256, 192)]);
}

#[test]
fn standard_timings_are_sorted_and_at_most_eight() {
    let mut edid = blank();
    for i in 0..8 {
        edid.data[STANDARD_TIMINGS + 2 * i] = [49, 129, 97, 209, 69, 69, 169, 255][i];
        edid.data[STANDARD_TIMINGS + 2 * i + 1] = 0x40;
    }
    let list = edid.standard_timings();
    assert_eq!(
        list,
        vec![
            (2288, 1716),
            (1920, 1440),
            (1600, 1200),
            (1280, 960),
            (1024, 768),
            (800, 600),
            (800, 600),
            (640, 480),
        ]
    );
}

#[test]
fn standard_timings_keep_every_entry() {
    let mut edid = blank();
    for (i, (first, second)) in [(89u8, 0x80u8), (49, 0x40), (89, 0x80)].into_iter().enumerate() {
        edid.data[STANDARD_TIMINGS + 2 * i] = first;
        edid.data[STANDARD_TIMINGS + 2 * i + 1] = second;
    }
    assert_eq!(edid.standard_timings(), vec![(960, 768), (960, 768), (640, 480)]);
}

#[test]
fn standard_timings_need_a_whole_block() {
    let mut edid = blank();
    edid.data[STANDARD_TIMINGS] = 49;
    edid.size = 127;
    assert_eq!(edid.standard_timings(), vec![]);
}
