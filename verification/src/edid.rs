//! What a display tells about itself.
//!
//! The layout is that of the base block of VESA's E-EDID data.
use crate::error::Error;
use vstd::prelude::*;

verus! {

/// The length of the base block.
pub const BASE_BLOCK_LEN: u32 = 128;

/// Where the standard timings start.
pub const STANDARD_TIMINGS: usize = 38;

/// How many standard timings there are, used or not.
pub const STANDARD_TIMINGS_COUNT: usize = 8;

/// Where the first detailed timing descriptor starts.
pub const DETAILED_TIMING: usize = 54;

/// The EDID data of a display.
#[derive(Clone, Copy, Debug)]
pub struct Edid {
    /// The data, and whatever stands behind its end.
    pub data: [u8; 1024],
    /// How many bytes of `data` the device filled.
    pub size: u32,
}

/// The resolution in the first detailed timing descriptor. There is none in data that is too
/// short, nor where the descriptor has no pixel clock: it then describes something else.
pub open spec fn preferred(data: Seq<u8>, size: u32) -> Result<(u32, u32), Error> {
    if size < BASE_BLOCK_LEN || (data[DETAILED_TIMING as int] == 0 && data[DETAILED_TIMING + 1]
        == 0) {
        Err(Error::IoError)
    } else {
        Ok(
            (
                (data[DETAILED_TIMING + 2] + 0x100 * (data[DETAILED_TIMING + 4] / 16)) as u32,
                (data[DETAILED_TIMING + 5] + 0x100 * (data[DETAILED_TIMING + 7] / 16)) as u32,
            ),
        )
    }
}

/// The resolution that the two bytes of a standard timing stand for; none where the timing is not
/// used. The first byte gives the width, the upper two bits of the second the aspect ratio.
pub open spec fn standard_timing(first: u8, second: u8) -> Option<(u32, u32)> {
    let width = (first + 31) * 8;
    if first == 0 || (first == 1 && second == 1) {
        None
    } else if second < 0x40 {
        Some((width as u32, (width * 10 / 16) as u32))
    } else if second < 0x80 {
        Some((width as u32, (width * 3 / 4) as u32))
    } else if second < 0xc0 {
        Some((width as u32, (width * 4 / 5) as u32))
    } else {
        Some((width as u32, (width * 9 / 16) as u32))
    }
}

/// The resolutions in the first `n` standard timings, in the order of the data.
pub open spec fn used_timings(data: Seq<u8>, n: nat) -> Seq<(u32, u32)>
    decreases n,
{
    if n == 0 {
        seq![]
    } else {
        let others = used_timings(data, (n - 1) as nat);
        let at = STANDARD_TIMINGS + 2 * (n - 1);
        match standard_timing(data[at], data[at + 1]) {
            Some(resolution) => others.push(resolution),
            None => others,
        }
    }
}

/// The total number of pixels.
pub open spec fn pixels(resolution: (u32, u32)) -> int {
    resolution.0 * resolution.1
}

/// Puts a resolution behind those of as many pixels or more.
pub open spec fn insert_by_pixels(list: Seq<(u32, u32)>, resolution: (u32, u32)) -> Seq<(u32, u32)>
    decreases list.len(),
{
    if list.len() == 0 || pixels(list.last()) >= pixels(resolution) {
        list.push(resolution)
    } else {
        insert_by_pixels(list.drop_last(), resolution).push(list.last())
    }
}

/// Resolutions by their number of pixels, largest first; those of as many pixels keep their
/// order.
pub open spec fn by_pixels(list: Seq<(u32, u32)>) -> Seq<(u32, u32)>
    decreases list.len(),
{
    if list.len() == 0 {
        seq![]
    } else {
        insert_by_pixels(by_pixels(list.drop_last()), list.last())
    }
}

/// The resolutions in the standard timings, largest first.
pub open spec fn supported(data: Seq<u8>, size: u32) -> Seq<(u32, u32)> {
    if size < BASE_BLOCK_LEN {
        seq![]
    } else {
        by_pixels(used_timings(data, STANDARD_TIMINGS_COUNT as nat))
    }
}

/// Whether no resolution stands behind one of fewer pixels.
pub open spec fn largest_first(list: Seq<(u32, u32)>) -> bool {
    forall|i: int, j: int| 0 <= i <= j < list.len() ==> pixels(list[i]) >= pixels(list[j])
}

/// Insertion keeps the order, keeps what is there and adds one resolution.
proof fn insertion(list: Seq<(u32, u32)>, resolution: (u32, u32))
    requires
        largest_first(list),
    ensures
        largest_first(insert_by_pixels(list, resolution)),
        insert_by_pixels(list, resolution).len() == list.len() + 1,
        insert_by_pixels(list, resolution).to_multiset() == list.to_multiset().insert(resolution),
        forall|i: int|
            0 <= i < list.len() + 1 ==> pixels(
                #[trigger] insert_by_pixels(list, resolution)[i],
            ) >= pixels(resolution) || (list.len() > 0 && pixels(
                insert_by_pixels(list, resolution)[i],
            ) >= pixels(list.last())),
    decreases list.len(),
{
    broadcast use vstd::seq_lib::group_to_multiset_ensures;

    if list.len() == 0 || pixels(list.last()) >= pixels(resolution) {
    } else {
        insertion(list.drop_last(), resolution);
        let front = insert_by_pixels(list.drop_last(), resolution);
        assert(list =~= list.drop_last().push(list.last()));
        assert(list.to_multiset().insert(resolution) =~= list.drop_last().to_multiset().insert(
            resolution,
        ).insert(list.last()));
    }
}

/// Sorting by pixels gives the same resolutions, largest first.
pub proof fn sorting_keeps_resolutions(list: Seq<(u32, u32)>)
    ensures
        largest_first(by_pixels(list)),
        by_pixels(list).len() == list.len(),
        by_pixels(list).to_multiset() == list.to_multiset(),
    decreases list.len(),
{
    broadcast use vstd::seq_lib::group_to_multiset_ensures;

    if list.len() > 0 {
        sorting_keeps_resolutions(list.drop_last());
        insertion(by_pixels(list.drop_last()), list.last());
        assert(list =~= list.drop_last().push(list.last()));
    } else {
        assert(by_pixels(list) =~= list);
    }
}

/// Sorting by pixels keeps the order of resolutions of as many pixels.
pub proof fn sorting_is_stable(list: Seq<(u32, u32)>, count: int)
    ensures
        by_pixels(list).filter(|r: (u32, u32)| pixels(r) == count) == list.filter(
            |r: (u32, u32)| pixels(r) == count,
        ),
    decreases list.len(),
{
    let pred = |r: (u32, u32)| pixels(r) == count;
    if list.len() > 0 {
        sorting_is_stable(list.drop_last(), count);
        sorting_keeps_resolutions(list.drop_last());
        insertion_is_stable(by_pixels(list.drop_last()), list.last(), count);
        assert(list =~= list.drop_last().push(list.last()));
        list.drop_last().lemma_filter_push(list.last(), pred);
        by_pixels(list.drop_last()).lemma_filter_push(list.last(), pred);
    } else {
        assert(by_pixels(list) =~= list);
    }
}

/// Insertion puts a resolution behind those of as many pixels.
proof fn insertion_is_stable(list: Seq<(u32, u32)>, resolution: (u32, u32), count: int)
    requires
        largest_first(list),
    ensures
        insert_by_pixels(list, resolution).filter(|r: (u32, u32)| pixels(r) == count)
            == list.push(resolution).filter(|r: (u32, u32)| pixels(r) == count),
    decreases list.len(),
{
    let pred = |r: (u32, u32)| pixels(r) == count;
    if list.len() == 0 || pixels(list.last()) >= pixels(resolution) {
    } else {
        let front = list.drop_last();
        insertion_is_stable(front, resolution, count);
        assert(list =~= front.push(list.last()));
        insert_by_pixels(front, resolution).lemma_filter_push(list.last(), pred);
        front.lemma_filter_push(resolution, pred);
        front.lemma_filter_push(list.last(), pred);
        list.lemma_filter_push(resolution, pred);
    }
}

/// There are no more used timings than timings.
proof fn used_timings_count(data: Seq<u8>, n: nat)
    ensures
        used_timings(data, n).len() <= n,
    decreases n,
{
    if n > 0 {
        used_timings_count(data, (n - 1) as nat);
    }
}

/// Where the insertion of a resolution takes place.
proof fn insertion_point(list: Seq<(u32, u32)>, resolution: (u32, u32), at: int)
    requires
        0 <= at <= list.len(),
        at > 0 ==> pixels(list[at - 1]) >= pixels(resolution),
        forall|i: int| at <= i < list.len() ==> pixels(#[trigger] list[i]) < pixels(resolution),
    ensures
        insert_by_pixels(list, resolution) == list.insert(at, resolution),
    decreases list.len(),
{
    if at < list.len() {
        insertion_point(list.drop_last(), resolution, at);
        assert(list.insert(at, resolution) =~= list.drop_last().insert(at, resolution).push(
            list.last(),
        ));
    } else {
        assert(list.insert(at, resolution) =~= list.push(resolution));
    }
}

/// Reads one standard timing.
fn read_standard_timing(first: u8, second: u8) -> (r: Option<(u32, u32)>)
    ensures
        r == standard_timing(first, second),
{
    let width: u32 = (first as u32 + 31) * 8;
    if first == 0 || (first == 1 && second == 1) {
        None
    } else if second < 0x40 {
        Some((width, width * 10 / 16))
    } else if second < 0x80 {
        Some((width, width * 3 / 4))
    } else if second < 0xc0 {
        Some((width, width * 4 / 5))
    } else {
        Some((width, width * 9 / 16))
    }
}

/// Puts a resolution at its place in a list that goes by pixels.
fn insert_resolution(list: &mut Vec<(u32, u32)>, resolution: (u32, u32))
    ensures
        final(list)@ == insert_by_pixels(old(list)@, resolution),
{
    let size: u64 = pixel_count(resolution);
    let mut at: usize = list.len();
    while at > 0 && pixel_count(list[at - 1]) < size
        invariant
            at <= list@.len(),
            list@ == old(list)@,
            size == pixels(resolution),
            forall|i: int| at <= i < list@.len() ==> pixels(#[trigger] list@[i]) < size,
        decreases at,
    {
        at -= 1;
    }
    proof {
        insertion_point(list@, resolution, at as int);
    }
    list.insert(at, resolution);
}

/// The total number of pixels.
fn pixel_count(resolution: (u32, u32)) -> (n: u64)
    ensures
        n == pixels(resolution),
{
    assert(0 <= resolution.0 * resolution.1 <= 0xffff_ffff * 0xffff_ffff) by (nonlinear_arith)
        requires
            0 <= resolution.0 <= 0xffff_ffff,
            0 <= resolution.1 <= 0xffff_ffff,
    ;
    resolution.0 as u64 * resolution.1 as u64
}

impl Edid {
    /// The preferred resolution, as (width, height).
    ///
    /// It is that of the first detailed timing descriptor.
    pub fn preferred_resolution(&self) -> (r: Result<(u32, u32), Error>)
        ensures
            r == preferred(self.data@, self.size),
    {
        let at: usize = DETAILED_TIMING;
        if self.size < BASE_BLOCK_LEN || (self.data[at] == 0 && self.data[at + 1] == 0) {
            Err(Error::IoError)
        } else {
            let width: u32 = self.data[at + 2] as u32 + 0x100 * (self.data[at + 4] / 16) as u32;
            let height: u32 = self.data[at + 5] as u32 + 0x100 * (self.data[at + 7] / 16) as u32;
            Ok((width, height))
        }
    }

    /// The resolutions of the standard timings block, largest first, each as (width, height).
    pub fn standard_timings(&self) -> (r: Vec<(u32, u32)>)
        ensures
            r@ == supported(self.data@, self.size),
            r@.len() <= STANDARD_TIMINGS_COUNT,
            largest_first(r@),
    {
        let mut list: Vec<(u32, u32)> = Vec::new();
        if self.size < BASE_BLOCK_LEN {
            assert(list@ =~= supported(self.data@, self.size));
            return list;
        }
        let mut n: usize = 0;
        assert(list@ =~= by_pixels(used_timings(self.data@, 0)));
        while n < STANDARD_TIMINGS_COUNT
            invariant
                n <= STANDARD_TIMINGS_COUNT,
                self.data@.len() == 1024,
                list@ == by_pixels(used_timings(self.data@, n as nat)),
            decreases STANDARD_TIMINGS_COUNT - n,
        {
            let at: usize = STANDARD_TIMINGS + 2 * n;
            let ghost others = used_timings(self.data@, n as nat);
            match read_standard_timing(self.data[at], self.data[at + 1]) {
                Some(resolution) => {
                    assert(others.push(resolution).drop_last() =~= others);
                    insert_resolution(&mut list, resolution);
                },
                None => {},
            }
            n += 1;
        }
        proof {
            let all = used_timings(self.data@, STANDARD_TIMINGS_COUNT as nat);
            used_timings_count(self.data@, STANDARD_TIMINGS_COUNT as nat);
            sorting_keeps_resolutions(all);
        }
        list
    }
}

} // verus!
