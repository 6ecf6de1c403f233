//! What is read from the EDID data of a display.
use crate::bytes::{bytes_at, u32_at};
use crate::driver::VirtIOGpu;
use crate::edid::{
    largest_first, pixels, sorting_keeps_resolutions, standard_timing, supported, used_timings,
    Edid,
};
use crate::error::Error;
use crate::laws::queries::questioned;
use crate::laws::reading::{
    control_words, grown, headed, header_words, input, message_words, replied, reply, word,
};
use crate::request::get_edid_request;
use crate::transport::Transport;
use crate::wire::IntoBytes;
use vstd::prelude::*;

verus! {

/// Whether a number of twelve bits is made of a byte and of the upper half of another one.
pub open spec fn twelve_bits(n: u32, low: u8, high: u8) -> bool {
    &&& n < 4096
    &&& n % 256 == low
    &&& n / 256 == high / 16
}

/// Whether a result is the preferred resolution in EDID data: that of the descriptor at byte 54,
/// where there is a whole block and the descriptor has a pixel clock; else an I/O error.
pub open spec fn preferred_of(d: Seq<u8>, size: int, r: Result<(u32, u32), Error>) -> bool {
    if size >= 128 && (d[54] != 0 || d[55] != 0) {
        &&& r is Ok
        &&& twelve_bits(r->Ok_0.0, d[56], d[58])
        &&& twelve_bits(r->Ok_0.1, d[59], d[61])
    } else {
        r == Err::<(u32, u32), Error>(Error::IoError)
    }
}

/// Whether the two bytes of a standard timing stand for a resolution. The first gives the width in
/// steps of eight pixels from 256 on, the upper two bits of the second the ratio to the height:
/// 16 to 10, 4 to 3, 5 to 4 or 16 to 9, rounded down. A timing that is not used has a first byte of
/// zero, or two bytes of one.
pub open spec fn stands_for(first: u8, second: u8, resolution: (u32, u32)) -> bool {
    let (width, height) = resolution;
    &&& first != 0
    &&& !(first == 1 && second == 1)
    &&& width == 256 + 8 * (first - 1)
    &&& second / 64 == 0 ==> 8 * height == 5 * width
    &&& second / 64 == 1 ==> 4 * height == 3 * width
    &&& second / 64 == 2 ==> 5 * height <= 4 * width < 5 * height + 5
    &&& second / 64 == 3 ==> 16 * height <= 9 * width < 16 * height + 16
}

/// How many of the first `n` standard timings stand for a resolution.
pub open spec fn times_given(d: Seq<u8>, n: nat, resolution: (u32, u32)) -> nat
    decreases n,
{
    if n == 0 {
        0
    } else {
        times_given(d, (n - 1) as nat, resolution) + if stands_for(
            d[38 + 2 * (n - 1)],
            d[39 + 2 * (n - 1)],
            resolution,
        ) {
            1nat
        } else {
            0nat
        }
    }
}

/// Whether a list holds the resolutions in the eight standard timings of EDID data: each as often
/// as it is given there, and none behind one of fewer pixels. There are none without a whole block.
pub open spec fn listed(d: Seq<u8>, size: int, list: Seq<(u32, u32)>) -> bool {
    &&& size < 128 ==> list.len() == 0
    &&& size >= 128 ==> forall|resolution: (u32, u32)| #[trigger]
        list.to_multiset().count(resolution) == times_given(d, 8, resolution)
    &&& list.len() <= 8
    &&& forall|i: int, j: int|
        0 <= i < j < list.len() ==> (#[trigger] list[i]).0 * list[i].1 >= (#[trigger] list[j]).0
            * list[j].1
}

/// A standard timing stands for one resolution at most.
proof fn timing_stands_for(first: u8, second: u8, resolution: (u32, u32))
    ensures
        stands_for(first, second, resolution) <==> standard_timing(first, second) == Some(
            resolution,
        ),
{
}

/// The timings that are used are those that stand for something.
proof fn used_as_given(d: Seq<u8>, n: nat, resolution: (u32, u32))
    ensures
        used_timings(d, n).to_multiset().count(resolution) == times_given(d, n, resolution),
    decreases n,
{
    broadcast use vstd::seq_lib::group_to_multiset_ensures;

    if n > 0 {
        used_as_given(d, (n - 1) as nat, resolution);
        timing_stands_for(d[38 + 2 * (n - 1)], d[39 + 2 * (n - 1)], resolution);
    } else {
        assert(used_timings(d, 0) =~= Seq::<(u32, u32)>::empty());
    }
}

/// The resolutions of EDID data are listed.
proof fn supported_are_listed(d: Seq<u8>, size: u32, list: Seq<(u32, u32)>)
    requires
        list == supported(d, size),
        list.len() <= 8,
        largest_first(list),
    ensures
        listed(d, size as int, list),
{
    let all = used_timings(d, 8);
    sorting_keeps_resolutions(all);
    assert forall|resolution: (u32, u32)| size >= 128 implies #[trigger] list.to_multiset().count(
        resolution,
    ) == times_given(d, 8, resolution) by {
        used_as_given(d, 8, resolution);
    }
    assert forall|i: int, j: int| 0 <= i < j < list.len() implies (#[trigger] list[i]).0
        * list[i].1 >= (#[trigger] list[j]).0 * list[j].1 by {
        assert(pixels(list[i]) >= pixels(list[j]));
    }
}

/// The preferred resolution is read from the first detailed timing.
pub proof fn preferred_resolution_law(edid: &Edid, r: Result<(u32, u32), Error>)
    requires
        call_ensures(Edid::preferred_resolution, (edid,), r),
    ensures
        preferred_of(edid.data@, edid.size as int, r),
{
}

/// The standard timings give the list of resolutions.
pub proof fn standard_timings_law(edid: &Edid, r: Vec<(u32, u32)>)
    requires
        call_ensures(Edid::standard_timings, (edid,), r),
    ensures
        listed(edid.data@, edid.size as int, r@),
{
    supported_are_listed(edid.data@, edid.size, r@);
}

/// The preferred resolution is that in the EDID data of scanout 0, for which the device is asked.
pub proof fn edid_preferred_resolution_law<T: Transport>(
    gpu: &mut VirtIOGpu<T>,
    r: Result<(u32, u32), Error>,
)
    requires
        call_ensures(VirtIOGpu::<T>::edid_preferred_resolution, (gpu,), r),
    ensures
        final(gpu)@ == old(gpu)@,
        !old(gpu)@.has_edid ==> grown(old(gpu).history(), final(gpu).history(), 0) && r == Err::<
            (u32, u32),
            Error,
        >(Error::Unsupported),
        old(gpu)@.has_edid ==> {
            let e = final(gpu).history().last();
            let b = reply(e, 0);
            &&& questioned(old(gpu).history(), final(gpu).history(), 1056)
            &&& headed(input(e, 0), 32, 0x10a, 0, 0, 0)
            &&& word(input(e, 0), 24) == 0
            &&& word(input(e, 0), 28) == 0
            &&& match replied(e, 0x1104) {
                Err(error) => r == Err::<(u32, u32), Error>(error),
                Ok(_) => preferred_of(b.subrange(32, 1056), word(b, 24), r),
            }
        },
{
    if old(gpu)@.has_edid {
        let q = get_edid_request(0);
        control_words(old(gpu).history(), final(gpu).history(), q.wire(), 1056);
        message_words(q);
        header_words(q.header, q.wire());
        let b = reply(final(gpu).history().last(), 0);
        assert(bytes_at(b, 32, 1024) =~= b.subrange(32, 1056));
        assert(u32_at(b, 24) == word(b, 24));
    }
}

/// The supported resolutions are those in the EDID data of scanout 0, for which the device is
/// asked.
pub proof fn edid_supported_resolutions_law<T: Transport>(
    gpu: &mut VirtIOGpu<T>,
    r: Result<Vec<(u32, u32)>, Error>,
)
    requires
        call_ensures(VirtIOGpu::<T>::edid_supported_resolutions, (gpu,), r),
    ensures
        final(gpu)@ == old(gpu)@,
        !old(gpu)@.has_edid ==> grown(old(gpu).history(), final(gpu).history(), 0) && r == Err::<
            Vec<(u32, u32)>,
            Error,
        >(Error::Unsupported),
        old(gpu)@.has_edid ==> {
            let e = final(gpu).history().last();
            let b = reply(e, 0);
            &&& questioned(old(gpu).history(), final(gpu).history(), 1056)
            &&& headed(input(e, 0), 32, 0x10a, 0, 0, 0)
            &&& word(input(e, 0), 24) == 0
            &&& word(input(e, 0), 28) == 0
            &&& match replied(e, 0x1104) {
                Err(error) => r == Err::<Vec<(u32, u32)>, Error>(error),
                Ok(_) => r matches Ok(list) && listed(b.subrange(32, 1056), word(b, 24), list@),
            }
        },
{
    if old(gpu)@.has_edid {
        let q = get_edid_request(0);
        control_words(old(gpu).history(), final(gpu).history(), q.wire(), 1056);
        message_words(q);
        header_words(q.header, q.wire());
        let b = reply(final(gpu).history().last(), 0);
        assert(bytes_at(b, 32, 1024) =~= b.subrange(32, 1056));
        assert(u32_at(b, 24) == word(b, 24));
        if let Ok(list) = r {
            supported_are_listed(b.subrange(32, 1056), u32_at(b, 24), list@);
        }
    }
}

} // verus!
