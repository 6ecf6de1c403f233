//! What the calls put on the wire that ask the device for something, and what they return of the
//! reply.
use crate::bytes::{bytes_at, u32_at, zeros};
use crate::context::RespCapsetInfo;
use crate::display::RespDisplayInfo;
use crate::driver::VirtIOGpu;
use crate::edid::Edid;
use crate::error::Error;
use crate::header::CtrlHeader;
use crate::laws::reading::{
    control_words, count, cursor_words, exchanged, fields_are_words, grown, headed, header_words,
    input, long, message_words, replied, reply, word,
};
use crate::request::{
    asked_once, control_with_extra, get_capset_info_request, get_capset_request,
    get_display_info_request, get_edid_request, update_cursor_request,
};
use crate::transport::{Event, Transport};
use crate::wire::IntoBytes;
use vstd::prelude::*;

verus! {

/// Whether a history grew by a question on the control queue, with `room` bytes for the reply.
pub open spec fn questioned(before: Seq<Event>, after: Seq<Event>, room: int) -> bool {
    &&& grown(before, after, 1)
    &&& exchanged(after.last(), 0, 1, seq![room])
}

/// What a header holds that was read from the beginning of a reply.
pub open spec fn header_read(h: CtrlHeader, b: Seq<u8>) -> bool {
    &&& h.hdr_type.0 == word(b, 0)
    &&& h.flags == word(b, 4)
    &&& h.fence_id == long(b, 8)
    &&& h.ctx_id == word(b, 16)
    &&& h.ring_idx == b[20]
    &&& h._padding@ == seq![b[21], b[22], b[23]]
}

pub(crate) proof fn header_is_read(h: CtrlHeader, b: Seq<u8>)
    requires
        h.is_at(b, 0),
        b.len() >= 24,
    ensures
        header_read(h, b),
{
    fields_are_words(b);
    assert(u32_at(b, 0) == word(b, 0));
    assert(h._padding@ =~= seq![b[21], b[22], b[23]]);
}

/// The question for the display modes is a bare header. The reply holds sixteen modes of 24 bytes
/// each behind its header, and each of them is returned.
pub proof fn get_display_info_law<T: Transport>(
    gpu: &mut VirtIOGpu<T>,
    r: Result<RespDisplayInfo, Error>,
)
    requires
        call_ensures(VirtIOGpu::<T>::get_display_info, (gpu,), r),
    ensures
        final(gpu)@ == old(gpu)@,
        questioned(old(gpu).history(), final(gpu).history(), 408),
        ({
            let e = final(gpu).history().last();
            let b = reply(e, 0);
            &&& headed(input(e, 0), 24, 0x100, 0, 0, 0)
            &&& match replied(e, 0x1101) {
                Err(error) => r == Err::<RespDisplayInfo, Error>(error),
                Ok(_) => r matches Ok(info) && header_read(info.header, b) && info.pmodes@.len()
                    == 16 && forall|i: int|
                    0 <= i < 16 ==> {
                        let mode = #[trigger] info.pmodes@[i];
                        &&& mode.rect.x == word(b, 24 + 24 * i)
                        &&& mode.rect.y == word(b, 28 + 24 * i)
                        &&& mode.rect.width == word(b, 32 + 24 * i)
                        &&& mode.rect.height == word(b, 36 + 24 * i)
                        &&& mode.enabled == word(b, 40 + 24 * i)
                        &&& mode.flags == word(b, 44 + 24 * i)
                    },
            }
        }),
{
    let q = get_display_info_request();
    control_words(old(gpu).history(), final(gpu).history(), q.wire(), 408);
    message_words(q);
    header_words(q, q.wire());
    let b = reply(final(gpu).history().last(), 0);
    if let Ok(info) = r {
        header_is_read(info.header, b);
        assert forall|i: int| 0 <= i < 16 implies {
            let mode = #[trigger] info.pmodes@[i];
            &&& mode.rect.x == word(b, 24 + 24 * i)
            &&& mode.rect.y == word(b, 28 + 24 * i)
            &&& mode.rect.width == word(b, 32 + 24 * i)
            &&& mode.rect.height == word(b, 36 + 24 * i)
            &&& mode.enabled == word(b, 40 + 24 * i)
            &&& mode.flags == word(b, 44 + 24 * i)
        } by {
            let mode = info.pmodes@[i];
            assert(mode.is_at(b, 24 + 24 * i));
            assert(u32_at(b, 24 + 24 * i) == word(b, 24 + 24 * i));
            assert(u32_at(b, 28 + 24 * i) == word(b, 28 + 24 * i));
            assert(u32_at(b, 32 + 24 * i) == word(b, 32 + 24 * i));
            assert(u32_at(b, 36 + 24 * i) == word(b, 36 + 24 * i));
            assert(u32_at(b, 40 + 24 * i) == word(b, 40 + 24 * i));
            assert(u32_at(b, 44 + 24 * i) == word(b, 44 + 24 * i));
        }
    }
}

/// The resolution is that of the first scanout, whatever the modes of the others are.
pub proof fn resolution_law<T: Transport>(gpu: &mut VirtIOGpu<T>, r: Result<(u32, u32), Error>)
    requires
        call_ensures(VirtIOGpu::<T>::resolution, (gpu,), r),
    ensures
        final(gpu)@ == old(gpu)@,
        questioned(old(gpu).history(), final(gpu).history(), 408),
        ({
            let e = final(gpu).history().last();
            &&& headed(input(e, 0), 24, 0x100, 0, 0, 0)
            &&& match replied(e, 0x1101) {
                Err(error) => r == Err::<(u32, u32), Error>(error),
                Ok(_) => r matches Ok((width, height)) && width == word(reply(e, 0), 32) && height
                    == word(reply(e, 0), 36),
            }
        }),
{
    let q = get_display_info_request();
    control_words(old(gpu).history(), final(gpu).history(), q.wire(), 408);
    message_words(q);
    header_words(q, q.wire());
}

/// Replies that agree on the header and the mode of the first scanout give the same resolution.
pub proof fn other_scanouts_do_not_matter<T: Transport>(
    first: &mut VirtIOGpu<T>,
    first_r: Result<(u32, u32), Error>,
    second: &mut VirtIOGpu<T>,
    second_r: Result<(u32, u32), Error>,
)
    requires
        call_ensures(VirtIOGpu::<T>::resolution, (first,), first_r),
        call_ensures(VirtIOGpu::<T>::resolution, (second,), second_r),
        count(final(first).history().last()) == count(final(second).history().last()),
        forall|i: int|
            0 <= i < 48 ==> #[trigger] reply(final(first).history().last(), 0)[i] == reply(
                final(second).history().last(),
                0,
            )[i],
    ensures
        first_r == second_r,
{
    resolution_law(first, first_r);
    resolution_law(second, second_r);
}

/// The question for EDID data names the scanout, and is not asked without the feature. The data
/// and its size are returned as they stand in the reply.
pub proof fn get_edid_law<T: Transport>(
    gpu: &mut VirtIOGpu<T>,
    scanout: u32,
    r: Result<Edid, Error>,
)
    requires
        call_ensures(VirtIOGpu::<T>::get_edid, (gpu, scanout), r),
    ensures
        final(gpu)@ == old(gpu)@,
        !old(gpu)@.has_edid ==> grown(old(gpu).history(), final(gpu).history(), 0) && r == Err::<
            Edid,
            Error,
        >(Error::Unsupported),
        old(gpu)@.has_edid ==> {
            let e = final(gpu).history().last();
            let b = reply(e, 0);
            &&& questioned(old(gpu).history(), final(gpu).history(), 1056)
            &&& headed(input(e, 0), 32, 0x10a, 0, 0, 0)
            &&& word(input(e, 0), 24) == scanout
            &&& word(input(e, 0), 28) == 0
            &&& match replied(e, 0x1104) {
                Err(error) => r == Err::<Edid, Error>(error),
                Ok(_) => r matches Ok(edid) && edid.size == word(b, 24) && forall|i: int|
                    0 <= i < 1024 ==> #[trigger] edid.data@[i] == b[32 + i],
            }
        },
{
    if old(gpu)@.has_edid {
        let q = get_edid_request(scanout);
        control_words(old(gpu).history(), final(gpu).history(), q.wire(), 1056);
        message_words(q);
        header_words(q.header, q.wire());
        let b = reply(final(gpu).history().last(), 0);
        if let Ok(edid) = r {
            assert forall|i: int| 0 <= i < 1024 implies #[trigger] edid.data@[i] == b[32 + i] by {
                assert(edid.data@[i] == bytes_at(b, 32, 1024)[i]);
            }
        }
    }
}

/// A move of the pointer goes to the cursor queue, with the position, the resource that holds the
/// image, and no hot spot. The device does not answer it.
pub proof fn move_cursor_law<T: Transport>(
    gpu: &mut VirtIOGpu<T>,
    pos_x: u32,
    pos_y: u32,
    r: Result<(), Error>,
)
    requires
        call_ensures(VirtIOGpu::<T>::move_cursor, (gpu, pos_x, pos_y), r),
    ensures
        final(gpu)@ == old(gpu)@,
        grown(old(gpu).history(), final(gpu).history(), 1),
        ({
            let e = final(gpu).history().last();
            let b = input(e, 0);
            &&& exchanged(e, 1, 1, seq![])
            &&& headed(b, 56, 0x301, 0, 0, 0)
            &&& word(b, 24) == 0
            &&& word(b, 28) == pos_x
            &&& word(b, 32) == pos_y
            &&& word(b, 36) == 0
            &&& word(b, 40) == 0xdade
            &&& word(b, 44) == 0
            &&& word(b, 48) == 0
            &&& word(b, 52) == 0
            &&& match count(e) {
                Err(error) => r == Err::<(), Error>(error),
                Ok(_) => r is Ok,
            }
        }),
{
    let q = update_cursor_request(0xdade, 0, pos_x, pos_y, 0, 0, true);
    cursor_words(old(gpu).history(), final(gpu).history(), q.wire());
    message_words(q);
    header_words(q.header, q.wire());
}

/// The question for information on a capset names its index. The reply is returned as it is.
pub proof fn get_capset_info_law<T: Transport>(
    gpu: &mut VirtIOGpu<T>,
    capset_index: u32,
    r: Result<RespCapsetInfo, Error>,
)
    requires
        call_ensures(VirtIOGpu::<T>::get_capset_info, (gpu, capset_index), r),
        old(gpu)@.has_virgl,
    ensures
        final(gpu)@ == old(gpu)@,
        questioned(old(gpu).history(), final(gpu).history(), 40),
        ({
            let e = final(gpu).history().last();
            let b = reply(e, 0);
            &&& headed(input(e, 0), 32, 0x108, 0, 0, 0)
            &&& word(input(e, 0), 24) == capset_index
            &&& word(input(e, 0), 28) == 0
            &&& match replied(e, 0x1102) {
                Err(error) => r == Err::<RespCapsetInfo, Error>(error),
                Ok(_) => {
                    &&& r is Ok
                    &&& header_read(r->Ok_0.header, b)
                    &&& r->Ok_0.capset_id == word(b, 24)
                    &&& r->Ok_0.capset_max_version == word(b, 28)
                    &&& r->Ok_0.capset_max_size == word(b, 32)
                    &&& r->Ok_0._padding == word(b, 36)
                },
            }
        }),
{
    let q = get_capset_info_request(capset_index);
    control_words(old(gpu).history(), final(gpu).history(), q.wire(), 40);
    message_words(q);
    header_words(q.header, q.wire());
    if let Ok(info) = r {
        header_is_read(info.header, reply(final(gpu).history().last(), 0));
    }
}

/// The question for a capset names it and its version, with room for a header and `size` bytes.
/// What is returned is the beginning of what came back behind the header: as many bytes as the
/// device says that it wrote there, or all of them where it says more.
pub proof fn get_capset_law<T: Transport>(
    gpu: &mut VirtIOGpu<T>,
    capset_id: u32,
    version: u32,
    size: u32,
    r: Result<Vec<u8>, Error>,
)
    requires
        call_ensures(VirtIOGpu::<T>::get_capset, (gpu, capset_id, version, size), r),
        old(gpu)@.has_virgl,
    ensures
        final(gpu)@ == old(gpu)@,
        grown(old(gpu).history(), final(gpu).history(), 1),
        ({
            let e = final(gpu).history().last();
            &&& exchanged(e, 0, 1, seq![24, size as int])
            &&& headed(input(e, 0), 32, 0x109, 0, 0, 0)
            &&& word(input(e, 0), 24) == capset_id
            &&& word(input(e, 0), 28) == version
            &&& match replied(e, 0x1103) {
                Err(error) => r == Err::<Vec<u8>, Error>(error),
                Ok(_) => {
                    let n = count(e)->Ok_0;
                    &&& r is Ok
                    &&& n <= 24 ==> r->Ok_0@.len() == 0
                    &&& 24 <= n <= 24 + size ==> r->Ok_0@.len() + 24 == n
                    &&& n >= 24 + size ==> r->Ok_0@.len() == size
                    &&& forall|i: int|
                        0 <= i < r->Ok_0@.len() ==> #[trigger] r->Ok_0@[i] == reply(e, 1)[i]
                },
            }
        }),
{
    let q = get_capset_request(capset_id, version);
    let before = old(gpu).history();
    let after = final(gpu).history();
    let e = after.last();
    assert(asked_once(before, after, control_with_extra(q.wire(), size as nat)));
    assert(e.ask->Exchange_outputs =~= seq![
        zeros(24),
        zeros(size as nat),
    ]);
    assert(e.answer->Reply_outputs[0].len() == e.ask->Exchange_outputs[0].len());
    assert(e.answer->Reply_outputs[1].len() == e.ask->Exchange_outputs[1].len());
    assert forall|i: int| 0 <= i < before.len() implies #[trigger] after[i] == before[i] by {
        assert(after == before.push(e));
    }
    fields_are_words(reply(e, 0));
    assert(u32_at(reply(e, 0), 0) == word(reply(e, 0), 0));
    message_words(q);
    header_words(q.header, q.wire());
}

} // verus!
