//! What the calls put on the wire that carry data of their caller: names, command streams and
//! ranges of memory.
use crate::bytes::{le32, parts_sit_at, sits_at, u32_at, u32_reads_back, u64_at, zeros};
use crate::command::Command;
use crate::driver::virgl::blob_refusal;
use crate::driver::VirtIOGpu;
use crate::error::Error;
use crate::header::ctx_header;
use crate::laws::reading::{
    as_acknowledged, commanded, control_words, count, fields_are_words, grown, headed, header_words,
    input, long, message_words, reply, word,
};
use crate::request::{
    asked_once, command_with_data, ctx_create_wire, debug_name, debug_name_len, entry_sits_at,
    mem_entries_wire, resource_create_blob_request, submit_3d_request, used, written,
};
use crate::resource::MemEntry;
use crate::transport::{Event, Transport};
use crate::wire::IntoBytes;
use vstd::prelude::*;

verus! {

/// What a command with data looks like.
proof fn data_words(before: Seq<Event>, after: Seq<Event>, request: Seq<u8>, data: Seq<u8>)
    requires
        asked_once(before, after, command_with_data(request, data)),
    ensures
        commanded(before, after, if data.len() == 0 { 1 } else { 2 }),
        input(after.last(), 0) == request,
        data.len() > 0 ==> input(after.last(), 1) == data,
        used(after.last().answer) == count(after.last()),
        written(after.last().answer, 0) == reply(after.last(), 0),
        u32_at(reply(after.last(), 0), 0) == word(reply(after.last(), 0), 0),
{
    let e = after.last();
    assert(e.ask->Exchange_outputs =~= seq![zeros(24)]);
    assert(e.answer->Reply_outputs[0].len() == e.ask->Exchange_outputs[0].len());
    fields_are_words(reply(e, 0));
    assert forall|i: int| 0 <= i < before.len() implies #[trigger] after[i] == before[i] by {
        assert(after == before.push(e));
    }
}

/// The command that creates a context names the context, says how many bytes of the name follow,
/// which are all of them up to 64, gives the flags, and then the name, filled up with zeros.
pub proof fn ctx_create_law<T: Transport>(
    gpu: &mut VirtIOGpu<T>,
    ctx_id: u32,
    name: &str,
    context_init: u32,
    r: Result<(), Error>,
)
    requires
        call_ensures(VirtIOGpu::<T>::ctx_create, (gpu, ctx_id, name, context_init), r),
        old(gpu)@.has_virgl,
    ensures
        final(gpu)@ == old(gpu)@,
        commanded(old(gpu).history(), final(gpu).history(), 1),
        ({
            let e = final(gpu).history().last();
            let b = input(e, 0);
            let label = vstd::utf8::encode_utf8(name@);
            &&& headed(b, 96, 0x200, 0, 0, ctx_id as int)
            &&& label.len() <= 64 ==> word(b, 24) == label.len()
            &&& label.len() > 64 ==> word(b, 24) == 64
            &&& word(b, 28) == context_init
            &&& forall|i: int|
                0 <= i < 64 ==> #[trigger] b[32 + i] == if i < label.len() {
                    label[i]
                } else {
                    0
                }
            &&& as_acknowledged(e, r)
        }),
{
    let label = vstd::utf8::encode_utf8(name@);
    let b = ctx_create_wire(ctx_id, label, context_init);
    control_words(old(gpu).history(), final(gpu).history(), b, 24);
    let h = ctx_header(Command(Command::CTX_CREATE), ctx_id);
    h.wire_has_len();
    let n = debug_name_len(label.len()) as u32;
    let p1 = h.wire();
    let p2 = p1 + le32(n);
    let p3 = p2 + le32(context_init);
    assert(b == p3 + debug_name(label));
    assert(sits_at(b, 0, b));
    parts_sit_at(b, 0, p3, debug_name(label));
    parts_sit_at(b, 0, p2, le32(context_init));
    parts_sit_at(b, 0, p1, le32(n));
    h.is_where_written(b, 0);
    u32_reads_back(b, 24, n);
    u32_reads_back(b, 28, context_init);
    fields_are_words(b);
    assert(b.len() == 96);
    header_words(h, b);
    assert(word(b, 24) == n) by {
        assert(u32_at(b, 24) == n);
    }
    assert(word(b, 28) == context_init) by {
        assert(u32_at(b, 28) == context_init);
    }
    assert forall|i: int| 0 <= i < 64 implies #[trigger] b[32 + i] == if i < label.len() {
        label[i]
    } else {
        0
    } by {
        assert(b[32 + i] == debug_name(label)[i]);
    }
}

/// A command stream is refused where its length is not a multiple of four or does not fit into 32
/// bits; nothing is sent then. Every other stream is sent, in one command that carries the fence,
/// the context, and the length; the stream follows as it is, unless it is empty.
pub proof fn submit_3d_law<T: Transport>(
    gpu: &mut VirtIOGpu<T>,
    ctx_id: u32,
    fence_id: u64,
    cmds: &[u8],
    r: Result<(), Error>,
)
    requires
        call_ensures(VirtIOGpu::<T>::submit_3d, (gpu, ctx_id, fence_id, cmds), r),
        old(gpu)@.has_virgl,
    ensures
        final(gpu)@ == old(gpu)@,
        cmds@.len() % 4 != 0 ==> grown(old(gpu).history(), final(gpu).history(), 0) && r == Err::<
            (),
            Error,
        >(Error::InvalidParam),
        cmds@.len() % 4 == 0 && cmds@.len() > 0xffff_ffff ==> grown(
            old(gpu).history(),
            final(gpu).history(),
            0,
        ) && r == Err::<(), Error>(Error::IoError),
        cmds@.len() % 4 == 0 && cmds@.len() <= 0xffff_ffff ==> {
            let e = final(gpu).history().last();
            let b = input(e, 0);
            &&& commanded(
                old(gpu).history(),
                final(gpu).history(),
                if cmds@.len() == 0 {
                    1
                } else {
                    2
                },
            )
            &&& headed(b, 32, 0x207, 1, fence_id as int, ctx_id as int)
            &&& word(b, 24) == cmds@.len()
            &&& word(b, 28) == 0
            &&& cmds@.len() > 0 ==> input(e, 1) == cmds@
            &&& as_acknowledged(e, r)
        },
{
    if cmds@.len() % 4 == 0 && cmds@.len() <= 0xffff_ffff {
        let q = submit_3d_request(ctx_id, fence_id, cmds@.len() as u32);
        data_words(old(gpu).history(), final(gpu).history(), q.wire(), cmds@);
        message_words(q);
        header_words(q.header, q.wire());
    }
}

/// Whether a range of memory is too long for a memory entry.
pub open spec fn too_long(ranges: Seq<(u64, usize)>) -> bool {
    exists|i: int| 0 <= i < ranges.len() && (#[trigger] ranges[i]).1 > 0xffff_ffff
}

/// A blob is refused without the feature, for more ranges than 32 bits can count, and for a range
/// whose length does not fit into 32 bits; nothing is sent then.
pub proof fn blob_refusals_law<T: Transport>(
    gpu: &mut VirtIOGpu<T>,
    ctx_id: u32,
    resource_id: u32,
    blob_mem: u32,
    blob_flags: u32,
    size: u64,
    blob_id: u64,
    mem_entries: &[(u64, usize)],
    r: Result<(), Error>,
)
    requires
        call_ensures(
            VirtIOGpu::<T>::resource_create_blob,
            (gpu, ctx_id, resource_id, blob_mem, blob_flags, size, blob_id, mem_entries),
            r,
        ),
        old(gpu)@.has_virgl,
        !old(gpu)@.has_resource_blob || mem_entries@.len() > 0xffff_ffff || too_long(mem_entries@),
    ensures
        final(gpu)@ == old(gpu)@,
        grown(old(gpu).history(), final(gpu).history(), 0),
        r == Err::<(), Error>(
            if !old(gpu)@.has_resource_blob {
                Error::Unsupported
            } else if mem_entries@.len() > 0xffff_ffff {
                Error::IoError
            } else {
                Error::InvalidParam
            },
        ),
{
    let ranges = mem_entries@;
    if old(gpu)@.has_resource_blob && ranges.len() <= 0xffff_ffff {
        let i = choose|i: int| 0 <= i < ranges.len() && (#[trigger] ranges[i]).1 > 0xffff_ffff;
        assert(ranges[i].1 > u32::MAX);
    }
}

/// Every other blob is asked for in one command that carries every argument in its own place and
/// says how many ranges there are. The ranges follow, sixteen bytes each, unless there are none.
pub proof fn resource_create_blob_law<T: Transport>(
    gpu: &mut VirtIOGpu<T>,
    ctx_id: u32,
    resource_id: u32,
    blob_mem: u32,
    blob_flags: u32,
    size: u64,
    blob_id: u64,
    mem_entries: &[(u64, usize)],
    r: Result<(), Error>,
)
    requires
        call_ensures(
            VirtIOGpu::<T>::resource_create_blob,
            (gpu, ctx_id, resource_id, blob_mem, blob_flags, size, blob_id, mem_entries),
            r,
        ),
        old(gpu)@.has_virgl,
        old(gpu)@.has_resource_blob,
        mem_entries@.len() <= 0xffff_ffff,
        !too_long(mem_entries@),
    ensures
        final(gpu)@ == old(gpu)@,
        commanded(
            old(gpu).history(),
            final(gpu).history(),
            if mem_entries@.len() == 0 {
                1
            } else {
                2
            },
        ),
        ({
            let e = final(gpu).history().last();
            let b = input(e, 0);
            &&& headed(b, 56, 0x10c, 0, 0, ctx_id as int)
            &&& word(b, 24) == resource_id
            &&& word(b, 28) == blob_mem
            &&& word(b, 32) == blob_flags
            &&& word(b, 36) == mem_entries@.len()
            &&& long(b, 40) == blob_id
            &&& long(b, 48) == size
            &&& mem_entries@.len() > 0 ==> input(e, 1).len() == 16 * mem_entries@.len()
            &&& forall|i: int|
                0 <= i < mem_entries@.len() ==> {
                    &&& long(input(e, 1), 16 * i) == (#[trigger] mem_entries@[i]).0
                    &&& word(input(e, 1), 16 * i + 8) == mem_entries@[i].1
                    &&& word(input(e, 1), 16 * i + 12) == 0
                }
            &&& as_acknowledged(e, r)
        }),
{
    let ranges = mem_entries@;
    assert(blob_refusal(true, true, ranges) is None) by {
        if exists|i: int| 0 <= i < ranges.len() && (#[trigger] ranges[i]).1 > u32::MAX {
            let i = choose|i: int| 0 <= i < ranges.len() && (#[trigger] ranges[i]).1 > u32::MAX;
            assert(ranges[i].1 > 0xffff_ffff);
        }
    }
    let q = resource_create_blob_request(
        ctx_id,
        resource_id,
        blob_mem,
        blob_flags,
        ranges.len() as u32,
        blob_id,
        size,
    );
    let data = mem_entries_wire(ranges);
    if ranges.len() > 0 {
        entry_sits_at(ranges, 0);
    } else {
        assert(data.len() == 0);
    }
    data_words(old(gpu).history(), final(gpu).history(), q.wire(), data);
    message_words(q);
    header_words(q.header, q.wire());
    fields_are_words(data);
    assert forall|i: int| 0 <= i < ranges.len() implies {
        &&& long(data, 16 * i) == (#[trigger] ranges[i]).0
        &&& word(data, 16 * i + 8) == ranges[i].1
        &&& word(data, 16 * i + 12) == 0
    } by {
        assert(ranges[i].1 <= u32::MAX) by {
            if ranges[i].1 > 0xffff_ffff {
                assert(too_long(ranges));
            }
        }
        entry_sits_at(ranges, i);
        let entry = MemEntry { addr: ranges[i].0, length: ranges[i].1 as u32, padding: 0 };
        entry.is_where_written(data, 16 * i);
        assert(u32_at(data, 16 * i + 8) == word(data, 16 * i + 8));
        assert(u32_at(data, 16 * i + 12) == word(data, 16 * i + 12));
        assert(u64_at(data, 16 * i) == long(data, 16 * i));
    }
}

} // verus!
