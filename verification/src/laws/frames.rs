//! What the calls do that set up, change and show the framebuffer and the pointer, step by step.
use crate::bytes::u32_at;
use crate::display::Rect;
use crate::dma::{pages_suffice, BufferDirection, DmaBuffer};
use crate::driver::screen::blank_frame;
use crate::driver::{GpuView, VirtIOGpu};
use crate::error::Error;
use crate::laws::reading::{
    added, blank, cursor_words, exchanged, failure, grown, headed, header_words, input, long,
    message_words, replied, reply, step_words, stopped, word,
};
use crate::laws::{
    change_resolution_len, change_resolution_refusal, change_resolution_stops_at_setback,
    flush_stops_at_setback, setup_cursor_stops_at_setback, setup_framebuffer_changes_resolution,
    stops_at_setback,
};
use crate::plan::{
    change_resolution_plan, change_resolution_steps, cursor_set_up, display_mode, flush_plan,
    frame_size, memory_address, memory_for, resolution_changed, screen, setback, setup_cursor_plan,
    since, Next, RESOURCE_ID_CURSOR, RESOURCE_ID_FB, SCANOUT_ID,
};
use crate::request::{
    command, cursor, get_display_info_request, resource_attach_backing_request,
    resource_create_2d_request, resource_detach_backing_request, resource_flush_request,
    resource_unref_request, set_scanout_request, transfer_to_host_2d_request, update_cursor_request,
};
use crate::transport::{Ask, Event, Transport};
use crate::wire::IntoBytes;
use vstd::prelude::*;

verus! {

/// Whether a step was a command of `len` bytes and of type `code`.
pub open spec fn commands(e: Event, len: int, code: int) -> bool {
    &&& exchanged(e, 0, 1, seq![24])
    &&& headed(input(e, 0), len, code, 0, 0, 0)
}

/// Whether the four numbers from `at` on are an area from the origin.
pub open spec fn area(b: Seq<u8>, at: int, width: u32, height: u32) -> bool {
    &&& word(b, at) == 0
    &&& word(b, at + 4) == 0
    &&& word(b, at + 8) == width
    &&& word(b, at + 12) == height
}

/// Whether a step bound a resource to scanout 0, or none for resource 0.
#[verifier::opaque]
pub open spec fn binds(e: Event, width: u32, height: u32, resource: int) -> bool {
    &&& commands(e, 48, 0x103)
    &&& area(input(e, 0), 24, width, height)
    &&& word(input(e, 0), 40) == 0
    &&& word(input(e, 0), 44) == resource
}

/// Whether a step was a command of type `code` that names just a resource.
#[verifier::opaque]
pub open spec fn names(e: Event, code: int, resource: int) -> bool {
    &&& commands(e, 32, code)
    &&& word(input(e, 0), 24) == resource
    &&& word(input(e, 0), 28) == 0
}

/// Whether a step created a 2D resource.
#[verifier::opaque]
pub open spec fn creates(e: Event, resource: int, width: u32, height: u32) -> bool {
    &&& commands(e, 40, 0x101)
    &&& word(input(e, 0), 24) == resource
    &&& word(input(e, 0), 28) == 1
    &&& word(input(e, 0), 32) == width
    &&& word(input(e, 0), 36) == height
}

/// Whether a step asked for memory that the device reads: as many pages as `size` bytes need.
pub open spec fn allocates(e: Event, size: int, access_platform: bool) -> bool {
    &&& e.ask is DmaNew
    &&& e.ask->direction == BufferDirection::DriverToDevice
    &&& e.ask->DmaNew_access_platform == access_platform
    &&& size <= e.ask->pages * 4096 < size + 4096
    &&& e.answer is Memory
}

/// Where the memory is that a step got.
pub open spec fn place(e: Event) -> u64 {
    e.answer->Memory_0->Ok_0
}

/// Whether a step gave `size` bytes of memory to a resource.
#[verifier::opaque]
pub open spec fn attaches(e: Event, resource: int, address: u64, size: int) -> bool {
    &&& commands(e, 48, 0x106)
    &&& word(input(e, 0), 24) == resource
    &&& word(input(e, 0), 28) == 1
    &&& long(input(e, 0), 32) == address
    &&& word(input(e, 0), 40) == size
    &&& word(input(e, 0), 44) == 0
}

/// Whether a step copied an area of a resource to the host.
#[verifier::opaque]
pub open spec fn copies(e: Event, resource: int, rect: Rect) -> bool {
    let b = input(e, 0);
    &&& commands(e, 56, 0x105)
    &&& word(b, 24) == rect.x
    &&& word(b, 28) == rect.y
    &&& word(b, 32) == rect.width
    &&& word(b, 36) == rect.height
    &&& long(b, 40) == 0
    &&& word(b, 48) == resource
    &&& word(b, 52) == 0
}

/// Whether a step showed an area of a resource.
#[verifier::opaque]
pub open spec fn shows(e: Event, resource: int, rect: Rect) -> bool {
    let b = input(e, 0);
    &&& commands(e, 48, 0x104)
    &&& word(b, 24) == rect.x
    &&& word(b, 28) == rect.y
    &&& word(b, 32) == rect.width
    &&& word(b, 36) == rect.height
    &&& word(b, 40) == resource
    &&& word(b, 44) == 0
}

/// How many bytes the pixels of a framebuffer take.
pub open spec fn size_of_frame(width: u32, height: u32) -> int {
    4 * (width as int * height as int)
}

/// How many steps it takes to let go of a framebuffer.
pub open spec fn letting_go(had_frame: bool) -> int {
    if had_frame {
        3
    } else {
        0
    }
}

/// Whether the steps of a change of the resolution are what they should be, as far as it got: let
/// go of the old framebuffer, if there is one; then create a resource, get memory, give it to the
/// resource, and bind the resource to the scanout.
pub open spec fn framed_in_order(
    had_frame: bool,
    access_platform: bool,
    width: u32,
    height: u32,
    done: Seq<Event>,
) -> bool {
    let n = letting_go(had_frame);
    &&& had_frame && done.len() > 0 ==> binds(done[0], 0, 0, 0)
    &&& had_frame && done.len() > 1 ==> names(done[1], 0x107, 0xbabe)
    &&& had_frame && done.len() > 2 ==> names(done[2], 0x102, 0xbabe)
    &&& done.len() > n ==> creates(done[n], 0xbabe, width, height)
    &&& done.len() > n + 1 ==> allocates(
        done[n + 1],
        size_of_frame(width, height),
        access_platform,
    )
    &&& done.len() > n + 2 ==> attaches(
        done[n + 2],
        0xbabe,
        place(done[n + 1]),
        size_of_frame(width, height),
    )
    &&& done.len() > n + 3 ==> binds(done[n + 3], width, height, 0xbabe)
}

/// How a change of the resolution ends: at the first step that fails; else, for a framebuffer that
/// 32 bits cannot measure, when its resource is there; else well.
pub open spec fn framed(
    had_frame: bool,
    width: u32,
    height: u32,
    done: Seq<Event>,
    r: Result<(), Error>,
) -> bool {
    if size_of_frame(width, height) <= 0xffff_ffff {
        stopped(done, letting_go(had_frame) + 4, None, r)
    } else {
        stopped(done, letting_go(had_frame) + 1, Some(Error::InvalidParam), r)
    }
}

/// Whether everything of a driver but its framebuffer is the same.
pub open spec fn only_frame_differs<D>(before: GpuView<D>, after: GpuView<D>) -> bool {
    &&& after.cursor_buffer == before.cursor_buffer
    &&& after.has_edid == before.has_edid
    &&& after.access_platform == before.access_platform
    &&& after.has_virgl == before.has_virgl
    &&& after.has_resource_blob == before.has_resource_blob
}

/// What a driver remembers after a change of the resolution that ended with an error: nothing new
/// while the old framebuffer is still in use; else the new area, and that there is no framebuffer.
pub open spec fn remembers_failure<D>(
    before: GpuView<D>,
    after: GpuView<D>,
    width: u32,
    height: u32,
    done: Seq<Event>,
) -> bool {
    if before.frame_buffer is Some && (done.len() < 3 || failure(done[0]) is Some || failure(
        done[1],
    ) is Some || failure(done[2]) is Some) {
        after == before
    } else {
        &&& only_frame_differs(before, after)
        &&& after.frame_buffer is None
        &&& after.rect == Some(Rect { x: 0, y: 0, width, height })
    }
}

/// What a driver remembers after a change of the resolution that ended well: the new area, and
/// the memory that it got for it. `bytes` are what the caller is given, `left` what they leave.
pub open spec fn remembers_frame<D: DmaBuffer>(
    before: GpuView<D>,
    after: GpuView<D>,
    width: u32,
    height: u32,
    done: Seq<Event>,
    bytes: Seq<u8>,
    left: Seq<u8>,
) -> bool {
    &&& only_frame_differs(before, after)
    &&& after.rect == Some(Rect { x: 0, y: 0, width, height })
    &&& after.frame_buffer is Some
    &&& after.frame_buffer->Some_0.address() == place(
        done[letting_go(before.frame_buffer is Some) + 1],
    )
    &&& after.frame_buffer->Some_0.contents() == left
    &&& blank(bytes, bytes.len() as int)
    &&& size_of_frame(width, height) <= bytes.len() < size_of_frame(width, height) + 4096
    &&& bytes.len() % 4096 == 0
}

proof fn bind_words(e: Event, width: u32, height: u32, resource: u32)
    requires
        e.ask == command(set_scanout_request(screen(width, height), SCANOUT_ID, resource).wire()),
        e.is_answered(),
    ensures
        binds(e, width, height, resource as int),
        failure(e) == setback(e),
{
    reveal(binds);
    let q = set_scanout_request(screen(width, height), SCANOUT_ID, resource);
    step_words(e, q.wire(), 24);
    message_words(q);
    header_words(q.header, q.wire());
}

proof fn detach_words(e: Event)
    requires
        e.ask == command(resource_detach_backing_request(RESOURCE_ID_FB).wire()),
        e.is_answered(),
    ensures
        names(e, 0x107, 0xbabe),
        failure(e) == setback(e),
{
    reveal(names);
    let q = resource_detach_backing_request(RESOURCE_ID_FB);
    step_words(e, q.wire(), 24);
    message_words(q);
    header_words(q.header, q.wire());
}

proof fn unref_words(e: Event)
    requires
        e.ask == command(resource_unref_request(RESOURCE_ID_FB).wire()),
        e.is_answered(),
    ensures
        names(e, 0x102, 0xbabe),
        failure(e) == setback(e),
{
    reveal(names);
    let q = resource_unref_request(RESOURCE_ID_FB);
    step_words(e, q.wire(), 24);
    message_words(q);
    header_words(q.header, q.wire());
}

proof fn create_words(e: Event, resource: u32, width: u32, height: u32)
    requires
        e.ask == command(resource_create_2d_request(resource, width, height).wire()),
        e.is_answered(),
    ensures
        creates(e, resource as int, width, height),
        failure(e) == setback(e),
{
    reveal(creates);
    let q = resource_create_2d_request(resource, width, height);
    step_words(e, q.wire(), 24);
    message_words(q);
    header_words(q.header, q.wire());
}

proof fn memory_words(e: Event, size: nat, access_platform: bool)
    requires
        e.ask == memory_for(size, access_platform),
        e.is_answered(),
        size <= 0xffff_ffff,
    ensures
        allocates(e, size as int, access_platform),
        failure(e) == setback(e),
{
    pages_suffice(size);
}

proof fn attach_words(e: Event, resource: u32, address: u64, size: u32)
    requires
        e.ask == command(resource_attach_backing_request(resource, address, size).wire()),
        e.is_answered(),
    ensures
        attaches(e, resource as int, address, size as int),
        failure(e) == setback(e),
{
    reveal(attaches);
    let q = resource_attach_backing_request(resource, address, size);
    step_words(e, q.wire(), 24);
    message_words(q);
    header_words(q.header.header, q.wire());
}

proof fn copy_words(e: Event, resource: u32, rect: Rect)
    requires
        e.ask == command(transfer_to_host_2d_request(rect, 0, resource).wire()),
        e.is_answered(),
    ensures
        copies(e, resource as int, rect),
        failure(e) == setback(e),
{
    reveal(copies);
    let q = transfer_to_host_2d_request(rect, 0, resource);
    step_words(e, q.wire(), 24);
    message_words(q);
    header_words(q.header, q.wire());
}

proof fn show_words(e: Event, resource: u32, rect: Rect)
    requires
        e.ask == command(resource_flush_request(rect, resource).wire()),
        e.is_answered(),
    ensures
        shows(e, resource as int, rect),
        failure(e) == setback(e),
{
    reveal(shows);
    let q = resource_flush_request(rect, resource);
    step_words(e, q.wire(), 24);
    message_words(q);
    header_words(q.header, q.wire());
}

/// What a change of the resolution asks for, step by step.
proof fn frame_asks(
    had_frame: bool,
    access_platform: bool,
    width: u32,
    height: u32,
    before: Seq<Event>,
    after: Seq<Event>,
    r: Result<(), Error>,
)
    requires
        resolution_changed(had_frame, access_platform, width, height, before, after, r),
    ensures
        ({
            let done = since(before, after);
            let n = letting_go(had_frame);
            &&& stops_at_setback(
                done,
                change_resolution_len(had_frame, width, height),
                change_resolution_refusal(width, height),
                r,
            )
            &&& forall|i: int| 0 <= i < done.len() ==> (#[trigger] done[i]).is_answered()
            &&& had_frame && done.len() > 0 ==> done[0].ask == command(
                set_scanout_request(screen(0, 0), SCANOUT_ID, 0).wire(),
            )
            &&& had_frame && done.len() > 1 ==> done[1].ask == command(
                resource_detach_backing_request(RESOURCE_ID_FB).wire(),
            )
            &&& had_frame && done.len() > 2 ==> done[2].ask == command(
                resource_unref_request(RESOURCE_ID_FB).wire(),
            )
            &&& done.len() > n ==> done[n].ask == command(
                resource_create_2d_request(RESOURCE_ID_FB, width, height).wire(),
            )
            &&& done.len() > n + 1 ==> frame_size(width, height) <= u32::MAX && done[n + 1].ask
                == memory_for(frame_size(width, height), access_platform)
            &&& done.len() > n + 2 ==> setback(done[n + 1]) is None && done[n + 2].ask == command(
                resource_attach_backing_request(
                    RESOURCE_ID_FB,
                    memory_address(done[n + 1]),
                    frame_size(width, height) as u32,
                ).wire(),
            )
            &&& done.len() > n + 3 ==> done[n + 3].ask == command(
                set_scanout_request(screen(width, height), SCANOUT_ID, RESOURCE_ID_FB).wire(),
            )
        }),
{
    change_resolution_stops_at_setback(
        had_frame,
        access_platform,
        width,
        height,
        before,
        after,
        r,
    );
    let plan = change_resolution_steps(had_frame, access_platform, width, height);
    let done = since(before, after);
    let n = letting_go(had_frame);
    assert forall|i: int| 0 <= i < done.len() implies {
        &&& change_resolution_plan(had_frame, access_platform, width, height, done.take(i))
            == Next::<()>::Ask((#[trigger] done[i]).ask)
        &&& i > 0 ==> last_of(done, i)
    } by {
        assert(plan(done.take(i)) == Next::<()>::Ask(done[i].ask));
    }
    assert(n > 0 && done.len() > n ==> last_of(done, n));
    assert(done.len() > n + 2 ==> done.take(n + 2)[n + 1] == done[n + 1]);
}

/// A change of the resolution as the history tells it.
proof fn frame_in_history(
    had_frame: bool,
    access_platform: bool,
    width: u32,
    height: u32,
    before: Seq<Event>,
    after: Seq<Event>,
    r: Result<(), Error>,
)
    requires
        resolution_changed(had_frame, access_platform, width, height, before, after, r),
    ensures
        grown(before, after, after.len() - before.len()),
        added(before, after) == since(before, after),
        framed_in_order(had_frame, access_platform, width, height, added(before, after)),
        framed(had_frame, width, height, added(before, after), r),
        forall|i: int|
            0 <= i < added(before, after).len() ==> failure(#[trigger] added(before, after)[i])
                == setback(added(before, after)[i]),
{
    frame_asks(had_frame, access_platform, width, height, before, after, r);
    let done = since(before, after);
    let n = letting_go(had_frame);
    assert(added(before, after) =~= done);
    assert(size_of_frame(width, height) == frame_size(width, height)) by (nonlinear_arith)
        requires
            size_of_frame(width, height) == 4 * (width as int * height as int),
            frame_size(width, height) == width as int * height as int * 4,
    ;
    if had_frame && done.len() > 0 {
        bind_words(done[0], 0, 0, 0);
    }
    if had_frame && done.len() > 1 {
        detach_words(done[1]);
    }
    if had_frame && done.len() > 2 {
        unref_words(done[2]);
    }
    if done.len() > n {
        create_words(done[n], RESOURCE_ID_FB, width, height);
    }
    if done.len() > n + 1 {
        memory_words(done[n + 1], frame_size(width, height), access_platform);
    }
    if done.len() > n + 2 {
        attach_words(
            done[n + 2],
            RESOURCE_ID_FB,
            place(done[n + 1]),
            frame_size(width, height) as u32,
        );
    }
    if done.len() > n + 3 {
        bind_words(done[n + 3], width, height, RESOURCE_ID_FB);
    }
    assert forall|i: int| 0 <= i < done.len() implies failure(#[trigger] done[i]) == setback(
        done[i],
    ) by {
        assert(i == 0 || i == 1 || i == 2 || i == n || i == n + 1 || i == n + 2 || i == n + 3);
    }
    assert(done.len() > 0 ==> done.last() == done[done.len() - 1]);
    assert forall|i: int| 0 <= i < before.len() implies #[trigger] after[i] == before[i] by {
        assert(before.is_prefix_of(after));
    }
}

/// The last step of the first `i` steps.
spec fn last_of(done: Seq<Event>, i: int) -> bool {
    done.take(i).last() == done[i - 1] && done.take(i).len() == i
}

/// A change of the resolution takes its steps in order and ends at the first one that fails. What
/// the driver remembers follows from how far it got.
#[verifier::rlimit(50)]
pub proof fn change_resolution_law<T: Transport>(
    gpu: &mut VirtIOGpu<T>,
    width: u32,
    height: u32,
    r: Result<&mut [u8], Error>,
)
    requires
        call_ensures(VirtIOGpu::<T>::change_resolution, (gpu, width, height), r),
    ensures
        ({
            let done = added(old(gpu).history(), final(gpu).history());
            let had_frame = old(gpu)@.frame_buffer is Some;
            &&& grown(old(gpu).history(), final(gpu).history(), done.len() as int)
            &&& framed_in_order(had_frame, old(gpu)@.access_platform, width, height, done)
            &&& framed(
                had_frame,
                width,
                height,
                done,
                match r {
                    Ok(_) => Ok(()),
                    Err(e) => Err(e),
                },
            )
            &&& match r {
                Ok(bytes) => remembers_frame(
                    old(gpu)@,
                    final(gpu)@,
                    width,
                    height,
                    done,
                    bytes@,
                    final(bytes)@,
                ),
                Err(_) => remembers_failure(old(gpu)@, final(gpu)@, width, height, done),
            }
        }),
{
    let result: Result<(), Error> = match r {
        Ok(_) => Ok(()),
        Err(e) => Err(e),
    };
    frame_in_history(
        old(gpu)@.frame_buffer is Some,
        old(gpu)@.access_platform,
        width,
        height,
        old(gpu).history(),
        final(gpu).history(),
        result,
    );
    frame_memory(width, height);
    let done = added(old(gpu).history(), final(gpu).history());
    if result is Ok {
        let n = letting_go(old(gpu)@.frame_buffer is Some);
        assert(failure(done[n + 1]) is None);
    }
}

/// How long the memory of a framebuffer is.
proof fn frame_memory(width: u32, height: u32)
    ensures
        ({
            let b = blank_frame(width, height);
            &&& blank(b, b.len() as int)
            &&& size_of_frame(width, height) <= b.len() < size_of_frame(width, height) + 4096
            &&& b.len() % 4096 == 0
        }),
{
    pages_suffice(frame_size(width, height));
    assert(size_of_frame(width, height) == frame_size(width, height)) by (nonlinear_arith)
        requires
            size_of_frame(width, height) == 4 * (width as int * height as int),
            frame_size(width, height) == width as int * height as int * 4,
    ;
}

/// To set up a framebuffer, the display modes are asked for first. Without them, nothing more is
/// done. Else all is as for a change of the resolution to the mode of the first scanout, whatever
/// the modes of the others are.
#[verifier::rlimit(50)]
pub proof fn setup_framebuffer_law<T: Transport>(
    gpu: &mut VirtIOGpu<T>,
    r: Result<&mut [u8], Error>,
)
    requires
        call_ensures(VirtIOGpu::<T>::setup_framebuffer, (gpu,), r),
    ensures
        ({
            let all = added(old(gpu).history(), final(gpu).history());
            let done = all.skip(1);
            let had_frame = old(gpu)@.frame_buffer is Some;
            &&& grown(old(gpu).history(), final(gpu).history(), all.len() as int)
            &&& all.len() > 0
            &&& exchanged(all[0], 0, 1, seq![408])
            &&& headed(input(all[0], 0), 24, 0x100, 0, 0, 0)
            &&& match replied(all[0], 0x1101) {
                Err(error) => {
                    &&& all.len() == 1
                    &&& r is Err
                    &&& r->Err_0 == error
                    &&& final(gpu)@ == old(gpu)@
                },
                Ok(_) => {
                    let width = word(reply(all[0], 0), 32) as u32;
                    let height = word(reply(all[0], 0), 36) as u32;
                    &&& width == word(reply(all[0], 0), 32)
                    &&& height == word(reply(all[0], 0), 36)
                    &&& framed_in_order(had_frame, old(gpu)@.access_platform, width, height, done)
                    &&& framed(
                        had_frame,
                        width,
                        height,
                        done,
                        match r {
                            Ok(_) => Ok(()),
                            Err(e) => Err(e),
                        },
                    )
                    &&& match r {
                        Ok(bytes) => remembers_frame(
                            old(gpu)@,
                            final(gpu)@,
                            width,
                            height,
                            done,
                            bytes@,
                            final(bytes)@,
                        ),
                        Err(_) => remembers_failure(old(gpu)@, final(gpu)@, width, height, done),
                    }
                },
            }
        }),
{
    let had_frame = old(gpu)@.frame_buffer is Some;
    let before = old(gpu).history();
    let after = final(gpu).history();
    let result: Result<(), Error> = match r {
        Ok(_) => Ok(()),
        Err(e) => Err(e),
    };
    setup_framebuffer_changes_resolution(
        had_frame,
        old(gpu)@.access_platform,
        before,
        after,
        result,
    );
    let all = since(before, after);
    assert(added(before, after) =~= all);
    let q = get_display_info_request();
    assert(all[0].is_answered());
    step_words(all[0], q.wire(), 408);
    message_words(q);
    header_words(q, q.wire());
    let b = reply(all[0], 0);
    assert(u32_at(b, 0) == word(b, 0));
    assert forall|i: int| 0 <= i < before.len() implies #[trigger] after[i] == before[i] by {
        assert(before.is_prefix_of(after));
    }
    if let Ok((width, height)) = display_mode(all[0].answer) {
        assert(u32_at(b, 32) == word(b, 32));
        assert(u32_at(b, 36) == word(b, 36));
        let now = before.push(all[0]);
        frame_in_history(
            had_frame,
            old(gpu)@.access_platform,
            width,
            height,
            now,
            after,
            result,
        );
        frame_memory(width, height);
        let done = all.skip(1);
        assert(added(now, after) =~= done);
        assert(since(now, after) =~= done);
        assert(framed(had_frame, width, height, done, result));
        if result is Ok {
            let n = letting_go(had_frame);
            assert(failure(done[n + 1]) is None);
        }
    }
}

/// A refresh copies the area of the framebuffer to the host and then shows it. Without a
/// framebuffer, nothing is done.
pub proof fn flush_law<T: Transport>(gpu: &mut VirtIOGpu<T>, r: Result<(), Error>)
    requires
        call_ensures(VirtIOGpu::<T>::flush, (gpu,), r),
    ensures
        final(gpu)@ == old(gpu)@,
        ({
            let done = added(old(gpu).history(), final(gpu).history());
            &&& grown(old(gpu).history(), final(gpu).history(), done.len() as int)
            &&& match old(gpu)@.rect {
                None => done.len() == 0 && r == Err::<(), Error>(Error::NotReady),
                Some(rect) => {
                    &&& done.len() > 0 ==> copies(done[0], 0xbabe, rect)
                    &&& done.len() > 1 ==> shows(done[1], 0xbabe, rect)
                    &&& stopped(done, 2, None, r)
                },
            }
        }),
{
    let before = old(gpu).history();
    let after = final(gpu).history();
    let known = old(gpu)@.rect;
    let plan = |done: Seq<Event>| flush_plan(known, done);
    let done = since(before, after);
    assert(added(before, after) =~= done);
    assert(plan(done) == Next::<()>::End(r));
    assert(done.len() > 0 ==> plan(done.take(0)) == Next::<()>::Ask(done[0].ask));
    assert(done.len() > 1 ==> plan(done.take(1)) == Next::<()>::Ask(done[1].ask));
    assert forall|i: int| 0 <= i < before.len() implies #[trigger] after[i] == before[i] by {
        assert(before.is_prefix_of(after));
    }
    if let Some(rect) = known {
        flush_stops_at_setback(rect, before, after, r);
        assert(last_of(done, 1) || done.len() == 0);
        if done.len() > 0 {
            assert(done[0].is_answered());
            copy_words(done[0], RESOURCE_ID_FB, rect);
        }
        if done.len() > 1 {
            assert(done[1].is_answered());
            show_words(done[1], RESOURCE_ID_FB, rect);
        }
        assert(done.len() > 0 ==> done.last() == done[done.len() - 1]);
    }
}

/// Whether a step showed the pointer.
#[verifier::opaque]
pub open spec fn points(e: Event, pos_x: u32, pos_y: u32, hot_x: u32, hot_y: u32) -> bool {
    let b = input(e, 0);
    &&& exchanged(e, 1, 1, seq![])
    &&& headed(b, 56, 0x300, 0, 0, 0)
    &&& word(b, 24) == 0
    &&& word(b, 28) == pos_x
    &&& word(b, 32) == pos_y
    &&& word(b, 36) == 0
    &&& word(b, 40) == 0xdade
    &&& word(b, 44) == hot_x
    &&& word(b, 48) == hot_y
    &&& word(b, 52) == 0
}

proof fn point_words(e: Event, pos_x: u32, pos_y: u32, hot_x: u32, hot_y: u32)
    requires
        e.ask == cursor(
            update_cursor_request(
                RESOURCE_ID_CURSOR,
                SCANOUT_ID,
                pos_x,
                pos_y,
                hot_x,
                hot_y,
                false,
            ).wire(),
        ),
        e.is_answered(),
    ensures
        points(e, pos_x, pos_y, hot_x, hot_y),
        failure(e) == setback(e),
{
    reveal(points);
    let q = update_cursor_request(
        RESOURCE_ID_CURSOR,
        SCANOUT_ID,
        pos_x,
        pos_y,
        hot_x,
        hot_y,
        false,
    );
    let after = seq![e];
    assert(after =~= Seq::<Event>::empty().push(e));
    cursor_words(Seq::<Event>::empty(), after, q.wire());
    message_words(q);
    header_words(q.header, q.wire());
}

/// A pointer image of 64 by 64 pixels is put into memory, which is then given to a resource, copied
/// to the host and shown; the driver keeps the memory if all went well. An image of any other
/// length is refused, and nothing is done.
pub proof fn setup_cursor_law<T: Transport>(
    gpu: &mut VirtIOGpu<T>,
    cursor_image: &[u8],
    pos_x: u32,
    pos_y: u32,
    hot_x: u32,
    hot_y: u32,
    r: Result<(), Error>,
)
    requires
        call_ensures(
            VirtIOGpu::<T>::setup_cursor,
            (gpu, cursor_image, pos_x, pos_y, hot_x, hot_y),
            r,
        ),
    ensures
        ({
            let done = added(old(gpu).history(), final(gpu).history());
            &&& grown(old(gpu).history(), final(gpu).history(), done.len() as int)
            &&& cursor_image@.len() != 16384 ==> done.len() == 0 && r == Err::<(), Error>(
                Error::InvalidParam,
            )
            &&& cursor_image@.len() == 16384 ==> {
                &&& done.len() > 0
                &&& allocates(done[0], 16384, old(gpu)@.access_platform)
                &&& done.len() > 1 ==> done[1].ask == (Ask::MemoryWritten {
                    address: place(done[0]),
                    contents: cursor_image@,
                })
                &&& done.len() > 2 ==> creates(done[2], 0xdade, 64, 64)
                &&& done.len() > 3 ==> attaches(done[3], 0xdade, place(done[0]), 16384)
                &&& done.len() > 4 ==> copies(
                    done[4],
                    0xdade,
                    (Rect { x: 0, y: 0, width: 64, height: 64 }),
                )
                &&& done.len() > 5 ==> points(done[5], pos_x, pos_y, hot_x, hot_y)
                &&& stopped(done, 6, None, r)
            }
            &&& match r {
                Err(_) => final(gpu)@ == old(gpu)@,
                Ok(_) => {
                    &&& final(gpu)@.cursor_buffer is Some
                    &&& final(gpu)@.cursor_buffer->Some_0.address() == place(done[0])
                    &&& final(gpu)@.cursor_buffer->Some_0.contents() == cursor_image@
                    &&& final(gpu)@.rect == old(gpu)@.rect
                    &&& final(gpu)@.frame_buffer == old(gpu)@.frame_buffer
                    &&& final(gpu)@.has_edid == old(gpu)@.has_edid
                    &&& final(gpu)@.access_platform == old(gpu)@.access_platform
                    &&& final(gpu)@.has_virgl == old(gpu)@.has_virgl
                    &&& final(gpu)@.has_resource_blob == old(gpu)@.has_resource_blob
                },
            }
        }),
{
    let before = old(gpu).history();
    let after = final(gpu).history();
    let image = cursor_image@;
    pointer_in_history(
        image,
        old(gpu)@.access_platform,
        pos_x,
        pos_y,
        hot_x,
        hot_y,
        before,
        after,
        r,
    );
    let done = added(before, after);
    if r is Ok {
        assert(failure(done[0]) is None);
    }
}

/// The setup of a pointer image as the history tells it.
proof fn pointer_in_history(
    image: Seq<u8>,
    access_platform: bool,
    pos_x: u32,
    pos_y: u32,
    hot_x: u32,
    hot_y: u32,
    before: Seq<Event>,
    after: Seq<Event>,
    r: Result<(), Error>,
)
    requires
        cursor_set_up(image, access_platform, pos_x, pos_y, hot_x, hot_y, before, after, r),
    ensures
        ({
            let done = added(before, after);
            &&& done == since(before, after)
            &&& grown(before, after, done.len() as int)
            &&& image.len() != 16384 ==> done.len() == 0 && r == Err::<(), Error>(
                Error::InvalidParam,
            )
            &&& image.len() == 16384 ==> {
                &&& done.len() > 0
                &&& allocates(done[0], 16384, access_platform)
                &&& done.len() > 1 ==> failure(done[0]) is None && done[1].ask
                    == (Ask::MemoryWritten { address: place(done[0]), contents: image })
                &&& done.len() > 2 ==> creates(done[2], 0xdade, 64, 64)
                &&& done.len() > 3 ==> attaches(done[3], 0xdade, place(done[0]), 16384)
                &&& done.len() > 4 ==> copies(
                    done[4],
                    0xdade,
                    (Rect { x: 0, y: 0, width: 64, height: 64 }),
                )
                &&& done.len() > 5 ==> points(done[5], pos_x, pos_y, hot_x, hot_y)
                &&& stopped(done, 6, None, r)
            }
        }),
{
    let plan = |done: Seq<Event>|
        setup_cursor_plan(image, access_platform, pos_x, pos_y, hot_x, hot_y, done);
    let done = since(before, after);
    assert(added(before, after) =~= done);
    assert(plan(done) == Next::<()>::End(r));
    assert(done.len() > 0 ==> plan(done.take(0)) == Next::<()>::Ask(done[0].ask));
    assert forall|i: int| 0 <= i < before.len() implies #[trigger] after[i] == before[i] by {
        assert(before.is_prefix_of(after));
    }
    if image.len() == 16384 {
        setup_cursor_stops_at_setback(
            image,
            access_platform,
            pos_x,
            pos_y,
            hot_x,
            hot_y,
            before,
            after,
            r,
        );
        assert forall|i: int| 0 < i < done.len() implies last_of(done, i) && (
        #[trigger] done[i]).is_answered() && plan(done.take(i)) == Next::<()>::Ask(done[i].ask)
            && done.take(i)[0] == done[0] by {}
        assert(done[0].is_answered());
        memory_words(done[0], 16384, access_platform);
        if done.len() > 1 {
            assert(last_of(done, 1) && setback(done[0]) is None);
        }
        if done.len() > 2 {
            assert(last_of(done, 2));
            create_words(done[2], RESOURCE_ID_CURSOR, 64, 64);
        }
        if done.len() > 3 {
            assert(last_of(done, 3));
            attach_words(done[3], RESOURCE_ID_CURSOR, place(done[0]), 16384);
        }
        if done.len() > 4 {
            assert(last_of(done, 4));
            copy_words(done[4], RESOURCE_ID_CURSOR, screen(64, 64));
        }
        if done.len() > 5 {
            assert(last_of(done, 5));
            point_words(done[5], pos_x, pos_y, hot_x, hot_y);
        }
        assert forall|i: int| 0 <= i < done.len() implies failure(#[trigger] done[i]) == setback(
            done[i],
        ) by {
            assert(i == 0 || i == 1 || i == 2 || i == 3 || i == 4 || i == 5);
        }
        assert(done.last() == done[done.len() - 1]);
    }
}

} // verus!
