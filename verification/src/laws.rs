//! What holds of driver calls as a whole: of those that take more than one step, and of all 3D
//! calls.
//!
//! The modules below say what each call is for: what it puts on the wire, byte by byte, what it
//! makes of each answer, and what the driver then remembers.
pub mod commands;
pub mod frames;
pub mod layout;
pub mod queries;
pub mod reading;
pub mod start;
pub mod streams;
pub mod timings;
pub mod values;

use crate::config::{Features, Startup, SUPPORTED_FEATURES};
use crate::context::{GpuBox, RespCapsetInfo};
use crate::display::Rect;
use crate::dma::{pages_suffice, DmaBuffer, PAGE_SIZE};
use crate::driver::screen::{blank_frame, has_new_frame, has_no_new_frame};
use crate::driver::{GpuView, VirtIOGpu};
use crate::error::Error;
use crate::plan::{
    carried_out, carries_out_rest, change_resolution_plan, change_resolution_steps, cursor_set_up,
    display_mode, flush_plan, flushed, frame_size, framebuffer_set_up, init_plan, initialised,
    last_setback, memory_address, memory_for, queue_setup, resolution_changed, screen, setback,
    setup_cursor_plan, setup_framebuffer_steps, since, startup, teardown_len, torn_down, under_way,
    Next, CURSOR_HEIGHT, CURSOR_SIZE, CURSOR_WIDTH, RESOURCE_ID_CURSOR, RESOURCE_ID_FB, SCANOUT_ID,
};
use crate::request::{
    command, control, get_display_info_request, resource_attach_backing_request,
    resource_create_2d_request, resource_detach_backing_request, resource_flush_request,
    resource_unref_request, set_scanout_request, transfer_to_host_2d_request, QUEUE_CURSOR,
    QUEUE_TRANSMIT,
};
use crate::transport::{Answer, Ask, Event, Transport};
use crate::wire::IntoBytes;
use vstd::prelude::*;

verus! {

/// What a call asks for, and what it returns, follows from the answers that it gets.
pub proof fn answers_decide<R>(
    plan: spec_fn(Seq<Event>) -> Next<R>,
    first: Seq<Event>,
    second: Seq<Event>,
    n: int,
)
    requires
        under_way(plan, first),
        under_way(plan, second),
        0 <= n <= first.len(),
        n <= second.len(),
        forall|i: int|
            0 <= i < n ==> (#[trigger] first[i]).answer == (#[trigger] second[i]).answer,
    ensures
        first.take(n) == second.take(n),
        n < first.len() && n < second.len() ==> first[n].ask == second[n].ask,
    decreases n,
{
    if n > 0 {
        answers_decide(plan, first, second, n - 1);
        assert(first[n - 1] == second[n - 1]);
        assert(first.take(n) =~= first.take(n - 1).push(first[n - 1]));
        assert(second.take(n) =~= second.take(n - 1).push(second[n - 1]));
    } else {
        assert(first.take(0) =~= second.take(0));
    }
    if n < first.len() && n < second.len() {
        assert(plan(first.take(n)) == Next::<R>::Ask(first[n].ask));
        assert(plan(second.take(n)) == Next::<R>::Ask(second[n].ask));
    }
}

/// A call ends at one point: where the answers are the same, it neither stops earlier nor goes on
/// for longer, and it returns the same.
pub proof fn calls_are_repeatable<R>(
    plan: spec_fn(Seq<Event>) -> Next<R>,
    first_before: Seq<Event>,
    first_after: Seq<Event>,
    first_result: Result<R, Error>,
    second_before: Seq<Event>,
    second_after: Seq<Event>,
    second_result: Result<R, Error>,
)
    requires
        carried_out(plan, first_before, first_after, first_result),
        carried_out(plan, second_before, second_after, second_result),
        forall|i: int|
            0 <= i < since(first_before, first_after).len() && i < since(
                second_before,
                second_after,
            ).len() ==> (#[trigger] since(first_before, first_after)[i]).answer == (
            #[trigger] since(second_before, second_after)[i]).answer,
    ensures
        since(first_before, first_after) == since(second_before, second_after),
        first_result == second_result,
{
    let first = since(first_before, first_after);
    let second = since(second_before, second_after);
    if first.len() <= second.len() {
        answers_decide(plan, first, second, first.len() as int);
        assert(first.take(first.len() as int) =~= first);
        if first.len() < second.len() {
            assert(plan(second.take(first.len() as int)) == Next::<R>::Ask(
                second[first.len() as int].ask,
            ));
        }
        assert(second.take(second.len() as int) =~= second);
    } else {
        answers_decide(plan, first, second, second.len() as int);
        assert(second.take(second.len() as int) =~= second);
        assert(plan(first.take(second.len() as int)) == Next::<R>::Ask(
            first[second.len() as int].ask,
        ));
    }
}

/// Whether a call stopped behind the first step that failed, and reports that failure; or went
/// through all of its `steps`, and then fails with `refusal` or, if there is none, succeeds.
pub open spec fn stops_at_setback<R>(
    done: Seq<Event>,
    steps: int,
    refusal: Option<Error>,
    result: Result<R, Error>,
) -> bool {
    &&& done.len() <= steps
    &&& forall|i: int| 0 <= i < done.len() - 1 ==> setback(#[trigger] done[i]) is None
    &&& match last_setback(done) {
        Some(e) => result == Err::<R, Error>(e),
        None => done.len() == steps && match refusal {
            Some(e) => result == Err::<R, Error>(e),
            None => result is Ok,
        },
    }
}

/// A plan that ends with the last setback, and otherwise after `steps` steps, stops at the first
/// setback.
proof fn plan_stops_at_setback<R>(
    plan: spec_fn(Seq<Event>) -> Next<R>,
    steps: int,
    refusal: Option<Error>,
    before: Seq<Event>,
    after: Seq<Event>,
    result: Result<R, Error>,
)
    requires
        steps >= 0,
        carried_out(plan, before, after, result),
        forall|done: Seq<Event>|
            match last_setback(done) {
                Some(e) => #[trigger] plan(done) == Next::<R>::End(Err(e)),
                None => if done.len() < steps {
                    plan(done) is Ask
                } else {
                    plan(done) matches Next::End(end) && match refusal {
                        Some(e) => end == Err::<R, Error>(e),
                        None => end is Ok,
                    }
                },
            },
    ensures
        stops_at_setback(since(before, after), steps, refusal, result),
{
    let done = since(before, after);
    if done.len() > 0 {
        let most = done.take(done.len() - 1);
        assert(plan(most) == Next::<R>::Ask(done[done.len() - 1].ask));
        assert(last_setback(most) is None);
        assert(most.len() < steps);
    }
    assert forall|i: int| 0 <= i < done.len() - 1 implies setback(#[trigger] done[i]) is None by {
        assert(plan(done.take(i + 1)) == Next::<R>::Ask(done[i + 1].ask));
        assert(last_setback(done.take(i + 1)) is None);
        assert(done.take(i + 1).last() == done[i]);
    }
    assert(plan(done) == Next::<R>::End(result));
}

/// The steps of a call are answered, each in the way that belongs to it.
pub proof fn steps_are_answered<R>(
    plan: spec_fn(Seq<Event>) -> Next<R>,
    before: Seq<Event>,
    after: Seq<Event>,
    result: Result<R, Error>,
    i: int,
)
    requires
        carried_out(plan, before, after, result),
        0 <= i < since(before, after).len(),
    ensures
        since(before, after)[i].is_answered(),
{
}

/// An initialisation stops at the first step that fails, and reports why.
pub proof fn init_stops_at_setback(
    before: Seq<Event>,
    after: Seq<Event>,
    result: Result<Startup, Error>,
)
    requires
        initialised(before, after, result),
    ensures
        stops_at_setback(since(before, after), 7, None, result),
{
    plan_stops_at_setback(|done: Seq<Event>| init_plan(done), 7, None, before, after, result);
}

/// How many steps a change of the resolution takes: a framebuffer that is too large ends with the
/// creation of its resource.
pub open spec fn change_resolution_len(has_frame_buffer: bool, width: u32, height: u32) -> int {
    teardown_len(has_frame_buffer) + if frame_size(width, height) <= u32::MAX {
        4int
    } else {
        1int
    }
}

/// Why there is no framebuffer of a resolution, if there is none.
pub open spec fn change_resolution_refusal(width: u32, height: u32) -> Option<Error> {
    if frame_size(width, height) <= u32::MAX {
        None
    } else {
        Some(Error::InvalidParam)
    }
}

/// A change of the resolution stops at the first step that fails, and reports why.
pub proof fn change_resolution_stops_at_setback(
    has_frame_buffer: bool,
    access_platform: bool,
    width: u32,
    height: u32,
    before: Seq<Event>,
    after: Seq<Event>,
    result: Result<(), Error>,
)
    requires
        resolution_changed(
            has_frame_buffer,
            access_platform,
            width,
            height,
            before,
            after,
            result,
        ),
    ensures
        stops_at_setback(
            since(before, after),
            change_resolution_len(has_frame_buffer, width, height),
            change_resolution_refusal(width, height),
            result,
        ),
{
    let plan = change_resolution_steps(has_frame_buffer, access_platform, width, height);
    plan_stops_at_setback(
        plan,
        change_resolution_len(has_frame_buffer, width, height),
        change_resolution_refusal(width, height),
        before,
        after,
        result,
    );
}

/// A refresh stops at the first step that fails, and reports why.
pub proof fn flush_stops_at_setback(
    rect: Rect,
    before: Seq<Event>,
    after: Seq<Event>,
    result: Result<(), Error>,
)
    requires
        flushed(Some(rect), before, after, result),
    ensures
        stops_at_setback(since(before, after), 2, None, result),
{
    plan_stops_at_setback(
        |done: Seq<Event>| flush_plan(Some(rect), done),
        2,
        None,
        before,
        after,
        result,
    );
}

/// The setup of a pointer image stops at the first step that fails, and reports why.
pub proof fn setup_cursor_stops_at_setback(
    image: Seq<u8>,
    access_platform: bool,
    pos_x: u32,
    pos_y: u32,
    hot_x: u32,
    hot_y: u32,
    before: Seq<Event>,
    after: Seq<Event>,
    result: Result<(), Error>,
)
    requires
        image.len() == CURSOR_SIZE,
        cursor_set_up(
            image,
            access_platform,
            pos_x,
            pos_y,
            hot_x,
            hot_y,
            before,
            after,
            result,
        ),
    ensures
        stops_at_setback(since(before, after), 6, None, result),
{
    plan_stops_at_setback(
        |done: Seq<Event>|
            setup_cursor_plan(image, access_platform, pos_x, pos_y, hot_x, hot_y, done),
        6,
        None,
        before,
        after,
        result,
    );
}

/// To set up a framebuffer is to ask for the display modes and then to change the resolution to
/// the one that `resolution` would have reported. Without display modes, nothing more is asked.
pub proof fn setup_framebuffer_changes_resolution(
    has_frame_buffer: bool,
    access_platform: bool,
    before: Seq<Event>,
    after: Seq<Event>,
    result: Result<(), Error>,
)
    requires
        framebuffer_set_up(has_frame_buffer, access_platform, before, after, result),
    ensures
        ({
            let done = since(before, after);
            &&& done.len() > 0
            &&& done[0].ask == control(get_display_info_request().wire(), 408)
            &&& match display_mode(done[0].answer) {
                Err(e) => done.len() == 1 && result == Err::<(), Error>(e),
                Ok((width, height)) => resolution_changed(
                    has_frame_buffer,
                    access_platform,
                    width,
                    height,
                    before.push(done[0]),
                    after,
                    result,
                ),
            }
        }),
{
    let whole = setup_framebuffer_steps(has_frame_buffer, access_platform);
    let done = since(before, after);
    assert(whole(done) == Next::<()>::End(result));
    assert(done.len() > 0);
    assert(done.take(0) =~= Seq::<Event>::empty());
    assert(whole(done.take(0)) == Next::<()>::Ask(done[0].ask));
    match display_mode(done[0].answer) {
        Err(_) => {
            if done.len() > 1 {
                assert(done.take(1)[0] == done[0]);
                assert(whole(done.take(1)) == Next::<()>::Ask(done[1].ask));
            }
        },
        Ok((width, height)) => {
            let rest = change_resolution_steps(has_frame_buffer, access_platform, width, height);
            carries_out_rest(whole, rest, before, after, result);
        },
    }
}

/// A new framebuffer is asked for only when the device has acknowledged that it let go of the one
/// before, and only memory that was given to the new one is shown.
pub proof fn framebuffers_follow_each_other(
    has_frame_buffer: bool,
    access_platform: bool,
    width: u32,
    height: u32,
    before: Seq<Event>,
    after: Seq<Event>,
    result: Result<(), Error>,
)
    requires
        resolution_changed(
            has_frame_buffer,
            access_platform,
            width,
            height,
            before,
            after,
            result,
        ),
    ensures
        ({
            let done = since(before, after);
            let torn = teardown_len(has_frame_buffer);
            &&& has_frame_buffer && done.len() > 0 ==> done[0].ask == command(
                set_scanout_request(screen(0, 0), SCANOUT_ID, 0).wire(),
            )
            &&& has_frame_buffer && done.len() > 1 ==> done[1].ask == command(
                resource_detach_backing_request(RESOURCE_ID_FB).wire(),
            )
            &&& has_frame_buffer && done.len() > 2 ==> done[2].ask == command(
                resource_unref_request(RESOURCE_ID_FB).wire(),
            )
            &&& done.len() > torn ==> torn_down(has_frame_buffer, done) && done[torn].ask
                == command(resource_create_2d_request(RESOURCE_ID_FB, width, height).wire())
            &&& done.len() > torn + 3 ==> {
                &&& done[torn + 1].ask == memory_for(frame_size(width, height), access_platform)
                &&& done[torn + 2].ask == command(
                    resource_attach_backing_request(
                        RESOURCE_ID_FB,
                        memory_address(done[torn + 1]),
                        frame_size(width, height) as u32,
                    ).wire(),
                )
                &&& setback(done[torn + 2]) is None
                &&& done[torn + 3].ask == command(
                    set_scanout_request(screen(width, height), SCANOUT_ID, RESOURCE_ID_FB).wire(),
                )
            }
        }),
{
    change_resolution_stops_at_setback(
        has_frame_buffer,
        access_platform,
        width,
        height,
        before,
        after,
        result,
    );
    let plan = change_resolution_steps(has_frame_buffer, access_platform, width, height);
    let done = since(before, after);
    let torn = teardown_len(has_frame_buffer);
    assert forall|i: int| 0 <= i < done.len() implies #[trigger] done[i].ask
        == change_resolution_plan(
        has_frame_buffer,
        access_platform,
        width,
        height,
        done.take(i),
    )->Ask_0 by {
        assert(plan(done.take(i)) == Next::<()>::Ask(done[i].ask));
    }
    assert forall|i: int| 0 < i < done.len() implies last_setback(#[trigger] done.take(i))
        is None by {
        assert(done.take(i).last() == done[i - 1]);
    }
    if done.len() > torn + 3 {
        assert(done.take(torn + 2)[torn + 1] == done[torn + 1]);
        assert(last_setback(done.take(torn + 1)) is None);
        assert(last_setback(done.take(torn + 2)) is None);
        assert(last_setback(done.take(torn + 3)) is None);
    }
    if done.len() > torn && torn > 0 {
        assert(last_setback(done.take(1)) is None);
        assert(last_setback(done.take(2)) is None);
        assert(last_setback(done.take(3)) is None);
    }
}

/// The memory of a framebuffer is given back only when the device has acknowledged that it let go
/// of it.
pub proof fn memory_outlives_its_use<D: DmaBuffer>(
    before: GpuView<D>,
    after: GpuView<D>,
    width: u32,
    height: u32,
    done: Seq<Event>,
)
    requires
        has_no_new_frame(before, after, width, height, done),
        before.frame_buffer is Some,
        after.frame_buffer is None,
    ensures
        done.len() >= 3,
        setback(done[0]) is None,
        setback(done[1]) is None,
        setback(done[2]) is None,
{
}

/// The memory that is given to a framebuffer is as long as the device is told, with less than a
/// page to spare.
pub proof fn frames_fit_their_memory(width: u32, height: u32)
    ensures
        frame_size(width, height) <= blank_frame(width, height).len() < frame_size(width, height)
            + PAGE_SIZE,
{
    pages_suffice(frame_size(width, height));
}

/// A refresh after a change of the resolution shows the whole of the new framebuffer.
pub proof fn flush_shows_whole_frame<D: DmaBuffer>(
    before: GpuView<D>,
    after: GpuView<D>,
    width: u32,
    height: u32,
    done: Seq<Event>,
    contents: Seq<u8>,
    now: Seq<Event>,
    then: Seq<Event>,
    result: Result<(), Error>,
)
    requires
        has_new_frame(before, after, width, height, done, contents),
        flushed(after.rect, now, then, result),
    ensures
        since(now, then).len() > 0,
        since(now, then)[0].ask == command(
            transfer_to_host_2d_request(screen(width, height), 0, RESOURCE_ID_FB).wire(),
        ),
        result is Ok ==> since(now, then).len() == 2 && since(now, then)[1].ask == command(
            resource_flush_request(screen(width, height), RESOURCE_ID_FB).wire(),
        ),
{
    flush_stops_at_setback(screen(width, height), now, then, result);
    let plan = |done: Seq<Event>| flush_plan(after.rect, done);
    let shown = since(now, then);
    assert(shown.take(0) =~= Seq::<Event>::empty());
    assert(plan(shown.take(0)) == Next::<()>::Ask(shown[0].ask));
    if shown.len() > 1 {
        assert(plan(shown.take(1)) == Next::<()>::Ask(shown[1].ask));
    }
}

/// A second change of the resolution first takes down what the first one set up.
pub proof fn second_change_tears_down<D: DmaBuffer>(
    before: GpuView<D>,
    after: GpuView<D>,
    width: u32,
    height: u32,
    done: Seq<Event>,
    contents: Seq<u8>,
    new_width: u32,
    new_height: u32,
    now: Seq<Event>,
    then: Seq<Event>,
    result: Result<(), Error>,
)
    requires
        has_new_frame(before, after, width, height, done, contents),
        resolution_changed(
            after.frame_buffer is Some,
            after.access_platform,
            new_width,
            new_height,
            now,
            then,
            result,
        ),
    ensures
        since(now, then).len() > 0,
        since(now, then)[0].ask == command(
            set_scanout_request(screen(0, 0), SCANOUT_ID, 0).wire(),
        ),
        result is Ok ==> torn_down(true, since(now, then)),
{
    change_resolution_stops_at_setback(
        true,
        after.access_platform,
        new_width,
        new_height,
        now,
        then,
        result,
    );
    framebuffers_follow_each_other(
        true,
        after.access_platform,
        new_width,
        new_height,
        now,
        then,
        result,
    );
}

/// The pointer image is in the memory that its resource gets before the device is told to copy
/// it.
pub proof fn pointer_image_is_there_in_time(
    image: Seq<u8>,
    access_platform: bool,
    pos_x: u32,
    pos_y: u32,
    hot_x: u32,
    hot_y: u32,
    before: Seq<Event>,
    after: Seq<Event>,
    result: Result<(), Error>,
)
    requires
        cursor_set_up(
            image,
            access_platform,
            pos_x,
            pos_y,
            hot_x,
            hot_y,
            before,
            after,
            result,
        ),
        since(before, after).len() > 4,
    ensures
        ({
            let done = since(before, after);
            let address = memory_address(done[0]);
            &&& image.len() == CURSOR_SIZE
            &&& done[0].ask == memory_for(CURSOR_SIZE as nat, access_platform)
            &&& done[1].ask == (Ask::MemoryWritten { address, contents: image })
            &&& done[3].ask == command(
                resource_attach_backing_request(RESOURCE_ID_CURSOR, address, CURSOR_SIZE).wire(),
            )
            &&& done[4].ask == command(
                transfer_to_host_2d_request(
                    screen(CURSOR_WIDTH, CURSOR_HEIGHT),
                    0,
                    RESOURCE_ID_CURSOR,
                ).wire(),
            )
        }),
{
    let plan = |done: Seq<Event>|
        setup_cursor_plan(image, access_platform, pos_x, pos_y, hot_x, hot_y, done);
    let done = since(before, after);
    assert(plan(done.take(0)) == Next::<()>::Ask(done[0].ask));
    assert(plan(done.take(1)) == Next::<()>::Ask(done[1].ask));
    assert(plan(done.take(3)) == Next::<()>::Ask(done[3].ask));
    assert(plan(done.take(4)) == Next::<()>::Ask(done[4].ask));
    assert(done.take(1)[0] == done[0]);
    assert(done.take(3)[0] == done[0]);
}

/// An initialisation offers what the driver supports, first of all and only once. One that fails
/// does not tell the device that the driver is ready.
pub proof fn init_offers_features_once(
    before: Seq<Event>,
    after: Seq<Event>,
    result: Result<Startup, Error>,
)
    requires
        initialised(before, after, result),
    ensures
        ({
            let done = since(before, after);
            &&& done.len() > 0
            &&& done[0].ask == (Ask::BeginInit {
                supported: Features { bits: SUPPORTED_FEATURES },
            })
            &&& forall|i: int| 0 < i < done.len() ==> !((#[trigger] done[i]).ask is BeginInit)
            &&& result is Err ==> forall|i: int|
                0 <= i < done.len() ==> !((#[trigger] done[i]).ask is FinishInit)
        }),
{
    init_stops_at_setback(before, after, result);
    let plan = |done: Seq<Event>| init_plan(done);
    let done = since(before, after);
    assert(done.take(0) =~= Seq::<Event>::empty());
    assert(plan(done) == Next::<Startup>::End(result));
    assert(plan(done.take(0)) == Next::<Startup>::Ask(done[0].ask));
    assert forall|i: int| 0 < i < done.len() implies !((#[trigger] done[i]).ask is BeginInit)
        && (done[i].ask is FinishInit ==> i == 6) by {
        assert(plan(done.take(i)) == Next::<Startup>::Ask(done[i].ask));
    }
}

/// An initialisation that succeeds has offered what the driver supports, has set up both queues
/// in the way that was negotiated, and has told the device last of all.
pub proof fn init_sets_up_both_queues(before: Seq<Event>, after: Seq<Event>, learnt: Startup)
    requires
        initialised(before, after, Ok(learnt)),
    ensures
        ({
            let done = since(before, after);
            &&& done.len() == 7
            &&& done[0].ask == (Ask::BeginInit {
                supported: Features { bits: SUPPORTED_FEATURES },
            })
            &&& learnt == startup(done)
            &&& done[0].answer == Answer::Features(learnt.features)
            &&& done[1].answer == Answer::Config(Ok(learnt.events_read))
            &&& done[2].answer == Answer::Config(Ok(learnt.num_scanouts))
            &&& done[3].answer == Answer::Config(Ok(learnt.num_capsets))
            &&& done[4].ask == queue_setup(QUEUE_TRANSMIT, learnt.features)
            &&& done[4].answer matches Answer::Queue(Ok(_))
            &&& done[5].ask == queue_setup(QUEUE_CURSOR, learnt.features)
            &&& done[5].answer matches Answer::Queue(Ok(_))
            &&& done[6].ask is FinishInit
            &&& done[6].answer is Done
        }),
{
    init_stops_at_setback(before, after, Ok(learnt));
    let plan = |done: Seq<Event>| init_plan(done);
    let done = since(before, after);
    assert(plan(done) == Next::<Startup>::End(Ok(learnt)));
    assert(plan(done.take(0)) == Next::<Startup>::Ask(done[0].ask));
    assert(plan(done.take(1)) == Next::<Startup>::Ask(done[1].ask));
    assert(plan(done.take(2)) == Next::<Startup>::Ask(done[2].ask));
    assert(plan(done.take(3)) == Next::<Startup>::Ask(done[3].ask));
    assert(plan(done.take(4)) == Next::<Startup>::Ask(done[4].ask));
    assert(plan(done.take(5)) == Next::<Startup>::Ask(done[5].ask));
    assert(plan(done.take(6)) == Next::<Startup>::Ask(done[6].ask));
    assert(done.take(4)[0] == done[0]);
    assert(done.take(5)[0] == done[0]);
    assert forall|i: int| 0 <= i < 7 implies setback(#[trigger] done[i]) is None by {
        if i == 6 {
            assert(done[i] == done.last());
        }
    }
    assert(setback(done[1]) is None && setback(done[2]) is None && setback(done[3]) is None);
    assert(setback(done[4]) is None && done[4].is_answered());
    assert(setback(done[5]) is None && done[5].is_answered());
}

/// Whether a call fails with an I/O error, asks for nothing and changes nothing.
pub open spec fn refused<T: Transport, R>(
    before: VirtIOGpu<T>,
    after: VirtIOGpu<T>,
    r: Result<R, Error>,
) -> bool {
    &&& r == Err::<R, Error>(Error::IoError)
    &&& after.history() == before.history()
    &&& after@ == before@
}

/// 3D calls are let through exactly where VIRGL was negotiated. Elsewhere each of them returns an
/// I/O error, and nothing is sent.
pub proof fn no_3d_call_without_virgl<T: Transport>()
    ensures
        forall|gpu: &VirtIOGpu<T>, r: Result<(), Error>| #[trigger]
            call_ensures(VirtIOGpu::<T>::require_virgl, (gpu,), r) ==> r == if gpu@.has_virgl {
                Ok::<(), Error>(())
            } else {
                Err::<(), Error>(Error::IoError)
            },
        forall|call: (&mut VirtIOGpu<T>, u32), r: Result<RespCapsetInfo, Error>|
            !(*call.0)@.has_virgl && #[trigger] call_ensures(
                VirtIOGpu::<T>::get_capset_info,
                call,
                r,
            ) ==> refused(*call.0, *final(call.0), r),
        forall|call: (&mut VirtIOGpu<T>, u32, u32, u32), r: Result<Vec<u8>, Error>|
            !(*call.0)@.has_virgl && #[trigger] call_ensures(
                VirtIOGpu::<T>::get_capset,
                call,
                r,
            ) ==> refused(*call.0, *final(call.0), r),
        forall|call: (&mut VirtIOGpu<T>, u32, &str, u32), r: Result<(), Error>|
            !(*call.0)@.has_virgl && #[trigger] call_ensures(
                VirtIOGpu::<T>::ctx_create,
                call,
                r,
            ) ==> refused(*call.0, *final(call.0), r),
        forall|call: (&mut VirtIOGpu<T>, u32), r: Result<(), Error>|
            !(*call.0)@.has_virgl && #[trigger] call_ensures(
                VirtIOGpu::<T>::ctx_destroy,
                call,
                r,
            ) ==> refused(*call.0, *final(call.0), r),
        forall|call: (&mut VirtIOGpu<T>, u32, u32), r: Result<(), Error>|
            !(*call.0)@.has_virgl && #[trigger] call_ensures(
                VirtIOGpu::<T>::ctx_attach_resource,
                call,
                r,
            ) ==> refused(*call.0, *final(call.0), r),
        forall|call: (&mut VirtIOGpu<T>, u32, u32), r: Result<(), Error>|
            !(*call.0)@.has_virgl && #[trigger] call_ensures(
                VirtIOGpu::<T>::ctx_detach_resource,
                call,
                r,
            ) ==> refused(*call.0, *final(call.0), r),
        forall|
            call: (&mut VirtIOGpu<T>, u32, u32, u32, u32, u32, u32, u32, u32, u32, u32, u32, u32),
            r: Result<(), Error>,
        |
            !(*call.0)@.has_virgl && #[trigger] call_ensures(
                VirtIOGpu::<T>::resource_create_3d,
                call,
                r,
            ) ==> refused(*call.0, *final(call.0), r),
        forall|
            call: (&mut VirtIOGpu<T>, u32, u32, GpuBox, u64, u32, u32, u32),
            r: Result<(), Error>,
        |
            !(*call.0)@.has_virgl && #[trigger] call_ensures(
                VirtIOGpu::<T>::transfer_to_host_3d,
                call,
                r,
            ) ==> refused(*call.0, *final(call.0), r),
        forall|
            call: (&mut VirtIOGpu<T>, u32, u32, GpuBox, u64, u32, u32, u32),
            r: Result<(), Error>,
        |
            !(*call.0)@.has_virgl && #[trigger] call_ensures(
                VirtIOGpu::<T>::transfer_from_host_3d,
                call,
                r,
            ) ==> refused(*call.0, *final(call.0), r),
        forall|call: (&mut VirtIOGpu<T>, u32, u64, &[u8]), r: Result<(), Error>|
            !(*call.0)@.has_virgl && #[trigger] call_ensures(
                VirtIOGpu::<T>::submit_3d,
                call,
                r,
            ) ==> refused(*call.0, *final(call.0), r),
        forall|
            call: (&mut VirtIOGpu<T>, u32, u32, u32, u32, u64, u64, &[(u64, usize)]),
            r: Result<(), Error>,
        |
            !(*call.0)@.has_virgl && #[trigger] call_ensures(
                VirtIOGpu::<T>::resource_create_blob,
                call,
                r,
            ) ==> refused(*call.0, *final(call.0), r),
{
}

} // verus!
