//! Driver calls that take more than one step.
//!
//! A plan says, for each way in which the steps so far can have gone, what the call asks for next
//! or with what it ends.
use crate::command::Command;
use crate::config::{Config, Features, Startup, SUPPORTED_FEATURES};
use crate::bytes::u32_at;
use crate::display::Rect;
use crate::dma::{spec_pages, BufferDirection};
use crate::error::Error;
use crate::request::{
    acknowledged, asked_once, command, control, cursor, get_display_info_request,
    resource_attach_backing_request, resource_create_2d_request, resource_detach_backing_request,
    resource_flush_request, resource_unref_request, response, set_scanout_request, taken,
    transfer_to_host_2d_request, update_cursor_request, QUEUE_CURSOR, QUEUE_TRANSMIT,
};
use crate::transport::{Answer, Ask, Event, QUEUE_SIZE};
use crate::wire::IntoBytes;
use vstd::prelude::*;

verus! {

/// The scanout that the driver shows its framebuffer and its pointer on.
pub const SCANOUT_ID: u32 = 0;

/// The resource that holds the framebuffer.
pub const RESOURCE_ID_FB: u32 = 0xbabe;

/// The resource that holds the pointer image.
pub const RESOURCE_ID_CURSOR: u32 = 0xdade;

/// The width of the pointer image in pixels.
pub const CURSOR_WIDTH: u32 = 64;

/// The height of the pointer image in pixels.
pub const CURSOR_HEIGHT: u32 = 64;

/// The size of the pointer image in bytes.
pub const CURSOR_SIZE: u32 = 0x4000;

/// What a call does next.
pub enum Next<R> {
    /// It asks for something.
    Ask(Ask),
    /// It ends.
    End(Result<R, Error>),
}

/// Whether each thing in `events` was what the plan had next, and was answered.
pub open spec fn under_way<R>(plan: spec_fn(Seq<Event>) -> Next<R>, events: Seq<Event>) -> bool {
    forall|i: int|
        0 <= i < events.len() ==> plan(events.take(i)) == Next::<R>::Ask(
            (#[trigger] events[i]).ask,
        ) && events[i].is_answered()
}

/// What was added to a history.
pub open spec fn since(before: Seq<Event>, after: Seq<Event>) -> Seq<Event> {
    after.skip(before.len() as int)
}

/// Whether a call that follows `plan` can have brought the history from `before` to `now`.
pub open spec fn progress<R>(
    plan: spec_fn(Seq<Event>) -> Next<R>,
    before: Seq<Event>,
    now: Seq<Event>,
) -> bool {
    &&& before.is_prefix_of(now)
    &&& under_way(plan, since(before, now))
}

/// Whether a call that follows `plan` brings the history from `before` to `after` and ends with
/// `result`.
pub open spec fn carried_out<R>(
    plan: spec_fn(Seq<Event>) -> Next<R>,
    before: Seq<Event>,
    after: Seq<Event>,
    result: Result<R, Error>,
) -> bool {
    &&& progress(plan, before, after)
    &&& plan(since(before, after)) == Next::End(result)
}

/// The error with which a step makes its call fail, if it does.
pub open spec fn setback(event: Event) -> Option<Error> {
    match event.ask {
        Ask::ReadConfig { .. } => match event.answer {
            Answer::Config(Err(e)) => Some(e),
            _ => None,
        },
        Ask::QueueNew { .. } => match event.answer {
            Answer::Queue(Err(e)) => Some(e),
            _ => None,
        },
        Ask::DmaNew { .. } => match event.answer {
            Answer::Memory(Err(e)) => Some(e),
            _ => None,
        },
        Ask::Exchange { queue, .. } => if queue == QUEUE_CURSOR {
            taken(event.answer).err()
        } else {
            acknowledged(event.answer).err()
        },
        _ => None,
    }
}

/// The error with which the last step makes its call fail, if it does.
pub open spec fn last_setback(done: Seq<Event>) -> Option<Error> {
    if done.len() == 0 {
        None
    } else {
        setback(done.last())
    }
}

/// The features that were negotiated in the first step of an initialisation.
pub open spec fn negotiated(done: Seq<Event>) -> Features {
    match done[0].answer {
        Answer::Features(features) => features,
        _ => Features { bits: 0 },
    }
}

/// How a queue is set up, given the features that were negotiated.
pub open spec fn queue_setup(queue: u16, features: Features) -> Ask {
    Ask::QueueNew {
        queue,
        size: QUEUE_SIZE,
        indirect: features.has(Features::RING_INDIRECT_DESC),
        event_idx: features.has(Features::RING_EVENT_IDX),
        access_platform: features.has(Features::ACCESS_PLATFORM),
    }
}

/// What a step read from the configuration space.
pub open spec fn config_read(event: Event) -> u32 {
    match event.answer {
        Answer::Config(Ok(value)) => value,
        _ => 0,
    }
}

/// What the steps of an initialisation tell about the device.
pub open spec fn startup(done: Seq<Event>) -> Startup {
    Startup {
        features: negotiated(done),
        events_read: config_read(done[1]),
        num_scanouts: config_read(done[2]),
        num_capsets: config_read(done[3]),
    }
}

/// Initialisation: negotiate features, read the configuration, set up both queues.
pub open spec fn init_plan(done: Seq<Event>) -> Next<Startup> {
    match last_setback(done) {
        Some(e) => Next::End(Err(e)),
        None => if done.len() == 0 {
            Next::Ask(Ask::BeginInit { supported: Features { bits: SUPPORTED_FEATURES } })
        } else if done.len() == 1 {
            Next::Ask(Ask::ReadConfig { offset: Config::EVENTS_READ })
        } else if done.len() == 2 {
            Next::Ask(Ask::ReadConfig { offset: Config::NUM_SCANOUTS })
        } else if done.len() == 3 {
            Next::Ask(Ask::ReadConfig { offset: Config::NUM_CAPSETS })
        } else if done.len() == 4 {
            Next::Ask(queue_setup(QUEUE_TRANSMIT, negotiated(done)))
        } else if done.len() == 5 {
            Next::Ask(queue_setup(QUEUE_CURSOR, negotiated(done)))
        } else if done.len() == 6 {
            Next::Ask(Ask::FinishInit)
        } else {
            Next::End(Ok(startup(done)))
        },
    }
}

/// Whether an initialisation brings the history from `before` to `after` and ends with `result`.
pub open spec fn initialised(
    before: Seq<Event>,
    after: Seq<Event>,
    result: Result<Startup, Error>,
) -> bool {
    carried_out(|done: Seq<Event>| init_plan(done), before, after, result)
}

/// The framebuffer as an area of the display.
pub open spec fn screen(width: u32, height: u32) -> Rect {
    Rect { x: 0, y: 0, width, height }
}

/// How many bytes the pixels of a framebuffer take.
pub open spec fn frame_size(width: u32, height: u32) -> nat {
    width as nat * height as nat * 4
}

/// Memory for the device to read.
pub open spec fn memory_for(size: nat, access_platform: bool) -> Ask {
    Ask::DmaNew {
        pages: spec_pages(size) as usize,
        direction: BufferDirection::DriverToDevice,
        access_platform,
    }
}

/// The address of the memory that a step allocated.
pub open spec fn memory_address(event: Event) -> u64 {
    match event.answer {
        Answer::Memory(Ok(paddr)) => paddr,
        _ => 0,
    }
}

/// How many steps it takes to tear a framebuffer down.
pub open spec fn teardown_len(has_frame_buffer: bool) -> int {
    if has_frame_buffer {
        3
    } else {
        0
    }
}

/// A new framebuffer: if there is one already, disable the scanout, take the memory away from the
/// resource and destroy the resource; then create the resource, allocate memory, give it to the
/// resource, and bind the resource to the scanout. There is no memory for a framebuffer whose bytes
/// 32 bits cannot count.
pub open spec fn change_resolution_plan(
    has_frame_buffer: bool,
    access_platform: bool,
    width: u32,
    height: u32,
    done: Seq<Event>,
) -> Next<()> {
    let torn = teardown_len(has_frame_buffer);
    match last_setback(done) {
        Some(e) => Next::End(Err(e)),
        None => if done.len() < torn {
            if done.len() == 0 {
                Next::Ask(command(set_scanout_request(screen(0, 0), SCANOUT_ID, 0).wire()))
            } else if done.len() == 1 {
                Next::Ask(command(resource_detach_backing_request(RESOURCE_ID_FB).wire()))
            } else {
                Next::Ask(command(resource_unref_request(RESOURCE_ID_FB).wire()))
            }
        } else if done.len() == torn {
            Next::Ask(command(resource_create_2d_request(RESOURCE_ID_FB, width, height).wire()))
        } else if frame_size(width, height) > u32::MAX {
            Next::End(Err(Error::InvalidParam))
        } else if done.len() == torn + 1 {
            Next::Ask(memory_for(frame_size(width, height), access_platform))
        } else if done.len() == torn + 2 {
            Next::Ask(
                command(
                    resource_attach_backing_request(
                        RESOURCE_ID_FB,
                        memory_address(done[torn + 1]),
                        frame_size(width, height) as u32,
                    ).wire(),
                ),
            )
        } else if done.len() == torn + 3 {
            Next::Ask(
                command(
                    set_scanout_request(screen(width, height), SCANOUT_ID, RESOURCE_ID_FB).wire(),
                ),
            )
        } else {
            Next::End(Ok(()))
        },
    }
}

/// The steps of a change of the resolution.
pub open spec fn change_resolution_steps(
    has_frame_buffer: bool,
    access_platform: bool,
    width: u32,
    height: u32,
) -> spec_fn(Seq<Event>) -> Next<()> {
    |done: Seq<Event>|
        change_resolution_plan(has_frame_buffer, access_platform, width, height, done)
}

/// Whether a change of the resolution brings the history from `before` to `after` and ends with
/// `result`.
pub open spec fn resolution_changed(
    has_frame_buffer: bool,
    access_platform: bool,
    width: u32,
    height: u32,
    before: Seq<Event>,
    after: Seq<Event>,
    result: Result<(), Error>,
) -> bool {
    carried_out(
        change_resolution_steps(has_frame_buffer, access_platform, width, height),
        before,
        after,
        result,
    )
}

/// Whether the steps of a change of the resolution left no framebuffer from before: there was
/// none, or the device acknowledged every step of its teardown.
pub open spec fn torn_down(has_frame_buffer: bool, done: Seq<Event>) -> bool {
    let torn = teardown_len(has_frame_buffer);
    &&& done.len() >= torn
    &&& forall|i: int| 0 <= i < torn ==> setback(#[trigger] done[i]) is None
}

/// The width and the height of the first scanout, in a response with display modes.
pub open spec fn first_mode(response: Seq<u8>) -> (u32, u32) {
    (u32_at(response, 32), u32_at(response, 36))
}

/// A framebuffer in the resolution of the display: ask for the display modes; then as for a
/// change of the resolution.
pub open spec fn setup_framebuffer_plan(
    has_frame_buffer: bool,
    access_platform: bool,
    done: Seq<Event>,
) -> Next<()> {
    if done.len() == 0 {
        Next::Ask(control(get_display_info_request().wire(), 408))
    } else {
        match display_mode(done[0].answer) {
            Err(e) => Next::End(Err(e)),
            Ok((width, height)) => change_resolution_plan(
                has_frame_buffer,
                access_platform,
                width,
                height,
                done.skip(1),
            ),
        }
    }
}

/// The steps of the setup of a framebuffer.
pub open spec fn setup_framebuffer_steps(
    has_frame_buffer: bool,
    access_platform: bool,
) -> spec_fn(Seq<Event>) -> Next<()> {
    |done: Seq<Event>| setup_framebuffer_plan(has_frame_buffer, access_platform, done)
}

/// The width and the height of the first scanout, or the error of a call that asks for them.
pub open spec fn display_mode(answer: Answer) -> Result<(u32, u32), Error> {
    match response(answer, Command::OK_DISPLAY_INFO) {
        Ok(modes) => Ok(first_mode(modes)),
        Err(e) => Err(e),
    }
}

/// Whether the setup of a framebuffer brings the history from `before` to `after` and ends with
/// `result`.
pub open spec fn framebuffer_set_up(
    has_frame_buffer: bool,
    access_platform: bool,
    before: Seq<Event>,
    after: Seq<Event>,
    result: Result<(), Error>,
) -> bool {
    carried_out(
        setup_framebuffer_steps(has_frame_buffer, access_platform),
        before,
        after,
        result,
    )
}

/// A refresh of the display: copy the framebuffer to the host, then show it.
pub open spec fn flush_plan(rect: Option<Rect>, done: Seq<Event>) -> Next<()> {
    match rect {
        None => Next::End(Err(Error::NotReady)),
        Some(rect) => match last_setback(done) {
            Some(e) => Next::End(Err(e)),
            None => if done.len() == 0 {
                Next::Ask(command(transfer_to_host_2d_request(rect, 0, RESOURCE_ID_FB).wire()))
            } else if done.len() == 1 {
                Next::Ask(command(resource_flush_request(rect, RESOURCE_ID_FB).wire()))
            } else {
                Next::End(Ok(()))
            },
        },
    }
}

/// Whether a refresh brings the history from `before` to `after` and ends with `result`.
pub open spec fn flushed(
    rect: Option<Rect>,
    before: Seq<Event>,
    after: Seq<Event>,
    result: Result<(), Error>,
) -> bool {
    carried_out(|done: Seq<Event>| flush_plan(rect, done), before, after, result)
}

/// A new pointer image: allocate memory, fill it with the image, create the resource, give the
/// memory to the resource, copy the image to the host, and show the pointer.
pub open spec fn setup_cursor_plan(
    image: Seq<u8>,
    access_platform: bool,
    pos_x: u32,
    pos_y: u32,
    hot_x: u32,
    hot_y: u32,
    done: Seq<Event>,
) -> Next<()> {
    if image.len() != CURSOR_SIZE {
        Next::End(Err(Error::InvalidParam))
    } else {
        match last_setback(done) {
            Some(e) => Next::End(Err(e)),
            None => if done.len() == 0 {
                Next::Ask(memory_for(CURSOR_SIZE as nat, access_platform))
            } else if done.len() == 1 {
                Next::Ask(
                    Ask::MemoryWritten { address: memory_address(done[0]), contents: image },
                )
            } else if done.len() == 2 {
                Next::Ask(
                    command(
                        resource_create_2d_request(
                            RESOURCE_ID_CURSOR,
                            CURSOR_WIDTH,
                            CURSOR_HEIGHT,
                        ).wire(),
                    ),
                )
            } else if done.len() == 3 {
                Next::Ask(
                    command(
                        resource_attach_backing_request(
                            RESOURCE_ID_CURSOR,
                            memory_address(done[0]),
                            CURSOR_SIZE,
                        ).wire(),
                    ),
                )
            } else if done.len() == 4 {
                Next::Ask(
                    command(
                        transfer_to_host_2d_request(
                            screen(CURSOR_WIDTH, CURSOR_HEIGHT),
                            0,
                            RESOURCE_ID_CURSOR,
                        ).wire(),
                    ),
                )
            } else if done.len() == 5 {
                Next::Ask(
                    cursor(
                        update_cursor_request(
                            RESOURCE_ID_CURSOR,
                            SCANOUT_ID,
                            pos_x,
                            pos_y,
                            hot_x,
                            hot_y,
                            false,
                        ).wire(),
                    ),
                )
            } else {
                Next::End(Ok(()))
            },
        }
    }
}

/// Whether the setup of a pointer image brings the history from `before` to `after` and ends with
/// `result`.
pub open spec fn cursor_set_up(
    image: Seq<u8>,
    access_platform: bool,
    pos_x: u32,
    pos_y: u32,
    hot_x: u32,
    hot_y: u32,
    before: Seq<Event>,
    after: Seq<Event>,
    result: Result<(), Error>,
) -> bool {
    carried_out(
        |done: Seq<Event>|
            setup_cursor_plan(image, access_platform, pos_x, pos_y, hot_x, hot_y, done),
        before,
        after,
        result,
    )
}

/// A call that has done nothing yet is under way.
pub proof fn nothing_done<R>(plan: spec_fn(Seq<Event>) -> Next<R>, before: Seq<Event>)
    ensures
        progress(plan, before, before),
        since(before, before) == Seq::<Event>::empty(),
{
    assert(since(before, before) =~= Seq::<Event>::empty());
}

/// A call that asks for what its plan has next stays under way.
pub proof fn one_more<R>(
    plan: spec_fn(Seq<Event>) -> Next<R>,
    before: Seq<Event>,
    now: Seq<Event>,
    after: Seq<Event>,
    ask: Ask,
)
    requires
        progress(plan, before, now),
        plan(since(before, now)) == Next::<R>::Ask(ask),
        asked_once(now, after, ask),
    ensures
        progress(plan, before, after),
        since(before, after) == since(before, now).push(after.last()),
{
    let done = since(before, now);
    let more = since(before, after);
    assert(more =~= done.push(after.last()));
    assert forall|i: int| 0 <= i < more.len() implies plan(more.take(i)) == Next::<R>::Ask(
        (#[trigger] more[i]).ask,
    ) && more[i].is_answered() by {
        if i < done.len() {
            assert(more.take(i) =~= done.take(i));
            assert(more[i] == done[i]);
        } else {
            assert(more.take(i) =~= done);
        }
    }
}

/// A call that goes on as another plan says after its first step is carried out where the rest
/// is.
pub proof fn rest_carried_out<R>(
    whole: spec_fn(Seq<Event>) -> Next<R>,
    rest: spec_fn(Seq<Event>) -> Next<R>,
    before: Seq<Event>,
    now: Seq<Event>,
    after: Seq<Event>,
    result: Result<R, Error>,
)
    requires
        progress(whole, before, now),
        now.len() == before.len() + 1,
        carried_out(rest, now, after, result),
        forall|done: Seq<Event>|
            done.len() > 0 && done[0] == now.last() ==> #[trigger] whole(done) == rest(
                done.skip(1),
            ),
    ensures
        carried_out(whole, before, after, result),
        since(before, after)[0] == now.last(),
        since(before, after).skip(1) == since(now, after),
{
    let done = since(before, after);
    let tail = since(now, after);
    assert(done.skip(1) =~= tail);
    assert(done[0] == now.last());
    assert forall|i: int| 0 <= i < done.len() implies whole(done.take(i)) == Next::<R>::Ask(
        (#[trigger] done[i]).ask,
    ) && done[i].is_answered() by {
        if i == 0 {
            assert(done.take(0) =~= since(before, now).take(0));
            assert(since(before, now)[0] == done[0]);
        } else {
            assert(done.take(i).skip(1) =~= tail.take(i - 1));
            assert(done.take(i)[0] == done[0]);
            assert(tail[i - 1] == done[i]);
        }
    }
}

/// A call that goes on as another plan says after its first step carries out the rest.
pub proof fn carries_out_rest<R>(
    whole: spec_fn(Seq<Event>) -> Next<R>,
    rest: spec_fn(Seq<Event>) -> Next<R>,
    before: Seq<Event>,
    after: Seq<Event>,
    result: Result<R, Error>,
)
    requires
        carried_out(whole, before, after, result),
        since(before, after).len() > 0,
        forall|done: Seq<Event>|
            done.len() > 0 && done[0] == since(before, after)[0] ==> #[trigger] whole(done) == rest(
                done.skip(1),
            ),
    ensures
        carried_out(rest, before.push(since(before, after)[0]), after, result),
        since(before.push(since(before, after)[0]), after) == since(before, after).skip(1),
{
    let done = since(before, after);
    let now = before.push(done[0]);
    let tail = since(now, after);
    assert(tail =~= done.skip(1));
    assert(now =~= after.subrange(0, now.len() as int));
    assert forall|i: int| 0 <= i < tail.len() implies rest(tail.take(i)) == Next::<R>::Ask(
        (#[trigger] tail[i]).ask,
    ) && tail[i].is_answered() by {
        assert(done[i + 1] == tail[i]);
        assert(done.take(i + 1)[0] == done[0]);
        assert(done.take(i + 1).skip(1) =~= tail.take(i));
    }
}

} // verus!
