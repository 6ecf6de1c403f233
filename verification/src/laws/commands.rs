//! What each call that takes one command puts on the wire, and what it makes of the reply.
use crate::command::Command;
use crate::context::GpuBox;
use crate::display::Rect;
use crate::driver::VirtIOGpu;
use crate::error::Error;
use crate::laws::reading::{
    as_acknowledged, commanded, control_words, headed, header_words, input, long, message_words,
    word,
};
use crate::request::{
    ctx_attach_resource_request, ctx_destroy_request, ctx_detach_resource_request,
    resource_attach_backing_request, resource_create_2d_request, resource_create_3d_request,
    resource_detach_backing_request, resource_flush_request, resource_unref_request,
    set_scanout_request, transfer_3d_request, transfer_to_host_2d_request,
};
use crate::transport::Transport;
use crate::wire::IntoBytes;
use vstd::prelude::*;

verus! {

/// The command that creates a 2D resource names the resource, the one format, the width and the
/// height. It is acknowledged, or the call fails.
pub proof fn resource_create_2d_law<T: Transport>(
    gpu: &mut VirtIOGpu<T>,
    resource_id: u32,
    width: u32,
    height: u32,
    r: Result<(), Error>,
)
    requires
        call_ensures(VirtIOGpu::<T>::resource_create_2d, (gpu, resource_id, width, height), r),
    ensures
        final(gpu)@ == old(gpu)@,
        commanded(old(gpu).history(), final(gpu).history(), 1),
        ({
            let e = final(gpu).history().last();
            let b = input(e, 0);
            &&& headed(b, 40, 0x101, 0, 0, 0)
            &&& word(b, 24) == resource_id
            &&& word(b, 28) == 1
            &&& word(b, 32) == width
            &&& word(b, 36) == height
            &&& as_acknowledged(e, r)
        }),
{
    let q = resource_create_2d_request(resource_id, width, height);
    control_words(old(gpu).history(), final(gpu).history(), q.wire(), 24);
    message_words(q);
    header_words(q.header, q.wire());
}

/// The command that binds a resource to a scanout names the area, the scanout and the resource. It
/// is acknowledged, or the call fails.
pub proof fn set_scanout_law<T: Transport>(
    gpu: &mut VirtIOGpu<T>,
    rect: Rect,
    scanout_id: u32,
    resource_id: u32,
    r: Result<(), Error>,
)
    requires
        call_ensures(VirtIOGpu::<T>::set_scanout, (gpu, rect, scanout_id, resource_id), r),
    ensures
        final(gpu)@ == old(gpu)@,
        commanded(old(gpu).history(), final(gpu).history(), 1),
        ({
            let e = final(gpu).history().last();
            let b = input(e, 0);
            &&& headed(b, 48, 0x103, 0, 0, 0)
            &&& word(b, 24) == rect.x
            &&& word(b, 28) == rect.y
            &&& word(b, 32) == rect.width
            &&& word(b, 36) == rect.height
            &&& word(b, 40) == scanout_id
            &&& word(b, 44) == resource_id
            &&& as_acknowledged(e, r)
        }),
{
    let q = set_scanout_request(rect, scanout_id, resource_id);
    control_words(old(gpu).history(), final(gpu).history(), q.wire(), 24);
    message_words(q);
    header_words(q.header, q.wire());
}

/// The command that shows a resource names the area and the resource. It is acknowledged, or the
/// call fails.
pub proof fn resource_flush_law<T: Transport>(
    gpu: &mut VirtIOGpu<T>,
    rect: Rect,
    resource_id: u32,
    r: Result<(), Error>,
)
    requires
        call_ensures(VirtIOGpu::<T>::resource_flush, (gpu, rect, resource_id), r),
    ensures
        final(gpu)@ == old(gpu)@,
        commanded(old(gpu).history(), final(gpu).history(), 1),
        ({
            let e = final(gpu).history().last();
            let b = input(e, 0);
            &&& headed(b, 48, 0x104, 0, 0, 0)
            &&& word(b, 24) == rect.x
            &&& word(b, 28) == rect.y
            &&& word(b, 32) == rect.width
            &&& word(b, 36) == rect.height
            &&& word(b, 40) == resource_id
            &&& word(b, 44) == 0
            &&& as_acknowledged(e, r)
        }),
{
    let q = resource_flush_request(rect, resource_id);
    control_words(old(gpu).history(), final(gpu).history(), q.wire(), 24);
    message_words(q);
    header_words(q.header, q.wire());
}

/// The command that copies a 2D resource to the host names the area, the offset and the resource.
/// It is acknowledged, or the call fails.
pub proof fn transfer_to_host_2d_law<T: Transport>(
    gpu: &mut VirtIOGpu<T>,
    rect: Rect,
    offset: u64,
    resource_id: u32,
    r: Result<(), Error>,
)
    requires
        call_ensures(VirtIOGpu::<T>::transfer_to_host_2d, (gpu, rect, offset, resource_id), r),
    ensures
        final(gpu)@ == old(gpu)@,
        commanded(old(gpu).history(), final(gpu).history(), 1),
        ({
            let e = final(gpu).history().last();
            let b = input(e, 0);
            &&& headed(b, 56, 0x105, 0, 0, 0)
            &&& word(b, 24) == rect.x
            &&& word(b, 28) == rect.y
            &&& word(b, 32) == rect.width
            &&& word(b, 36) == rect.height
            &&& long(b, 40) == offset
            &&& word(b, 48) == resource_id
            &&& word(b, 52) == 0
            &&& as_acknowledged(e, r)
        }),
{
    let q = transfer_to_host_2d_request(rect, offset, resource_id);
    control_words(old(gpu).history(), final(gpu).history(), q.wire(), 24);
    message_words(q);
    header_words(q.header, q.wire());
}

/// The command that gives memory to a resource names the resource and one range of memory. It is
/// acknowledged, or the call fails.
pub proof fn resource_attach_backing_law<T: Transport>(
    gpu: &mut VirtIOGpu<T>,
    resource_id: u32,
    paddr: u64,
    length: u32,
    r: Result<(), Error>,
)
    requires
        call_ensures(
            VirtIOGpu::<T>::resource_attach_backing,
            (
                gpu,
                resource_id,
                paddr,
                length,
            ),
            r,
        ),
    ensures
        final(gpu)@ == old(gpu)@,
        commanded(old(gpu).history(), final(gpu).history(), 1),
        ({
            let e = final(gpu).history().last();
            let b = input(e, 0);
            &&& headed(b, 48, 0x106, 0, 0, 0)
            &&& word(b, 24) == resource_id
            &&& word(b, 28) == 1
            &&& long(b, 32) == paddr
            &&& word(b, 40) == length
            &&& word(b, 44) == 0
            &&& as_acknowledged(e, r)
        }),
{
    let q = resource_attach_backing_request(resource_id, paddr, length);
    control_words(old(gpu).history(), final(gpu).history(), q.wire(), 24);
    message_words(q);
    header_words(q.header.header, q.wire());
}

/// The command that takes memory away from a resource names the resource. It is acknowledged, or
/// the call fails.
pub proof fn resource_detach_backing_law<T: Transport>(
    gpu: &mut VirtIOGpu<T>,
    resource_id: u32,
    r: Result<(), Error>,
)
    requires
        call_ensures(VirtIOGpu::<T>::resource_detach_backing, (gpu, resource_id), r),
    ensures
        final(gpu)@ == old(gpu)@,
        commanded(old(gpu).history(), final(gpu).history(), 1),
        ({
            let e = final(gpu).history().last();
            let b = input(e, 0);
            &&& headed(b, 32, 0x107, 0, 0, 0)
            &&& word(b, 24) == resource_id
            &&& word(b, 28) == 0
            &&& as_acknowledged(e, r)
        }),
{
    let q = resource_detach_backing_request(resource_id);
    control_words(old(gpu).history(), final(gpu).history(), q.wire(), 24);
    message_words(q);
    header_words(q.header, q.wire());
}

/// The command that destroys a resource names the resource. It is acknowledged, or the call fails.
pub proof fn resource_unref_law<T: Transport>(
    gpu: &mut VirtIOGpu<T>,
    resource_id: u32,
    r: Result<(), Error>,
)
    requires
        call_ensures(VirtIOGpu::<T>::resource_unref, (gpu, resource_id), r),
    ensures
        final(gpu)@ == old(gpu)@,
        commanded(old(gpu).history(), final(gpu).history(), 1),
        ({
            let e = final(gpu).history().last();
            let b = input(e, 0);
            &&& headed(b, 32, 0x102, 0, 0, 0)
            &&& word(b, 24) == resource_id
            &&& word(b, 28) == 0
            &&& as_acknowledged(e, r)
        }),
{
    let q = resource_unref_request(resource_id);
    control_words(old(gpu).history(), final(gpu).history(), q.wire(), 24);
    message_words(q);
    header_words(q.header, q.wire());
}

/// The command that destroys a context names the context. It is acknowledged, or the call fails.
pub proof fn ctx_destroy_law<T: Transport>(
    gpu: &mut VirtIOGpu<T>,
    ctx_id: u32,
    r: Result<(), Error>,
)
    requires
        call_ensures(VirtIOGpu::<T>::ctx_destroy, (gpu, ctx_id), r),
        old(gpu)@.has_virgl,
    ensures
        final(gpu)@ == old(gpu)@,
        commanded(old(gpu).history(), final(gpu).history(), 1),
        ({
            let e = final(gpu).history().last();
            let b = input(e, 0);
            &&& headed(b, 24, 0x201, 0, 0, ctx_id as int)
            &&& as_acknowledged(e, r)
        }),
{
    let q = ctx_destroy_request(ctx_id);
    control_words(old(gpu).history(), final(gpu).history(), q.wire(), 24);
    message_words(q);
    header_words(q, q.wire());
}

/// The command that attaches a resource to a context names both. It is acknowledged, or the call
/// fails.
pub proof fn ctx_attach_resource_law<T: Transport>(
    gpu: &mut VirtIOGpu<T>,
    ctx_id: u32,
    resource_id: u32,
    r: Result<(), Error>,
)
    requires
        call_ensures(VirtIOGpu::<T>::ctx_attach_resource, (gpu, ctx_id, resource_id), r),
        old(gpu)@.has_virgl,
    ensures
        final(gpu)@ == old(gpu)@,
        commanded(old(gpu).history(), final(gpu).history(), 1),
        ({
            let e = final(gpu).history().last();
            let b = input(e, 0);
            &&& headed(b, 32, 0x202, 0, 0, ctx_id as int)
            &&& word(b, 24) == resource_id
            &&& word(b, 28) == 0
            &&& as_acknowledged(e, r)
        }),
{
    let q = ctx_attach_resource_request(ctx_id, resource_id);
    control_words(old(gpu).history(), final(gpu).history(), q.wire(), 24);
    message_words(q);
    header_words(q.header, q.wire());
}

/// The command that detaches a resource from a context names both. It is acknowledged, or the call
/// fails.
pub proof fn ctx_detach_resource_law<T: Transport>(
    gpu: &mut VirtIOGpu<T>,
    ctx_id: u32,
    resource_id: u32,
    r: Result<(), Error>,
)
    requires
        call_ensures(VirtIOGpu::<T>::ctx_detach_resource, (gpu, ctx_id, resource_id), r),
        old(gpu)@.has_virgl,
    ensures
        final(gpu)@ == old(gpu)@,
        commanded(old(gpu).history(), final(gpu).history(), 1),
        ({
            let e = final(gpu).history().last();
            let b = input(e, 0);
            &&& headed(b, 32, 0x203, 0, 0, ctx_id as int)
            &&& word(b, 24) == resource_id
            &&& word(b, 28) == 0
            &&& as_acknowledged(e, r)
        }),
{
    let q = ctx_detach_resource_request(ctx_id, resource_id);
    control_words(old(gpu).history(), final(gpu).history(), q.wire(), 24);
    message_words(q);
    header_words(q.header, q.wire());
}

/// The command that creates a 3D resource carries every argument in its own place. It is
/// acknowledged, or the call fails.
pub proof fn resource_create_3d_law<T: Transport>(
    gpu: &mut VirtIOGpu<T>,
    ctx_id: u32,
    resource_id: u32,
    target: u32,
    format: u32,
    bind: u32,
    width: u32,
    height: u32,
    depth: u32,
    array_size: u32,
    last_level: u32,
    nr_samples: u32,
    flags: u32,
    r: Result<(), Error>,
)
    requires
        call_ensures(
            VirtIOGpu::<T>::resource_create_3d,
            (
                gpu,
                ctx_id,
                resource_id,
                target,
                format,
                bind,
                width,
                height,
                depth,
                array_size,
                last_level,
                nr_samples,
                flags,
            ),
            r,
        ),
        old(gpu)@.has_virgl,
    ensures
        final(gpu)@ == old(gpu)@,
        commanded(old(gpu).history(), final(gpu).history(), 1),
        ({
            let e = final(gpu).history().last();
            let b = input(e, 0);
            &&& headed(b, 72, 0x204, 0, 0, ctx_id as int)
            &&& word(b, 24) == resource_id
            &&& word(b, 28) == target
            &&& word(b, 32) == format
            &&& word(b, 36) == bind
            &&& word(b, 40) == width
            &&& word(b, 44) == height
            &&& word(b, 48) == depth
            &&& word(b, 52) == array_size
            &&& word(b, 56) == last_level
            &&& word(b, 60) == nr_samples
            &&& word(b, 64) == flags
            &&& word(b, 68) == 0
            &&& as_acknowledged(e, r)
        }),
{
    let q = resource_create_3d_request(
        ctx_id,
        resource_id,
        target,
        format,
        bind,
        width,
        height,
        depth,
        array_size,
        last_level,
        nr_samples,
        flags,
    );
    control_words(old(gpu).history(), final(gpu).history(), q.wire(), 24);
    message_words(q);
    header_words(q.header, q.wire());
}

/// The command that copies a 3D resource to the host carries every argument in its own place. It
/// is acknowledged, or the call fails.
pub proof fn transfer_to_host_3d_law<T: Transport>(
    gpu: &mut VirtIOGpu<T>,
    ctx_id: u32,
    resource_id: u32,
    box_: GpuBox,
    offset: u64,
    level: u32,
    stride: u32,
    layer_stride: u32,
    r: Result<(), Error>,
)
    requires
        call_ensures(
            VirtIOGpu::<T>::transfer_to_host_3d,
            (
                gpu,
                ctx_id,
                resource_id,
                box_,
                offset,
                level,
                stride,
                layer_stride,
            ),
            r,
        ),
        old(gpu)@.has_virgl,
    ensures
        final(gpu)@ == old(gpu)@,
        commanded(old(gpu).history(), final(gpu).history(), 1),
        ({
            let e = final(gpu).history().last();
            let b = input(e, 0);
            &&& headed(b, 72, 0x205, 0, 0, ctx_id as int)
            &&& word(b, 24) == box_.x
            &&& word(b, 28) == box_.y
            &&& word(b, 32) == box_.z
            &&& word(b, 36) == box_.w
            &&& word(b, 40) == box_.h
            &&& word(b, 44) == box_.d
            &&& long(b, 48) == offset
            &&& word(b, 56) == resource_id
            &&& word(b, 60) == level
            &&& word(b, 64) == stride
            &&& word(b, 68) == layer_stride
            &&& as_acknowledged(e, r)
        }),
{
    let q = transfer_3d_request(
        Command::TRANSFER_TO_HOST_3D,
        ctx_id,
        resource_id,
        box_,
        offset,
        level,
        stride,
        layer_stride,
    );
    control_words(old(gpu).history(), final(gpu).history(), q.wire(), 24);
    message_words(q);
    header_words(q.header, q.wire());
}

/// The command that copies a 3D resource from the host carries every argument in its own place. It
/// is acknowledged, or the call fails.
pub proof fn transfer_from_host_3d_law<T: Transport>(
    gpu: &mut VirtIOGpu<T>,
    ctx_id: u32,
    resource_id: u32,
    box_: GpuBox,
    offset: u64,
    level: u32,
    stride: u32,
    layer_stride: u32,
    r: Result<(), Error>,
)
    requires
        call_ensures(
            VirtIOGpu::<T>::transfer_from_host_3d,
            (
                gpu,
                ctx_id,
                resource_id,
                box_,
                offset,
                level,
                stride,
                layer_stride,
            ),
            r,
        ),
        old(gpu)@.has_virgl,
    ensures
        final(gpu)@ == old(gpu)@,
        commanded(old(gpu).history(), final(gpu).history(), 1),
        ({
            let e = final(gpu).history().last();
            let b = input(e, 0);
            &&& headed(b, 72, 0x206, 0, 0, ctx_id as int)
            &&& word(b, 24) == box_.x
            &&& word(b, 28) == box_.y
            &&& word(b, 32) == box_.z
            &&& word(b, 36) == box_.w
            &&& word(b, 40) == box_.h
            &&& word(b, 44) == box_.d
            &&& long(b, 48) == offset
            &&& word(b, 56) == resource_id
            &&& word(b, 60) == level
            &&& word(b, 64) == stride
            &&& word(b, 68) == layer_stride
            &&& as_acknowledged(e, r)
        }),
{
    let q = transfer_3d_request(
        Command::TRANSFER_FROM_HOST_3D,
        ctx_id,
        resource_id,
        box_,
        offset,
        level,
        stride,
        layer_stride,
    );
    control_words(old(gpu).history(), final(gpu).history(), q.wire(), 24);
    message_words(q);
    header_words(q.header, q.wire());
}

} // verus!
