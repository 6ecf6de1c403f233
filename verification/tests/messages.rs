use virtio_gpu::blob::{
    CmdResourceAssignUuid, CmdResourceCreateBlob, CmdResourceMapBlob, CmdResourceUnmapBlob,
    RespMapInfo, RespResourceUuid, SetScanoutBlob, VIRTIO_GPU_MAP_CACHE_CACHED,
    VIRTIO_GPU_MAP_CACHE_NONE, VIRTIO_GPU_MAP_CACHE_UNCACHED, VIRTIO_GPU_MAP_CACHE_WC,
};
use virtio_gpu::command::Command;
use virtio_gpu::context::{
    CmdCtxCreate, CmdCtxResource, CmdGetCapset, CmdGetCapsetInfo, CmdResourceCreate3D, CmdSubmit3D,
    CmdTransferHost3D, GpuBox, RespCapsetInfo,
};
use virtio_gpu::cursor::{CursorPos, UpdateCursor};
use virtio_gpu::display::{
    CmdGetEdid, DisplayOne, Rect, RespDisplayInfo, RespEdid, VIRTIO_GPU_MAX_SCANOUTS,
};
use virtio_gpu::error::Error;
use virtio_gpu::header::{CtrlHeader, GPU_FLAG_FENCE, GPU_FLAG_RING_INDEX};
use virtio_gpu::resource::{
    Format, MemEntry, ResourceAttachBacking, ResourceAttachBackingSingleEntry, ResourceCreate2D,
    ResourceDetachBacking, ResourceFlush, ResourceUnref, SetScanout, TransferToHost2D,
};
use virtio_gpu::wire::{FromBytes, IntoBytes};

fn words(words: &[u32]) -> Vec<u8> {
    words.iter().flat_map(|w| w.to_le_bytes()).collect()
}

/// The bytes of a header without context and fence.
fn header(code: u32) -> Vec<u8> {
    words(&[code, 0, 0, 0, 0, 0])
}

fn join(parts: &[Vec<u8>]) -> Vec<u8> {
    parts.concat()
}

fn plain(code: u32) -> CtrlHeader {
    CtrlHeader::with_type(Command(code))
}

const RECT: Rect = Rect { x: 1, y: 2, width: 3, height: 4 };

#[test]
fn header_bytes() {
    assert_eq!(plain(0x100).as_bytes(), header(0x100));
    assert_eq!(
        CtrlHeader::with_type_and_ctx(Command(0x200), 7).as_bytes(),
        words(&[0x200, 0, 0, 0, 7, 0])
    );
    assert_eq!(
        CtrlHeader::with_fence(Command(0x207), 7, 0x1122_3344_5566_7788).as_bytes(),
        words(&[0x207, GPU_FLAG_FENCE, 0x5566_7788, 0x1122_3344, 7, 0])
    );
    let full = CtrlHeader {
        hdr_type: Command(0x0403_0201),
        flags: GPU_FLAG_RING_INDEX,
        fence_id: 0x0c0b_0a09_0807_0605,
        ctx_id: 0x100f_0e0d,
        ring_idx: 0x11,
        _padding: [0x12, 0x13, 0x14],
    };
    assert_eq!(
        full.as_bytes(),
        vec![
            1, 2, 3, 4, 2, 0, 0, 0, 5, 6, 7, 8, 9, 10, 11, 12, 13, 14, 15, 16, 0x11, 0x12, 0x13,
            0x14
        ]
    );
    assert_eq!((GPU_FLAG_FENCE, GPU_FLAG_RING_INDEX), (1, 2));
}

#[test]
fn header_reads_back() {
    let written = CtrlHeader {
        hdr_type: Command(0x1234_5678),
        flags: 3,
        fence_id: u64::MAX - 1,
        ctx_id: 9,
        ring_idx: 200,
        _padding: [1, 2, 3],
    };
    let read = CtrlHeader::read_at(&written.as_bytes(), 0);
    assert_eq!(read.hdr_type, written.hdr_type);
    assert_eq!(read.flags, written.flags);
    assert_eq!(read.fence_id, written.fence_id);
    assert_eq!(read.ctx_id, written.ctx_id);
    assert_eq!(read.ring_idx, written.ring_idx);
    assert_eq!(read._padding, written._padding);
    assert_eq!(CtrlHeader::size(), 24);
}

#[test]
fn header_reads_zeros_behind_the_end() {
    let read = CtrlHeader::read_at(&[0, 0x11], 0);
    assert_eq!(read.hdr_type, Command(Command::OK_NODATA));
    assert_eq!(read.as_bytes(), header(0x1100));
}

#[test]
fn check_type_compares_types() {
    assert_eq!(plain(0x1100).check_type(Command(0x1100)), Ok(()));
    assert_eq!(plain(0x1101).check_type(Command(0x1100)), Err(Error::IoError));
    assert_eq!(plain(0x1200).check_type(Command(0x1100)), Err(Error::IoError));
}

#[test]
fn rect_bytes() {
    assert_eq!(RECT.as_bytes(), words(&[1, 2, 3, 4]));
    assert_eq!(Rect::default().as_bytes(), words(&[0, 0, 0, 0]));
    let read = Rect::read_at(&words(&[9, 1, 2, 3, 4, 9]), 4);
    assert_eq!((read.x, read.y, read.width, read.height), (1, 2, 3, 4));
}

#[test]
fn display_one_bytes() {
    let mode = DisplayOne { rect: RECT, enabled: 5, flags: 6 };
    assert_eq!(mode.as_bytes(), words(&[1, 2, 3, 4, 5, 6]));
    assert_eq!(DisplayOne::default().as_bytes(), vec![0; 24]);
    assert_eq!(DisplayOne::read_at(&mode.as_bytes(), 0).as_bytes(), mode.as_bytes());
}

#[test]
fn display_info_bytes() {
    assert_eq!(VIRTIO_GPU_MAX_SCANOUTS, 16);
    let mut pmodes = [DisplayOne::default(); VIRTIO_GPU_MAX_SCANOUTS];
    pmodes[0] = DisplayOne { rect: RECT, enabled: 1, flags: 0 };
    pmodes[15] = DisplayOne { rect: RECT, enabled: 0, flags: 7 };
    let info = RespDisplayInfo { header: plain(0x1101), pmodes };
    let expected = join(&[
        header(0x1101),
        words(&[1, 2, 3, 4, 1, 0]),
        vec![0; 14 * 24],
        words(&[1, 2, 3, 4, 0, 7]),
    ]);
    assert_eq!(expected.len(), 408);
    assert_eq!(info.as_bytes(), expected);
    let read = RespDisplayInfo::read_at(&expected, 0);
    assert_eq!(read.pmodes[15].flags, 7);
    assert_eq!(read.as_bytes(), expected);
    assert_eq!(RespDisplayInfo::size(), 408);
}

#[test]
fn edid_message_bytes() {
    let ask = CmdGetEdid { header: plain(0x10a), scanout: 3, _padding: 4 };
    assert_eq!(ask.as_bytes(), join(&[header(0x10a), words(&[3, 4])]));
    let mut edid = [0u8; 1024];
    edid[0] = 1;
    edid[1023] = 2;
    let rsp = RespEdid { header: plain(0x1104), size: 128, _padding: 0, edid };
    let bytes = rsp.as_bytes();
    assert_eq!(bytes.len(), 1056);
    assert_eq!(bytes, join(&[header(0x1104), words(&[128, 0]), edid.to_vec()]));
    let read = RespEdid::read_at(&bytes, 0);
    assert_eq!((read.size, read.edid[0], read.edid[1023]), (128, 1, 2));
}

#[test]
fn format_codes_and_stride() {
    let formats = [
        (Format::B8G8R8A8UNORM, 1),
        (Format::B8G8R8X8UNORM, 2),
        (Format::A8R8G8B8UNORM, 3),
        (Format::X8R8G8B8UNORM, 4),
        (Format::R8G8B8A8UNORM, 67),
        (Format::X8B8G8R8UNORM, 68),
        (Format::A8B8G8R8UNORM, 121),
        (Format::R8G8B8X8UNORM, 134),
    ];
    for (format, code) in formats {
        assert_eq!(format.code(), code);
        assert_eq!(format.stride(), 4);
        assert_eq!(format.as_bytes(), words(&[code]));
    }
}

#[test]
fn resource_message_bytes() {
    let create = ResourceCreate2D {
        header: plain(0x101),
        resource_id: 1,
        format: Format::R8G8B8A8UNORM,
        width: 2,
        height: 3,
    };
    assert_eq!(create.as_bytes(), join(&[header(0x101), words(&[1, 67, 2, 3])]));
    let entry = MemEntry { addr: 0x1_0000_0002, length: 3, padding: 4 };
    assert_eq!(entry.as_bytes(), words(&[2, 1, 3, 4]));
    let attach = ResourceAttachBackingSingleEntry {
        header: ResourceAttachBacking { header: plain(0x106), resource_id: 5, nr_entries: 1 },
        entry,
    };
    assert_eq!(attach.as_bytes(), join(&[header(0x106), words(&[5, 1, 2, 1, 3, 4])]));
    let detach = ResourceDetachBacking { header: plain(0x107), resource_id: 6, _padding: 0 };
    assert_eq!(detach.as_bytes(), join(&[header(0x107), words(&[6, 0])]));
    let unref = ResourceUnref { header: plain(0x102), resource_id: 7, _padding: 0 };
    assert_eq!(unref.as_bytes(), join(&[header(0x102), words(&[7, 0])]));
    let scanout = SetScanout { header: plain(0x103), rect: RECT, scanout_id: 8, resource_id: 9 };
    assert_eq!(scanout.as_bytes(), join(&[header(0x103), words(&[1, 2, 3, 4, 8, 9])]));
    let transfer = TransferToHost2D {
        header: plain(0x105),
        rect: RECT,
        offset: 0x5_0000_0006,
        resource_id: 7,
        _padding: 0,
    };
    assert_eq!(transfer.as_bytes(), join(&[header(0x105), words(&[1, 2, 3, 4, 6, 5, 7, 0])]));
    let flush = ResourceFlush { header: plain(0x104), rect: RECT, resource_id: 5, _padding: 6 };
    assert_eq!(flush.as_bytes(), join(&[header(0x104), words(&[1, 2, 3, 4, 5, 6])]));
}

#[test]
fn resource_messages_read_back() {
    let bytes = join(&[header(0x106), words(&[5, 1, 2, 1, 3, 4])]);
    assert_eq!(ResourceAttachBackingSingleEntry::read_at(&bytes, 0).as_bytes(), bytes);
    assert_eq!(ResourceAttachBacking::read_at(&bytes, 0).as_bytes(), bytes[..32].to_vec());
    let entry = MemEntry::read_at(&bytes, 32);
    assert_eq!((entry.addr, entry.length, entry.padding), (0x1_0000_0002, 3, 4));
    assert_eq!(ResourceUnref::read_at(&bytes, 0).resource_id, 5);
}

#[test]
fn capset_message_bytes() {
    let info = CmdGetCapsetInfo { header: plain(0x108), capset_index: 2, _padding: 0 };
    assert_eq!(info.as_bytes(), join(&[header(0x108), words(&[2, 0])]));
    let rsp = RespCapsetInfo {
        header: plain(0x1102),
        capset_id: 1,
        capset_max_version: 2,
        capset_max_size: 3,
        _padding: 4,
    };
    let bytes = join(&[header(0x1102), words(&[1, 2, 3, 4])]);
    assert_eq!(rsp.as_bytes(), bytes);
    assert_eq!(RespCapsetInfo::read_at(&bytes, 0).capset_max_size, 3);
    assert_eq!(RespCapsetInfo::read_at(&bytes, 0).as_bytes(), bytes);
    let get = CmdGetCapset { header: plain(0x109), capset_id: 5, capset_version: 6 };
    assert_eq!(get.as_bytes(), join(&[header(0x109), words(&[5, 6])]));
}

#[test]
fn context_message_bytes() {
    let mut debug_name = [0u8; 64];
    debug_name[0] = b'a';
    debug_name[63] = b'z';
    let create = CmdCtxCreate { header: plain(0x200), nlen: 64, context_init: 2, debug_name };
    assert_eq!(
        create.as_bytes(),
        join(&[header(0x200), words(&[64, 2]), debug_name.to_vec()])
    );
    let resource = CmdCtxResource { header: plain(0x202), resource_id: 3, _padding: 4 };
    assert_eq!(resource.as_bytes(), join(&[header(0x202), words(&[3, 4])]));
    let create_3d = CmdResourceCreate3D {
        header: plain(0x204),
        resource_id: 1,
        target: 2,
        format: 3,
        bind: 4,
        width: 5,
        height: 6,
        depth: 7,
        array_size: 8,
        last_level: 9,
        nr_samples: 10,
        flags: 11,
        _padding: 12,
    };
    assert_eq!(
        create_3d.as_bytes(),
        join(&[header(0x204), words(&[1, 2, 3, 4, 5, 6, 7, 8, 9, 10, 11, 12])])
    );
    let box_ = GpuBox { x: 1, y: 2, z: 3, w: 4, h: 5, d: 6 };
    assert_eq!(box_.as_bytes(), words(&[1, 2, 3, 4, 5, 6]));
    assert_eq!(GpuBox::default().as_bytes(), vec![0; 24]);
    let transfer = CmdTransferHost3D {
        header: plain(0x205),
        box_,
        offset: 0x8_0000_0007,
        resource_id: 9,
        level: 10,
        stride: 11,
        layer_stride: 12,
    };
    assert_eq!(
        transfer.as_bytes(),
        join(&[header(0x205), words(&[1, 2, 3, 4, 5, 6, 7, 8, 9, 10, 11, 12])])
    );
    let submit = CmdSubmit3D { header: plain(0x207), size: 16, _padding: 0 };
    let bytes = join(&[header(0x207), words(&[16, 0])]);
    assert_eq!(submit.as_bytes(), bytes);
    assert_eq!(CmdSubmit3D::read_at(&bytes, 0).size, 16);
}

#[test]
fn blob_message_bytes() {
    let create = CmdResourceCreateBlob {
        header: plain(0x10c),
        resource_id: 1,
        blob_mem: 2,
        blob_flags: 3,
        nr_entries: 4,
        blob_id: 0x6_0000_0005,
        size: 0x8_0000_0007,
    };
    assert_eq!(create.as_bytes(), join(&[header(0x10c), words(&[1, 2, 3, 4, 5, 6, 7, 8])]));
    let map = CmdResourceMapBlob {
        header: plain(0x208),
        resource_id: 1,
        _padding: 2,
        offset: 0x4_0000_0003,
    };
    let bytes = join(&[header(0x208), words(&[1, 2, 3, 4])]);
    assert_eq!(map.as_bytes(), bytes);
    assert_eq!(CmdResourceMapBlob::read_at(&bytes, 0).offset, 0x4_0000_0003);
    let unmap = CmdResourceUnmapBlob { header: plain(0x209), resource_id: 1, _padding: 2 };
    let bytes = join(&[header(0x209), words(&[1, 2])]);
    assert_eq!(unmap.as_bytes(), bytes);
    assert_eq!(CmdResourceUnmapBlob::read_at(&bytes, 0).as_bytes(), bytes);
    let info = RespMapInfo {
        header: plain(0x1106),
        map_info: VIRTIO_GPU_MAP_CACHE_WC,
        _padding: 0,
    };
    let bytes = join(&[header(0x1106), words(&[3, 0])]);
    assert_eq!(info.as_bytes(), bytes);
    assert_eq!(RespMapInfo::read_at(&bytes, 0).map_info, 3);
    assert_eq!(
        (
            VIRTIO_GPU_MAP_CACHE_NONE,
            VIRTIO_GPU_MAP_CACHE_CACHED,
            VIRTIO_GPU_MAP_CACHE_UNCACHED,
        ),
        (0, 1, 2)
    );
    let assign = CmdResourceAssignUuid { header: plain(0x10b), resource_id: 1, _padding: 2 };
    let bytes = join(&[header(0x10b), words(&[1, 2])]);
    assert_eq!(assign.as_bytes(), bytes);
    assert_eq!(CmdResourceAssignUuid::read_at(&bytes, 0).as_bytes(), bytes);
    let uuid = [1, 2, 3, 4, 5, 6, 7, 8, 9, 10, 11, 12, 13, 14, 15, 16];
    let rsp = RespResourceUuid { header: plain(0x1105), uuid };
    let bytes = join(&[header(0x1105), uuid.to_vec()]);
    assert_eq!(rsp.as_bytes(), bytes);
    assert_eq!(RespResourceUuid::read_at(&bytes, 0).uuid, uuid);
}

#[test]
fn scanout_blob_bytes() {
    let scanout = SetScanoutBlob {
        header: plain(0x10d),
        rect: RECT,
        scanout_id: 5,
        resource_id: 6,
        width: 7,
        height: 8,
        format: 9,
        _padding: 10,
        strides: [11, 12, 13, 14],
        offsets: [15, 16, 17, 18],
    };
    let bytes = join(&[
        header(0x10d),
        words(&[1, 2, 3, 4, 5, 6, 7, 8, 9, 10, 11, 12, 13, 14, 15, 16, 17, 18]),
    ]);
    assert_eq!(scanout.as_bytes(), bytes);
    assert_eq!(SetScanoutBlob::size(), bytes.len());
    let read = SetScanoutBlob::read_at(&bytes, 0);
    assert_eq!((read.strides, read.offsets), ([11, 12, 13, 14], [15, 16, 17, 18]));
    assert_eq!(read.as_bytes(), bytes);
}

#[test]
fn cursor_message_bytes() {
    let pos = CursorPos { scanout_id: 1, x: 2, y: 3, _padding: 4 };
    assert_eq!(pos.as_bytes(), words(&[1, 2, 3, 4]));
    let update = UpdateCursor {
        header: plain(0x300),
        pos,
        resource_id: 5,
        hot_x: 6,
        hot_y: 7,
        _padding: 8,
    };
    assert_eq!(update.as_bytes(), join(&[header(0x300), words(&[1, 2, 3, 4, 5, 6, 7, 8])]));
}

#[test]
fn messages_read_back_between_other_bytes() {
    let entry = MemEntry { addr: u64::MAX, length: 0x8000_0001, padding: 0 };
    let bytes = join(&[vec![0xaa; 5], entry.as_bytes(), vec![0xbb; 3]]);
    let read = MemEntry::read_at(&bytes, 5);
    assert_eq!((read.addr, read.length, read.padding), (u64::MAX, 0x8000_0001, 0));
}
