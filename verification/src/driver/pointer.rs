//! Calls on the pointer.
use crate::command::Command;
use crate::cursor::{CursorPos, UpdateCursor};
use crate::display::Rect;
use crate::dma::{pages, BufferDirection, DmaBuffer};
use crate::driver::{GpuView, VirtIOGpu};
use crate::error::Error;
use crate::header::CtrlHeader;
use crate::plan::{
    cursor_set_up, memory_address, nothing_done, one_more, setup_cursor_plan, since, CURSOR_HEIGHT,
    CURSOR_WIDTH, RESOURCE_ID_CURSOR, SCANOUT_ID,
};
use crate::request::{asked_once, cursor, taken, update_cursor_request};
use crate::transport::{Event, Transport};
use crate::wire::IntoBytes;
use vstd::prelude::*;

verus! {

impl<T: Transport> VirtIOGpu<T> {
    /// Set the pointer shape and position.
    ///
    /// The image has 64 x 64 pixels of four bytes each; any other length is refused with
    /// [`Error::InvalidParam`].
    #[verifier::rlimit(30)]
    pub fn setup_cursor(
        &mut self,
        cursor_image: &[u8],
        pos_x: u32,
        pos_y: u32,
        hot_x: u32,
        hot_y: u32,
    ) -> (r: Result<(), Error>)
        ensures
            cursor_set_up(
                cursor_image@,
                old(self)@.access_platform,
                pos_x,
                pos_y,
                hot_x,
                hot_y,
                old(self).history(),
                final(self).history(),
                r,
            ),
            match r {
                Ok(_) => {
                    let done = since(old(self).history(), final(self).history());
                    &&& final(self)@.cursor_buffer matches Some(memory)
                    &&& memory.address() == memory_address(done[0])
                    &&& memory.contents() == cursor_image@
                    &&& final(self)@ == (GpuView {
                        cursor_buffer: Some(memory),
                        ..old(self)@
                    })
                },
                Err(_) => final(self)@ == old(self)@,
            },
    {
        let ghost before = self.history();
        let ghost access_platform = self@.access_platform;
        let ghost plan = |done: Seq<Event>|
            setup_cursor_plan(
                cursor_image@,
                access_platform,
                pos_x,
                pos_y,
                hot_x,
                hot_y,
                done,
            );
        proof {
            nothing_done(plan, before);
        }
        let size: u32 = CURSOR_WIDTH * CURSOR_HEIGHT * 4;
        if cursor_image.len() != size as usize {
            return Err(Error::InvalidParam);
        }
        let ghost now = self.history();
        let memory = self.transport.dma_new(
            pages(size as usize),
            BufferDirection::DriverToDevice,
            self.access_platform,
        );
        proof {
            one_more(plan, before, now, self.history(), self.history().last().ask);
        }
        let mut cursor_buffer_dma = match memory {
            Ok(memory) => memory,
            Err(e) => {
                return Err(e);
            },
        };
        copy_into(cursor_buffer_dma.raw_slice(), cursor_image);
        let ghost now = self.history();
        self.transport.memory_written(&cursor_buffer_dma);
        proof {
            one_more(plan, before, now, self.history(), self.history().last().ask);
        }

        let ghost now = self.history();
        let result = self.resource_create_2d(RESOURCE_ID_CURSOR, CURSOR_WIDTH, CURSOR_HEIGHT);
        proof {
            one_more(plan, before, now, self.history(), self.history().last().ask);
        }
        result?;
        let ghost now = self.history();
        let result = self.resource_attach_backing(
            RESOURCE_ID_CURSOR,
            cursor_buffer_dma.paddr(),
            size,
        );
        proof {
            one_more(plan, before, now, self.history(), self.history().last().ask);
        }
        result?;
        let ghost now = self.history();
        let result = self.transfer_to_host_2d(
            Rect { x: 0, y: 0, width: CURSOR_WIDTH, height: CURSOR_HEIGHT },
            0,
            RESOURCE_ID_CURSOR,
        );
        proof {
            one_more(plan, before, now, self.history(), self.history().last().ask);
        }
        result?;
        let ghost now = self.history();
        let result = self.update_cursor(
            RESOURCE_ID_CURSOR,
            SCANOUT_ID,
            pos_x,
            pos_y,
            hot_x,
            hot_y,
            false,
        );
        proof {
            one_more(plan, before, now, self.history(), self.history().last().ask);
        }
        result?;
        self.cursor_buffer_dma = Some(cursor_buffer_dma);
        Ok(())
    }

    /// Move the pointer without updating the shape.
    pub fn move_cursor(&mut self, pos_x: u32, pos_y: u32) -> (r: Result<(), Error>)
        ensures
            final(self)@ == old(self)@,
            asked_once(
                old(self).history(),
                final(self).history(),
                cursor(
                    update_cursor_request(
                        RESOURCE_ID_CURSOR,
                        SCANOUT_ID,
                        pos_x,
                        pos_y,
                        0,
                        0,
                        true,
                    ).wire(),
                ),
            ),
            r == taken(final(self).history().last().answer),
    {
        self.update_cursor(RESOURCE_ID_CURSOR, SCANOUT_ID, pos_x, pos_y, 0, 0, true)?;
        Ok(())
    }

    fn update_cursor(
        &mut self,
        resource_id: u32,
        scanout_id: u32,
        pos_x: u32,
        pos_y: u32,
        hot_x: u32,
        hot_y: u32,
        is_move: bool,
    ) -> (r: Result<(), Error>)
        ensures
            final(self)@ == old(self)@,
            asked_once(
                old(self).history(),
                final(self).history(),
                cursor(
                    update_cursor_request(
                        resource_id,
                        scanout_id,
                        pos_x,
                        pos_y,
                        hot_x,
                        hot_y,
                        is_move,
                    ).wire(),
                ),
            ),
            r == taken(final(self).history().last().answer),
    {
        self.cursor_request(
            UpdateCursor {
                header: if is_move {
                    CtrlHeader::with_type(Command(Command::MOVE_CURSOR))
                } else {
                    CtrlHeader::with_type(Command(Command::UPDATE_CURSOR))
                },
                pos: CursorPos { scanout_id, x: pos_x, y: pos_y, _padding: 0 },
                resource_id,
                hot_x,
                hot_y,
                _padding: 0,
            },
        )
    }
}

/// Copies `source` over `target`, which is as long.
fn copy_into(target: &mut [u8], source: &[u8])
    requires
        old(target)@.len() == source@.len(),
    ensures
        final(target)@ == source@,
{
    let mut i: usize = 0;
    while i < source.len()
        invariant
            i <= source@.len(),
            target@.len() == source@.len(),
            forall|k: int| 0 <= k < i ==> target@[k] == source@[k],
        decreases source@.len() - i,
    {
        target[i] = source[i];
        i += 1;
    }
    assert(target@ =~= source@);
}

} // verus!
