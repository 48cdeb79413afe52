use vstd::prelude::*;
use crate::images::Frame;

verus! {

/// The resource shared between the animation task, which publishes frames,
/// and the display refresh task, which hands them to the display driver.
///
/// A frame is published whole, by one assignment under exclusive access, so
/// the refresh task never sees a frame that is only partly written. Only the
/// latest frame is kept: a newer one replaces it.
#[derive(Clone, Copy, Debug)]
pub struct FrameSlot {
    /// The frame most recently published.
    pub frame: Frame,
    /// Whether `frame` has been published since the refresh task last took it.
    pub fresh: bool,
}

impl FrameSlot {
    /// The slot after `frame` is published.
    pub open spec fn published(self, frame: Frame) -> FrameSlot {
        FrameSlot { frame, fresh: true }
    }

    /// What the refresh task takes from the slot: the latest frame, if it has
    /// not taken it yet.
    pub open spec fn taken(self) -> Option<Frame> {
        if self.fresh {
            Some(self.frame)
        } else {
            None
        }
    }

    /// The slot after the refresh task has looked at it.
    pub open spec fn after_take(self) -> FrameSlot {
        FrameSlot { frame: self.frame, fresh: false }
    }

    /// An empty slot: a dark frame that the driver already shows.
    pub fn new() -> (r: FrameSlot)
        ensures
            !r.fresh,
            forall|y: int, x: int| 0 <= y < 5 && 0 <= x < 5 ==> #[trigger] r.frame@[y][x] == 0,
    {
        FrameSlot { frame: Frame { cells: [[0u8; 5]; 5] }, fresh: false }
    }

    /// Publishes `frame` for the refresh task, replacing any earlier one.
    pub fn show_frame(&mut self, frame: &Frame)
        ensures
            *final(self) == old(self).published(*frame),
    {
        self.frame = *frame;
        self.fresh = true;
    }
}

/// One firing of the display refresh task: takes the frame published since
/// its last firing, if any, for the driver to show from now on.
pub fn timer1(slot: &mut FrameSlot) -> (r: Option<Frame>)
    ensures
        r == old(slot).taken(),
        *final(slot) == old(slot).after_take(),
{
    let r = if slot.fresh {
        Some(slot.frame)
    } else {
        None
    };
    slot.fresh = false;
    r
}

/// A published frame reaches the refresh task whole and as published, and
/// stays what the driver shows until a newer one is published.
pub proof fn lemma_refresh_sees_whole_frame(slot: FrameSlot, frame: Frame)
    ensures
        slot.published(frame).taken() == Some(frame),
        slot.published(frame).taken().unwrap()@ == frame@,
        slot.published(frame).after_take().taken() is None,
        slot.published(frame).after_take().frame == frame,
{
}

/// Of two frames published before the refresh task fires, it takes the later.
pub proof fn lemma_latest_frame_wins(slot: FrameSlot, first: Frame, second: Frame)
    ensures
        slot.published(first).published(second).taken() == Some(second),
{
}

} // verus!
