//! The overlay surface of one monitor: configuration state and the two
//! buffer slots that it alternates between.
use crate::pool_buffer::PoolBuffer;
use crate::vector::Vector2D;
use vstd::prelude::*;

verus! {

pub struct LayerSurface {
    pub monitor_idx: usize,
    /// Effective scale of the surface, in millionths.
    pub fractional_scale_value: i64,
    /// The compositor's configure event has arrived and was acknowledged.
    pub configured: bool,
    /// Serial of the last acknowledged configure event.
    pub ack_serial: u32,
    pub working: bool,
    /// Slot of the buffer submitted last (0 or 1).
    pub last_buffer: usize,
    pub buffers: [Option<PoolBuffer>; 2],
    pub dirty: bool,
    pub rendered: bool,
    /// A frame-completion callback was requested and has not fired.
    pub frame_pending: bool,
    /// Size of the monitor when the surface was created.
    pub monitor_size: Vector2D,
    pub monitor_scale: i32,
}

/// The slot other than `slot`.
pub open spec fn other_slot(slot: int) -> int {
    if slot == 0 {
        1
    } else {
        0
    }
}

impl LayerSurface {
    pub open spec fn wf(&self) -> bool {
        self.last_buffer < 2
    }

    /// The slot that may be drawn into: the one not submitted last.
    pub open spec fn available_slot(&self) -> int {
        other_slot(self.last_buffer as int)
    }

    /// What `get_available_buffer` offers.
    pub open spec fn available(&self) -> Option<usize> {
        if self.buffers[self.available_slot()] is Some {
            Some(self.available_slot() as usize)
        } else {
            None
        }
    }

    /// Everything but the buffer slots and the frame flags is unchanged.
    pub open spec fn same_identity(&self, s: &LayerSurface) -> bool {
        s.monitor_idx == self.monitor_idx && s.fractional_scale_value == self.fractional_scale_value
            && s.configured == self.configured && s.ack_serial == self.ack_serial && s.working
            == self.working && s.monitor_size == self.monitor_size && s.monitor_scale
            == self.monitor_scale
    }

    /// `s` is this surface after one frame submission that returned `r`:
    /// the slots swap; if the new slot holds a buffer, that buffer is marked
    /// busy and submitted, a frame callback is pending and the surface is
    /// clean and rendered.
    pub open spec fn frame_sent(&self, s: &LayerSurface, r: Option<usize>) -> bool {
        let slot = self.available_slot();
        &&& self.same_identity(s)
        &&& s.last_buffer == slot
        &&& match self.buffers[slot] {
            Some(b) => {
                &&& r == Some(slot as usize)
                &&& s.buffers@ == self.buffers@.update(slot, Some(PoolBuffer { busy: true, ..b }))
                &&& s.frame_pending
                &&& !s.dirty
                &&& s.rendered
            },
            None => {
                &&& r is None
                &&& s.buffers == self.buffers
                &&& s.frame_pending == self.frame_pending
                &&& s.dirty == self.dirty
                &&& s.rendered == self.rendered
            },
        }
    }

    pub fn new(monitor_idx: usize, monitor_size: Vector2D, monitor_scale: i32) -> (r: Self)
        ensures
            r.wf(),
            r.monitor_idx == monitor_idx,
            r.monitor_size == monitor_size,
            r.monitor_scale == monitor_scale,
            r.fractional_scale_value == crate::config::RATIO_ONE,
            !r.configured,
            r.ack_serial == 0,
            !r.working,
            r.last_buffer == 0,
            r.buffers[0] is None,
            r.buffers[1] is None,
            !r.dirty,
            !r.rendered,
            !r.frame_pending,
    {
        LayerSurface {
            monitor_idx,
            fractional_scale_value: crate::config::RATIO_ONE,
            configured: false,
            ack_serial: 0,
            working: false,
            last_buffer: 0,
            buffers: [None, None],
            dirty: false,
            rendered: false,
            frame_pending: false,
            monitor_size,
            monitor_scale,
        }
    }

    /// Records the acknowledgement of a configure event.
    pub fn acknowledge_configure(&mut self, serial: u32)
        ensures
            *final(self) == (LayerSurface { configured: true, ack_serial: serial, ..*old(self) }),
    {
        self.configured = true;
        self.ack_serial = serial;
    }

    /// The slot to draw into, if it holds a buffer; never the slot
    /// submitted last.
    pub fn get_available_buffer(&self) -> (r: Option<usize>)
        requires
            self.wf(),
        ensures
            r == self.available(),
            r is Some ==> r->Some_0 != self.last_buffer && r->Some_0 < 2,
    {
        let next: usize = if self.last_buffer == 0 {
            1
        } else {
            0
        };
        if self.buffers[next].is_some() {
            Some(next)
        } else {
            None
        }
    }

    /// Puts a buffer into a slot.
    pub fn set_buffer(&mut self, slot: usize, buffer: PoolBuffer)
        requires
            slot < 2,
        ensures
            final(self).buffers@ == old(self).buffers@.update(slot as int, Some(buffer)),
            *final(self) == (LayerSurface { buffers: final(self).buffers, ..*old(self) }),
    {
        self.buffers[slot] = Some(buffer);
    }

    /// Submits the buffer in the available slot: the slots swap, and that
    /// buffer is marked busy until the compositor releases it. Returns the
    /// slot submitted, or `None` if it held no buffer.
    pub fn send_frame(&mut self) -> (r: Option<usize>)
        requires
            old(self).wf(),
            old(self).configured,
        ensures
            final(self).wf(),
            old(self).frame_sent(&*final(self), r),
    {
        let next: usize = if self.last_buffer == 0 {
            1
        } else {
            0
        };
        self.last_buffer = next;
        match self.buffers[next] {
            Some(b) => {
                self.buffers[next] = Some(PoolBuffer { busy: true, ..b });
                self.frame_pending = true;
                self.dirty = false;
                self.rendered = true;
                Some(next)
            },
            None => None,
        }
    }

    /// The compositor released the buffer in `slot`: it may be drawn into again.
    pub fn release_buffer(&mut self, slot: usize)
        requires
            slot < 2,
        ensures
            final(self).buffers@ == old(self).buffers@.update(
                slot as int,
                match old(self).buffers[slot as int] {
                    Some(b) => Some(PoolBuffer { busy: false, ..b }),
                    None => None,
                },
            ),
            *final(self) == (LayerSurface { buffers: final(self).buffers, ..*old(self) }),
    {
        match self.buffers[slot] {
            Some(b) => {
                self.buffers[slot] = Some(PoolBuffer { busy: false, ..b });
            },
            None => {},
        }
    }

    /// The frame callback fired.
    pub fn frame_done(&mut self)
        ensures
            *final(self) == (LayerSurface { frame_pending: false, ..*old(self) }),
    {
        self.frame_pending = false;
    }

    pub fn mark_dirty(&mut self)
        ensures
            *final(self) == (LayerSurface { dirty: true, ..*old(self) }),
    {
        self.dirty = true;
    }
}

/// However many frames are submitted in a row, the slot offered for drawing
/// is never the one submitted last, and the submitted slot alternates
/// strictly between the two.
pub proof fn lemma_slots_alternate(states: Seq<LayerSurface>, results: Seq<Option<usize>>)
    requires
        states.len() >= 1,
        results.len() + 1 == states.len(),
        states[0].wf(),
        forall|i: int|
            0 <= i < results.len() ==> #[trigger] states[i].frame_sent(&states[i + 1], results[i]),
    ensures
        forall|i: int|
            0 <= i < states.len() ==> {
                &&& (#[trigger] states[i]).wf()
                &&& states[i].last_buffer == (states[0].last_buffer + i) % 2
                &&& states[i].available_slot() == (states[0].last_buffer + i + 1) % 2
                &&& states[i].available_slot() != states[i].last_buffer
            },
        forall|i: int|
            0 <= i < results.len() && (#[trigger] results[i]) is Some ==> results[i]->Some_0 == (
            states[0].last_buffer + i + 1) % 2,
    decreases states.len(),
{
    if states.len() > 1 {
        let n = states.len() - 1;
        lemma_slots_alternate(states.take(n), results.take(n - 1));
        assert forall|i: int| 0 <= i < n implies (#[trigger] states[i]).wf() && states[i].last_buffer == (
        states[0].last_buffer + i) % 2 by {
            assert(states.take(n)[i] == states[i]);
        }
        let k = n - 1;
        assert(states[k].frame_sent(&states[k + 1], results[k]));
        assert forall|i: int| 0 <= i < results.len() && (#[trigger] results[i]) is Some implies results[i]->Some_0
            == (states[0].last_buffer + i + 1) % 2 by {
            assert(states[i].frame_sent(&states[i + 1], results[i]));
        }
    }
}

} // verus!
