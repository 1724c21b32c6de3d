//! Redundant dual-bus network: two physical buses of which exactly one is
//! selected at any time. All sends and all frame delivery go through the
//! selected bus; an explicit switch deactivates and drains the old bus
//! before activating the other, so no stale frame of the deactivated bus is
//! ever delivered after a switch.

use vstd::prelude::*;
use crate::bus::Bus;
use crate::frame::{CanFrame, CanFrameError, FrameView};

verus! {

/// Which of the two buses is active.
#[derive(Debug, Clone, Copy, PartialEq, Eq, Structural)]
pub enum BusSelection {
    Primary,
    Secondary,
}

impl BusSelection {
    /// The other bus.
    pub open spec fn toggled(self) -> BusSelection {
        match self {
            BusSelection::Primary => BusSelection::Secondary,
            BusSelection::Secondary => BusSelection::Primary,
        }
    }
}

/// Switching twice returns the network to the original bus selection.
pub proof fn lemma_switch_twice(s: BusSelection)
    ensures
        s.toggled().toggled() == s,
{
}

/// The redundant system bus: a node id, two bus handles, and the current
/// selection.
pub struct Network<T: Bus> {
    node_id: u32,
    bus_a: T,
    bus_b: T,
    selection: BusSelection,
}

impl<T: Bus> Network<T> {
    /// Node id this network belongs to.
    pub closed spec fn node_id(&self) -> u32 {
        self.node_id
    }

    /// Current selection.
    pub closed spec fn selection(&self) -> BusSelection {
        self.selection
    }

    /// The primary bus handle.
    pub closed spec fn bus_a(&self) -> T {
        self.bus_a
    }

    /// The secondary bus handle.
    pub closed spec fn bus_b(&self) -> T {
        self.bus_b
    }

    /// The bus traffic currently goes through.
    pub open spec fn selected(&self) -> T {
        if self.selection() is Primary {
            self.bus_a()
        } else {
            self.bus_b()
        }
    }

    /// The inactive bus.
    pub open spec fn unselected(&self) -> T {
        if self.selection() is Primary {
            self.bus_b()
        } else {
            self.bus_a()
        }
    }

    /// A network starts with the primary bus selected.
    pub fn new(node_id: u32, bus_a: T, bus_b: T) -> (r: Self)
        ensures
            r.node_id() == node_id,
            r.selection() == BusSelection::Primary,
            r.bus_a() == bus_a,
            r.bus_b() == bus_b,
    {
        Network { node_id, bus_a, bus_b, selection: BusSelection::Primary }
    }

    /// Drains the selected bus's buffer and starts its receive path. The
    /// other bus and the selection are untouched.
    pub fn start(&mut self)
        ensures
            final(self).node_id() == old(self).node_id(),
            final(self).selection() == old(self).selection(),
            final(self).unselected() == old(self).unselected(),
            final(self).selected().buffered() == Seq::<FrameView>::empty(),
            final(self).selected().receiving(),
    {
        match self.selection {
            BusSelection::Primary => {
                self.bus_a.flush_frame_buffer();
                self.bus_a.start_receive();
            },
            BusSelection::Secondary => {
                self.bus_b.flush_frame_buffer();
                self.bus_b.start_receive();
            },
        }
    }

    /// Drains the selected bus's buffer and stops its receive path. The
    /// other bus and the selection are untouched.
    pub fn stop(&mut self)
        ensures
            final(self).node_id() == old(self).node_id(),
            final(self).selection() == old(self).selection(),
            final(self).unselected() == old(self).unselected(),
            final(self).selected().buffered() == Seq::<FrameView>::empty(),
            !final(self).selected().receiving(),
    {
        match self.selection {
            BusSelection::Primary => {
                self.bus_a.flush_frame_buffer();
                self.bus_a.stop_receive();
            },
            BusSelection::Secondary => {
                self.bus_b.flush_frame_buffer();
                self.bus_b.stop_receive();
            },
        }
    }

    /// Sends one frame through the selected bus; what the bus guarantees is
    /// given by its own `post_send`. A failure is reported, never retried on
    /// the other bus: a send error alone is no ground for failover.
    pub fn send(&mut self, can_frame: &CanFrame) -> (r: Result<(), CanFrameError>)
        ensures
            final(self).node_id() == old(self).node_id(),
            final(self).selection() == old(self).selection(),
            final(self).unselected() == old(self).unselected(),
            T::post_send(old(self).selected(), final(self).selected(), can_frame@, r),
            final(self).selected().receiving() == old(self).selected().receiving(),
    {
        match self.selection {
            BusSelection::Primary => self.bus_a.send(can_frame),
            BusSelection::Secondary => self.bus_b.send(can_frame),
        }
    }

    /// Polls the selected bus for one buffered inbound frame; the caller
    /// dispatches it. Only the selected bus is ever read.
    pub fn process(&mut self) -> (r: Option<CanFrame>)
        ensures
            final(self).node_id() == old(self).node_id(),
            final(self).selection() == old(self).selection(),
            final(self).unselected() == old(self).unselected(),
            old(self).selected().buffered().len() == 0 ==> r is None && final(self).selected()
                .buffered() == old(self).selected().buffered(),
            old(self).selected().buffered().len() > 0 ==> (match r {
                Some(f) => f@ == old(self).selected().buffered().last(),
                None => false,
            }) && final(self).selected().buffered() == old(self).selected().buffered().drop_last(),
            final(self).selected().receiving() == old(self).selected().receiving(),
    {
        match self.selection {
            BusSelection::Primary => self.bus_a.get_frame(),
            BusSelection::Secondary => self.bus_b.get_frame(),
        }
    }

    /// Switches to the other bus: stops and drains the currently selected
    /// bus, flips the selection, then starts the newly selected bus with an
    /// empty buffer. No frame buffered on the deactivated bus survives, so
    /// none of its stale frames can be delivered after the switch.
    pub fn switch_bus(&mut self)
        ensures
            final(self).node_id() == old(self).node_id(),
            final(self).selection() == old(self).selection().toggled(),
            final(self).selected().buffered() == Seq::<FrameView>::empty(),
            final(self).selected().receiving(),
            final(self).unselected().buffered() == Seq::<FrameView>::empty(),
            !final(self).unselected().receiving(),
    {
        self.stop();
        self.selection = match self.selection {
            BusSelection::Primary => BusSelection::Secondary,
            BusSelection::Secondary => BusSelection::Primary,
        };
        self.start();
    }
}

} // verus!
