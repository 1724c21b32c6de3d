//! Frame buffering for the hardware boundary: a bounded first-in-first-out
//! buffer that overcomes the small hardware receive FIFO, and the model of
//! a board CAN bus endpoint with its identifier filter banks.

use vstd::prelude::*;
use crate::frame::{CanFrame, FrameView};

verus! {

/// Number of filter banks the board's CAN controller offers.
pub const TOTAL_FILTERBANKS: usize = 14;

/// Bounded first-in-first-out frame buffer. A buffer created with `size`
/// holds up to `size - 1` frames; an arriving frame that would overfill it
/// is refused, for the caller to drop or to drain the hardware FIFO.
pub struct FrameBuffer {
    size: usize,
    frames: Vec<CanFrame>,
}

impl FrameBuffer {
    /// Buffered frames, oldest first.
    pub closed spec fn contents(&self) -> Seq<FrameView> {
        self.frames@.map_values(|f: CanFrame| f@)
    }

    /// Configured size; the buffer holds up to one frame fewer.
    pub closed spec fn size(&self) -> usize {
        self.size
    }

    /// The buffer never exceeds its bound.
    pub closed spec fn wf(&self) -> bool {
        self.size >= 1 && self.frames@.len() < self.size
    }

    /// An empty buffer for up to `size - 1` frames.
    pub fn new(size: usize) -> (r: Self)
        requires
            size >= 1,
        ensures
            r.wf(),
            r.size() == size,
            r.contents() == Seq::<FrameView>::empty(),
    {
        let r = FrameBuffer { size, frames: Vec::new() };
        proof {
            assert(r.contents() =~= Seq::<FrameView>::empty());
        }
        r
    }

    /// Stores one arriving frame at the back, unless the buffer is full;
    /// reports whether the frame was kept.
    pub fn buffer_frame(&mut self, can_frame: CanFrame) -> (kept: bool)
        requires
            old(self).wf(),
        ensures
            final(self).wf(),
            final(self).size() == old(self).size(),
            kept == (old(self).contents().len() < old(self).size() - 1),
            kept ==> final(self).contents() == old(self).contents().push(can_frame@),
            !kept ==> final(self).contents() == old(self).contents(),
    {
        if self.frames.len() < self.size - 1 {
            self.frames.push(can_frame);
            proof {
                assert(self.contents() =~= old(self).contents().push(can_frame@));
            }
            true
        } else {
            false
        }
    }

    /// Takes the oldest buffered frame, if any.
    pub fn get(&mut self) -> (r: Option<CanFrame>)
        requires
            old(self).wf(),
        ensures
            final(self).wf(),
            final(self).size() == old(self).size(),
            old(self).contents().len() == 0 ==> r is None && final(self).contents() == old(
                self,
            ).contents(),
            old(self).contents().len() > 0 ==> (match r {
                Some(f) => f@ == old(self).contents().first(),
                None => false,
            }) && final(self).contents() == old(self).contents().drop_first(),
    {
        if self.frames.len() == 0 {
            None
        } else {
            let f = self.frames.remove(0);
            proof {
                assert(self.contents() =~= old(self).contents().drop_first());
            }
            Some(f)
        }
    }

    /// Whether any frame is buffered.
    pub fn any(&self) -> (r: bool)
        ensures
            r == (self.contents().len() > 0),
    {
        self.frames.len() > 0
    }

    /// Discards every buffered frame.
    pub fn clear(&mut self)
        requires
            old(self).wf(),
        ensures
            final(self).wf(),
            final(self).size() == old(self).size(),
            final(self).contents() == Seq::<FrameView>::empty(),
    {
        self.frames.clear();
        proof {
            assert(self.contents() =~= Seq::<FrameView>::empty());
        }
    }
}

/// Number of filter banks a list of filters occupies: two filters per bank.
pub open spec fn num_filter_banks(n: int) -> int {
    (n + 1) / 2
}

/// Register content of one filter bank: two (identifier, mask) pairs
/// flattened to four words, zero-padded when the last bank holds only one
/// filter.
pub open spec fn filter_bank(filters: Seq<(u32, u32)>, b: int) -> Seq<u32>
    recommends
        0 <= b < num_filter_banks(filters.len() as int),
{
    if 2 * b + 1 < filters.len() {
        seq![filters[2 * b].0, filters[2 * b].1, filters[2 * b + 1].0, filters[2 * b + 1].1]
    } else {
        seq![filters[2 * b].0, filters[2 * b].1, 0u32, 0u32]
    }
}

/// Register contents of all banks a list of filters programs.
pub open spec fn filter_banks(filters: Seq<(u32, u32)>) -> Seq<Seq<u32>> {
    Seq::new(num_filter_banks(filters.len() as int) as nat, |b: int| filter_bank(filters, b))
}

/// Model of one board CAN bus endpoint: its channel, the identifier
/// filters it accepts frames for, and the bank words those filters program
/// into the controller. A received frame matches a filter `(id, mask)`
/// when `received_id & mask == id & mask`.
pub struct PyboardCanBus {
    channel: u32,
    filters: Vec<(u32, u32)>,
    banks: Vec<Vec<u32>>,
    connected: bool,
}

impl PyboardCanBus {
    /// The bus channel number.
    pub closed spec fn channel(&self) -> u32 {
        self.channel
    }

    /// The configured identifier filters.
    pub closed spec fn filters(&self) -> Seq<(u32, u32)> {
        self.filters@
    }

    /// The filter bank words the configuration programs.
    pub closed spec fn banks(&self) -> Seq<Seq<u32>> {
        self.banks@.map_values(|b: Vec<u32>| b@)
    }

    /// Whether the endpoint is attached.
    pub closed spec fn connected(&self) -> bool {
        self.connected
    }

    /// An attached endpoint on the given channel, with no filters yet.
    pub fn new(channel: u32) -> (r: Self)
        ensures
            r.channel() == channel,
            r.filters() == Seq::<(u32, u32)>::empty(),
            r.banks() == Seq::<Seq<u32>>::empty(),
            r.connected(),
    {
        let r = PyboardCanBus { channel, filters: Vec::new(), banks: Vec::new(), connected: true };
        proof {
            assert(r.filters() =~= Seq::<(u32, u32)>::empty());
            assert(r.banks() =~= Seq::<Seq<u32>>::empty());
        }
        r
    }

    /// Configures the identifier filters: only frames whose identifier
    /// matches one of them will be received. At most two filters fit each
    /// of the controller's banks; more filters than the banks can hold are
    /// refused.
    pub fn set_filters(&mut self, filters: Vec<(u32, u32)>) -> (r: Result<(), String>)
        ensures
            final(self).channel() == old(self).channel(),
            final(self).connected() == old(self).connected(),
            filters@.len() > TOTAL_FILTERBANKS ==> r is Err && final(self).filters() == old(
                self,
            ).filters() && final(self).banks() == old(self).banks(),
            filters@.len() <= TOTAL_FILTERBANKS ==> r is Ok && final(self).filters() == filters@
                && final(self).banks() == filter_banks(filters@),
    {
        if filters.len() > TOTAL_FILTERBANKS {
            return Err(String::from_str("Too many filters provided"));
        }
        let n = filters.len();
        let total_banks = (n + 1) / 2;
        let mut banks: Vec<Vec<u32>> = Vec::new();
        let mut b: usize = 0;
        while b < total_banks
            invariant
                n == filters@.len(),
                n <= TOTAL_FILTERBANKS,
                total_banks == num_filter_banks(n as int),
                0 <= b <= total_banks,
                banks@.len() == b,
                forall|k: int|
                    0 <= k < b ==> (#[trigger] banks@[k])@ == filter_bank(filters@, k),
            decreases total_banks - b,
        {
            let mut bank: Vec<u32> = Vec::new();
            let (id0, mask0) = filters[2 * b];
            bank.push(id0);
            bank.push(mask0);
            if 2 * b + 1 < n {
                let (id1, mask1) = filters[2 * b + 1];
                bank.push(id1);
                bank.push(mask1);
            } else {
                bank.push(0);
                bank.push(0);
            }
            assert(bank@ =~= filter_bank(filters@, b as int));
            banks.push(bank);
            b = b + 1;
        }
        self.filters = filters;
        self.banks = banks;
        proof {
            assert(self.banks() =~= filter_banks(filters@));
        }
        Ok(())
    }

    /// Detaches the endpoint.
    pub fn disconnect(&mut self)
        ensures
            final(self).channel() == old(self).channel(),
            final(self).filters() == old(self).filters(),
            final(self).banks() == old(self).banks(),
            !final(self).connected(),
    {
        self.connected = false;
    }
}

} // verus!
