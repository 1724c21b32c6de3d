//! Bus abstraction of the transport layer: the capability set a physical CAN
//! bus offers to the network (flush, start/stop reception, send, poll one
//! frame), and a software loopback bus that buffers what it is sent.

use vstd::prelude::*;
use crate::frame::{CanFrame, CanFrameError, FrameView};

verus! {

/// One physical (or simulated) CAN bus. The network owns two of these and
/// routes all traffic through the selected one.
///
/// `buffered` models the frames the bus holds for delivery, newest last;
/// `get_frame` hands them out newest first. What `send` does to the bus is
/// impl-specific (hardware transmits, a loopback queues locally), so each
/// implementation states it through `post_send`.
pub trait Bus: Sized {
    /// Frames the bus holds for delivery, in arrival order.
    spec fn buffered(&self) -> Seq<FrameView>;

    /// Whether the receive path is active.
    spec fn receiving(&self) -> bool;

    /// What a completed `send` guarantees for this implementation.
    spec fn post_send(pre: Self, post: Self, frame: FrameView, r: Result<(), CanFrameError>) -> bool;

    /// Discards every frame held for delivery.
    fn flush_frame_buffer(&mut self)
        ensures
            final(self).buffered() == Seq::<FrameView>::empty(),
            final(self).receiving() == old(self).receiving(),
    ;

    /// Activates the receive path.
    fn start_receive(&mut self)
        ensures
            final(self).receiving(),
            final(self).buffered() == old(self).buffered(),
    ;

    /// Deactivates the receive path.
    fn stop_receive(&mut self)
        ensures
            !final(self).receiving(),
            final(self).buffered() == old(self).buffered(),
    ;

    /// Transmits one frame; `SendFailed` when the bus rejects it.
    fn send(&mut self, can_frame: &CanFrame) -> (r: Result<(), CanFrameError>)
        ensures
            Self::post_send(*old(self), *final(self), can_frame@, r),
            final(self).receiving() == old(self).receiving(),
    ;

    /// Takes the most recently buffered frame, if any.
    fn get_frame(&mut self) -> (r: Option<CanFrame>)
        ensures
            old(self).buffered().len() == 0 ==> r is None && final(self).buffered() == old(
                self,
            ).buffered(),
            old(self).buffered().len() > 0 ==> (match r {
                Some(f) => f@ == old(self).buffered().last(),
                None => false,
            }) && final(self).buffered() == old(self).buffered().drop_last(),
            final(self).receiving() == old(self).receiving(),
    ;
}

/// A chain of successful sends: some sequence of intermediate bus states
/// links `pre` to `post`, one `post_send` step per frame, in order.
pub open spec fn post_send_seq<T: Bus>(pre: T, post: T, frames: Seq<FrameView>) -> bool
    decreases frames.len(),
{
    if frames.len() == 0 {
        post == pre
    } else {
        exists|mid: T|
            #[trigger] T::post_send(pre, mid, frames.first(), Ok(())) && post_send_seq(
                mid,
                post,
                frames.drop_first(),
            )
    }
}

/// A chain of sends that stopped at its first failure: some prefix of the
/// frames went out successfully, then the bus rejected the next one with
/// exactly this error.
pub open spec fn post_send_seq_failed<T: Bus>(
    pre: T,
    post: T,
    frames: Seq<FrameView>,
    e: CanFrameError,
) -> bool {
    exists|k: int, mid: T|
        0 <= k < frames.len() && #[trigger] post_send_seq(pre, mid, frames.take(k))
            && T::post_send(mid, post, frames[k], Err(e))
}

/// Extends a chain of successful sends by one more frame.
pub proof fn lemma_post_send_seq_snoc<T: Bus>(pre: T, mid: T, post: T, frames: Seq<FrameView>, f: FrameView)
    requires
        post_send_seq(pre, mid, frames),
        T::post_send(mid, post, f, Ok(())),
    ensures
        post_send_seq(pre, post, frames.push(f)),
    decreases frames.len(),
{
    if frames.len() == 0 {
        assert(frames.push(f).first() == f);
        assert(frames.push(f).drop_first() =~= Seq::<FrameView>::empty());
        assert(post_send_seq(post, post, frames.push(f).drop_first()));
        assert(T::post_send(pre, post, frames.push(f).first(), Ok(())));
    } else {
        let step = choose|m: T|
            #[trigger] T::post_send(pre, m, frames.first(), Ok(())) && post_send_seq(
                m,
                mid,
                frames.drop_first(),
            );
        lemma_post_send_seq_snoc(step, mid, post, frames.drop_first(), f);
        assert(frames.push(f).first() == frames.first());
        assert(frames.push(f).drop_first() =~= frames.drop_first().push(f));
        assert(T::post_send(pre, step, frames.push(f).first(), Ok(())));
    }
}

/// Software loopback bus: frames sent to it are buffered and handed back.
pub struct BusImpl {
    buffer: Vec<CanFrame>,
    receiving: bool,
}

impl BusImpl {
    /// An empty, inactive bus.
    pub fn new() -> (r: Self)
        ensures
            r.buffered() == Seq::<FrameView>::empty(),
            !r.receiving(),
    {
        let r = BusImpl { buffer: Vec::new(), receiving: false };
        proof {
            assert(r.buffered() =~= Seq::<FrameView>::empty());
        }
        r
    }
}

impl Bus for BusImpl {
    closed spec fn buffered(&self) -> Seq<FrameView> {
        self.buffer@.map_values(|f: CanFrame| f@)
    }

    closed spec fn receiving(&self) -> bool {
        self.receiving
    }

    /// Sending to the loopback always succeeds and appends the frame to the
    /// delivery buffer.
    open spec fn post_send(pre: Self, post: Self, frame: FrameView, r: Result<(), CanFrameError>) -> bool {
        r is Ok && post.buffered() == pre.buffered().push(frame)
    }

    fn flush_frame_buffer(&mut self) {
        self.buffer.clear();
        proof {
            assert(self.buffered() =~= Seq::<FrameView>::empty());
        }
    }

    fn start_receive(&mut self) {
        self.receiving = true;
    }

    fn stop_receive(&mut self) {
        self.receiving = false;
    }

    fn send(&mut self, can_frame: &CanFrame) -> (r: Result<(), CanFrameError>) {
        self.buffer.push(can_frame.clone());
        proof {
            assert(self.buffered() =~= old(self).buffered().push(can_frame@));
        }
        Ok(())
    }

    fn get_frame(&mut self) -> (r: Option<CanFrame>) {
        let r = self.buffer.pop();
        proof {
            if old(self).buffer@.len() > 0 {
                assert(self.buffered() =~= old(self).buffered().drop_last());
            } else {
                assert(self.buffered() =~= old(self).buffered());
            }
        }
        r
    }
}

} // verus!
