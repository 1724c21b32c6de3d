//! Heartbeat service: the controller periodically transmits an empty frame
//! on the heartbeat identifier; responders record each receipt and report a
//! liveness timeout when no signal has arrived within the configured window.

use vstd::prelude::*;
use crate::bus::Bus;
use crate::frame::{CanFrame, CanFrameError, FrameView, ID_HEARTBEAT};
use crate::network::Network;
use crate::timer::Timer;

verus! {

/// Periodic transmitter of the heartbeat signal frame.
pub struct HeartbeatProducer {
    can_frame: CanFrame,
    timer: Timer,
}

impl HeartbeatProducer {
    /// The fixed signal frame: heartbeat identifier, empty payload.
    pub closed spec fn frame(&self) -> FrameView {
        self.can_frame@
    }

    /// The producer's schedule.
    pub closed spec fn timer(&self) -> Timer {
        self.timer
    }

    /// Whether the periodic schedule is active.
    pub open spec fn running(&self) -> bool {
        self.timer().running()
    }

    /// A stopped producer holding the heartbeat signal frame.
    pub fn new() -> (r: Result<Self, CanFrameError>)
        ensures
            match r {
                Ok(p) => p.frame().id == ID_HEARTBEAT && p.frame().data == Seq::<u8>::empty()
                    && !p.running() && p.timer().last() is None,
                Err(_) => false,
            },
    {
        match CanFrame::new(ID_HEARTBEAT, None) {
            Ok(can_frame) => Ok(HeartbeatProducer { can_frame, timer: Timer::new(0) }),
            Err(e) => Err(e),
        }
    }

    /// Transmits the signal frame once, on the network's selected bus. A
    /// failure is reported to the caller and does not affect the schedule.
    pub fn send<T: Bus>(&self, network: &mut Network<T>) -> (r: Result<(), CanFrameError>)
        ensures
            final(network).node_id() == old(network).node_id(),
            final(network).selection() == old(network).selection(),
            final(network).unselected() == old(network).unselected(),
            T::post_send(old(network).selected(), final(network).selected(), self.frame(), r),
            final(network).selected().receiving() == old(network).selected().receiving(),
    {
        network.send(&self.can_frame)
    }

    /// Starts the periodic schedule with the given period, replacing any
    /// schedule already running; the first poll fires immediately.
    pub fn start(&mut self, period_ms: u64)
        ensures
            final(self).frame() == old(self).frame(),
            final(self).running(),
            final(self).timer().period() == period_ms,
            final(self).timer().last() is None,
    {
        self.timer = Timer::new(period_ms);
        self.timer.start();
    }

    /// Stops the periodic schedule; no further poll fires. Idempotent.
    pub fn stop(&mut self)
        ensures
            final(self).frame() == old(self).frame(),
            !final(self).running(),
            final(self).timer().period() == old(self).timer().period(),
            final(self).timer().last() == old(self).timer().last(),
    {
        self.timer.stop();
    }

    /// Drives the schedule: when a full period has elapsed the signal frame
    /// is sent and the send's outcome returned; a failed send leaves the
    /// schedule running, so one missed beat never silences the producer.
    pub fn poll<T: Bus>(&mut self, now: u64, network: &mut Network<T>) -> (r: Option<
        Result<(), CanFrameError>,
    >)
        requires
            old(self).timer().last() is Some ==> old(self).timer().last().unwrap() <= now,
        ensures
            final(self).frame() == old(self).frame(),
            final(self).timer().running() == old(self).timer().running(),
            final(self).timer().period() == old(self).timer().period(),
            r is Some <==> old(self).timer().due(now),
            r is Some ==> final(self).timer().last() == Some(now),
            r is None ==> final(self).timer().last() == old(self).timer().last() && *final(network)
                == *old(network),
            match r {
                Some(res) => final(network).node_id() == old(network).node_id() && final(network)
                    .selection() == old(network).selection() && final(network).unselected() == old(
                    network,
                ).unselected() && T::post_send(
                    old(network).selected(),
                    final(network).selected(),
                    old(self).frame(),
                    res,
                ) && final(network).selected().receiving() == old(network).selected().receiving(),
                None => true,
            },
    {
        if self.timer.poll(now) {
            Some(network.send(&self.can_frame))
        } else {
            None
        }
    }
}

/// Receive-side liveness monitor of the heartbeat signal.
pub struct HeartbeatConsumer {
    last_received: Option<u64>,
    timeout_ms: u64,
}

impl HeartbeatConsumer {
    /// Time of the last received signal, if any.
    pub closed spec fn last(&self) -> Option<u64> {
        self.last_received
    }

    /// Configured timeout window in milliseconds.
    pub closed spec fn timeout(&self) -> u64 {
        self.timeout_ms
    }

    /// Liveness is lost at `now`: no signal was ever received, or the last
    /// one is older than the timeout window.
    pub open spec fn timed_out_at(&self, now: u64) -> bool {
        match self.last() {
            None => true,
            Some(t) => now - t > self.timeout(),
        }
    }

    /// A consumer that has not yet seen a signal.
    pub fn new(timeout_ms: u64) -> (r: Self)
        ensures
            r.last() is None,
            r.timeout() == timeout_ms,
    {
        HeartbeatConsumer { last_received: None, timeout_ms }
    }

    /// Records the receipt of a signal at `now`.
    pub fn received(&mut self, now: u64)
        ensures
            final(self).last() == Some(now),
            final(self).timeout() == old(self).timeout(),
    {
        self.last_received = Some(now);
    }

    /// Pure liveness query at `now`: true before any signal was received,
    /// and true again once the last receipt is older than the timeout.
    /// The clock must not run backwards past the last receipt.
    pub fn check_timeout(&self, now: u64) -> (r: bool)
        requires
            self.last() is Some ==> self.last().unwrap() <= now,
        ensures
            r == self.timed_out_at(now),
    {
        match self.last_received {
            Some(t) => now - t > self.timeout_ms,
            None => true,
        }
    }
}

/// A heartbeat status report: system uptime and a status flag byte.
pub struct Heartbeat {
    /// Uptime in the producer's own unit.
    pub uptime: u32,
    /// Status flag byte.
    pub status: u8,
}

impl Heartbeat {
    /// Payload encoding: the four uptime bytes, most significant first,
    /// followed by the status byte.
    pub fn to_payload(&self) -> (r: Vec<u8>)
        ensures
            r@ == seq![
                (self.uptime >> 24u32) as u8,
                (self.uptime >> 16u32) as u8,
                (self.uptime >> 8u32) as u8,
                self.uptime as u8,
                self.status,
            ],
    {
        let mut payload: Vec<u8> = Vec::new();
        payload.push((self.uptime >> 24u32) as u8);
        payload.push((self.uptime >> 16u32) as u8);
        payload.push((self.uptime >> 8u32) as u8);
        payload.push(self.uptime as u8);
        payload.push(self.status);
        assert(payload@ =~= seq![
            (self.uptime >> 24u32) as u8,
            (self.uptime >> 16u32) as u8,
            (self.uptime >> 8u32) as u8,
            self.uptime as u8,
            self.status,
        ]);
        payload
    }
}

/// Liveness phases of a consumer: before any signal it reports a timeout;
/// right after a signal it does not; once the signal is older than the
/// timeout window it does again.
pub proof fn lemma_liveness_phases(
    fresh: HeartbeatConsumer,
    seen: HeartbeatConsumer,
    t: u64,
    now: u64,
    later: u64,
)
    requires
        fresh.last() is None,
        seen.last() == Some(t),
        t <= now,
        now - t <= seen.timeout(),
        t <= later,
        later - t > seen.timeout(),
    ensures
        fresh.timed_out_at(now),
        !seen.timed_out_at(now),
        seen.timed_out_at(later),
{
}

} // verus!
