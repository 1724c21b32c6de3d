//! Responder node: a peripheral at node id 1 to 127. It consumes the
//! heartbeat liveness signal and the sync and time distribution frames,
//! accepts telecommands addressed to its own id (reassembling segmented
//! packets), and produces telemetry on its own identifier.

use vstd::prelude::*;
use vstd::slice::slice_to_vec;
use crate::bus::{post_send_seq, post_send_seq_failed, Bus};
use crate::frame::{
    frame_view, CanFrame, CanFrameError, FrameView, FULL_MASK, FUNC_HEARTBEAT, FUNC_SCET,
    FUNC_SYNC, FUNC_TC, FUNC_UTC, ID_HEARTBEAT, ID_SCET, ID_SYNC, ID_TC, ID_TM, ID_UTC,
};
use crate::heartbeat::HeartbeatConsumer;
use crate::network::Network;
use crate::packet::{assembly_matches, AssemblyStatus, PacketAssembler};
use crate::time::{scet_coarse_of, scet_fine_of, utc_day_of, utc_ms_of_day_of, utc_sub_ms_of};

verus! {

/// What a responder's dispatch of one received frame reports.
#[derive(Debug)]
pub enum ResponderEvent {
    /// A heartbeat signal; the liveness monitor was refreshed.
    Heartbeat,
    /// A sync signal.
    Sync,
    /// A spacecraft-elapsed-time distribution.
    Scet { coarse_time: u32, fine_time: u32 },
    /// A UTC distribution.
    Utc { day: u16, ms_of_day: u32, sub_ms: u16 },
    /// A telecommand addressed to this node, with the reassembly outcome.
    Telecommand { data: Vec<u8>, node_id: u32, assembly: AssemblyStatus },
    /// Anything else: another band, a telecommand for another node, or a
    /// time frame too short to decode. The frame is skipped.
    Ignored,
}

/// The responder's dispatch outcome for one received frame: a heartbeat
/// refreshes the liveness monitor; sync and well-formed time frames are
/// surfaced; a telecommand addressed to this node carries its payload and
/// reassembly outcome; a telecommand for another node is silently filtered;
/// a time frame too short to decode is skipped; everything else is ignored.
pub open spec fn responder_event_matches(
    pre_hb: Option<HeartbeatConsumer>,
    post_hb: Option<HeartbeatConsumer>,
    pre_asm: Option<Map<u32, Map<u8, Seq<u8>>>>,
    post_asm: Option<Map<u32, Map<u8, Seq<u8>>>>,
    own_id: u32,
    f: FrameView,
    now: u64,
    r: ResponderEvent,
) -> bool {
    let hb_same = post_hb == pre_hb;
    let asm_same = post_asm == pre_asm;
    if f.func_id() == FUNC_HEARTBEAT {
        r is Heartbeat && asm_same && match pre_hb {
            None => post_hb is None,
            Some(c0) => match post_hb {
                Some(c1) => c1.last() == Some(now) && c1.timeout() == c0.timeout(),
                None => false,
            },
        }
    } else if f.func_id() == FUNC_SYNC {
        r is Sync && hb_same && asm_same
    } else if f.func_id() == FUNC_SCET {
        hb_same && asm_same && if f.data.len() >= 7 {
            r == (ResponderEvent::Scet {
                coarse_time: scet_coarse_of(f.data),
                fine_time: scet_fine_of(f.data),
            })
        } else {
            r is Ignored
        }
    } else if f.func_id() == FUNC_UTC {
        hb_same && asm_same && if f.data.len() >= 8 {
            r == (ResponderEvent::Utc {
                day: utc_day_of(f.data),
                ms_of_day: utc_ms_of_day_of(f.data),
                sub_ms: utc_sub_ms_of(f.data),
            })
        } else {
            r is Ignored
        }
    } else if f.func_id() == FUNC_TC && f.node_id() == own_id {
        hb_same && match r {
            ResponderEvent::Telecommand { data, node_id, assembly } => data@ == f.data && node_id
                == own_id && assembly_matches(pre_asm, post_asm, f, assembly),
            _ => false,
        }
    } else {
        r is Ignored && hb_same && asm_same
    }
}

/// A peripheral node.
pub struct Responder<T: Bus> {
    node_id: u32,
    heartbeat_period: Option<u64>,
    max_miss_heartbeat: u32,
    max_bus_switch: Option<u32>,
    network: Option<Network<T>>,
    heartbeat: Option<HeartbeatConsumer>,
    packet_assembler: Option<PacketAssembler>,
}

impl<T: Bus> Responder<T> {
    /// This node's id, in 1 to 127.
    pub closed spec fn node_id(&self) -> u32 {
        self.node_id
    }

    /// Configured heartbeat period, if liveness monitoring is enabled.
    pub closed spec fn heartbeat_period(&self) -> Option<u64> {
        self.heartbeat_period
    }

    /// How many heartbeat periods may pass before liveness is lost.
    pub closed spec fn max_miss_heartbeat(&self) -> u32 {
        self.max_miss_heartbeat
    }

    /// Configured bound on automatic bus switches, if any.
    pub closed spec fn max_bus_switch(&self) -> Option<u32> {
        self.max_bus_switch
    }

    /// The bound network, once connected.
    pub closed spec fn network(&self) -> Option<Network<T>> {
        self.network
    }

    /// The heartbeat liveness monitor, if enabled.
    pub closed spec fn heartbeat(&self) -> Option<HeartbeatConsumer> {
        self.heartbeat
    }

    /// The reassembly state of the packet service, if enabled.
    pub closed spec fn assembler(&self) -> Option<Map<u32, Map<u8, Seq<u8>>>> {
        match self.packet_assembler {
            Some(a) => Some(a@),
            None => None,
        }
    }

    /// Internal representation soundness, established by the constructor
    /// and preserved by every method.
    pub closed spec fn wf(&self) -> bool {
        &&& match self.packet_assembler {
            Some(a) => a.wf(),
            None => true,
        }
        &&& (self.heartbeat is Some <==> self.heartbeat_period is Some)
        &&& 1 <= self.node_id <= 127
    }

    /// Everything but the network is unchanged between two states.
    pub open spec fn same_config(a: Self, b: Self) -> bool {
        b.node_id() == a.node_id() && b.heartbeat_period() == a.heartbeat_period()
            && b.max_miss_heartbeat() == a.max_miss_heartbeat() && b.max_bus_switch()
            == a.max_bus_switch() && b.heartbeat() == a.heartbeat() && b.assembler()
            == a.assembler()
    }

    /// One frame went out through the selected bus of a connected network,
    /// with the bus's own send guarantee; an unconnected node drops the
    /// frame silently and reports success.
    pub open spec fn sent_one(a: Self, b: Self, f: FrameView, r: Result<(), CanFrameError>) -> bool {
        match a.network() {
            None => b.network() is None && r is Ok,
            Some(n0) => match b.network() {
                Some(n1) => n1.node_id() == n0.node_id() && n1.selection() == n0.selection()
                    && n1.unselected() == n0.unselected() && T::post_send(
                    n0.selected(),
                    n1.selected(),
                    f,
                    r,
                ) && n1.selected().receiving() == n0.selected().receiving(),
                None => false,
            },
        }
    }

    /// A responder with the given liveness configuration, not yet
    /// connected. The node id must lie in 1 to 127; the liveness window is
    /// the heartbeat period times the allowed number of misses.
    pub fn new(
        node_id: u32,
        heartbeat_period: Option<u64>,
        max_miss_heartbeat: u32,
        max_bus_switch: Option<u32>,
        with_packet_service: bool,
    ) -> (r: Self)
        requires
            1 <= node_id <= 127,
            heartbeat_period is Some ==> heartbeat_period.unwrap() * max_miss_heartbeat
                <= u64::MAX,
        ensures
            r.wf(),
            r.node_id() == node_id,
            r.heartbeat_period() == heartbeat_period,
            r.max_miss_heartbeat() == max_miss_heartbeat,
            r.max_bus_switch() == max_bus_switch,
            r.network() is None,
            match r.heartbeat() {
                Some(c) => heartbeat_period is Some && c.last() is None && c.timeout()
                    == heartbeat_period.unwrap() * max_miss_heartbeat,
                None => heartbeat_period is None,
            },
            r.assembler() == (if with_packet_service {
                Some(Map::<u32, Map<u8, Seq<u8>>>::empty())
            } else {
                None::<Map<u32, Map<u8, Seq<u8>>>>
            }),
    {
        let heartbeat = match heartbeat_period {
            Some(period) => Some(HeartbeatConsumer::new(period * (max_miss_heartbeat as u64))),
            None => None,
        };
        let packet_assembler = if with_packet_service {
            Some(PacketAssembler::new())
        } else {
            None
        };
        Responder {
            node_id,
            heartbeat_period,
            max_miss_heartbeat,
            max_bus_switch,
            network: None,
            heartbeat,
            packet_assembler,
        }
    }

    /// Identifier filters for the responder's role: the heartbeat, sync and
    /// time signals from the controller, and telecommands addressed to this
    /// node's own id.
    pub fn filters(&self) -> (r: Vec<(u32, u32)>)
        requires
            self.wf(),
        ensures
            r@ == seq![
                (ID_HEARTBEAT, FULL_MASK),
                (ID_SYNC, FULL_MASK),
                (ID_SCET, FULL_MASK),
                (ID_UTC, FULL_MASK),
                (((ID_TC + self.node_id()) as u32), FULL_MASK),
            ],
    {
        let mut filters: Vec<(u32, u32)> = Vec::new();
        filters.push((ID_HEARTBEAT, FULL_MASK));
        filters.push((ID_SYNC, FULL_MASK));
        filters.push((ID_SCET, FULL_MASK));
        filters.push((ID_UTC, FULL_MASK));
        filters.push((ID_TC + self.node_id, FULL_MASK));
        assert(filters@ =~= seq![
            (ID_HEARTBEAT, FULL_MASK),
            (ID_SYNC, FULL_MASK),
            (ID_SCET, FULL_MASK),
            (ID_UTC, FULL_MASK),
            (((ID_TC + self.node_id()) as u32), FULL_MASK),
        ]);
        filters
    }

    /// Binds the two physical buses into the dual-bus network, with the
    /// primary bus selected.
    pub fn connect(&mut self, bus_a: T, bus_b: T)
        requires
            old(self).wf(),
        ensures
            final(self).wf(),
            Self::same_config(*old(self), *final(self)),
            match final(self).network() {
                Some(n) => n.node_id() == old(self).node_id() && n.selection()
                    is Primary && n.bus_a() == bus_a && n.bus_b() == bus_b,
                None => false,
            },
    {
        self.network = Some(Network::new(self.node_id, bus_a, bus_b));
    }

    /// Unbinds the network.
    pub fn disconnect(&mut self)
        requires
            old(self).wf(),
        ensures
            final(self).wf(),
            Self::same_config(*old(self), *final(self)),
            final(self).network() is None,
    {
        self.network = None;
    }

    /// Starts reception on the selected bus.
    pub fn start(&mut self)
        requires
            old(self).wf(),
        ensures
            final(self).wf(),
            Self::same_config(*old(self), *final(self)),
            match old(self).network() {
                None => final(self).network() is None,
                Some(n0) => match final(self).network() {
                    Some(n1) => n1.node_id() == n0.node_id() && n1.selection() == n0.selection()
                        && n1.unselected() == n0.unselected() && n1.selected().buffered()
                        == Seq::<FrameView>::empty() && n1.selected().receiving(),
                    None => false,
                },
            },
    {
        if let Some(network) = &mut self.network {
            network.start();
        }
    }

    /// Stops reception on the selected bus.
    pub fn stop(&mut self)
        requires
            old(self).wf(),
        ensures
            final(self).wf(),
            Self::same_config(*old(self), *final(self)),
            match old(self).network() {
                None => final(self).network() is None,
                Some(n0) => match final(self).network() {
                    Some(n1) => n1.node_id() == n0.node_id() && n1.selection() == n0.selection()
                        && n1.unselected() == n0.unselected() && n1.selected().buffered()
                        == Seq::<FrameView>::empty() && !n1.selected().receiving(),
                    None => false,
                },
            },
    {
        if let Some(network) = &mut self.network {
            network.stop();
        }
    }

    /// Fails over to the other bus: the stale bus is drained and stopped,
    /// the other one started with an empty buffer. This is the action a
    /// responder takes when polling its liveness monitor reports a timeout.
    pub fn switch_bus(&mut self)
        requires
            old(self).wf(),
        ensures
            final(self).wf(),
            Self::same_config(*old(self), *final(self)),
            match old(self).network() {
                None => final(self).network() is None,
                Some(n0) => match final(self).network() {
                    Some(n1) => n1.node_id() == n0.node_id() && n1.selection() == n0.selection()
                        .toggled() && n1.selected().buffered() == Seq::<FrameView>::empty()
                        && n1.selected().receiving() && n1.unselected().buffered()
                        == Seq::<FrameView>::empty() && !n1.unselected().receiving(),
                    None => false,
                },
            },
    {
        if let Some(network) = &mut self.network {
            network.switch_bus();
        }
    }

    /// Sends one telemetry frame: the payload on the telemetry identifier
    /// offset by this node's own id. Fails with `DataTooLong` when the
    /// payload exceeds eight bytes.
    pub fn send_telemetry(&mut self, data: Vec<u8>) -> (r: Result<(), CanFrameError>)
        requires
            old(self).wf(),
        ensures
            final(self).wf(),
            Self::same_config(*old(self), *final(self)),
            data@.len() > 8 ==> r == Err::<(), CanFrameError>(CanFrameError::DataTooLong)
                && final(self).network() == old(self).network(),
            data@.len() <= 8 ==> Self::sent_one(
                *old(self),
                *final(self),
                frame_view((ID_TM + old(self).node_id()) as u32, data@),
                r,
            ),
    {
        if data.len() > 8 {
            return Err(CanFrameError::DataTooLong);
        }
        let id = ID_TM + self.node_id;
        self.send_on_id(id, data)
    }

    /// Sends a pre-split packet as telemetry: one frame per chunk, on this
    /// node's telemetry identifier, in chunk order. Stops at the first bus
    /// error and reports it.
    pub fn send_packet(&mut self, packet: Vec<Vec<u8>>) -> (r: Result<(), CanFrameError>)
        requires
            old(self).wf(),
            forall|i: int| 0 <= i < packet@.len() ==> (#[trigger] packet@[i])@.len() <= 8,
        ensures
            final(self).wf(),
            Self::same_config(*old(self), *final(self)),
            match old(self).network() {
                None => final(self).network() is None && r is Ok,
                Some(n0) => match final(self).network() {
                    Some(n1) => n1.node_id() == n0.node_id() && n1.selection() == n0.selection()
                        && n1.unselected() == n0.unselected() && (match r {
                        Ok(u) => post_send_seq(
                            n0.selected(),
                            n1.selected(),
                            crate::controller::framed((ID_TM + old(self).node_id()) as u32, packet@),
                        ),
                        Err(e) => post_send_seq_failed(
                            n0.selected(),
                            n1.selected(),
                            crate::controller::framed((ID_TM + old(self).node_id()) as u32, packet@),
                            e,
                        ),
                    }),
                    None => false,
                },
            },
    {
        let id = ID_TM + self.node_id;
        let ghost frames = crate::controller::framed(id, packet@);
        let mut i: usize = 0;
        proof {
            assert(frames.take(0) =~= Seq::<FrameView>::empty());
        }
        while i < packet.len()
            invariant
                old(self).wf(),
                self.wf(),
                id == ID_TM + old(self).node_id(),
                frames == crate::controller::framed(id, packet@),
                forall|k: int| 0 <= k < packet@.len() ==> (#[trigger] packet@[k])@.len() <= 8,
                0 <= i <= packet@.len(),
                Self::same_config(*old(self), *self),
                match old(self).network() {
                    None => self.network() is None,
                    Some(n0) => match self.network() {
                        Some(n1) => n1.node_id() == n0.node_id() && n1.selection() == n0.selection()
                            && n1.unselected() == n0.unselected() && post_send_seq(
                            n0.selected(),
                            n1.selected(),
                            frames.take(i as int),
                        ),
                        None => false,
                    },
                },
            decreases packet@.len() - i,
        {
            let chunk = slice_to_vec(packet[i].as_slice());
            let ghost net_before = self.network();
            let result = self.send_on_id(id, chunk);
            proof {
                if old(self).network() is Some {
                    let n0 = old(self).network().unwrap();
                    let nb = net_before.unwrap();
                    let n1 = self.network().unwrap();
                    assert(frames[i as int] == frame_view(id, packet@[i as int]@));
                    if result is Ok {
                        assert(result == Ok::<(), CanFrameError>(())) by {
                            let u = result->Ok_0;
                            assert(u == ());
                        }
                        crate::bus::lemma_post_send_seq_snoc(
                            n0.selected(),
                            nb.selected(),
                            n1.selected(),
                            frames.take(i as int),
                            frames[i as int],
                        );
                        assert(frames.take(i as int).push(frames[i as int]) =~= frames.take(
                            i as int + 1,
                        ));
                    }
                }
            }
            if let Err(e) = result {
                proof {
                    if old(self).network() is Some {
                        let n0 = old(self).network().unwrap();
                        let nb = net_before.unwrap();
                        let n1 = self.network().unwrap();
                        assert(post_send_seq(n0.selected(), nb.selected(), frames.take(i as int)));
                        assert(T::post_send(
                            nb.selected(),
                            n1.selected(),
                            frames[i as int],
                            Err(e),
                        ));
                        assert(post_send_seq_failed(n0.selected(), n1.selected(), frames, e));
                    }
                }
                return Err(e);
            }
            i = i + 1;
        }
        proof {
            assert(frames.take(packet@.len() as int) =~= frames);
        }
        Ok(())
    }

    /// Sends one frame with the given identifier and payload through the
    /// network, if connected.
    fn send_on_id(&mut self, can_id: u32, data: Vec<u8>) -> (r: Result<(), CanFrameError>)
        requires
            old(self).wf(),
            can_id <= FULL_MASK,
            data@.len() <= 8,
        ensures
            final(self).wf(),
            Self::same_config(*old(self), *final(self)),
            Self::sent_one(*old(self), *final(self), frame_view(can_id, data@), r),
    {
        let can_frame = match CanFrame::new(can_id, Some(data)) {
            Ok(f) => f,
            Err(_) => vstd::pervasive::unreached(),
        };
        if let Some(network) = &mut self.network {
            network.send(&can_frame)
        } else {
            Ok(())
        }
    }

    /// Dispatches one received frame at time `now`: a heartbeat refreshes
    /// the liveness monitor; sync and well-formed time frames are decoded
    /// and surfaced; a telecommand addressed to this node is reported and,
    /// when the packet service is enabled, consumed as a segment; a
    /// telecommand for another node, a malformed time frame, or any other
    /// band is skipped without error.
    pub fn received_frame(&mut self, can_frame: CanFrame, now: u64) -> (r: ResponderEvent)
        requires
            old(self).wf(),
        ensures
            final(self).wf(),
            final(self).node_id() == old(self).node_id(),
            final(self).heartbeat_period() == old(self).heartbeat_period(),
            final(self).max_miss_heartbeat() == old(self).max_miss_heartbeat(),
            final(self).max_bus_switch() == old(self).max_bus_switch(),
            final(self).network() == old(self).network(),
            responder_event_matches(
                old(self).heartbeat(),
                final(self).heartbeat(),
                old(self).assembler(),
                final(self).assembler(),
                old(self).node_id(),
                can_frame@,
                now,
                r,
            ),
    {
        let func_id = can_frame.get_func_id();
        let node_id = can_frame.get_node_id();
        if func_id == FUNC_HEARTBEAT {
            if let Some(consumer) = &mut self.heartbeat {
                consumer.received(now);
            }
            ResponderEvent::Heartbeat
        } else if func_id == FUNC_SYNC {
            ResponderEvent::Sync
        } else if func_id == FUNC_SCET {
            let data = can_frame.data();
            if data.len() >= 7 {
                let fine_time = ((data[0] as u32) << 16u32) | ((data[1] as u32) << 8u32) | (
                data[2] as u32);
                let coarse_time = ((data[3] as u32) << 24u32) | ((data[4] as u32) << 16u32) | ((
                data[5] as u32) << 8u32) | (data[6] as u32);
                ResponderEvent::Scet { coarse_time, fine_time }
            } else {
                ResponderEvent::Ignored
            }
        } else if func_id == FUNC_UTC {
            let data = can_frame.data();
            if data.len() >= 8 {
                let sub_ms = ((data[0] as u16) << 8u16) | (data[1] as u16);
                let ms_of_day = ((data[2] as u32) << 24u32) | ((data[3] as u32) << 16u32) | ((
                data[4] as u32) << 8u32) | (data[5] as u32);
                let day = ((data[6] as u16) << 8u16) | (data[7] as u16);
                ResponderEvent::Utc { day, ms_of_day, sub_ms }
            } else {
                ResponderEvent::Ignored
            }
        } else if func_id == FUNC_TC && node_id == self.node_id {
            let data = slice_to_vec(can_frame.data().as_slice());
            let assembly = match &mut self.packet_assembler {
                Some(assembler) => match assembler.process_frame(can_frame) {
                    Ok(Some(p)) => AssemblyStatus::Complete(p),
                    Ok(None) => AssemblyStatus::Incomplete,
                    Err(_) => AssemblyStatus::Malformed,
                },
                None => AssemblyStatus::NotRun,
            };
            ResponderEvent::Telecommand { data, node_id, assembly }
        } else {
            ResponderEvent::Ignored
        }
    }

    /// Polls the selected bus for one inbound frame and dispatches it at
    /// time `now`; the resulting event, if a frame was pending, is handed
    /// back.
    pub fn process(&mut self, now: u64) -> (r: Option<ResponderEvent>)
        requires
            old(self).wf(),
        ensures
            final(self).wf(),
            final(self).node_id() == old(self).node_id(),
            final(self).heartbeat_period() == old(self).heartbeat_period(),
            final(self).max_miss_heartbeat() == old(self).max_miss_heartbeat(),
            final(self).max_bus_switch() == old(self).max_bus_switch(),
            match old(self).network() {
                None => r is None && final(self).network() is None && final(self).heartbeat()
                    == old(self).heartbeat() && final(self).assembler() == old(self).assembler(),
                Some(n0) => match final(self).network() {
                    Some(n1) => n1.node_id() == n0.node_id() && n1.selection() == n0.selection()
                        && n1.unselected() == n0.unselected() && n1.selected().receiving()
                        == n0.selected().receiving() && (if n0.selected().buffered().len() == 0 {
                        r is None && n1.selected().buffered() == n0.selected().buffered()
                            && final(self).heartbeat() == old(self).heartbeat() && final(self)
                            .assembler() == old(self).assembler()
                    } else {
                        n1.selected().buffered() == n0.selected().buffered().drop_last() && (match r {
                            Some(ev) => responder_event_matches(
                                old(self).heartbeat(),
                                final(self).heartbeat(),
                                old(self).assembler(),
                                final(self).assembler(),
                                old(self).node_id(),
                                n0.selected().buffered().last(),
                                now,
                                ev,
                            ),
                            None => false,
                        })
                    }),
                    None => false,
                },
            },
    {
        let polled = if let Some(network) = &mut self.network {
            network.process()
        } else {
            None
        };
        match polled {
            Some(frame) => Some(self.received_frame(frame, now)),
            None => None,
        }
    }

    /// Polls the liveness monitor at time `now`: reports whether liveness
    /// is lost. The composing application decides on failover; detection
    /// and action are deliberately separate.
    pub fn check_heartbeat(&self, now: u64) -> (r: Option<bool>)
        requires
            self.wf(),
            match self.heartbeat() {
                Some(c) => c.last() is Some ==> c.last().unwrap() <= now,
                None => true,
            },
        ensures
            match self.heartbeat() {
                Some(c) => r == Some(c.timed_out_at(now)),
                None => r is None,
            },
    {
        match &self.heartbeat {
            Some(consumer) => Some(consumer.check_timeout(now)),
            None => None,
        }
    }
}

} // verus!
