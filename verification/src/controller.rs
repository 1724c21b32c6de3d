//! Controller node: the network coordinator at node id zero. It owns the
//! dual-bus network, produces the heartbeat and sync liveness signals,
//! distributes time, addresses telecommands to responders, and receives
//! telemetry from every other node, reassembling segmented packets.

use vstd::prelude::*;
use vstd::slice::slice_to_vec;
use crate::bus::{post_send_seq, post_send_seq_failed, Bus};
use crate::frame::{
    frame_view, CanFrame, CanFrameError, FrameView, FULL_MASK, FUNCTION_MASK, FUNC_TM, ID_SCET,
    ID_SYNC, ID_TC, ID_TM, ID_UTC,
};
use crate::heartbeat::HeartbeatProducer;
use crate::network::Network;
use crate::packet::{assembly_matches, AssemblyStatus, PacketAssembler};
use crate::sync::SyncProducer;
use crate::time::{scet_payload, utc_payload};

verus! {

/// What a controller's dispatch of one received frame reports.
#[derive(Debug)]
pub enum ControllerEvent {
    /// A telemetry frame from a responder, with the reassembly outcome.
    Telemetry { data: Vec<u8>, node_id: u32, assembly: AssemblyStatus },
    /// A frame outside the telemetry band; the controller ignores it.
    Ignored,
}

/// Frames a packet's chunks take on the wire: one frame per chunk, all on
/// the same identifier, in chunk order.
pub open spec fn framed(id: u32, chunks: Seq<Vec<u8>>) -> Seq<FrameView> {
    chunks.map_values(|c: Vec<u8>| frame_view(id, c@))
}

/// The controller's dispatch outcome for one received frame: a telemetry
/// frame yields its payload, source node and reassembly outcome; any other
/// band is ignored and leaves the reassembly state untouched.
pub open spec fn controller_event_matches(
    pre_asm: Option<Map<u32, Map<u8, Seq<u8>>>>,
    post_asm: Option<Map<u32, Map<u8, Seq<u8>>>>,
    f: FrameView,
    r: ControllerEvent,
) -> bool {
    if f.func_id() == FUNC_TM {
        match r {
            ControllerEvent::Telemetry { data, node_id, assembly } => data@ == f.data && node_id
                == f.node_id() && assembly_matches(pre_asm, post_asm, f, assembly),
            ControllerEvent::Ignored => false,
        }
    } else {
        r is Ignored && post_asm == pre_asm
    }
}

/// The network coordinator.
pub struct Controller<T: Bus> {
    node_id: u32,
    heartbeat_period: Option<u64>,
    sync_period: Option<u64>,
    network: Option<Network<T>>,
    heartbeat: Option<HeartbeatProducer>,
    sync: Option<SyncProducer>,
    packet_assembler: Option<PacketAssembler>,
}

impl<T: Bus> Controller<T> {
    /// The controller's node id (always zero).
    pub closed spec fn node_id(&self) -> u32 {
        self.node_id
    }

    /// Configured heartbeat period, if heartbeat production is enabled.
    pub closed spec fn heartbeat_period(&self) -> Option<u64> {
        self.heartbeat_period
    }

    /// Configured sync period, if sync production is enabled.
    pub closed spec fn sync_period(&self) -> Option<u64> {
        self.sync_period
    }

    /// The bound network, once connected.
    pub closed spec fn network(&self) -> Option<Network<T>> {
        self.network
    }

    /// The heartbeat producer, if enabled.
    pub closed spec fn heartbeat(&self) -> Option<HeartbeatProducer> {
        self.heartbeat
    }

    /// The sync producer, if enabled.
    pub closed spec fn sync(&self) -> Option<SyncProducer> {
        self.sync
    }

    /// The reassembly state of the packet service, if enabled.
    pub closed spec fn assembler(&self) -> Option<Map<u32, Map<u8, Seq<u8>>>> {
        match self.packet_assembler {
            Some(a) => Some(a@),
            None => None,
        }
    }

    /// Internal representation soundness, established by the constructor
    /// and preserved by every method.
    pub closed spec fn wf(&self) -> bool {
        &&& match self.packet_assembler {
            Some(a) => a.wf(),
            None => true,
        }
        &&& (self.heartbeat is Some <==> self.heartbeat_period is Some)
        &&& (self.sync is Some <==> self.sync_period is Some)
        &&& self.node_id == 0
    }

    /// Everything but the network is unchanged between two states.
    pub open spec fn same_config(a: Self, b: Self) -> bool {
        b.node_id() == a.node_id() && b.heartbeat_period() == a.heartbeat_period()
            && b.sync_period() == a.sync_period() && b.heartbeat() == a.heartbeat() && b.sync()
            == a.sync() && b.assembler() == a.assembler()
    }

    /// One frame went out through the selected bus of a connected network,
    /// with the bus's own send guarantee; an unconnected node drops the
    /// frame silently and reports success.
    pub open spec fn sent_one(a: Self, b: Self, f: FrameView, r: Result<(), CanFrameError>) -> bool {
        match a.network() {
            None => b.network() is None && r is Ok,
            Some(n0) => match b.network() {
                Some(n1) => n1.node_id() == n0.node_id() && n1.selection() == n0.selection()
                    && n1.unselected() == n0.unselected() && T::post_send(
                    n0.selected(),
                    n1.selected(),
                    f,
                    r,
                ) && n1.selected().receiving() == n0.selected().receiving(),
                None => false,
            },
        }
    }

    /// A controller with the given production periods, not yet connected.
    /// Its node id is fixed at zero.
    pub fn new(
        heartbeat_period: Option<u64>,
        sync_period: Option<u64>,
        with_packet_service: bool,
    ) -> (r: Self)
        ensures
            r.wf(),
            r.node_id() == 0,
            r.heartbeat_period() == heartbeat_period,
            r.sync_period() == sync_period,
            r.network() is None,
            match r.heartbeat() {
                Some(p) => heartbeat_period is Some && !p.running(),
                None => heartbeat_period is None,
            },
            match r.sync() {
                Some(p) => sync_period is Some && !p.running(),
                None => sync_period is None,
            },
            r.assembler() == (if with_packet_service {
                Some(Map::<u32, Map<u8, Seq<u8>>>::empty())
            } else {
                None::<Map<u32, Map<u8, Seq<u8>>>>
            }),
    {
        let heartbeat = if heartbeat_period.is_some() {
            match HeartbeatProducer::new() {
                Ok(p) => Some(p),
                Err(_) => vstd::pervasive::unreached(),
            }
        } else {
            None
        };
        let sync = if sync_period.is_some() {
            match SyncProducer::new() {
                Ok(p) => Some(p),
                Err(_) => vstd::pervasive::unreached(),
            }
        } else {
            None
        };
        let packet_assembler = if with_packet_service {
            Some(PacketAssembler::new())
        } else {
            None
        };
        Controller {
            node_id: 0,
            heartbeat_period,
            sync_period,
            network: None,
            heartbeat,
            sync,
            packet_assembler,
        }
    }

    /// Identifier filters for the controller's role: it admits only
    /// telemetry, from every responder.
    pub fn filters(&self) -> (r: Vec<(u32, u32)>)
        ensures
            r@ == seq![(ID_TM, FUNCTION_MASK)],
    {
        let mut filters: Vec<(u32, u32)> = Vec::new();
        filters.push((ID_TM, FUNCTION_MASK));
        assert(filters@ =~= seq![(ID_TM, FUNCTION_MASK)]);
        filters
    }

    /// Binds the two physical buses into the dual-bus network, with the
    /// primary bus selected.
    pub fn connect(&mut self, bus_a: T, bus_b: T)
        requires
            old(self).wf(),
        ensures
            final(self).wf(),
            Self::same_config(*old(self), *final(self)),
            match final(self).network() {
                Some(n) => n.node_id() == old(self).node_id() && n.selection()
                    is Primary && n.bus_a() == bus_a && n.bus_b() == bus_b,
                None => false,
            },
    {
        self.network = Some(Network::new(self.node_id, bus_a, bus_b));
    }

    /// Unbinds the network.
    pub fn disconnect(&mut self)
        requires
            old(self).wf(),
        ensures
            final(self).wf(),
            Self::same_config(*old(self), *final(self)),
            final(self).network() is None,
    {
        self.network = None;
    }

    /// Starts reception on the selected bus, then the heartbeat and sync
    /// production schedules, in that order: the timers must not fire into a
    /// torn-down network.
    pub fn start(&mut self)
        requires
            old(self).wf(),
        ensures
            final(self).wf(),
            final(self).node_id() == old(self).node_id(),
            final(self).heartbeat_period() == old(self).heartbeat_period(),
            final(self).sync_period() == old(self).sync_period(),
            final(self).assembler() == old(self).assembler(),
            match old(self).network() {
                None => final(self).network() is None,
                Some(n0) => match final(self).network() {
                    Some(n1) => n1.node_id() == n0.node_id() && n1.selection() == n0.selection()
                        && n1.unselected() == n0.unselected() && n1.selected().buffered()
                        == Seq::<FrameView>::empty() && n1.selected().receiving(),
                    None => false,
                },
            },
            match old(self).heartbeat() {
                None => final(self).heartbeat() is None,
                Some(p0) => match final(self).heartbeat() {
                    Some(p1) => p1.frame() == p0.frame() && p1.running() && p1.timer().period()
                        == old(self).heartbeat_period().unwrap(),
                    None => false,
                },
            },
            match old(self).sync() {
                None => final(self).sync() is None,
                Some(p0) => match final(self).sync() {
                    Some(p1) => p1.frame() == p0.frame() && p1.running() && p1.timer().period()
                        == old(self).sync_period().unwrap(),
                    None => false,
                },
            },
    {
        if let Some(network) = &mut self.network {
            network.start();
        }
        let heartbeat_period = self.heartbeat_period;
        if let Some(period) = heartbeat_period {
            if let Some(producer) = &mut self.heartbeat {
                producer.start(period);
            }
        }
        let sync_period = self.sync_period;
        if let Some(period) = sync_period {
            if let Some(producer) = &mut self.sync {
                producer.start(period);
            }
        }
    }

    /// Stops the production schedules, then reception, in that order.
    pub fn stop(&mut self)
        requires
            old(self).wf(),
        ensures
            final(self).wf(),
            final(self).node_id() == old(self).node_id(),
            final(self).heartbeat_period() == old(self).heartbeat_period(),
            final(self).sync_period() == old(self).sync_period(),
            final(self).assembler() == old(self).assembler(),
            match old(self).network() {
                None => final(self).network() is None,
                Some(n0) => match final(self).network() {
                    Some(n1) => n1.node_id() == n0.node_id() && n1.selection() == n0.selection()
                        && n1.unselected() == n0.unselected() && n1.selected().buffered()
                        == Seq::<FrameView>::empty() && !n1.selected().receiving(),
                    None => false,
                },
            },
            match old(self).heartbeat() {
                None => final(self).heartbeat() is None,
                Some(p0) => match final(self).heartbeat() {
                    Some(p1) => p1.frame() == p0.frame() && !p1.running(),
                    None => false,
                },
            },
            match old(self).sync() {
                None => final(self).sync() is None,
                Some(p0) => match final(self).sync() {
                    Some(p1) => p1.frame() == p0.frame() && !p1.running(),
                    None => false,
                },
            },
    {
        if let Some(producer) = &mut self.sync {
            producer.stop();
        }
        if let Some(producer) = &mut self.heartbeat {
            producer.stop();
        }
        if let Some(network) = &mut self.network {
            network.stop();
        }
    }

    /// Fails over to the other bus: the stale bus is drained and stopped,
    /// the other one started with an empty buffer.
    pub fn switch_bus(&mut self)
        requires
            old(self).wf(),
        ensures
            final(self).wf(),
            Self::same_config(*old(self), *final(self)),
            match old(self).network() {
                None => final(self).network() is None,
                Some(n0) => match final(self).network() {
                    Some(n1) => n1.node_id() == n0.node_id() && n1.selection() == n0.selection()
                        .toggled() && n1.selected().buffered() == Seq::<FrameView>::empty()
                        && n1.selected().receiving() && n1.unselected().buffered()
                        == Seq::<FrameView>::empty() && !n1.unselected().receiving(),
                    None => false,
                },
            },
    {
        if let Some(network) = &mut self.network {
            network.switch_bus();
        }
    }

    /// Distributes spacecraft elapsed time: fine time in three bytes and
    /// coarse time in four, most significant first, on the SCET identifier.
    pub fn send_scet(&mut self, coarse_time: u32, fine_time: u32) -> (r: Result<(), CanFrameError>)
        requires
            old(self).wf(),
        ensures
            final(self).wf(),
            Self::same_config(*old(self), *final(self)),
            Self::sent_one(
                *old(self),
                *final(self),
                frame_view(ID_SCET, scet_payload(coarse_time, fine_time)),
                r,
            ),
    {
        let mut data: Vec<u8> = Vec::new();
        data.push((fine_time >> 16u32) as u8);
        data.push((fine_time >> 8u32) as u8);
        data.push(fine_time as u8);
        data.push((coarse_time >> 24u32) as u8);
        data.push((coarse_time >> 16u32) as u8);
        data.push((coarse_time >> 8u32) as u8);
        data.push(coarse_time as u8);
        proof {
            assert(data@ =~= scet_payload(coarse_time, fine_time));
        }
        self.send_on_id(ID_SCET, data)
    }

    /// Distributes UTC: sub-milliseconds in two bytes, milliseconds of day
    /// in four, day count in two, most significant first, on the UTC
    /// identifier.
    pub fn send_utc(&mut self, day: u32, ms_of_day: u32, sub_ms: u32) -> (r: Result<(), CanFrameError>)
        requires
            old(self).wf(),
        ensures
            final(self).wf(),
            Self::same_config(*old(self), *final(self)),
            Self::sent_one(
                *old(self),
                *final(self),
                frame_view(ID_UTC, utc_payload(day, ms_of_day, sub_ms)),
                r,
            ),
    {
        let mut data: Vec<u8> = Vec::new();
        data.push((sub_ms >> 8u32) as u8);
        data.push(sub_ms as u8);
        data.push((ms_of_day >> 24u32) as u8);
        data.push((ms_of_day >> 16u32) as u8);
        data.push((ms_of_day >> 8u32) as u8);
        data.push(ms_of_day as u8);
        data.push((day >> 8u32) as u8);
        data.push(day as u8);
        proof {
            assert(data@ =~= utc_payload(day, ms_of_day, sub_ms));
        }
        self.send_on_id(ID_UTC, data)
    }

    /// Sends one sync signal frame immediately, outside any schedule.
    pub fn send_sync(&mut self) -> (r: Result<(), CanFrameError>)
        requires
            old(self).wf(),
        ensures
            final(self).wf(),
            Self::same_config(*old(self), *final(self)),
            Self::sent_one(*old(self), *final(self), frame_view(ID_SYNC, Seq::<u8>::empty()), r),
    {
        self.send_on_id(ID_SYNC, Vec::new())
    }

    /// Sends a telecommand frame addressed to one responder: the payload on
    /// the telecommand identifier offset by the destination node id. Fails
    /// with `DataTooLong` when the payload exceeds eight bytes.
    pub fn send_telecommand(&mut self, data: Vec<u8>, node_id: u32) -> (r: Result<(), CanFrameError>)
        requires
            old(self).wf(),
            1 <= node_id <= 127,
        ensures
            final(self).wf(),
            Self::same_config(*old(self), *final(self)),
            data@.len() > 8 ==> r == Err::<(), CanFrameError>(CanFrameError::DataTooLong)
                && final(self).network() == old(self).network(),
            data@.len() <= 8 ==> Self::sent_one(
                *old(self),
                *final(self),
                frame_view((ID_TC + node_id) as u32, data@),
                r,
            ),
    {
        if data.len() > 8 {
            return Err(CanFrameError::DataTooLong);
        }
        self.send_on_id(ID_TC + node_id, data)
    }

    /// Sends a pre-split packet to one responder: one telecommand frame per
    /// chunk, in chunk order. Stops at the first bus error and reports it.
    pub fn send_packet(&mut self, packet: Vec<Vec<u8>>, node_id: u32) -> (r: Result<(), CanFrameError>)
        requires
            old(self).wf(),
            1 <= node_id <= 127,
            forall|i: int| 0 <= i < packet@.len() ==> (#[trigger] packet@[i])@.len() <= 8,
        ensures
            final(self).wf(),
            Self::same_config(*old(self), *final(self)),
            match old(self).network() {
                None => final(self).network() is None && r is Ok,
                Some(n0) => match final(self).network() {
                    Some(n1) => n1.node_id() == n0.node_id() && n1.selection() == n0.selection()
                        && n1.unselected() == n0.unselected() && (match r {
                        Ok(u) => post_send_seq(
                            n0.selected(),
                            n1.selected(),
                            framed((ID_TC + node_id) as u32, packet@),
                        ),
                        Err(e) => post_send_seq_failed(
                            n0.selected(),
                            n1.selected(),
                            framed((ID_TC + node_id) as u32, packet@),
                            e,
                        ),
                    }),
                    None => false,
                },
            },
    {
        let id = ID_TC + node_id;
        let ghost frames = framed(id, packet@);
        let mut i: usize = 0;
        proof {
            assert(frames.take(0) =~= Seq::<FrameView>::empty());
        }
        while i < packet.len()
            invariant
                old(self).wf(),
                self.wf(),
                id == ID_TC + node_id,
                1 <= node_id <= 127,
                frames == framed(id, packet@),
                forall|k: int| 0 <= k < packet@.len() ==> (#[trigger] packet@[k])@.len() <= 8,
                0 <= i <= packet@.len(),
                Self::same_config(*old(self), *self),
                match old(self).network() {
                    None => self.network() is None,
                    Some(n0) => match self.network() {
                        Some(n1) => n1.node_id() == n0.node_id() && n1.selection() == n0.selection()
                            && n1.unselected() == n0.unselected() && post_send_seq(
                            n0.selected(),
                            n1.selected(),
                            frames.take(i as int),
                        ),
                        None => false,
                    },
                },
            decreases packet@.len() - i,
        {
            let chunk = slice_to_vec(packet[i].as_slice());
            let ghost net_before = self.network();
            let result = self.send_on_id(id, chunk);
            proof {
                if old(self).network() is Some {
                    let n0 = old(self).network().unwrap();
                    let nb = net_before.unwrap();
                    let n1 = self.network().unwrap();
                    assert(frames[i as int] == frame_view(id, packet@[i as int]@));
                    if result is Ok {
                        assert(result == Ok::<(), CanFrameError>(())) by {
                            let u = result->Ok_0;
                            assert(u == ());
                        }
                        crate::bus::lemma_post_send_seq_snoc(
                            n0.selected(),
                            nb.selected(),
                            n1.selected(),
                            frames.take(i as int),
                            frames[i as int],
                        );
                        assert(frames.take(i as int).push(frames[i as int]) =~= frames.take(
                            i as int + 1,
                        ));
                    }
                }
            }
            if let Err(e) = result {
                proof {
                    if old(self).network() is Some {
                        let n0 = old(self).network().unwrap();
                        let nb = net_before.unwrap();
                        let n1 = self.network().unwrap();
                        assert(post_send_seq(n0.selected(), nb.selected(), frames.take(i as int)));
                        assert(T::post_send(
                            nb.selected(),
                            n1.selected(),
                            frames[i as int],
                            Err(e),
                        ));
                        assert(post_send_seq_failed(n0.selected(), n1.selected(), frames, e));
                    }
                }
                return Err(e);
            }
            i = i + 1;
        }
        proof {
            assert(frames.take(packet@.len() as int) =~= frames);
        }
        Ok(())
    }

    /// Sends one frame with the given identifier and payload through the
    /// network, if connected. The identifier must lie in the 11-bit space
    /// and the payload within eight bytes.
    fn send_on_id(&mut self, can_id: u32, data: Vec<u8>) -> (r: Result<(), CanFrameError>)
        requires
            old(self).wf(),
            can_id <= FULL_MASK,
            data@.len() <= 8,
        ensures
            final(self).wf(),
            Self::same_config(*old(self), *final(self)),
            Self::sent_one(*old(self), *final(self), frame_view(can_id, data@), r),
    {
        let can_frame = match CanFrame::new(can_id, Some(data)) {
            Ok(f) => f,
            Err(_) => vstd::pervasive::unreached(),
        };
        if let Some(network) = &mut self.network {
            network.send(&can_frame)
        } else {
            Ok(())
        }
    }

    /// Dispatches one received frame. The controller handles only the
    /// telemetry band: the frame's payload and source node id are reported,
    /// and the packet service, when enabled, consumes the frame as a
    /// segment. Everything else is ignored.
    pub fn received_frame(&mut self, can_frame: CanFrame) -> (r: ControllerEvent)
        requires
            old(self).wf(),
        ensures
            final(self).wf(),
            final(self).node_id() == old(self).node_id(),
            final(self).heartbeat_period() == old(self).heartbeat_period(),
            final(self).sync_period() == old(self).sync_period(),
            final(self).heartbeat() == old(self).heartbeat(),
            final(self).sync() == old(self).sync(),
            final(self).network() == old(self).network(),
            controller_event_matches(old(self).assembler(), final(self).assembler(), can_frame@, r),
    {
        let func_id = can_frame.get_func_id();
        let node_id = can_frame.get_node_id();
        if func_id == FUNC_TM {
            let data = slice_to_vec(can_frame.data().as_slice());
            let assembly = match &mut self.packet_assembler {
                Some(assembler) => match assembler.process_frame(can_frame) {
                    Ok(Some(p)) => AssemblyStatus::Complete(p),
                    Ok(None) => AssemblyStatus::Incomplete,
                    Err(_) => AssemblyStatus::Malformed,
                },
                None => AssemblyStatus::NotRun,
            };
            ControllerEvent::Telemetry { data, node_id, assembly }
        } else {
            ControllerEvent::Ignored
        }
    }

    /// Polls the selected bus for one inbound frame and dispatches it; the
    /// resulting event, if a frame was pending, is handed back.
    pub fn process(&mut self) -> (r: Option<ControllerEvent>)
        requires
            old(self).wf(),
        ensures
            final(self).wf(),
            final(self).node_id() == old(self).node_id(),
            final(self).heartbeat_period() == old(self).heartbeat_period(),
            final(self).sync_period() == old(self).sync_period(),
            final(self).heartbeat() == old(self).heartbeat(),
            final(self).sync() == old(self).sync(),
            match old(self).network() {
                None => r is None && final(self).network() is None && final(self).assembler()
                    == old(self).assembler(),
                Some(n0) => match final(self).network() {
                    Some(n1) => n1.node_id() == n0.node_id() && n1.selection() == n0.selection()
                        && n1.unselected() == n0.unselected() && n1.selected().receiving()
                        == n0.selected().receiving() && (if n0.selected().buffered().len() == 0 {
                        r is None && n1.selected().buffered() == n0.selected().buffered()
                            && final(self).assembler() == old(self).assembler()
                    } else {
                        n1.selected().buffered() == n0.selected().buffered().drop_last() && (match r {
                            Some(ev) => controller_event_matches(
                                old(self).assembler(),
                                final(self).assembler(),
                                n0.selected().buffered().last(),
                                ev,
                            ),
                            None => false,
                        })
                    }),
                    None => false,
                },
            },
    {
        let polled = if let Some(network) = &mut self.network {
            network.process()
        } else {
            None
        };
        match polled {
            Some(frame) => Some(self.received_frame(frame)),
            None => None,
        }
    }
}

} // verus!
