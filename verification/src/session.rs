//! The session as a state machine over plain values.
//!
//! [`Session`] is what a server is to its callers: its state, its counters
//! and the messages that wait to be sent.  Every operation of the server is a
//! function from one session to the next, and the rules that a session keeps
//! over any run of operations are proved here.

use vstd::prelude::*;

use crate::pdu::capability::{negotiated_capability, offers_version, CapabilitySet};
use crate::pdu::frame::{spec_frame_destination, Avc420Region, Timestamp};
use crate::pdu::message::{
    CapabilitiesConfirmPdu, Codec1Type, CreateSurfacePdu, EndFramePdu, GfxMessage,
    MapSurfaceToOutputPdu, PixelFormat, StartFramePdu,
};

verus! {

/// Number of unacknowledged frames at which a new session stops taking frames.
pub const DEFAULT_MAX_FRAMES_IN_FLIGHT: u32 = 3;

/// Identifier of the one surface of a session.
pub const SURFACE_ID: u16 = 0;

/// Where a session stands.  It only ever moves forward: from waiting to ready
/// to closed, or from waiting straight to closed.
#[derive(Debug, Clone, Copy, PartialEq, Eq, Structural)]
pub enum ServerState {
    /// No capability advertisement has arrived yet.
    WaitingForCapabilities,
    /// The surface is set up and frames can be sent.
    Ready,
    /// The channel is closed.
    Closed,
}

impl ServerState {
    /// How far along a state is.
    pub open spec fn rank(self) -> int {
        match self {
            ServerState::WaitingForCapabilities => 0,
            ServerState::Ready => 1,
            ServerState::Closed => 2,
        }
    }
}

/// The frame identifier that follows `id`.  After the largest identifier
/// comes zero.
pub open spec fn following_frame_id(id: u32) -> u32 {
    ((id + 1) % 0x1_0000_0000) as u32
}

/// A session, as far as its callers can tell.
pub ghost struct Session {
    pub state: ServerState,
    /// The capability set of the last negotiation, if there was one.
    pub negotiated: Option<CapabilitySet>,
    pub surface_id: u16,
    pub width: u16,
    pub height: u16,
    /// The identifier that the next frame gets.
    pub next_frame_id: u32,
    /// Frames sent and not yet acknowledged.
    pub frames_in_flight: u32,
    pub max_frames_in_flight: u32,
    /// Messages queued for the client, oldest first.
    pub pending: Seq<GfxMessage>,
}

/// Something that happens to a session: one for each operation of the server
/// that changes it.  Handling a message of the client is the event that the
/// message stands for, followed by a drain.
pub ghost enum Event {
    /// The client advertises `client`, and the handler prefers `preferred`.
    Advertise { client: Seq<CapabilitySet>, preferred: Seq<CapabilitySet> },
    /// The caller submits a frame.
    SendFrame { data: Seq<u8>, regions: Seq<Avc420Region>, timestamp_ms: u32 },
    /// The client acknowledges a frame.
    Acknowledge,
    /// The queued messages are taken.
    Drain,
    /// The caller sets the maximum of frames in flight.
    SetMaxFramesInFlight { max: u32 },
    /// The caller sets the size of the desktop.
    SetDimensions { width: u16, height: u16 },
    /// The channel is closed.
    Close,
}

impl Session {
    /// The session of a server that was just made for a desktop of the given
    /// size.
    pub open spec fn initial(width: u16, height: u16) -> Session {
        Session {
            state: ServerState::WaitingForCapabilities,
            negotiated: None,
            surface_id: SURFACE_ID,
            width,
            height,
            next_frame_id: 0,
            frames_in_flight: 0,
            max_frames_in_flight: DEFAULT_MAX_FRAMES_IN_FLIGHT,
            pending: Seq::empty(),
        }
    }

    pub open spec fn is_ready(self) -> bool {
        self.state == ServerState::Ready
    }

    /// Too many frames are unacknowledged for another one to be taken.
    pub open spec fn should_backpressure(self) -> bool {
        self.frames_in_flight >= self.max_frames_in_flight
    }

    /// A frame submitted now is taken.
    pub open spec fn accepts_frame(self) -> bool {
        self.is_ready() && !self.should_backpressure()
    }

    /// The four messages that set a session up, in the order in which the
    /// client expects them: the confirmation first, then the reset, the
    /// surface and its mapping to the origin of the output.
    pub open spec fn setup_messages(self, negotiated: CapabilitySet) -> Seq<GfxMessage> {
        seq![
            GfxMessage::CapabilitiesConfirm(CapabilitiesConfirmPdu(negotiated)),
            GfxMessage::ResetGraphics {
                width: self.width as u32,
                height: self.height as u32,
                monitors: Seq::empty(),
            },
            GfxMessage::CreateSurface(
                CreateSurfacePdu {
                    surface_id: self.surface_id,
                    width: self.width,
                    height: self.height,
                    pixel_format: PixelFormat::XRgb,
                },
            ),
            GfxMessage::MapSurfaceToOutput(
                MapSurfaceToOutputPdu {
                    surface_id: self.surface_id,
                    output_origin_x: 0,
                    output_origin_y: 0,
                },
            ),
        ]
    }

    /// The session after the client advertised `client` while the handler
    /// preferred `preferred`: a capability set is chosen, the setup messages
    /// are queued behind what was pending, and the session is ready.
    pub open spec fn advertised(
        self,
        client: Seq<CapabilitySet>,
        preferred: Seq<CapabilitySet>,
    ) -> Session {
        let negotiated = negotiated_capability(client, preferred);
        Session {
            state: ServerState::Ready,
            negotiated: Some(negotiated),
            pending: self.pending + self.setup_messages(negotiated),
            ..self
        }
    }

    /// The three messages of a frame that gets the identifier `frame_id`.
    pub open spec fn frame_messages(
        self,
        frame_id: u32,
        data: Seq<u8>,
        regions: Seq<Avc420Region>,
        timestamp_ms: u32,
    ) -> Seq<GfxMessage> {
        seq![
            GfxMessage::StartFrame(
                StartFramePdu { timestamp: Timestamp::from_millis(timestamp_ms), frame_id },
            ),
            GfxMessage::WireToSurface1 {
                surface_id: self.surface_id,
                codec_id: Codec1Type::Avc420,
                pixel_format: PixelFormat::XRgb,
                destination_rectangle: spec_frame_destination(regions, self.width, self.height),
                regions,
                data,
            },
            GfxMessage::EndFrame(EndFramePdu { frame_id }),
        ]
    }

    /// The identifier that a frame submitted now gets, if it is taken.
    pub open spec fn frame_id_issued(self) -> Option<u32> {
        if self.accepts_frame() {
            Some(self.next_frame_id)
        } else {
            None
        }
    }

    /// The session after a frame was submitted.  A frame that is not taken
    /// leaves the session as it was.
    pub open spec fn frame_sent(
        self,
        data: Seq<u8>,
        regions: Seq<Avc420Region>,
        timestamp_ms: u32,
    ) -> Session {
        if self.accepts_frame() {
            Session {
                next_frame_id: following_frame_id(self.next_frame_id),
                frames_in_flight: (self.frames_in_flight + 1) as u32,
                pending: self.pending + self.frame_messages(
                    self.next_frame_id,
                    data,
                    regions,
                    timestamp_ms,
                ),
                ..self
            }
        } else {
            self
        }
    }

    /// The session after the client acknowledged a frame, whichever frame it
    /// named: one frame fewer is in flight, unless none was.
    pub open spec fn acknowledged(self) -> Session {
        Session {
            frames_in_flight: if self.frames_in_flight > 0 {
                (self.frames_in_flight - 1) as u32
            } else {
                0
            },
            ..self
        }
    }

    /// The session after its queued messages were taken.
    pub open spec fn drained(self) -> Session {
        Session { pending: Seq::empty(), ..self }
    }

    pub open spec fn closed(self) -> Session {
        Session { state: ServerState::Closed, ..self }
    }

    /// The session after a message of the client was handled, before the
    /// answer is taken from the queue.  Only an advertisement and an
    /// acknowledgement change a session.
    pub open spec fn received(self, message: GfxMessage, preferred: Seq<CapabilitySet>) -> Session {
        match message {
            GfxMessage::CapabilitiesAdvertise { capabilities } => self.advertised(
                capabilities,
                preferred,
            ),
            GfxMessage::FrameAcknowledge(_) => self.acknowledged(),
            _ => self,
        }
    }

    /// A closed session gets no more messages of the client.  Everything else
    /// may happen at any time.
    pub open spec fn permits(self, event: Event) -> bool {
        match event {
            Event::Advertise { .. } => self.state != ServerState::Closed,
            Event::Acknowledge => self.state != ServerState::Closed,
            _ => true,
        }
    }

    /// The session after one event.
    pub open spec fn step(self, event: Event) -> Session {
        match event {
            Event::Advertise { client, preferred } => self.advertised(client, preferred),
            Event::SendFrame { data, regions, timestamp_ms } => self.frame_sent(
                data,
                regions,
                timestamp_ms,
            ),
            Event::Acknowledge => self.acknowledged(),
            Event::Drain => self.drained(),
            Event::SetMaxFramesInFlight { max } => Session { max_frames_in_flight: max, ..self },
            Event::SetDimensions { width, height } => Session { width, height, ..self },
            Event::Close => self.closed(),
        }
    }

    /// The session after a run of events, first to last.
    pub open spec fn run(self, events: Seq<Event>) -> Session
        decreases events.len(),
    {
        if events.len() == 0 {
            self
        } else {
            self.run(events.drop_last()).step(events.last())
        }
    }

    /// Every event of the run finds a session that permits it.
    pub open spec fn permits_run(self, events: Seq<Event>) -> bool
        decreases events.len(),
    {
        events.len() > 0 ==> {
            &&& self.permits_run(events.drop_last())
            &&& self.run(events.drop_last()).permits(events.last())
        }
    }

    /// The frame identifiers handed out during a run, in the order in which
    /// they were handed out.
    pub open spec fn issued(self, events: Seq<Event>) -> Seq<u32>
        decreases events.len(),
    {
        if events.len() == 0 {
            Seq::empty()
        } else {
            let before = self.run(events.drop_last());
            let earlier = self.issued(events.drop_last());
            if events.last() is SendFrame && before.accepts_frame() {
                earlier.push(before.next_frame_id)
            } else {
                earlier
            }
        }
    }
}

/// Every event of the run is the submission of a frame.
pub open spec fn only_frames(events: Seq<Event>) -> bool {
    forall|i: int| 0 <= i < events.len() ==> (#[trigger] events[i]) is SendFrame
}

/// Every event of the run is an acknowledgement.
pub open spec fn only_acknowledgements(events: Seq<Event>) -> bool {
    forall|i: int| 0 <= i < events.len() ==> (#[trigger] events[i]) is Acknowledge
}

/// No event of the run changes the maximum of frames in flight.
pub open spec fn keeps_maximum(events: Seq<Event>) -> bool {
    forall|i: int| 0 <= i < events.len() ==> !((#[trigger] events[i]) is SetMaxFramesInFlight)
}

impl Session {
    /// A session never goes back to an earlier state, and a closed session
    /// stays closed.
    pub proof fn lemma_state_only_moves_forward(self, events: Seq<Event>)
        requires
            self.permits_run(events),
        ensures
            self.state.rank() <= self.run(events).state.rank(),
            self.state == ServerState::Closed ==> self.run(events).state == ServerState::Closed,
        decreases events.len(),
    {
        if events.len() > 0 {
            self.lemma_state_only_moves_forward(events.drop_last());
        }
    }

    /// Nothing but draining takes a message from the queue or changes one
    /// that waits: what is pending before an event is still at the head of
    /// the queue after it, in the same order.
    pub proof fn lemma_queue_only_grows(self, event: Event)
        requires
            !(event is Drain),
        ensures
            self.pending.is_prefix_of(self.step(event).pending),
    {
    }

    /// As long as the queue is not drained, it keeps what it held at its head,
    /// in the same order, whatever is queued behind it and by whom.
    pub proof fn lemma_queue_keeps_its_order(self, events: Seq<Event>)
        requires
            forall|i: int| 0 <= i < events.len() ==> !((#[trigger] events[i]) is Drain),
        ensures
            self.pending.is_prefix_of(self.run(events).pending),
        decreases events.len(),
    {
        if events.len() > 0 {
            let earlier = events.drop_last();
            self.lemma_queue_keeps_its_order(earlier);
            self.run(earlier).lemma_queue_only_grows(events.last());
        }
    }

    /// Draining empties the queue, so that draining again at once finds
    /// nothing and changes nothing.
    pub proof fn lemma_second_drain_finds_nothing(self)
        ensures
            self.drained().pending.len() == 0,
            self.drained().drained() == self.drained(),
    {
    }

    /// While the maximum is left alone, a session that is within it stays
    /// within it: no frame is taken beyond the maximum.
    pub proof fn lemma_frames_in_flight_stay_bounded(self, events: Seq<Event>)
        requires
            self.frames_in_flight <= self.max_frames_in_flight,
            keeps_maximum(events),
        ensures
            self.run(events).max_frames_in_flight == self.max_frames_in_flight,
            self.run(events).frames_in_flight <= self.max_frames_in_flight,
        decreases events.len(),
    {
        if events.len() > 0 {
            self.lemma_frames_in_flight_stay_bounded(events.drop_last());
        }
    }

    /// Submitting frames changes nothing but the queue, the next identifier
    /// and the count of frames in flight, which grows by one for each frame
    /// taken.  If every frame of the run was taken, the session was ready and
    /// had room for all of them.
    pub proof fn lemma_frames_count_when_taken(self, frames: Seq<Event>)
        requires
            only_frames(frames),
        ensures
            self.run(frames).state == self.state,
            self.run(frames).max_frames_in_flight == self.max_frames_in_flight,
            self.issued(frames).len() <= frames.len(),
            self.run(frames).frames_in_flight == self.frames_in_flight + self.issued(frames).len(),
            self.issued(frames).len() == frames.len() && frames.len() > 0 ==> {
                &&& self.is_ready()
                &&& self.frames_in_flight + frames.len() <= self.max_frames_in_flight
            },
        decreases frames.len(),
    {
        if frames.len() > 0 {
            self.lemma_frames_count_when_taken(frames.drop_last());
        }
    }

    /// Frames submitted in a row to a ready session are all taken as long as
    /// the maximum leaves room for them.
    pub proof fn lemma_frames_are_taken_while_room(self, frames: Seq<Event>)
        requires
            self.is_ready(),
            only_frames(frames),
            self.frames_in_flight + frames.len() <= self.max_frames_in_flight,
        ensures
            self.issued(frames).len() == frames.len(),
        decreases frames.len(),
    {
        if frames.len() > 0 {
            self.lemma_frames_are_taken_while_room(frames.drop_last());
            self.lemma_frames_count_when_taken(frames.drop_last());
        }
    }

    /// With a maximum of n frames in flight, once n frames submitted in a row
    /// were all taken the session holds frames back: one more frame is not
    /// taken and changes nothing.
    pub proof fn lemma_backpressure_after_max_frames(self, frames: Seq<Event>, next: Event)
        requires
            only_frames(frames),
            frames.len() == self.max_frames_in_flight,
            self.issued(frames).len() == frames.len(),
            next is SendFrame,
        ensures
            self.run(frames).should_backpressure(),
            self.run(frames).frame_id_issued() is None,
            self.run(frames).step(next) == self.run(frames),
    {
        self.lemma_frames_count_when_taken(frames);
    }

    /// With a maximum of n frames in flight, n being at least one: once n
    /// frames submitted in a row were all taken and one acknowledgement came
    /// in, exactly one more frame is taken, the first that is submitted, and
    /// not the one after it.
    pub proof fn lemma_one_frame_after_acknowledgement(
        self,
        frames: Seq<Event>,
        first: Event,
        second: Event,
    )
        requires
            self.max_frames_in_flight >= 1,
            only_frames(frames),
            frames.len() == self.max_frames_in_flight,
            self.issued(frames).len() == frames.len(),
            first is SendFrame,
            second is SendFrame,
        ensures
            self.run(frames).step(Event::Acknowledge).frame_id_issued() is Some,
            self.run(frames).step(Event::Acknowledge).step(first).frame_id_issued() is None,
            self.run(frames).step(Event::Acknowledge).step(first).step(second)
                == self.run(frames).step(Event::Acknowledge).step(first),
    {
        self.lemma_frames_count_when_taken(frames);
    }

    /// The frames that are taken get consecutive identifiers, whatever else
    /// happens between them, and after the largest identifier comes zero: the
    /// k-th frame taken during a run gets the identifier that the first would
    /// get, plus k, modulo two to the power of 32.
    pub proof fn lemma_frame_ids_are_sequential(self, events: Seq<Event>)
        ensures
            forall|k: int|
                0 <= k < self.issued(events).len() ==> #[trigger] self.issued(events)[k]
                    == (self.next_frame_id + k) % 0x1_0000_0000,
            self.run(events).next_frame_id
                == (self.next_frame_id + self.issued(events).len()) % 0x1_0000_0000,
        decreases events.len(),
    {
        if events.len() > 0 {
            self.lemma_frame_ids_are_sequential(events.drop_last());
        }
    }

    /// In a new session the frames that are taken are numbered from zero.
    pub proof fn lemma_frame_ids_count_from_zero(width: u16, height: u16, events: Seq<Event>)
        ensures
            forall|k: int|
                0 <= k < Session::initial(width, height).issued(events).len()
                    ==> #[trigger] Session::initial(width, height).issued(events)[k]
                    == k % 0x1_0000_0000,
    {
        Session::initial(width, height).lemma_frame_ids_are_sequential(events);
    }

    /// Acknowledgements free one frame each until none is in flight, and
    /// change nothing from then on: more acknowledgements than frames in
    /// flight leave the count at zero.
    pub proof fn lemma_acknowledgements_stop_at_zero(self, acknowledgements: Seq<Event>)
        requires
            only_acknowledgements(acknowledgements),
        ensures
            acknowledgements.len() >= self.frames_in_flight
                ==> self.run(acknowledgements).frames_in_flight == 0,
            acknowledgements.len() < self.frames_in_flight
                ==> self.run(acknowledgements).frames_in_flight
                == self.frames_in_flight - acknowledgements.len(),
        decreases acknowledgements.len(),
    {
        if acknowledgements.len() > 0 {
            self.lemma_acknowledgements_stop_at_zero(acknowledgements.drop_last());
        }
    }

    /// If the client offers a set of the version that the server prefers
    /// most, the server's set is the one confirmed, with the server's flags.
    /// The confirmation is queued first, then the reset of the output, the
    /// creation of the surface and its mapping, and the session is ready.
    pub proof fn lemma_matching_version_is_confirmed(
        self,
        client: Seq<CapabilitySet>,
        preferred: Seq<CapabilitySet>,
    )
        requires
            preferred.len() > 0,
            offers_version(client, preferred[0].version()),
        ensures
            self.advertised(client, preferred).negotiated == Some(preferred[0]),
            self.advertised(client, preferred).is_ready(),
            self.advertised(client, preferred).pending == self.pending + seq![
                GfxMessage::CapabilitiesConfirm(CapabilitiesConfirmPdu(preferred[0])),
                GfxMessage::ResetGraphics {
                    width: self.width as u32,
                    height: self.height as u32,
                    monitors: Seq::empty(),
                },
                GfxMessage::CreateSurface(
                    CreateSurfacePdu {
                        surface_id: self.surface_id,
                        width: self.width,
                        height: self.height,
                        pixel_format: PixelFormat::XRgb,
                    },
                ),
                GfxMessage::MapSurfaceToOutput(
                    MapSurfaceToOutputPdu {
                        surface_id: self.surface_id,
                        output_origin_x: 0,
                        output_origin_y: 0,
                    },
                ),
            ],
    {
    }

    /// A client that offers one set and a server that prefers one set of the
    /// same version settle on the server's set.
    pub proof fn lemma_same_version_on_both_sides(self, client: CapabilitySet, server: CapabilitySet)
        requires
            client.version() == server.version(),
        ensures
            self.advertised(seq![client], seq![server]).negotiated == Some(server),
            self.advertised(seq![client], seq![server]).is_ready(),
            self.advertised(seq![client], seq![server]).pending == self.pending
                + self.setup_messages(server),
    {
        assert(seq![client][0].version() == server.version());
    }

    /// If the client offers no set of the version that the server prefers
    /// most, or the server prefers nothing, the baseline is confirmed.
    pub proof fn lemma_baseline_without_match(
        self,
        client: Seq<CapabilitySet>,
        preferred: Seq<CapabilitySet>,
    )
        requires
            preferred.len() == 0 || !offers_version(client, preferred[0].version()),
        ensures
            self.advertised(client, preferred).negotiated == Some(CapabilitySet::baseline()),
    {
    }
}

} // verus!
