//! The server of a graphics pipeline channel.
//!
//! ```text
//! Client                                  Server
//!    |                                       |
//!    |--- CapabilitiesAdvertise ------------>|
//!    |<----------- CapabilitiesConfirm ------|
//!    |<----------- ResetGraphics ------------|
//!    |<----------- CreateSurface ------------|
//!    |<----------- MapSurfaceToOutput -------|
//!    |                                       |
//!    |  (for each frame)                     |
//!    |<----------- StartFrame ---------------|
//!    |<----------- WireToSurface1 -----------|
//!    |<----------- EndFrame -----------------|
//!    |                                       |
//!    |--- FrameAcknowledge ----------------->|
//! ```
//!
//! A [`GraphicsPipelineServer`] answers the client's advertisement, hands out
//! frame identifiers and holds frames back while too many are unacknowledged.
//! What it sends it queues; the transport takes the queue with
//! [`GraphicsPipelineServer::drain_output`].

use std::collections::VecDeque;
use vstd::prelude::*;
use vstd::slice::slice_to_vec;

use crate::pdu::capability::{negotiated_capability, CapabilitySet};
use crate::pdu::frame::{frame_destination, Avc420BitmapStream, Avc420Region, Timestamp};
use crate::pdu::message::{
    messages, CacheImportOfferPdu, CapabilitiesAdvertisePdu, CapabilitiesConfirmPdu, Codec1Type,
    CreateSurfacePdu, EndFramePdu, FrameAcknowledgePdu, GfxMessage, GfxPdu,
    MapSurfaceToOutputPdu, PixelFormat, ResetGraphicsPdu, StartFramePdu, WireToSurface1Pdu,
};
use crate::session::{
    following_frame_id, ServerState, Session, DEFAULT_MAX_FRAMES_IN_FLIGHT, SURFACE_ID,
};

verus! {

/// Name under which the channel is known to the transport.
pub const CHANNEL_NAME: &'static str = "Microsoft::Windows::RDS::Graphics";

/// What a handler prefers unless it says otherwise: the baseline alone.
pub fn default_preferred_capabilities() -> (preferred: Vec<CapabilitySet>)
    ensures
        preferred@ == seq![CapabilitySet::baseline()],
{
    let mut preferred: Vec<CapabilitySet> = Vec::new();
    preferred.push(CapabilitySet::baseline());
    preferred
}

/// The application's side of a session.
///
/// The server calls a handler as things happen on the channel, and asks it
/// which capability sets the application prefers.  It relies on nothing that
/// a handler does or returns.
pub trait GraphicsPipelineHandler: Send {
    /// The client has advertised its capability sets.
    fn capabilities_advertise(&mut self, pdu: CapabilitiesAdvertisePdu);

    /// The client has acknowledged a frame; `pdu` is its message.
    fn frame_acknowledge(&mut self, _pdu: FrameAcknowledgePdu) {
    }

    /// The client has offered the bitmaps of its cache.
    fn cache_import_offer(&mut self, _pdu: CacheImportOfferPdu) {
    }

    /// The capability sets that the application prefers, best first.
    ///
    /// An implementor may return any list, an empty one too.  Left as it is,
    /// the method returns what [`default_preferred_capabilities`] does.
    fn preferred_capabilities(&self) -> Vec<CapabilitySet> {
        default_preferred_capabilities()
    }

    /// The surface is set up: frames can be sent from now on.
    fn on_ready(&mut self, _surface_id: u16, _width: u16, _height: u16) {
    }

    /// The client has acknowledged the frame `frame_id`.
    fn on_frame_ack(&mut self, _frame_id: u32) {
    }

    /// The channel is closed.
    fn on_close(&mut self) {
    }
}

/// Server of one graphics pipeline channel.
pub struct GraphicsPipelineServer {
    handler: Box<dyn GraphicsPipelineHandler>,
    state: ServerState,
    negotiated_caps: Option<CapabilitySet>,
    surface_id: u16,
    width: u16,
    height: u16,
    frame_id: u32,
    frames_in_flight: u32,
    max_frames_in_flight: u32,
    output_queue: VecDeque<GfxPdu>,
}

impl View for GraphicsPipelineServer {
    type V = Session;

    closed spec fn view(&self) -> Session {
        Session {
            state: self.state,
            negotiated: self.negotiated_caps,
            surface_id: self.surface_id,
            width: self.width,
            height: self.height,
            next_frame_id: self.frame_id,
            frames_in_flight: self.frames_in_flight,
            max_frames_in_flight: self.max_frames_in_flight,
            pending: messages(self.output_queue@),
        }
    }
}

impl GraphicsPipelineServer {
    /// The handler that the server holds.
    pub closed spec fn handler(&self) -> Box<dyn GraphicsPipelineHandler> {
        self.handler
    }

    /// Makes the server of a new session for a desktop of the given size.
    pub fn new(handler: Box<dyn GraphicsPipelineHandler>, width: u16, height: u16) -> (server: Self)
        ensures
            server@ == Session::initial(width, height),
            !server@.is_ready(),
            server@.frames_in_flight == 0,
            server@.width == width && server@.height == height,
            server@.pending.len() == 0,
    {
        let server = GraphicsPipelineServer {
            handler,
            state: ServerState::WaitingForCapabilities,
            negotiated_caps: None,
            surface_id: SURFACE_ID,
            width,
            height,
            frame_id: 0,
            frames_in_flight: 0,
            max_frames_in_flight: DEFAULT_MAX_FRAMES_IN_FLIGHT,
            output_queue: VecDeque::new(),
        };
        assert(server@.pending =~= Seq::empty());
        server
    }

    /// Sets the number of unacknowledged frames at which frames are held
    /// back.  It counts from the next frame on.
    pub fn set_max_frames_in_flight(&mut self, max: u32)
        ensures
            final(self)@ == (Session { max_frames_in_flight: max, ..old(self)@ }),
            final(self).handler() == old(self).handler(),
    {
        self.max_frames_in_flight = max;
    }

    /// Whether frames can be sent.
    #[must_use]
    pub fn is_ready(&self) -> (ready: bool)
        ensures
            ready == self@.is_ready(),
    {
        self.state == ServerState::Ready
    }

    /// Whether the channel is closed.
    #[must_use]
    pub fn is_closed(&self) -> (closed: bool)
        ensures
            closed == (self@.state == ServerState::Closed),
    {
        self.state == ServerState::Closed
    }

    /// Whether so many frames are unacknowledged that the caller should drop
    /// or delay the next one.
    #[must_use]
    pub fn should_backpressure(&self) -> (hold: bool)
        ensures
            hold == self@.should_backpressure(),
    {
        self.frames_in_flight >= self.max_frames_in_flight
    }

    /// The number of frames sent and not yet acknowledged.
    #[must_use]
    pub fn frames_in_flight(&self) -> (n: u32)
        ensures
            n == self@.frames_in_flight,
    {
        self.frames_in_flight
    }

    /// The identifier of the session's surface.
    #[must_use]
    pub fn surface_id(&self) -> (id: u16)
        ensures
            id == self@.surface_id,
    {
        self.surface_id
    }

    /// Width and height of the desktop.
    #[must_use]
    pub fn dimensions(&self) -> (size: (u16, u16))
        ensures
            size == (self@.width, self@.height),
    {
        (self.width, self.height)
    }

    /// Records a new size of the desktop.  A surface that exists keeps its
    /// size; the next negotiation creates one of the new size.
    pub fn set_dimensions(&mut self, width: u16, height: u16)
        ensures
            final(self)@ == (Session { width, height, ..old(self)@ }),
            final(self).handler() == old(self).handler(),
    {
        self.width = width;
        self.height = height;
    }

    /// Hands out the next frame identifier.
    fn next_frame_id(&mut self) -> (id: u32)
        ensures
            id == old(self)@.next_frame_id,
            final(self)@ == (Session { next_frame_id: following_frame_id(id), ..old(self)@ }),
            final(self).handler() == old(self).handler(),
    {
        let id: u32 = self.frame_id;
        self.frame_id = self.frame_id.wrapping_add(1);
        id
    }
}

impl GraphicsPipelineServer {
    /// Queues an H.264 frame for the client.
    ///
    /// `h264_data` is the coded frame, `regions` the areas that it codes, and
    /// `timestamp_ms` the time of the frame in milliseconds since the session
    /// began.  The frame is taken if the session is ready and fewer frames are
    /// unacknowledged than the maximum allows.  Then its three messages are
    /// queued, it counts as in flight, and its identifier is returned.  A frame
    /// that is not taken changes nothing; the caller may offer it again later.
    pub fn send_avc420_frame(
        &mut self,
        h264_data: &[u8],
        regions: &[Avc420Region],
        timestamp_ms: u32,
    ) -> (frame: Option<u32>)
        ensures
            frame == old(self)@.frame_id_issued(),
            final(self)@ == old(self)@.frame_sent(h264_data@, regions@, timestamp_ms),
            !old(self)@.is_ready() || old(self)@.should_backpressure() ==> {
                &&& frame is None
                &&& final(self)@ == old(self)@
            },
            final(self).handler() == old(self).handler(),
    {
        if !self.is_ready() {
            return None;
        }
        if self.should_backpressure() {
            return None;
        }
        let ghost before = self@;
        let frame_id: u32 = self.next_frame_id();
        let ghost queued = self.output_queue@;
        let bitmap_data = Avc420BitmapStream {
            regions: slice_to_vec(regions),
            data: slice_to_vec(h264_data),
        };
        let dest_rect = frame_destination(regions, self.width, self.height);
        let timestamp = Timestamp::from_millis(timestamp_ms);

        let start = GfxPdu::StartFrame(StartFramePdu { timestamp, frame_id });
        let wire = GfxPdu::WireToSurface1(
            WireToSurface1Pdu {
                surface_id: self.surface_id,
                codec_id: Codec1Type::Avc420,
                pixel_format: PixelFormat::XRgb,
                destination_rectangle: dest_rect,
                bitmap_data,
            },
        );
        let end = GfxPdu::EndFrame(EndFramePdu { frame_id });
        proof {
            assert(messages(queued.push(start).push(wire).push(end)) =~= messages(queued)
                + before.frame_messages(frame_id, h264_data@, regions@, timestamp_ms));
        }
        self.output_queue.push_back(start);
        self.output_queue.push_back(wire);
        self.output_queue.push_back(end);

        self.frames_in_flight += 1;
        Some(frame_id)
    }

    /// Takes the queued messages, oldest first, and leaves the queue empty.
    pub fn drain_output(&mut self) -> (output: Vec<GfxPdu>)
        ensures
            messages(output@) == old(self)@.pending,
            final(self)@ == old(self)@.drained(),
            final(self).handler() == old(self).handler(),
    {
        let mut output: Vec<GfxPdu> = Vec::new();
        let ghost queued = self.output_queue@;
        loop
            invariant
                output@ + self.output_queue@ == queued,
                self.handler == old(self).handler,
                self.state == old(self).state,
                self.negotiated_caps == old(self).negotiated_caps,
                self.surface_id == old(self).surface_id,
                self.width == old(self).width,
                self.height == old(self).height,
                self.frame_id == old(self).frame_id,
                self.frames_in_flight == old(self).frames_in_flight,
                self.max_frames_in_flight == old(self).max_frames_in_flight,
            ensures
                self.output_queue@.len() == 0,
            decreases self.output_queue@.len(),
        {
            match self.output_queue.pop_front() {
                Some(pdu) => {
                    output.push(pdu);
                },
                None => {
                    break ;
                },
            }
        }
        assert(messages(self.output_queue@) =~= Seq::empty());
        output
    }

    /// Whether messages wait to be taken.
    #[must_use]
    pub fn has_pending_output(&self) -> (pending: bool)
        ensures
            pending == (self@.pending.len() > 0),
    {
        self.output_queue.len() > 0
    }

    /// Chooses the capability set of the session from what the client offers
    /// and what the server prefers.
    pub fn negotiate_capabilities(
        &self,
        client_caps: &[CapabilitySet],
        server_caps: &[CapabilitySet],
    ) -> (negotiated: CapabilitySet)
        ensures
            negotiated == negotiated_capability(client_caps@, server_caps@),
    {
        if server_caps.len() > 0 {
            let preferred: CapabilitySet = server_caps[0];
            let wanted = preferred.version();
            let mut i: usize = 0;
            while i < client_caps.len()
                invariant
                    i <= client_caps.len(),
                    server_caps@.len() > 0,
                    preferred == server_caps@[0],
                    wanted == preferred.version(),
                    forall|j: int| 0 <= j < i ==> (#[trigger] client_caps@[j]).version() != wanted,
                decreases client_caps.len() - i,
            {
                if client_caps[i].version() == wanted {
                    return preferred;
                }
                i += 1;
            }
        }
        CapabilitySet::baseline()
    }
}

impl GraphicsPipelineServer {
    /// Settles the session on a capability set and sets its surface up, given
    /// what the client offers and what the handler prefers.
    ///
    /// Four messages are queued, in the order in which the client expects
    /// them: the confirmation of the chosen set, the reset of the graphics
    /// output to the size of the desktop, the creation of the surface, and its
    /// mapping to the origin of the output.  The session is ready afterwards.
    pub fn complete_negotiation(
        &mut self,
        client_caps: &[CapabilitySet],
        server_caps: &[CapabilitySet],
    )
        requires
            old(self)@.state != ServerState::Closed,
        ensures
            final(self)@ == old(self)@.advertised(client_caps@, server_caps@),
            final(self).handler() == old(self).handler(),
    {
        let ghost before = self@;
        let ghost queued = self.output_queue@;
        let negotiated = self.negotiate_capabilities(client_caps, server_caps);

        self.negotiated_caps = Some(negotiated);

        let confirm = GfxPdu::CapabilitiesConfirm(CapabilitiesConfirmPdu(negotiated));
        let reset = GfxPdu::ResetGraphics(
            ResetGraphicsPdu {
                width: self.width as u32,
                height: self.height as u32,
                monitors: Vec::new(),
            },
        );
        let create = GfxPdu::CreateSurface(
            CreateSurfacePdu {
                surface_id: self.surface_id,
                width: self.width,
                height: self.height,
                pixel_format: PixelFormat::XRgb,
            },
        );
        let map = GfxPdu::MapSurfaceToOutput(
            MapSurfaceToOutputPdu {
                surface_id: self.surface_id,
                output_origin_x: 0,
                output_origin_y: 0,
            },
        );
        proof {
            assert(messages(queued.push(confirm).push(reset).push(create).push(map)) =~= messages(
                queued,
            ) + before.setup_messages(negotiated));
        }
        self.output_queue.push_back(confirm);
        self.output_queue.push_back(reset);
        self.output_queue.push_back(create);
        self.output_queue.push_back(map);

        self.state = ServerState::Ready;
    }

    /// Handles the client's advertisement of its capability sets.
    ///
    /// The handler sees the advertisement first and is then asked what the
    /// server prefers.  With its answer the negotiation is completed, and the
    /// handler is told that the session is ready.
    fn handle_capabilities_advertise(&mut self, pdu: CapabilitiesAdvertisePdu)
        requires
            old(self)@.state != ServerState::Closed,
        ensures
            exists|preferred: Seq<CapabilitySet>|
                final(self)@ == #[trigger] old(self)@.advertised(pdu.0@, preferred),
    {
        let client_caps = slice_to_vec(pdu.0.as_slice());
        self.handler.capabilities_advertise(pdu);

        let server_caps = self.handler.preferred_capabilities();
        self.complete_negotiation(client_caps.as_slice(), server_caps.as_slice());

        self.handler.on_ready(self.surface_id, self.width, self.height);
    }

    /// Handles the client's acknowledgement of a frame.
    ///
    /// One frame fewer is in flight, unless none was.  The frame that the
    /// message names is not held against the frames that were sent: whichever
    /// it names, it is reported to the handler and counts as one.
    fn handle_frame_acknowledge(&mut self, pdu: FrameAcknowledgePdu)
        requires
            old(self)@.state != ServerState::Closed,
        ensures
            final(self)@ == old(self)@.acknowledged(),
    {
        if self.frames_in_flight > 0 {
            self.frames_in_flight -= 1;
        }
        self.handler.frame_acknowledge(pdu);
        self.handler.on_frame_ack(pdu.frame_id);
    }

    /// The name of the channel.
    pub fn channel_name(&self) -> (name: &'static str)
        ensures
            name@ == CHANNEL_NAME@,
    {
        CHANNEL_NAME
    }

    /// The channel was opened.  Nothing is sent: the client speaks first.
    pub fn start(&mut self, _channel_id: u32) -> (output: Vec<GfxPdu>)
        ensures
            output@.len() == 0,
            final(self)@ == old(self)@,
            final(self).handler() == old(self).handler(),
    {
        Vec::new()
    }

    /// The channel was closed.  The session is closed from now on, whatever
    /// it was before, and the handler is told so.
    pub fn close(&mut self, _channel_id: u32)
        ensures
            final(self)@ == old(self)@.closed(),
    {
        self.state = ServerState::Closed;
        self.handler.on_close();
    }

    /// Handles one message of the client and returns the answer to it.
    ///
    /// `decoded` is what decoding the message gave.  If that failed, the error
    /// is handed back and the session is as it was.  Otherwise an
    /// advertisement starts the negotiation, an acknowledgement frees a frame,
    /// an offer of cached bitmaps goes to the handler, and every other message
    /// is ignored.  Whatever the message was, the answer is all that is queued
    /// by then, oldest first, and the queue is empty afterwards.
    pub fn process<E>(&mut self, _channel_id: u32, decoded: Result<GfxPdu, E>) -> (answer: Result<
        Vec<GfxPdu>,
        E,
    >)
        requires
            old(self)@.state != ServerState::Closed,
        ensures
            decoded matches Err(error) ==> {
                &&& answer == Err::<Vec<GfxPdu>, E>(error)
                &&& final(self)@ == old(self)@
                &&& final(self).handler() == old(self).handler()
            },
            decoded is Ok ==> answer is Ok && final(self)@.pending.len() == 0,
            decoded matches Ok(pdu) ==> exists|preferred: Seq<CapabilitySet>|
                {
                    let handled = #[trigger] old(self)@.received(pdu@, preferred);
                    &&& answer matches Ok(output)
                    &&& messages(output@) == handled.pending
                    &&& final(self)@ == handled.drained()
                },
    {
        let pdu = match decoded {
            Ok(pdu) => pdu,
            Err(error) => {
                return Err(error);
            },
        };
        let ghost message = pdu@;
        let ghost preferred: Seq<CapabilitySet> = Seq::empty();
        match pdu {
            GfxPdu::CapabilitiesAdvertise(pdu) => {
                self.handle_capabilities_advertise(pdu);
                proof {
                    preferred = choose|preferred: Seq<CapabilitySet>|
                        self@ == #[trigger] old(self)@.advertised(pdu.0@, preferred);
                }
            },
            GfxPdu::FrameAcknowledge(pdu) => {
                self.handle_frame_acknowledge(pdu);
            },
            GfxPdu::CacheImportOffer(pdu) => {
                self.handler.cache_import_offer(pdu);
            },
            _ => {},
        }
        assert(self@ == old(self)@.received(message, preferred));
        let output = self.drain_output();
        Ok(output)
    }
}

} // verus!
