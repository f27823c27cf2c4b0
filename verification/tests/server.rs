use std::sync::{Arc, Mutex};

use egfx_server::pdu::{
    Avc420Region, CapabilitiesAdvertisePdu, CapabilitySet, FrameAcknowledgePdu, GfxPdu,
    QueueDepth, AVC420_ENABLED,
};
use egfx_server::server::{
    default_preferred_capabilities, GraphicsPipelineHandler, GraphicsPipelineServer, CHANNEL_NAME,
};
use egfx_server::session::{DEFAULT_MAX_FRAMES_IN_FLIGHT, SURFACE_ID};

struct TestHandler {
    ready: bool,
    acked_frames: Vec<u32>,
}

impl TestHandler {
    fn new() -> Self {
        Self {
            ready: false,
            acked_frames: Vec::new(),
        }
    }
}

impl GraphicsPipelineHandler for TestHandler {
    fn capabilities_advertise(&mut self, _pdu: CapabilitiesAdvertisePdu) {}

    fn on_ready(&mut self, _surface_id: u16, _width: u16, _height: u16) {
        self.ready = true;
    }

    fn on_frame_ack(&mut self, frame_id: u32) {
        self.acked_frames.push(frame_id);
    }
}

#[derive(Default)]
struct Seen {
    ready: Vec<(u16, u16, u16)>,
    acked_frames: Vec<u32>,
    raw_acks: Vec<FrameAcknowledgePdu>,
    closed: u32,
}

struct Recorder {
    seen: Arc<Mutex<Seen>>,
}

impl GraphicsPipelineHandler for Recorder {
    fn capabilities_advertise(&mut self, _pdu: CapabilitiesAdvertisePdu) {}

    fn frame_acknowledge(&mut self, pdu: FrameAcknowledgePdu) {
        self.seen.lock().unwrap().raw_acks.push(pdu);
    }

    fn on_ready(&mut self, surface_id: u16, width: u16, height: u16) {
        self.seen.lock().unwrap().ready.push((surface_id, width, height));
    }

    fn on_frame_ack(&mut self, frame_id: u32) {
        self.seen.lock().unwrap().acked_frames.push(frame_id);
    }

    fn on_close(&mut self) {
        self.seen.lock().unwrap().closed += 1;
    }
}

fn recorded(width: u16, height: u16) -> (GraphicsPipelineServer, Arc<Mutex<Seen>>) {
    let seen = Arc::new(Mutex::new(Seen::default()));
    let handler = Box::new(Recorder { seen: Arc::clone(&seen) });
    (GraphicsPipelineServer::new(handler, width, height), seen)
}

fn advertise(caps: Vec<CapabilitySet>) -> Result<GfxPdu, String> {
    Ok(GfxPdu::CapabilitiesAdvertise(CapabilitiesAdvertisePdu(caps)))
}

fn acknowledge(frame_id: u32) -> Result<GfxPdu, String> {
    Ok(GfxPdu::FrameAcknowledge(FrameAcknowledgePdu {
        queue_depth: QueueDepth::Unavailable,
        frame_id,
        total_frames_decoded: 0,
    }))
}

fn make_ready(server: &mut GraphicsPipelineServer) {
    let answer = server.process(0, advertise(vec![CapabilitySet::V8_1 { flags: AVC420_ENABLED }]));
    assert_eq!(answer.map(|output| output.len()), Ok(4));
    assert!(server.is_ready());
}

#[test]
fn test_server_creation() {
    let handler = Box::new(TestHandler::new());
    let server = GraphicsPipelineServer::new(handler, 1920, 1080);

    assert!(!server.is_ready());
    assert_eq!(server.frames_in_flight(), 0);
    assert_eq!(server.dimensions(), (1920, 1080));
}

#[test]
fn test_server_not_ready() {
    let handler = Box::new(TestHandler::new());
    let mut server = GraphicsPipelineServer::new(handler, 1920, 1080);

    // Should return None when not ready
    let h264_data = vec![0x00, 0x00, 0x00, 0x01, 0x67];
    let regions = vec![Avc420Region::full_frame(1920, 1080, 22)];

    let result = server.send_avc420_frame(&h264_data, &regions, 0);
    assert!(result.is_none());
}

#[test]
fn test_backpressure() {
    let handler = Box::new(TestHandler::new());
    let mut server = GraphicsPipelineServer::new(handler, 1920, 1080);

    // The client's advertisement makes the session ready
    make_ready(&mut server);
    server.set_max_frames_in_flight(2);

    let h264_data = vec![0x00, 0x00, 0x00, 0x01, 0x67];
    let regions = vec![Avc420Region::full_frame(1920, 1080, 22)];

    // First two frames should succeed
    assert!(server.send_avc420_frame(&h264_data, &regions, 0).is_some());
    assert!(server.send_avc420_frame(&h264_data, &regions, 16).is_some());

    // Third should fail due to backpressure
    // frames_in_flight == max_frames_in_flight, so we should be backpressured
    assert!(server.should_backpressure());
    assert!(server.send_avc420_frame(&h264_data, &regions, 33).is_none());
}

#[test]
fn new_session_is_waiting_and_empty() {
    let (mut server, seen) = recorded(800, 600);

    assert!(!server.is_ready());
    assert!(!server.is_closed());
    assert!(!server.should_backpressure());
    assert!(!server.has_pending_output());
    assert_eq!(server.frames_in_flight(), 0);
    assert_eq!(server.surface_id(), SURFACE_ID);
    assert_eq!(server.surface_id(), 0);
    assert_eq!(server.dimensions(), (800, 600));
    assert!(server.drain_output().is_empty());
    assert!(seen.lock().unwrap().ready.is_empty());
}

#[test]
fn default_maximum_is_three() {
    assert_eq!(DEFAULT_MAX_FRAMES_IN_FLIGHT, 3);
    let (mut server, _seen) = recorded(800, 600);
    make_ready(&mut server);

    assert_eq!(server.send_avc420_frame(&[1], &[], 0), Some(0));
    assert_eq!(server.send_avc420_frame(&[1], &[], 0), Some(1));
    assert!(!server.should_backpressure());
    assert_eq!(server.send_avc420_frame(&[1], &[], 0), Some(2));
    assert!(server.should_backpressure());
    assert_eq!(server.send_avc420_frame(&[1], &[], 0), None);
    assert_eq!(server.frames_in_flight(), 3);
}

#[test]
fn frame_before_readiness_leaves_queue_untouched() {
    let (mut server, _seen) = recorded(1920, 1080);
    let regions = vec![Avc420Region::full_frame(1920, 1080, 22)];

    assert_eq!(server.send_avc420_frame(&[0, 0, 0, 1, 0x67], &regions, 5), None);
    assert!(!server.has_pending_output());
    assert_eq!(server.frames_in_flight(), 0);
    assert!(server.drain_output().is_empty());

    // The identifier was not used up: the first frame taken still gets zero.
    make_ready(&mut server);
    assert_eq!(server.send_avc420_frame(&[0, 0, 0, 1, 0x67], &regions, 5), Some(0));
}

#[test]
fn one_acknowledgement_frees_exactly_one_frame() {
    for max in [1u32, 2, 5] {
        let (mut server, _seen) = recorded(640, 480);
        make_ready(&mut server);
        server.set_max_frames_in_flight(max);

        for n in 0..max {
            assert!(!server.should_backpressure());
            assert_eq!(server.send_avc420_frame(&[7], &[], n), Some(n));
        }
        assert!(server.should_backpressure());
        assert_eq!(server.frames_in_flight(), max);
        assert_eq!(server.send_avc420_frame(&[7], &[], 99), None);
        assert_eq!(server.frames_in_flight(), max);

        // The answer to the acknowledgement carries the frames queued so far.
        let answer = server.process(0, acknowledge(0));
        assert_eq!(answer.map(|output| output.len()), Ok(3 * max as usize));
        assert_eq!(server.frames_in_flight(), max - 1);
        assert!(!server.should_backpressure());

        assert_eq!(server.send_avc420_frame(&[7], &[], 100), Some(max));
        assert_eq!(server.send_avc420_frame(&[7], &[], 101), None);
        assert_eq!(server.frames_in_flight(), max);
    }
}

#[test]
fn maximum_of_zero_takes_no_frame() {
    let (mut server, _seen) = recorded(640, 480);
    make_ready(&mut server);
    server.set_max_frames_in_flight(0);

    assert!(server.should_backpressure());
    assert_eq!(server.send_avc420_frame(&[7], &[], 0), None);
    assert_eq!(server.process(0, acknowledge(0)).map(|output| output.len()), Ok(0));
    assert_eq!(server.frames_in_flight(), 0);
    assert_eq!(server.send_avc420_frame(&[7], &[], 0), None);
    assert!(!server.has_pending_output());
}

#[test]
fn new_maximum_counts_at_once() {
    let (mut server, _seen) = recorded(640, 480);
    make_ready(&mut server);

    for _ in 0..3 {
        assert!(server.send_avc420_frame(&[7], &[], 0).is_some());
    }
    assert_eq!(server.send_avc420_frame(&[7], &[], 0), None);

    server.set_max_frames_in_flight(4);
    assert!(!server.should_backpressure());
    assert_eq!(server.send_avc420_frame(&[7], &[], 0), Some(3));
    assert!(server.should_backpressure());

    // Lowering the maximum below what is in flight drops no frame.
    server.set_max_frames_in_flight(1);
    assert_eq!(server.frames_in_flight(), 4);
    assert!(server.should_backpressure());
    assert_eq!(server.send_avc420_frame(&[7], &[], 0), None);
}

#[test]
fn frame_identifiers_count_up_from_zero() {
    let (mut server, _seen) = recorded(640, 480);
    make_ready(&mut server);

    for expected in 0..50u32 {
        assert_eq!(server.send_avc420_frame(&[1, 2, 3], &[], expected * 16), Some(expected));
        // A refused frame in between uses up no identifier.
        if expected % 7 == 0 {
            server.set_max_frames_in_flight(0);
            assert_eq!(server.send_avc420_frame(&[1, 2, 3], &[], 0), None);
            server.set_max_frames_in_flight(3);
        }
        assert!(server.process(0, acknowledge(expected)).is_ok());
    }
}

#[test]
fn spurious_acknowledgements_stop_at_zero() {
    let (mut server, seen) = recorded(640, 480);
    make_ready(&mut server);

    assert_eq!(server.send_avc420_frame(&[1], &[], 0), Some(0));
    assert_eq!(server.send_avc420_frame(&[1], &[], 0), Some(1));
    assert_eq!(server.frames_in_flight(), 2);

    for frame_id in [0u32, 1, 1, 4000, 0] {
        assert!(server.process(0, acknowledge(frame_id)).is_ok());
    }
    assert_eq!(server.frames_in_flight(), 0);

    // Every acknowledgement is reported with the frame it names, outstanding or not.
    assert_eq!(seen.lock().unwrap().acked_frames, vec![0, 1, 1, 4000, 0]);
    assert_eq!(seen.lock().unwrap().raw_acks.len(), 5);
    assert_eq!(seen.lock().unwrap().raw_acks[3].frame_id, 4000);
}

#[test]
fn acknowledgement_before_any_frame_changes_nothing() {
    let (mut server, seen) = recorded(640, 480);

    assert_eq!(server.process(0, acknowledge(9)).map(|output| output.len()), Ok(0));
    assert_eq!(server.frames_in_flight(), 0);
    assert!(!server.is_ready());
    assert_eq!(seen.lock().unwrap().acked_frames, vec![9]);
}

#[test]
fn closing_is_final() {
    let (mut server, seen) = recorded(640, 480);
    make_ready(&mut server);
    assert_eq!(server.send_avc420_frame(&[1], &[], 0), Some(0));

    server.close(3);
    assert!(server.is_closed());
    assert!(!server.is_ready());
    assert_eq!(seen.lock().unwrap().closed, 1);
    assert_eq!(server.send_avc420_frame(&[1], &[], 0), None);
    // What was queued before is still there, and the counter is as it was.
    assert_eq!(server.frames_in_flight(), 1);
    assert_eq!(server.drain_output().len(), 3);

    server.close(3);
    assert!(server.is_closed());
    assert_eq!(seen.lock().unwrap().closed, 2);
}

#[test]
fn closing_before_readiness() {
    let (mut server, seen) = recorded(640, 480);
    server.close(0);
    assert!(server.is_closed());
    assert!(!server.is_ready());
    assert_eq!(seen.lock().unwrap().closed, 1);
    assert!(seen.lock().unwrap().ready.is_empty());
}

#[test]
fn start_sends_nothing() {
    let (mut server, seen) = recorded(640, 480);
    assert!(server.start(12).is_empty());
    assert!(!server.is_ready());
    assert!(!server.has_pending_output());
    assert!(seen.lock().unwrap().ready.is_empty());
}

#[test]
fn channel_name_is_fixed() {
    let (server, _seen) = recorded(640, 480);
    assert_eq!(server.channel_name(), "Microsoft::Windows::RDS::Graphics");
    assert_eq!(CHANNEL_NAME, "Microsoft::Windows::RDS::Graphics");
}

#[test]
fn handler_defaults() {
    let mut handler = TestHandler::new();
    assert_eq!(
        handler.preferred_capabilities(),
        vec![CapabilitySet::V8_1 { flags: AVC420_ENABLED }]
    );
    assert_eq!(
        default_preferred_capabilities(),
        vec![CapabilitySet::V8_1 { flags: AVC420_ENABLED }]
    );
    handler.on_close();
    handler.frame_acknowledge(FrameAcknowledgePdu {
        queue_depth: QueueDepth::Suspend,
        frame_id: 1,
        total_frames_decoded: 1,
    });
    assert!(!handler.ready);
    assert!(handler.acked_frames.is_empty());
    handler.on_ready(0, 1, 1);
    handler.on_frame_ack(5);
    assert!(handler.ready);
    assert_eq!(handler.acked_frames, vec![5]);
}
