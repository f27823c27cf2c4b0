//! The messages that a session receives and sends, and what each of them says.

use vstd::prelude::*;

use super::capability::CapabilitySet;
use super::frame::{Avc420BitmapStream, Avc420Region, InclusiveRectangle, Timestamp};

verus! {

/// Layout of the pixels of a surface.
#[derive(Debug, Clone, Copy, PartialEq, Eq, Structural)]
pub enum PixelFormat {
    XRgb,
    ARgb,
}

/// The codecs that can carry the pixels of a surface update.
#[derive(Debug, Clone, Copy, PartialEq, Eq, Structural)]
pub enum Codec1Type {
    Uncompressed,
    RemoteFx,
    ClearCodec,
    Planar,
    Avc420,
    Alpha,
    Avc444,
    Avc444v2,
}

/// What a client reports of its decoding queue when it acknowledges a frame.
#[derive(Debug, Clone, Copy, PartialEq, Eq, Structural)]
pub enum QueueDepth {
    Unavailable,
    AvailableBytes(u32),
    Suspend,
}

/// One monitor of the client's desktop.
#[derive(Debug, Clone, Copy, PartialEq, Eq, Structural)]
pub struct Monitor {
    pub left: i32,
    pub top: i32,
    pub right: i32,
    pub bottom: i32,
    pub flags: u32,
}

/// A bitmap that the client holds in its persistent cache.
#[derive(Debug, Clone, Copy, PartialEq, Eq, Structural)]
pub struct CacheEntryMetadata {
    pub cache_key: u64,
    pub bitmap_len: u32,
}

/// The client lists the capability sets it supports.
#[derive(Debug, Clone, PartialEq, Eq)]
pub struct CapabilitiesAdvertisePdu(pub Vec<CapabilitySet>);

/// The server names the capability set the session runs with.
#[derive(Debug, Clone, Copy, PartialEq, Eq, Structural)]
pub struct CapabilitiesConfirmPdu(pub CapabilitySet);

/// The server announces the size of the graphics output and its monitors.
#[derive(Debug, Clone, PartialEq, Eq)]
pub struct ResetGraphicsPdu {
    pub width: u32,
    pub height: u32,
    pub monitors: Vec<Monitor>,
}

/// The server creates a surface.
#[derive(Debug, Clone, Copy, PartialEq, Eq, Structural)]
pub struct CreateSurfacePdu {
    pub surface_id: u16,
    pub width: u16,
    pub height: u16,
    pub pixel_format: PixelFormat,
}

/// The server places a surface on the graphics output.
#[derive(Debug, Clone, Copy, PartialEq, Eq, Structural)]
pub struct MapSurfaceToOutputPdu {
    pub surface_id: u16,
    pub output_origin_x: u32,
    pub output_origin_y: u32,
}

/// The server opens a frame.
#[derive(Debug, Clone, Copy, PartialEq, Eq, Structural)]
pub struct StartFramePdu {
    pub timestamp: Timestamp,
    pub frame_id: u32,
}

/// The server updates a rectangle of a surface with coded pixels.
#[derive(Debug, Clone, PartialEq, Eq)]
pub struct WireToSurface1Pdu {
    pub surface_id: u16,
    pub codec_id: Codec1Type,
    pub pixel_format: PixelFormat,
    pub destination_rectangle: InclusiveRectangle,
    pub bitmap_data: Avc420BitmapStream,
}

/// The server closes a frame.
#[derive(Debug, Clone, Copy, PartialEq, Eq, Structural)]
pub struct EndFramePdu {
    pub frame_id: u32,
}

/// The client has decoded a frame.
#[derive(Debug, Clone, Copy, PartialEq, Eq, Structural)]
pub struct FrameAcknowledgePdu {
    pub queue_depth: QueueDepth,
    pub frame_id: u32,
    pub total_frames_decoded: u32,
}

/// The client offers the bitmaps of its persistent cache.
#[derive(Debug, Clone, PartialEq, Eq)]
pub struct CacheImportOfferPdu {
    pub cache_entries: Vec<CacheEntryMetadata>,
}

/// A message of the channel, in either direction.
#[derive(Debug, Clone, PartialEq, Eq)]
pub enum GfxPdu {
    CapabilitiesAdvertise(CapabilitiesAdvertisePdu),
    CapabilitiesConfirm(CapabilitiesConfirmPdu),
    ResetGraphics(ResetGraphicsPdu),
    CreateSurface(CreateSurfacePdu),
    MapSurfaceToOutput(MapSurfaceToOutputPdu),
    StartFrame(StartFramePdu),
    WireToSurface1(WireToSurface1Pdu),
    EndFrame(EndFramePdu),
    FrameAcknowledge(FrameAcknowledgePdu),
    CacheImportOffer(CacheImportOfferPdu),
    /// Any other command of the protocol, known by its identifier only.
    Other { command_id: u16 },
}

/// What a message says, with its lists as sequences.
pub ghost enum GfxMessage {
    CapabilitiesAdvertise { capabilities: Seq<CapabilitySet> },
    CapabilitiesConfirm(CapabilitiesConfirmPdu),
    ResetGraphics { width: u32, height: u32, monitors: Seq<Monitor> },
    CreateSurface(CreateSurfacePdu),
    MapSurfaceToOutput(MapSurfaceToOutputPdu),
    StartFrame(StartFramePdu),
    WireToSurface1 {
        surface_id: u16,
        codec_id: Codec1Type,
        pixel_format: PixelFormat,
        destination_rectangle: InclusiveRectangle,
        regions: Seq<Avc420Region>,
        data: Seq<u8>,
    },
    EndFrame(EndFramePdu),
    FrameAcknowledge(FrameAcknowledgePdu),
    CacheImportOffer { cache_entries: Seq<CacheEntryMetadata> },
    Other { command_id: u16 },
}

impl View for GfxPdu {
    type V = GfxMessage;

    open spec fn view(&self) -> GfxMessage {
        match *self {
            GfxPdu::CapabilitiesAdvertise(pdu) => GfxMessage::CapabilitiesAdvertise {
                capabilities: pdu.0@,
            },
            GfxPdu::CapabilitiesConfirm(pdu) => GfxMessage::CapabilitiesConfirm(pdu),
            GfxPdu::ResetGraphics(pdu) => GfxMessage::ResetGraphics {
                width: pdu.width,
                height: pdu.height,
                monitors: pdu.monitors@,
            },
            GfxPdu::CreateSurface(pdu) => GfxMessage::CreateSurface(pdu),
            GfxPdu::MapSurfaceToOutput(pdu) => GfxMessage::MapSurfaceToOutput(pdu),
            GfxPdu::StartFrame(pdu) => GfxMessage::StartFrame(pdu),
            GfxPdu::WireToSurface1(pdu) => GfxMessage::WireToSurface1 {
                surface_id: pdu.surface_id,
                codec_id: pdu.codec_id,
                pixel_format: pdu.pixel_format,
                destination_rectangle: pdu.destination_rectangle,
                regions: pdu.bitmap_data.regions@,
                data: pdu.bitmap_data.data@,
            },
            GfxPdu::EndFrame(pdu) => GfxMessage::EndFrame(pdu),
            GfxPdu::FrameAcknowledge(pdu) => GfxMessage::FrameAcknowledge(pdu),
            GfxPdu::CacheImportOffer(pdu) => GfxMessage::CacheImportOffer {
                cache_entries: pdu.cache_entries@,
            },
            GfxPdu::Other { command_id } => GfxMessage::Other { command_id },
        }
    }
}

/// What a run of messages says, message by message.
pub open spec fn messages(pdus: Seq<GfxPdu>) -> Seq<GfxMessage> {
    pdus.map_values(|pdu: GfxPdu| pdu@)
}

} // verus!
