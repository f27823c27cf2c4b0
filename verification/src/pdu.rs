//! The messages of the graphics pipeline channel, as plain values.

pub mod capability;
pub mod frame;
pub mod message;

pub use capability::{
    negotiated_capability, offers_version, CapabilitySet, CapabilityVersion, AVC420_ENABLED,
};
pub use frame::{
    bounding_box, frame_destination, lemma_bounding_box_is_tight, spec_frame_destination,
    Avc420BitmapStream, Avc420Region, InclusiveRectangle, Timestamp,
};
pub use message::{
    messages, CacheEntryMetadata, CacheImportOfferPdu, CapabilitiesAdvertisePdu,
    CapabilitiesConfirmPdu, Codec1Type, CreateSurfacePdu, EndFramePdu, FrameAcknowledgePdu,
    GfxMessage, GfxPdu, MapSurfaceToOutputPdu, Monitor, PixelFormat, QueueDepth, ResetGraphicsPdu,
    StartFramePdu, WireToSurface1Pdu,
};
