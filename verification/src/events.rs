//! Events the library emits besides state changes.
use vstd::prelude::*;
use crate::api::{PcapFileInfo, PcapFileInfoView};

verus! {

#[derive(Debug)]
pub enum CaptureStopReason {
    Request { file: PcapFileInfo },
    MaxSizeReached { file: PcapFileInfo },
    Disconnected { file: PcapFileInfo },
    AlreadyStopped,
}

/// A local agent setting that the server can refuse.
#[derive(Debug, Copy, Clone, PartialEq, Eq, Structural)]
pub enum LocalAgentSettingType {
    NetshieldLevel,
    Bouncing,
    PortForwarding,
    SplitTcp,
    SafeMode,
    RandomNat,
}

/// Errors that the embedding application is told of.
#[derive(Debug, Copy, Clone, PartialEq, Eq, Structural)]
pub enum ErrorEvent {
    ApiSessionExpired,
    CertificateRefreshFatalError,
    LocalAgentSettingPolicyRefused { setting: LocalAgentSettingType },
}

/// Connection events emitted by the library. (Connection statistics, which
/// carry floating-point estimates, are emitted by the platform layer.)
#[derive(Debug)]
pub enum Event {
    PacketCaptureStarted { info: PcapFileInfo },
    PacketCaptureStopped { reason: CaptureStopReason },
    Error { error: ErrorEvent },
    LocalAgentStats {
        bytes_received: u64,
        bytes_sent: u64,
        malicious_blocked: Option<u64>,
        ads_blocked: Option<u64>,
        trackers_blocked: Option<u64>,
        adult_content_blocked: Option<u64>,
        data_saved: Option<u64>,
    },
}

pub enum CaptureStopReasonView {
    Request { file: PcapFileInfoView },
    MaxSizeReached { file: PcapFileInfoView },
    Disconnected { file: PcapFileInfoView },
    AlreadyStopped,
}

pub enum EventView {
    PacketCaptureStarted { info: PcapFileInfoView },
    PacketCaptureStopped { reason: CaptureStopReasonView },
    Error { error: ErrorEvent },
    LocalAgentStats {
        bytes_received: u64,
        bytes_sent: u64,
        malicious_blocked: Option<u64>,
        ads_blocked: Option<u64>,
        trackers_blocked: Option<u64>,
        adult_content_blocked: Option<u64>,
        data_saved: Option<u64>,
    },
}

impl View for CaptureStopReason {
    type V = CaptureStopReasonView;

    open spec fn view(&self) -> CaptureStopReasonView {
        match self {
            CaptureStopReason::Request { file } => CaptureStopReasonView::Request { file: file@ },
            CaptureStopReason::MaxSizeReached { file } => CaptureStopReasonView::MaxSizeReached { file: file@ },
            CaptureStopReason::Disconnected { file } => CaptureStopReasonView::Disconnected { file: file@ },
            CaptureStopReason::AlreadyStopped => CaptureStopReasonView::AlreadyStopped,
        }
    }
}

impl View for Event {
    type V = EventView;

    open spec fn view(&self) -> EventView {
        match self {
            Event::PacketCaptureStarted { info } => EventView::PacketCaptureStarted { info: info@ },
            Event::PacketCaptureStopped { reason } => EventView::PacketCaptureStopped { reason: reason@ },
            Event::Error { error } => EventView::Error { error: *error },
            Event::LocalAgentStats {
                bytes_received,
                bytes_sent,
                malicious_blocked,
                ads_blocked,
                trackers_blocked,
                adult_content_blocked,
                data_saved,
            } => EventView::LocalAgentStats {
                bytes_received: *bytes_received,
                bytes_sent: *bytes_sent,
                malicious_blocked: *malicious_blocked,
                ads_blocked: *ads_blocked,
                trackers_blocked: *trackers_blocked,
                adult_content_blocked: *adult_content_blocked,
                data_saved: *data_saved,
            },
        }
    }
}

pub open spec fn opt_event_view(e: Option<Event>) -> Option<EventView> {
    match e {
        Some(x) => Some(x@),
        None => None,
    }
}

} // verus!
