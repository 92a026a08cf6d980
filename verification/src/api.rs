//! Types that the embedding application hands to a connection.
use vstd::prelude::*;
use crate::keys::WgClientPrivateKey;
use crate::peers::PeerInfo;
use crate::state::State;

verus! {

#[derive(Debug, Copy, Clone, PartialEq, Eq, Structural)]
pub enum ConnectivityEvent {
    Up,
    Down,
    /// Network switch occurred (wifi -> mobile, between different wifi etc.).
    /// This informs the library that it should reset VPN sockets.
    NetworkSwitch,
}

pub struct PrivateKeyUpdateInfo {
    pub wg_private_key: WgClientPrivateKey,
}

#[derive(Debug, Copy, Clone, PartialEq, Eq, Structural)]
pub enum FileWriteMode {
    Append,
    Overwrite,
}

#[derive(Debug)]
pub enum PcapFile {
    Path { path: String, mode: FileWriteMode },
    Fd(i32),
}

#[derive(Debug)]
pub struct PcapFileInfo {
    pub file_type: PcapFile,
    /// File size limit in bytes. When the limit is reached, the library will stop writing.
    pub max_bytes: Option<u64>,
}

pub enum PcapFileView {
    Path { path: Seq<char>, mode: FileWriteMode },
    Fd(i32),
}

pub struct PcapFileInfoView {
    pub file_type: PcapFileView,
    pub max_bytes: Option<u64>,
}

impl View for PcapFileInfo {
    type V = PcapFileInfoView;

    open spec fn view(&self) -> PcapFileInfoView {
        PcapFileInfoView {
            file_type: match &self.file_type {
                PcapFile::Path { path, mode } => PcapFileView::Path { path: path@, mode: *mode },
                PcapFile::Fd(fd) => PcapFileView::Fd(*fd),
            },
            max_bytes: self.max_bytes,
        }
    }
}

impl PcapFileInfo {
    /// A copy of the file description.
    pub fn duplicate(&self) -> (r: PcapFileInfo)
        ensures
            r@ == self@,
    {
        PcapFileInfo {
            file_type: match &self.file_type {
                PcapFile::Path { path, mode } => PcapFile::Path { path: path.clone(), mode: *mode },
                PcapFile::Fd(fd) => PcapFile::Fd(*fd),
            },
            max_bytes: self.max_bytes,
        }
    }
}

/// The configuration a connection starts with.
pub struct InitialConnectionConfig {
    pub wg_private_key: WgClientPrivateKey,
    pub peers: Vec<PeerInfo>,
    pub network_available: bool,
    pub pcap_file: Option<PcapFileInfo>,
}

/// Callback interface for receiving connection state changes. Avoid doing heavy work in the
/// callback to avoid blocking the connection thread.
pub trait StateChangedCallback {
    fn on_state_changed(&self, state: State);
}

/// Platform callback to notify that server connection socket file descriptor is available.
/// Android uses it to protect server connection socket from being routed via tun device.
pub trait OnSocketFdAvailableCallback {
    fn on_socket_fd_available(&self, socket_fd: i32);
}

} // verus!
