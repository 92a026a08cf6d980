//! What the local agent of a VPN server reports, and how the library turns it
//! into connection states and events.
use vstd::prelude::*;
use crate::events::{opt_event_view, ErrorEvent, Event, EventView, LocalAgentSettingType};
use crate::state::{ConnectionState, ConnectionStateView, PeerConnectionInfo, PeerConnectionInfoView};
use crate::client::opt_string_view;

verus! {

// ---------------------------------------------------------------------------
// What the library reports of the local agent
// ---------------------------------------------------------------------------

/// Settings the local agent reports; `None` where it has not reported one.
#[derive(Debug, Copy, Clone, PartialEq, Eq, Structural)]
pub struct AgentSettings {
    pub soft_jail: Option<bool>,
    pub port_forwarding: Option<bool>,
    pub random_nat: Option<bool>,
    pub split_tcp: Option<bool>,
    pub circumvention_routing: Option<bool>,
    /// The NetShield level, by its number.
    pub netshield_level: Option<u8>,
}

/// What the local agent reports of the connection.
#[derive(Debug)]
pub struct AgentConnectionInfo {
    pub settings: AgentSettings,
    pub user_isp_ip: Option<String>,
    pub groups: Vec<String>,
}

/// Why the local agent holds the connection back.
#[derive(Debug)]
pub enum WaitJailReason {
    Need2FA { message: String },
    WaitingClientChallengeReply { message: String },
    LowPlan { message: String },
    PendingInvoice { message: String },
    BadUserBehavior { message: String },
    DisabledUser { message: String },
    SessionOverLimit { message: String },
    Internal { message: String },
    Other { code: u32, message: String },
}

/// Why the connection waits for the local agent.
#[derive(Debug)]
pub enum AgentConnectionWaitReason {
    SoftJailed,
    HardJailed { jails: Vec<WaitJailReason> },
}

// ---------------------------------------------------------------------------
// What the local agent sends, as the VPN client library hands it over
// ---------------------------------------------------------------------------

/// A jail that the local agent puts the session in.
pub enum Jail {
    RequireRecent2FA(String),
    Expired2FA(String),
    Require2FA(String),
    WaitingClientChallengeReply(String),
    PolicyViolation1(String),
    PolicyViolation2(String),
    BadUserBehavior(String),
    DisabledUser(String),
    SessionOverLimit(String),
    FreeSessionOverLimit(String),
    BasicSessionOverLimit(String),
    PlusSessionOverLimit(String),
    VisionarySessionOverLimit(String),
    ProSessionOverLimit(String),
    GuestSession(String),
    RestrictedServer(String),
    SystemError(String),
    ExpiredCertificate(String),
    RevokedCertificate(String),
    KeyAlreadyUsed(String),
    InvalidCertificateSignature(String),
    NoCertificateProvided(String),
    SessionInstallationInProgress(String),
    Unknown(u32, String),
}

/// A NetShield block list.
#[derive(Debug, Copy, Clone, PartialEq, Eq, Structural)]
pub enum NetshieldBlockList {
    Malicious,
    Ads,
    Tracking,
    Adult,
}

/// Statistics the local agent reports.
pub struct AgentStats {
    pub bytes_received: u64,
    pub bytes_sent: u64,
    /// Blocked DNS requests per block list, each list at most once.
    pub netshield_dnsbl: Option<Vec<(NetshieldBlockList, u64)>>,
}

/// A value the local agent reports; `None` where it reports it unset.
pub enum LocalAgentValue {
    InfoEstablished(Option<u64>),
    SettingsSoftjail(Option<bool>),
    SettingsPortForwarding(Option<bool>),
    SettingsRandomNat(Option<bool>),
    SettingsSplitTcp(Option<bool>),
    SettingsCircumventionRouting(Option<bool>),
    SettingsNetshieldLevel(Option<u8>),
    SettingsLabel(Option<String>),
    StatsBytesReceived(Option<u64>),
    StatsBytesSent(Option<u64>),
    InfoPlatform(Option<String>),
    InfoRemote(Option<String>),
    InfoGroups(Option<Vec<String>>),
    /// All infos at once (the individual infos are handled instead).
    Infos,
    /// All settings at once (the individual settings are handled instead).
    Settings,
    Stats(Option<AgentStats>),
    Jails(Option<Vec<Jail>>),
}

/// An error reported by the local agent server.
pub enum LocalAgentServerError {
    UnknownFeatureRequest,
    BadMessageSyntax,
    SessionNotFound,
    SessionError,
    NetshieldLevelPolicyRefused,
    BouncingPolicyRefused,
    PortFwPolicyRefused,
    SplitTcpPolicyRefused,
    SafeModePolicyRefused,
    RandomNatPolicyRefused,
    NetshieldLevelSystemErr,
    NetshieldLevelInvalidInput,
    BouncingSystemErr,
    BouncingInvalidInput,
    PortFwSystemErr,
    PortFwInvalidInput,
    PortFwNotAvailable,
    RandomNatSystemErr,
    RandomNatInvalidInput,
    SplitTcpSystemErr,
    SplitTcpInvalidInput,
    SoftJailSystemErr,
    SoftJailInvalidInput,
    SafeModeSystemErr,
    SafeModeInvalidInput,
    ConflictBouncingVsRandomNat,
    ConflictBouncingVsSplitTcp,
    ConflictBouncingVsPortFw,
    Other(String),
}

/// An error of the local agent connection.
pub enum LocalAgentError {
    Authentication,
    CertificateFetching,
    ServerError(LocalAgentServerError),
}

/// A message of the local agent connection.
pub enum LocalAgentMessage {
    Value(LocalAgentValue),
    Error(LocalAgentError),
    MuonForkSelectorNeeded,
}

/// The values the library asks the local agent to report.
#[derive(Debug, Copy, Clone, PartialEq, Eq, Structural)]
pub enum LocalAgentSelector {
    InfoEstablished,
    InfoPlatform,
    InfoRemote,
    InfoGroups,
    SettingsSoftjail,
    SettingsPortForwarding,
    SettingsRandomNat,
    SettingsSplitTcp,
    SettingsCircumventionRouting,
    SettingsNetshieldLevel,
    SettingsLabel,
    Jails,
}

// ---------------------------------------------------------------------------
// Views
// ---------------------------------------------------------------------------

#[verifier::ext_equal]
pub struct AgentConnectionInfoView {
    pub settings: AgentSettings,
    pub user_isp_ip: Option<Seq<char>>,
    pub groups: Seq<Seq<char>>,
}

pub enum WaitJailReasonView {
    Need2FA { message: Seq<char> },
    WaitingClientChallengeReply { message: Seq<char> },
    LowPlan { message: Seq<char> },
    PendingInvoice { message: Seq<char> },
    BadUserBehavior { message: Seq<char> },
    DisabledUser { message: Seq<char> },
    SessionOverLimit { message: Seq<char> },
    Internal { message: Seq<char> },
    Other { code: u32, message: Seq<char> },
}

pub enum AgentConnectionWaitReasonView {
    SoftJailed,
    HardJailed { jails: Seq<WaitJailReasonView> },
}

pub open spec fn string_views(s: Seq<String>) -> Seq<Seq<char>> {
    s.map_values(|x: String| x@)
}

impl View for AgentConnectionInfo {
    type V = AgentConnectionInfoView;

    open spec fn view(&self) -> AgentConnectionInfoView {
        AgentConnectionInfoView {
            settings: self.settings,
            user_isp_ip: opt_string_view(self.user_isp_ip),
            groups: string_views(self.groups@),
        }
    }
}

impl View for WaitJailReason {
    type V = WaitJailReasonView;

    open spec fn view(&self) -> WaitJailReasonView {
        match self {
            WaitJailReason::Need2FA { message } => WaitJailReasonView::Need2FA { message: message@ },
            WaitJailReason::WaitingClientChallengeReply { message } => WaitJailReasonView::WaitingClientChallengeReply {
                message: message@,
            },
            WaitJailReason::LowPlan { message } => WaitJailReasonView::LowPlan { message: message@ },
            WaitJailReason::PendingInvoice { message } => WaitJailReasonView::PendingInvoice { message: message@ },
            WaitJailReason::BadUserBehavior { message } => WaitJailReasonView::BadUserBehavior { message: message@ },
            WaitJailReason::DisabledUser { message } => WaitJailReasonView::DisabledUser { message: message@ },
            WaitJailReason::SessionOverLimit { message } => WaitJailReasonView::SessionOverLimit { message: message@ },
            WaitJailReason::Internal { message } => WaitJailReasonView::Internal { message: message@ },
            WaitJailReason::Other { code, message } => WaitJailReasonView::Other { code: *code, message: message@ },
        }
    }
}

pub open spec fn jail_reason_views(s: Seq<WaitJailReason>) -> Seq<WaitJailReasonView> {
    s.map_values(|x: WaitJailReason| x@)
}

impl View for AgentConnectionWaitReason {
    type V = AgentConnectionWaitReasonView;

    open spec fn view(&self) -> AgentConnectionWaitReasonView {
        match self {
            AgentConnectionWaitReason::SoftJailed => AgentConnectionWaitReasonView::SoftJailed,
            AgentConnectionWaitReason::HardJailed { jails } => AgentConnectionWaitReasonView::HardJailed {
                jails: jail_reason_views(jails@),
            },
        }
    }
}

pub open spec fn opt_wait_view(w: Option<AgentConnectionWaitReason>) -> Option<AgentConnectionWaitReasonView> {
    match w {
        Some(x) => Some(x@),
        None => None,
    }
}

/// The reason the library reports for a jail.
pub open spec fn jail_reason_of(jail: Jail) -> WaitJailReasonView {
    match jail {
        Jail::RequireRecent2FA(m) => WaitJailReasonView::Need2FA { message: m@ },
        Jail::Expired2FA(m) => WaitJailReasonView::Need2FA { message: m@ },
        Jail::Require2FA(m) => WaitJailReasonView::Need2FA { message: m@ },
        Jail::WaitingClientChallengeReply(m) => WaitJailReasonView::WaitingClientChallengeReply { message: m@ },
        Jail::PolicyViolation1(m) => WaitJailReasonView::LowPlan { message: m@ },
        Jail::PolicyViolation2(m) => WaitJailReasonView::PendingInvoice { message: m@ },
        Jail::BadUserBehavior(m) => WaitJailReasonView::BadUserBehavior { message: m@ },
        Jail::DisabledUser(m) => WaitJailReasonView::DisabledUser { message: m@ },
        Jail::SessionOverLimit(m) => WaitJailReasonView::SessionOverLimit { message: m@ },
        Jail::FreeSessionOverLimit(m) => WaitJailReasonView::SessionOverLimit { message: m@ },
        Jail::BasicSessionOverLimit(m) => WaitJailReasonView::SessionOverLimit { message: m@ },
        Jail::PlusSessionOverLimit(m) => WaitJailReasonView::SessionOverLimit { message: m@ },
        Jail::VisionarySessionOverLimit(m) => WaitJailReasonView::SessionOverLimit { message: m@ },
        Jail::ProSessionOverLimit(m) => WaitJailReasonView::SessionOverLimit { message: m@ },
        Jail::Unknown(code, m) => WaitJailReasonView::Other { code, message: m@ },
        // guest sessions, server-side restrictions and certificate problems
        // are dealt with by the client library itself
        Jail::GuestSession(m) => WaitJailReasonView::Internal { message: m@ },
        Jail::RestrictedServer(m) => WaitJailReasonView::Internal { message: m@ },
        Jail::SystemError(m) => WaitJailReasonView::Internal { message: m@ },
        Jail::ExpiredCertificate(m) => WaitJailReasonView::Internal { message: m@ },
        Jail::RevokedCertificate(m) => WaitJailReasonView::Internal { message: m@ },
        Jail::KeyAlreadyUsed(m) => WaitJailReasonView::Internal { message: m@ },
        Jail::InvalidCertificateSignature(m) => WaitJailReasonView::Internal { message: m@ },
        Jail::NoCertificateProvided(m) => WaitJailReasonView::Internal { message: m@ },
        Jail::SessionInstallationInProgress(m) => WaitJailReasonView::Internal { message: m@ },
    }
}

/// Law: each jail is reported as its own reason, with the jail's message
/// (and code, for an unknown jail): the 2FA jails as needing 2FA, the first
/// policy violation as a low plan, the second as a pending invoice, every
/// session-over-limit jail as a session over the limit, the jails the client
/// library deals with itself as internal.
pub proof fn lemma_jail_reason_table(m: String, code: u32)
    ensures
        jail_reason_of(Jail::RequireRecent2FA(m)) == (WaitJailReasonView::Need2FA { message: m@ }),
        jail_reason_of(Jail::Expired2FA(m)) == (WaitJailReasonView::Need2FA { message: m@ }),
        jail_reason_of(Jail::Require2FA(m)) == (WaitJailReasonView::Need2FA { message: m@ }),
        jail_reason_of(Jail::WaitingClientChallengeReply(m)) == (WaitJailReasonView::WaitingClientChallengeReply {
            message: m@,
        }),
        jail_reason_of(Jail::PolicyViolation1(m)) == (WaitJailReasonView::LowPlan { message: m@ }),
        jail_reason_of(Jail::PolicyViolation2(m)) == (WaitJailReasonView::PendingInvoice { message: m@ }),
        jail_reason_of(Jail::BadUserBehavior(m)) == (WaitJailReasonView::BadUserBehavior { message: m@ }),
        jail_reason_of(Jail::DisabledUser(m)) == (WaitJailReasonView::DisabledUser { message: m@ }),
        jail_reason_of(Jail::SessionOverLimit(m)) == (WaitJailReasonView::SessionOverLimit { message: m@ }),
        jail_reason_of(Jail::FreeSessionOverLimit(m)) == (WaitJailReasonView::SessionOverLimit { message: m@ }),
        jail_reason_of(Jail::BasicSessionOverLimit(m)) == (WaitJailReasonView::SessionOverLimit { message: m@ }),
        jail_reason_of(Jail::PlusSessionOverLimit(m)) == (WaitJailReasonView::SessionOverLimit { message: m@ }),
        jail_reason_of(Jail::VisionarySessionOverLimit(m)) == (WaitJailReasonView::SessionOverLimit {
            message: m@,
        }),
        jail_reason_of(Jail::ProSessionOverLimit(m)) == (WaitJailReasonView::SessionOverLimit { message: m@ }),
        jail_reason_of(Jail::GuestSession(m)) == (WaitJailReasonView::Internal { message: m@ }),
        jail_reason_of(Jail::RestrictedServer(m)) == (WaitJailReasonView::Internal { message: m@ }),
        jail_reason_of(Jail::SystemError(m)) == (WaitJailReasonView::Internal { message: m@ }),
        jail_reason_of(Jail::ExpiredCertificate(m)) == (WaitJailReasonView::Internal { message: m@ }),
        jail_reason_of(Jail::RevokedCertificate(m)) == (WaitJailReasonView::Internal { message: m@ }),
        jail_reason_of(Jail::KeyAlreadyUsed(m)) == (WaitJailReasonView::Internal { message: m@ }),
        jail_reason_of(Jail::InvalidCertificateSignature(m)) == (WaitJailReasonView::Internal { message: m@ }),
        jail_reason_of(Jail::NoCertificateProvided(m)) == (WaitJailReasonView::Internal { message: m@ }),
        jail_reason_of(Jail::SessionInstallationInProgress(m)) == (WaitJailReasonView::Internal { message: m@ }),
        jail_reason_of(Jail::Unknown(code, m)) == (WaitJailReasonView::Other { code, message: m@ }),
{
}

/// The reasons the library reports for a list of jails.
pub open spec fn jail_reasons_of(jails: Seq<Jail>) -> Seq<WaitJailReasonView> {
    jails.map_values(|j: Jail| jail_reason_of(j))
}

/// The event the library emits for a refused setting.
pub open spec fn policy_refused_event(setting: LocalAgentSettingType) -> EventView {
    EventView::Error { error: ErrorEvent::LocalAgentSettingPolicyRefused { setting } }
}

/// The event the library emits for a local agent error, if any: an expired
/// session for a failed authentication, a fatal error for a failed
/// certificate refresh, a refused setting for a policy refusal; server errors
/// of other kinds are only logged.
pub open spec fn error_event_of(error: LocalAgentError) -> Option<EventView> {
    match error {
        LocalAgentError::Authentication => Some(EventView::Error { error: ErrorEvent::ApiSessionExpired }),
        LocalAgentError::CertificateFetching => Some(
            EventView::Error { error: ErrorEvent::CertificateRefreshFatalError },
        ),
        LocalAgentError::ServerError(e) => match e {
            LocalAgentServerError::NetshieldLevelPolicyRefused => Some(
                policy_refused_event(LocalAgentSettingType::NetshieldLevel),
            ),
            LocalAgentServerError::BouncingPolicyRefused => Some(
                policy_refused_event(LocalAgentSettingType::Bouncing),
            ),
            LocalAgentServerError::PortFwPolicyRefused => Some(
                policy_refused_event(LocalAgentSettingType::PortForwarding),
            ),
            LocalAgentServerError::SplitTcpPolicyRefused => Some(
                policy_refused_event(LocalAgentSettingType::SplitTcp),
            ),
            LocalAgentServerError::SafeModePolicyRefused => Some(
                policy_refused_event(LocalAgentSettingType::SafeMode),
            ),
            LocalAgentServerError::RandomNatPolicyRefused => Some(
                policy_refused_event(LocalAgentSettingType::RandomNat),
            ),
            _ => None,
        },
    }
}

/// Law: a failed authentication ends the API session, a failed certificate
/// fetch is fatal, each policy refusal names the setting that was refused,
/// and every other server error gives no event.
pub proof fn lemma_error_event_table(e: LocalAgentServerError)
    ensures
        error_event_of(LocalAgentError::Authentication) == Some(EventView::Error { error: ErrorEvent::ApiSessionExpired }),
        error_event_of(LocalAgentError::CertificateFetching) == Some(
            EventView::Error { error: ErrorEvent::CertificateRefreshFatalError },
        ),
        error_event_of(LocalAgentError::ServerError(LocalAgentServerError::NetshieldLevelPolicyRefused)) == Some(
            EventView::Error { error: ErrorEvent::LocalAgentSettingPolicyRefused { setting: LocalAgentSettingType::NetshieldLevel } },
        ),
        error_event_of(LocalAgentError::ServerError(LocalAgentServerError::BouncingPolicyRefused)) == Some(
            EventView::Error { error: ErrorEvent::LocalAgentSettingPolicyRefused { setting: LocalAgentSettingType::Bouncing } },
        ),
        error_event_of(LocalAgentError::ServerError(LocalAgentServerError::PortFwPolicyRefused)) == Some(
            EventView::Error { error: ErrorEvent::LocalAgentSettingPolicyRefused { setting: LocalAgentSettingType::PortForwarding } },
        ),
        error_event_of(LocalAgentError::ServerError(LocalAgentServerError::SplitTcpPolicyRefused)) == Some(
            EventView::Error { error: ErrorEvent::LocalAgentSettingPolicyRefused { setting: LocalAgentSettingType::SplitTcp } },
        ),
        error_event_of(LocalAgentError::ServerError(LocalAgentServerError::SafeModePolicyRefused)) == Some(
            EventView::Error { error: ErrorEvent::LocalAgentSettingPolicyRefused { setting: LocalAgentSettingType::SafeMode } },
        ),
        error_event_of(LocalAgentError::ServerError(LocalAgentServerError::RandomNatPolicyRefused)) == Some(
            EventView::Error { error: ErrorEvent::LocalAgentSettingPolicyRefused { setting: LocalAgentSettingType::RandomNat } },
        ),
        !(e is NetshieldLevelPolicyRefused || e is BouncingPolicyRefused || e is PortFwPolicyRefused
            || e is SplitTcpPolicyRefused || e is SafeModePolicyRefused || e is RandomNatPolicyRefused)
            ==> error_event_of(LocalAgentError::ServerError(e)) is None,
{
}

/// The event for a refused setting.
pub fn policy_refused(setting: LocalAgentSettingType) -> (e: Option<Event>)
    ensures
        opt_event_view(e) == Some(policy_refused_event(setting)),
{
    Some(Event::Error { error: ErrorEvent::LocalAgentSettingPolicyRefused { setting } })
}

/// The reason the library reports for a jail.
pub fn to_wait_jail_reason(jail: Jail) -> (r: WaitJailReason)
    ensures
        r@ == jail_reason_of(jail),
{
    match jail {
        Jail::RequireRecent2FA(message) => WaitJailReason::Need2FA { message },
        Jail::Expired2FA(message) => WaitJailReason::Need2FA { message },
        Jail::Require2FA(message) => WaitJailReason::Need2FA { message },
        Jail::WaitingClientChallengeReply(message) => WaitJailReason::WaitingClientChallengeReply { message },
        Jail::PolicyViolation1(message) => WaitJailReason::LowPlan { message },
        Jail::PolicyViolation2(message) => WaitJailReason::PendingInvoice { message },
        Jail::BadUserBehavior(message) => WaitJailReason::BadUserBehavior { message },
        Jail::DisabledUser(message) => WaitJailReason::DisabledUser { message },
        Jail::SessionOverLimit(message) => WaitJailReason::SessionOverLimit { message },
        Jail::FreeSessionOverLimit(message) => WaitJailReason::SessionOverLimit { message },
        Jail::BasicSessionOverLimit(message) => WaitJailReason::SessionOverLimit { message },
        Jail::PlusSessionOverLimit(message) => WaitJailReason::SessionOverLimit { message },
        Jail::VisionarySessionOverLimit(message) => WaitJailReason::SessionOverLimit { message },
        Jail::ProSessionOverLimit(message) => WaitJailReason::SessionOverLimit { message },
        Jail::GuestSession(message) => WaitJailReason::Internal { message },
        Jail::RestrictedServer(message) => WaitJailReason::Internal { message },
        Jail::SystemError(message) => WaitJailReason::Internal { message },
        Jail::ExpiredCertificate(message) => WaitJailReason::Internal { message },
        Jail::RevokedCertificate(message) => WaitJailReason::Internal { message },
        Jail::KeyAlreadyUsed(message) => WaitJailReason::Internal { message },
        Jail::InvalidCertificateSignature(message) => WaitJailReason::Internal { message },
        Jail::NoCertificateProvided(message) => WaitJailReason::Internal { message },
        Jail::SessionInstallationInProgress(message) => WaitJailReason::Internal { message },
        Jail::Unknown(code, msg) => WaitJailReason::Other { code, message: msg },
    }
}

/// The event the library emits for a local agent error, see [error_event_of].
pub fn handle_error(error: LocalAgentError) -> (e: Option<Event>)
    ensures
        opt_event_view(e) == error_event_of(error),
{
    match error {
        LocalAgentError::Authentication => Some(Event::Error { error: ErrorEvent::ApiSessionExpired }),
        LocalAgentError::CertificateFetching => Some(Event::Error { error: ErrorEvent::CertificateRefreshFatalError }),
        LocalAgentError::ServerError(e) => match e {
            LocalAgentServerError::NetshieldLevelPolicyRefused => policy_refused(LocalAgentSettingType::NetshieldLevel),
            LocalAgentServerError::BouncingPolicyRefused => policy_refused(LocalAgentSettingType::Bouncing),
            LocalAgentServerError::PortFwPolicyRefused => policy_refused(LocalAgentSettingType::PortForwarding),
            LocalAgentServerError::SplitTcpPolicyRefused => policy_refused(LocalAgentSettingType::SplitTcp),
            LocalAgentServerError::SafeModePolicyRefused => policy_refused(LocalAgentSettingType::SafeMode),
            LocalAgentServerError::RandomNatPolicyRefused => policy_refused(LocalAgentSettingType::RandomNat),
            LocalAgentServerError::UnknownFeatureRequest
            | LocalAgentServerError::BadMessageSyntax
            | LocalAgentServerError::SessionNotFound
            | LocalAgentServerError::SessionError
            | LocalAgentServerError::NetshieldLevelSystemErr
            | LocalAgentServerError::NetshieldLevelInvalidInput
            | LocalAgentServerError::BouncingSystemErr
            | LocalAgentServerError::BouncingInvalidInput
            | LocalAgentServerError::PortFwSystemErr
            | LocalAgentServerError::PortFwInvalidInput
            | LocalAgentServerError::PortFwNotAvailable
            | LocalAgentServerError::RandomNatSystemErr
            | LocalAgentServerError::RandomNatInvalidInput
            | LocalAgentServerError::SplitTcpSystemErr
            | LocalAgentServerError::SplitTcpInvalidInput
            | LocalAgentServerError::SoftJailSystemErr
            | LocalAgentServerError::SoftJailInvalidInput
            | LocalAgentServerError::SafeModeSystemErr
            | LocalAgentServerError::SafeModeInvalidInput
            | LocalAgentServerError::ConflictBouncingVsRandomNat
            | LocalAgentServerError::ConflictBouncingVsSplitTcp
            | LocalAgentServerError::ConflictBouncingVsPortFw
            | LocalAgentServerError::Other(_) => None,
        },
    }
}

// ---------------------------------------------------------------------------
// Statistics
// ---------------------------------------------------------------------------

/// Average size of a blocked ad.
pub const AVG_AD_SIZE_BYTES: u64 = 200 * 1024;

/// Average size of a blocked tracker.
pub const AVG_TRACKER_SIZE_BYTES: u64 = 50 * 1024;

/// Average size of a blocked malicious download.
pub const AVG_MALICIOUS_SIZE_BYTES: u64 = 750 * 1024;

/// Average size of blocked adult content.
pub const AVG_ADULT_CONTENT_SIZE_BYTES: u64 = 1454 * 1024;

pub open spec fn count_or_zero(c: Option<u64>) -> int {
    match c {
        Some(n) => n as int,
        None => 0,
    }
}

/// The bytes saved by blocking: each blocked item counted at the average size
/// of its kind; a kind without a count adds nothing.
pub open spec fn data_saved(malicious: Option<u64>, ads: Option<u64>, trackers: Option<u64>, adult: Option<u64>) -> int {
    count_or_zero(malicious) * AVG_MALICIOUS_SIZE_BYTES + count_or_zero(ads) * AVG_AD_SIZE_BYTES
        + count_or_zero(trackers) * AVG_TRACKER_SIZE_BYTES + count_or_zero(adult) * AVG_ADULT_CONTENT_SIZE_BYTES
}

/// Estimates the bytes saved by blocking, see [data_saved].
pub fn estimate_data_saved(
    malicious_blocked: Option<u64>,
    ads_blocked: Option<u64>,
    trackers_blocked: Option<u64>,
    adult_content_blocked: Option<u64>,
) -> (saved: u64)
    requires
        data_saved(malicious_blocked, ads_blocked, trackers_blocked, adult_content_blocked) <= u64::MAX,
    ensures
        saved == data_saved(malicious_blocked, ads_blocked, trackers_blocked, adult_content_blocked),
{
    let ghost total = data_saved(malicious_blocked, ads_blocked, trackers_blocked, adult_content_blocked);
    let ghost m = count_or_zero(malicious_blocked) * AVG_MALICIOUS_SIZE_BYTES;
    let ghost a = count_or_zero(ads_blocked) * AVG_AD_SIZE_BYTES;
    let ghost t = count_or_zero(trackers_blocked) * AVG_TRACKER_SIZE_BYTES;
    let ghost d = count_or_zero(adult_content_blocked) * AVG_ADULT_CONTENT_SIZE_BYTES;
    assert(0 <= m && 0 <= a && 0 <= t && 0 <= d) by (nonlinear_arith)
        requires
            m == count_or_zero(malicious_blocked) * AVG_MALICIOUS_SIZE_BYTES,
            a == count_or_zero(ads_blocked) * AVG_AD_SIZE_BYTES,
            t == count_or_zero(trackers_blocked) * AVG_TRACKER_SIZE_BYTES,
            d == count_or_zero(adult_content_blocked) * AVG_ADULT_CONTENT_SIZE_BYTES,
            count_or_zero(malicious_blocked) >= 0,
            count_or_zero(ads_blocked) >= 0,
            count_or_zero(trackers_blocked) >= 0,
            count_or_zero(adult_content_blocked) >= 0,
    ;
    let mut saved: u64 = 0;
    if let Some(malicious_blocked) = malicious_blocked {
        assert(m == malicious_blocked * AVG_MALICIOUS_SIZE_BYTES);
        saved = saved + malicious_blocked * AVG_MALICIOUS_SIZE_BYTES;
    } else {
        assert(m == 0);
    }
    assert(saved == m);
    if let Some(ads_blocked) = ads_blocked {
        assert(a == ads_blocked * AVG_AD_SIZE_BYTES);
        saved = saved + ads_blocked * AVG_AD_SIZE_BYTES;
    } else {
        assert(a == 0);
    }
    assert(saved == m + a);
    if let Some(trackers_blocked) = trackers_blocked {
        assert(t == trackers_blocked * AVG_TRACKER_SIZE_BYTES);
        saved = saved + trackers_blocked * AVG_TRACKER_SIZE_BYTES;
    } else {
        assert(t == 0);
    }
    assert(saved == m + a + t);
    if let Some(adult_content_blocked) = adult_content_blocked {
        assert(d == adult_content_blocked * AVG_ADULT_CONTENT_SIZE_BYTES);
        saved = saved + adult_content_blocked * AVG_ADULT_CONTENT_SIZE_BYTES;
    } else {
        assert(d == 0);
    }
    saved
}

/// The count of a block list in the per-list counts: the first entry for the
/// list, if any.
pub open spec fn netshield_count(entries: Seq<(NetshieldBlockList, u64)>, list: NetshieldBlockList) -> Option<u64>
    decreases entries.len(),
{
    if entries.len() == 0 {
        None
    } else if entries[0].0 == list {
        Some(entries[0].1)
    } else {
        netshield_count(entries.drop_first(), list)
    }
}

pub open spec fn netshield_stat(stats: Option<Seq<(NetshieldBlockList, u64)>>, list: NetshieldBlockList) -> Option<u64> {
    match stats {
        Some(entries) => netshield_count(entries, list),
        None => None,
    }
}

pub open spec fn opt_entries_view(stats: Option<Vec<(NetshieldBlockList, u64)>>) -> Option<Seq<(NetshieldBlockList, u64)>> {
    match stats {
        Some(v) => Some(v@),
        None => None,
    }
}

/// The count of a block list in the reported counts, if any.
pub fn get_netshield_stats(stats: &Option<Vec<(NetshieldBlockList, u64)>>, list: &NetshieldBlockList) -> (c: Option<u64>)
    ensures
        c == netshield_stat(opt_entries_view(*stats), *list),
{
    match stats {
        None => None,
        Some(entries) => {
            let mut i: usize = 0;
            assert(entries@.skip(0) =~= entries@);
            while i < entries.len()
                invariant
                    i <= entries@.len(),
                    netshield_count(entries@.skip(i as int), *list) == netshield_count(entries@, *list),
                    opt_entries_view(*stats) == Some(entries@),
                decreases entries.len() - i,
            {
                assert(entries@.skip(i as int).drop_first() =~= entries@.skip(i + 1));
                assert(entries@.skip(i as int)[0] == entries@[i as int]);
                if entries[i].0 == *list {
                    assert(netshield_count(entries@.skip(i as int), *list) == Some(entries@[i as int].1));
                    return Some(entries[i].1);
                }
                i = i + 1;
            }
            assert(entries@.skip(i as int) =~= Seq::<(NetshieldBlockList, u64)>::empty());
            None
        },
    }
}

/// The statistics event for reported statistics.
pub open spec fn stats_event_of(stats: AgentStats) -> EventView {
    let entries = opt_entries_view(stats.netshield_dnsbl);
    let malicious = netshield_stat(entries, NetshieldBlockList::Malicious);
    let ads = netshield_stat(entries, NetshieldBlockList::Ads);
    let trackers = netshield_stat(entries, NetshieldBlockList::Tracking);
    let adult = netshield_stat(entries, NetshieldBlockList::Adult);
    EventView::LocalAgentStats {
        bytes_received: stats.bytes_received,
        bytes_sent: stats.bytes_sent,
        malicious_blocked: malicious,
        ads_blocked: ads,
        trackers_blocked: trackers,
        adult_content_blocked: adult,
        data_saved: Some(data_saved(malicious, ads, trackers, adult) as u64),
    }
}

/// Per-list counts in which each block list occurs at most once, as in the
/// map by list that the agent reports.
pub open spec fn lists_distinct(entries: Seq<(NetshieldBlockList, u64)>) -> bool {
    forall|i: int, j: int| 0 <= i < j < entries.len() ==> #[trigger] entries[i].0 != #[trigger] entries[j].0
}

/// Statistics as the agent reports them: each block list at most once, and
/// an estimate of saved bytes that fits 64 bits.
pub open spec fn stats_fit(stats: AgentStats) -> bool {
    let entries = opt_entries_view(stats.netshield_dnsbl);
    &&& entries matches Some(es) ==> lists_distinct(es)
    &&& data_saved(
        netshield_stat(entries, NetshieldBlockList::Malicious),
        netshield_stat(entries, NetshieldBlockList::Ads),
        netshield_stat(entries, NetshieldBlockList::Tracking),
        netshield_stat(entries, NetshieldBlockList::Adult),
    ) <= u64::MAX
}

/// Law: the saved-bytes estimate weighs each block list by its own average
/// size: 750 KiB per malicious download, 200 KiB per ad, 50 KiB per tracker,
/// 1454 KiB per adult content item; lists that were not reported count as
/// nothing, and the estimate is the sum over the lists.
pub proof fn lemma_data_saved_weights(n: u64, m: Option<u64>, a: Option<u64>, t: Option<u64>, d: Option<u64>)
    ensures
        data_saved(Some(n), None, None, None) == n * 768000,
        data_saved(None, Some(n), None, None) == n * 204800,
        data_saved(None, None, Some(n), None) == n * 51200,
        data_saved(None, None, None, Some(n)) == n * 1488896,
        data_saved(None, None, None, None) == 0,
        data_saved(m, a, t, d) == data_saved(m, None, None, None) + data_saved(None, a, None, None) + data_saved(
            None,
            None,
            t,
            None,
        ) + data_saved(None, None, None, d),
{
}

/// Law: in per-list counts where each list occurs at most once, the count of
/// a listed block list is the one listed with it, and a list that is not
/// listed has no count.
pub proof fn lemma_netshield_count_finds(entries: Seq<(NetshieldBlockList, u64)>, list: NetshieldBlockList)
    requires
        lists_distinct(entries),
    ensures
        forall|i: int| 0 <= i < entries.len() && #[trigger] entries[i].0 == list ==> netshield_count(entries, list)
            == Some(entries[i].1),
        (forall|i: int| 0 <= i < entries.len() ==> #[trigger] entries[i].0 != list) ==> netshield_count(
            entries,
            list,
        ) is None,
    decreases entries.len(),
{
    if entries.len() > 0 {
        let rest = entries.drop_first();
        assert(lists_distinct(rest)) by {
            assert forall|i: int, j: int| 0 <= i < j < rest.len() implies #[trigger] rest[i].0 != #[trigger] rest[j].0 by {
                assert(rest[i] == entries[i + 1]);
                assert(rest[j] == entries[j + 1]);
            }
        }
        lemma_netshield_count_finds(rest, list);
        assert forall|i: int| 0 <= i < entries.len() && #[trigger] entries[i].0 == list implies netshield_count(
            entries,
            list,
        ) == Some(entries[i].1) by {
            if i > 0 {
                assert(entries[0].0 != entries[i].0);
                assert(rest[i - 1] == entries[i]);
            }
        }
        if forall|i: int| 0 <= i < entries.len() ==> #[trigger] entries[i].0 != list {
            assert(entries[0].0 != list);
            assert forall|i: int| 0 <= i < rest.len() implies #[trigger] rest[i].0 != list by {
                assert(rest[i] == entries[i + 1]);
            }
        }
    }
}

/// Law: the statistics event reports the bytes received and sent as
/// reported, and for each block list the count reported for that very list.
pub proof fn lemma_stats_event_fields(stats: AgentStats)
    ensures
        ({
            let entries = opt_entries_view(stats.netshield_dnsbl);
            stats_event_of(stats) matches EventView::LocalAgentStats {
                bytes_received,
                bytes_sent,
                malicious_blocked,
                ads_blocked,
                trackers_blocked,
                adult_content_blocked,
                data_saved: saved,
            } && bytes_received == stats.bytes_received && bytes_sent == stats.bytes_sent && malicious_blocked
                == netshield_stat(entries, NetshieldBlockList::Malicious) && ads_blocked == netshield_stat(
                entries,
                NetshieldBlockList::Ads,
            ) && trackers_blocked == netshield_stat(entries, NetshieldBlockList::Tracking)
                && adult_content_blocked == netshield_stat(entries, NetshieldBlockList::Adult) && saved == Some(
                data_saved(malicious_blocked, ads_blocked, trackers_blocked, adult_content_blocked) as u64,
            )
        }),
{
}

/// The statistics event for reported statistics.
pub fn stats_event(stats: AgentStats) -> (e: Event)
    requires
        stats_fit(stats),
    ensures
        e@ == stats_event_of(stats),
{
    let malicious_blocked = get_netshield_stats(&stats.netshield_dnsbl, &NetshieldBlockList::Malicious);
    let ads_blocked = get_netshield_stats(&stats.netshield_dnsbl, &NetshieldBlockList::Ads);
    let trackers_blocked = get_netshield_stats(&stats.netshield_dnsbl, &NetshieldBlockList::Tracking);
    let adult_content_blocked = get_netshield_stats(&stats.netshield_dnsbl, &NetshieldBlockList::Adult);
    Event::LocalAgentStats {
        bytes_received: stats.bytes_received,
        bytes_sent: stats.bytes_sent,
        malicious_blocked,
        ads_blocked,
        trackers_blocked,
        adult_content_blocked,
        data_saved: Some(
            estimate_data_saved(malicious_blocked, ads_blocked, trackers_blocked, adult_content_blocked),
        ),
    }
}

// ---------------------------------------------------------------------------
// The handler
// ---------------------------------------------------------------------------

/// Keeps what the local agent of the connected peer reported.
pub struct LocalAgentHandler {
    last_peer: Option<PeerConnectionInfo>,
    agent_info: AgentConnectionInfo,
    established_ts: Option<u64>,
    exit_label: Option<String>,
    jails: Vec<WaitJailReason>,
}

#[verifier::ext_equal]
pub struct LocalAgentHandlerView {
    pub last_peer: Option<PeerConnectionInfoView>,
    pub agent_info: AgentConnectionInfoView,
    pub established_ts: Option<u64>,
    pub exit_label: Option<Seq<char>>,
    pub jails: Seq<WaitJailReasonView>,
}

pub open spec fn opt_peer_view(p: Option<PeerConnectionInfo>) -> Option<PeerConnectionInfoView> {
    match p {
        Some(x) => Some(x@),
        None => None,
    }
}

impl View for LocalAgentHandler {
    type V = LocalAgentHandlerView;

    closed spec fn view(&self) -> LocalAgentHandlerView {
        LocalAgentHandlerView {
            last_peer: opt_peer_view(self.last_peer),
            agent_info: self.agent_info@,
            established_ts: self.established_ts,
            exit_label: opt_string_view(self.exit_label),
            jails: jail_reason_views(self.jails@),
        }
    }
}

/// Settings of which none was reported.
pub open spec fn no_settings() -> AgentSettings {
    AgentSettings {
        soft_jail: None,
        port_forwarding: None,
        random_nat: None,
        split_tcp: None,
        circumvention_routing: None,
        netshield_level: None,
    }
}

/// Connection info of which nothing was reported.
pub open spec fn no_agent_info() -> AgentConnectionInfoView {
    AgentConnectionInfoView { settings: no_settings(), user_isp_ip: None, groups: Seq::empty() }
}

/// Why the connection waits for the local agent: a soft jail, or else any
/// hard jail; nothing where neither holds.
pub open spec fn wait_reason_of(h: LocalAgentHandlerView) -> Option<AgentConnectionWaitReasonView> {
    if h.agent_info.settings.soft_jail == Some(true) {
        Some(AgentConnectionWaitReasonView::SoftJailed)
    } else if h.jails.len() > 0 {
        Some(AgentConnectionWaitReasonView::HardJailed { jails: h.jails })
    } else {
        None
    }
}

/// The connection state for a peer connected at tunnel level: waiting for the
/// local agent while it gives a reason to wait or has not reported that the
/// session is established; connected, with what the agent reported, otherwise.
pub open spec fn agent_state_of(h: LocalAgentHandlerView, peer: PeerConnectionInfoView) -> ConnectionStateView {
    match wait_reason_of(h) {
        Some(w) => ConnectionStateView::ConnectingToLocalAgent { peer, wait_reason: Some(w) },
        None => if h.established_ts is Some {
            ConnectionStateView::Connected { peer, agent_info: Some(h.agent_info) }
        } else {
            ConnectionStateView::ConnectingToLocalAgent { peer, wait_reason: None }
        },
    }
}

/// Law: the connection waits for the local agent whenever there is a reason
/// to wait, whether or not the session is established, and reports that
/// reason; it is connected only where there is no reason to wait and the
/// session is established, and then with what the agent reported.
pub proof fn lemma_agent_state_waits_for_reason(h: LocalAgentHandlerView, peer: PeerConnectionInfoView)
    ensures
        wait_reason_of(h) matches Some(w) ==> agent_state_of(h, peer) == (ConnectionStateView::ConnectingToLocalAgent {
            peer,
            wait_reason: Some(w),
        }),
        agent_state_of(h, peer) is Connected <==> (wait_reason_of(h) is None && h.established_ts is Some),
        agent_state_of(h, peer) is Connected ==> agent_state_of(h, peer) == (ConnectionStateView::Connected {
            peer,
            agent_info: Some(h.agent_info),
        }),
        wait_reason_of(h) is None && h.established_ts is None ==> agent_state_of(h, peer) == (
        ConnectionStateView::ConnectingToLocalAgent { peer, wait_reason: None }),
{
}

/// Law: a soft jail is the reason to wait wherever it is on; otherwise any
/// hard jail is, with all the jails kept; with neither there is no reason.
pub proof fn lemma_wait_reason_precedence(h: LocalAgentHandlerView)
    ensures
        h.agent_info.settings.soft_jail == Some(true) ==> wait_reason_of(h) == Some(
            AgentConnectionWaitReasonView::SoftJailed,
        ),
        h.agent_info.settings.soft_jail != Some(true) && h.jails.len() > 0 ==> wait_reason_of(h) == Some(
            AgentConnectionWaitReasonView::HardJailed { jails: h.jails },
        ),
        h.agent_info.settings.soft_jail != Some(true) && h.jails.len() == 0 ==> wait_reason_of(h) is None,
{
}

/// Connecting to a peer: where it differs from the last one, all that its
/// local agent reported is forgotten.
pub open spec fn connected_to_peer(h: LocalAgentHandlerView, peer: PeerConnectionInfoView) -> LocalAgentHandlerView {
    let base = match h.last_peer {
        Some(last) => if last != peer {
            LocalAgentHandlerView {
                established_ts: None,
                exit_label: None,
                agent_info: no_agent_info(),
                jails: Seq::empty(),
                ..h
            }
        } else {
            h
        },
        None => h,
    };
    LocalAgentHandlerView { last_peer: Some(peer), ..base }
}

pub open spec fn with_settings(h: LocalAgentHandlerView, settings: AgentSettings) -> LocalAgentHandlerView {
    LocalAgentHandlerView { agent_info: AgentConnectionInfoView { settings, ..h.agent_info }, ..h }
}

pub open spec fn opt_strings_view(v: Option<Vec<String>>) -> Seq<Seq<char>> {
    match v {
        Some(g) => string_views(g@),
        None => Seq::empty(),
    }
}

pub open spec fn opt_jails(v: Option<Vec<Jail>>) -> Seq<Jail> {
    match v {
        Some(j) => j@,
        None => Seq::empty(),
    }
}

/// How a reported value changes what is kept, and the event it gives, if any:
/// each setting and info is kept as reported; the jails replace the kept ones;
/// statistics give a statistics event; other values are not used.
pub open spec fn value_step(h: LocalAgentHandlerView, value: LocalAgentValue) -> (LocalAgentHandlerView, Option<EventView>) {
    let s = h.agent_info.settings;
    match value {
        LocalAgentValue::InfoEstablished(t) => (LocalAgentHandlerView { established_ts: t, ..h }, None),
        LocalAgentValue::SettingsSoftjail(v) => (with_settings(h, AgentSettings { soft_jail: v, ..s }), None),
        LocalAgentValue::SettingsPortForwarding(v) => (with_settings(h, AgentSettings { port_forwarding: v, ..s }), None),
        LocalAgentValue::SettingsRandomNat(v) => (with_settings(h, AgentSettings { random_nat: v, ..s }), None),
        LocalAgentValue::SettingsSplitTcp(v) => (with_settings(h, AgentSettings { split_tcp: v, ..s }), None),
        LocalAgentValue::SettingsCircumventionRouting(v) => (
            with_settings(h, AgentSettings { circumvention_routing: v, ..s }),
            None,
        ),
        LocalAgentValue::SettingsNetshieldLevel(v) => (with_settings(h, AgentSettings { netshield_level: v, ..s }), None),
        LocalAgentValue::SettingsLabel(v) => (LocalAgentHandlerView { exit_label: opt_string_view(v), ..h }, None),
        LocalAgentValue::InfoRemote(v) => (
            LocalAgentHandlerView {
                agent_info: AgentConnectionInfoView { user_isp_ip: opt_string_view(v), ..h.agent_info },
                ..h
            },
            None,
        ),
        LocalAgentValue::InfoGroups(v) => (
            LocalAgentHandlerView {
                agent_info: AgentConnectionInfoView { groups: opt_strings_view(v), ..h.agent_info },
                ..h
            },
            None,
        ),
        LocalAgentValue::Stats(Some(stats)) => (h, Some(stats_event_of(stats))),
        LocalAgentValue::Jails(jails) => (LocalAgentHandlerView { jails: jail_reasons_of(opt_jails(jails)), ..h }, None),
        _ => (h, None),
    }
}

/// Law: each reported setting sets that setting, and only it, to the reported
/// value, and gives no event; the other settings, the jails, the session and
/// the peer stay as they were.
pub proof fn lemma_setting_values_set_own_setting(h: LocalAgentHandlerView, b: Option<bool>, level: Option<u8>)
    ensures
        ({
            let s = h.agent_info.settings;
            &&& value_step(h, LocalAgentValue::SettingsSoftjail(b)) == (with_settings(h, AgentSettings { soft_jail: b, ..s }), None::<EventView>)
            &&& value_step(h, LocalAgentValue::SettingsPortForwarding(b)) == (with_settings(h, AgentSettings { port_forwarding: b, ..s }), None::<EventView>)
            &&& value_step(h, LocalAgentValue::SettingsRandomNat(b)) == (with_settings(h, AgentSettings { random_nat: b, ..s }), None::<EventView>)
            &&& value_step(h, LocalAgentValue::SettingsSplitTcp(b)) == (with_settings(h, AgentSettings { split_tcp: b, ..s }), None::<EventView>)
            &&& value_step(h, LocalAgentValue::SettingsCircumventionRouting(b)) == (with_settings(h, AgentSettings { circumvention_routing: b, ..s }), None::<EventView>)
            &&& value_step(h, LocalAgentValue::SettingsNetshieldLevel(level)) == (with_settings(h, AgentSettings { netshield_level: level, ..s }), None::<EventView>)
        }),
        forall|s: AgentSettings| #[trigger] with_settings(h, s).agent_info.settings == s
            && with_settings(h, s).agent_info.user_isp_ip == h.agent_info.user_isp_ip
            && with_settings(h, s).agent_info.groups == h.agent_info.groups
            && with_settings(h, s).jails == h.jails && with_settings(h, s).established_ts == h.established_ts
            && with_settings(h, s).last_peer == h.last_peer && with_settings(h, s).exit_label == h.exit_label,
{
}

/// Law: the infos the agent reports are kept as reported, each in its own
/// place, with no event: the session's establishment time, the exit label,
/// the user's ISP address and the groups. Statistics change nothing kept and
/// give their event; the bulk infos, bulk settings, platform and byte counts
/// are not used.
pub proof fn lemma_info_values_kept(
    h: LocalAgentHandlerView,
    t: Option<u64>,
    text: Option<String>,
    groups: Option<Vec<String>>,
    stats: AgentStats,
    n: Option<u64>,
)
    ensures
        value_step(h, LocalAgentValue::InfoEstablished(t)) == (LocalAgentHandlerView { established_ts: t, ..h }, None::<EventView>),
        value_step(h, LocalAgentValue::SettingsLabel(text)) == (LocalAgentHandlerView { exit_label: opt_string_view(text), ..h }, None::<EventView>),
        value_step(h, LocalAgentValue::InfoRemote(text)).0.agent_info.user_isp_ip == opt_string_view(text),
        value_step(h, LocalAgentValue::InfoRemote(text)).0.agent_info.groups == h.agent_info.groups,
        value_step(h, LocalAgentValue::InfoRemote(text)).0.agent_info.settings == h.agent_info.settings,
        value_step(h, LocalAgentValue::InfoGroups(groups)).0.agent_info.groups == opt_strings_view(groups),
        value_step(h, LocalAgentValue::InfoGroups(groups)).0.agent_info.user_isp_ip == h.agent_info.user_isp_ip,
        value_step(h, LocalAgentValue::InfoGroups(groups)).0.agent_info.settings == h.agent_info.settings,
        value_step(h, LocalAgentValue::Stats(Some(stats))) == (h, Some(stats_event_of(stats))),
        value_step(h, LocalAgentValue::Stats(None)) == (h, None::<EventView>),
        value_step(h, LocalAgentValue::Infos) == (h, None::<EventView>),
        value_step(h, LocalAgentValue::Settings) == (h, None::<EventView>),
        value_step(h, LocalAgentValue::InfoPlatform(text)) == (h, None::<EventView>),
        value_step(h, LocalAgentValue::StatsBytesReceived(n)) == (h, None::<EventView>),
        value_step(h, LocalAgentValue::StatsBytesSent(n)) == (h, None::<EventView>),
{
}

/// Law: connecting again to the last peer keeps all that its agent reported;
/// connecting to another peer forgets it (establishment, exit label, settings,
/// infos and jails). Either way the peer becomes the last one.
pub proof fn lemma_connected_to_peer_forgets_other_peer(h: LocalAgentHandlerView, peer: PeerConnectionInfoView)
    ensures
        connected_to_peer(h, peer).last_peer == Some(peer),
        h.last_peer == Some(peer) || h.last_peer is None ==> connected_to_peer(h, peer) == (LocalAgentHandlerView {
            last_peer: Some(peer),
            ..h
        }),
        h.last_peer is Some && h.last_peer != Some(peer) ==> connected_to_peer(h, peer) == (LocalAgentHandlerView {
            last_peer: Some(peer),
            established_ts: None,
            exit_label: None,
            agent_info: no_agent_info(),
            jails: Seq::empty(),
        }),
        h.last_peer is Some && h.last_peer != Some(peer) ==> wait_reason_of(connected_to_peer(h, peer)) is None,
{
}

/// How a message changes what is kept, and the event it gives, if any.
pub open spec fn message_step(h: LocalAgentHandlerView, message: LocalAgentMessage) -> (LocalAgentHandlerView, Option<EventView>) {
    match message {
        LocalAgentMessage::Value(value) => value_step(h, value),
        LocalAgentMessage::Error(error) => (h, error_event_of(error)),
        LocalAgentMessage::MuonForkSelectorNeeded => (h, Some(EventView::Error { error: ErrorEvent::ApiSessionExpired })),
    }
}

/// Law: reported jails replace the kept ones, never add to them, so the same
/// jails reported twice leave the handler, and its wait reason, as once.
pub proof fn lemma_jails_replace(h: LocalAgentHandlerView, jails: Option<Vec<Jail>>)
    ensures
        value_step(value_step(h, LocalAgentValue::Jails(jails)).0, LocalAgentValue::Jails(jails)) == value_step(
            h,
            LocalAgentValue::Jails(jails),
        ),
        wait_reason_of(value_step(value_step(h, LocalAgentValue::Jails(jails)).0, LocalAgentValue::Jails(jails)).0)
            == wait_reason_of(value_step(h, LocalAgentValue::Jails(jails)).0),
{
}

/// Law: once the agent reports no jails, the connection no longer waits for a
/// hard jail: it waits for a soft jail or not at all.
pub proof fn lemma_no_jails_no_hard_jail(h: LocalAgentHandlerView, jails: Option<Vec<Jail>>)
    requires
        opt_jails(jails).len() == 0,
    ensures
        wait_reason_of(value_step(h, LocalAgentValue::Jails(jails)).0) is None || wait_reason_of(
            value_step(h, LocalAgentValue::Jails(jails)).0,
        ) == Some(AgentConnectionWaitReasonView::SoftJailed),
{
    assert(jail_reasons_of(opt_jails(jails)).len() == 0);
}

/// A message whose statistics, if any, give a saved-bytes estimate that fits
/// 64 bits.
pub open spec fn message_fits(message: LocalAgentMessage) -> bool {
    message matches LocalAgentMessage::Value(LocalAgentValue::Stats(Some(stats))) ==> stats_fit(stats)
}

fn default_settings() -> (s: AgentSettings)
    ensures
        s == no_settings(),
{
    AgentSettings {
        soft_jail: None,
        port_forwarding: None,
        random_nat: None,
        split_tcp: None,
        circumvention_routing: None,
        netshield_level: None,
    }
}

impl AgentConnectionInfo {
    /// Connection info of which nothing was reported.
    pub fn new_empty() -> (a: AgentConnectionInfo)
        ensures
            a@ == no_agent_info(),
    {
        let a = AgentConnectionInfo { settings: default_settings(), user_isp_ip: None, groups: Vec::new() };
        assert(a@.groups =~= Seq::<Seq<char>>::empty());
        a
    }

    /// A copy of the connection info.
    pub fn duplicate(&self) -> (a: AgentConnectionInfo)
        ensures
            a@ == self@,
    {
        AgentConnectionInfo {
            settings: self.settings,
            user_isp_ip: match &self.user_isp_ip {
                Some(ip) => Some(ip.clone()),
                None => None,
            },
            groups: duplicate_strings(&self.groups),
        }
    }
}

fn duplicate_strings(v: &Vec<String>) -> (r: Vec<String>)
    ensures
        string_views(r@) == string_views(v@),
{
    let mut r: Vec<String> = Vec::new();
    let mut i: usize = 0;
    while i < v.len()
        invariant
            i <= v.len(),
            r@.len() == i,
            forall|k: int| 0 <= k < i ==> (#[trigger] r@[k])@ == v@[k]@,
        decreases v.len() - i,
    {
        r.push(v[i].clone());
        i = i + 1;
    }
    assert(string_views(r@) =~= string_views(v@));
    r
}

impl WaitJailReason {
    /// A copy of the reason.
    pub fn duplicate(&self) -> (r: WaitJailReason)
        ensures
            r@ == self@,
    {
        match self {
            WaitJailReason::Need2FA { message } => WaitJailReason::Need2FA { message: message.clone() },
            WaitJailReason::WaitingClientChallengeReply { message } => WaitJailReason::WaitingClientChallengeReply {
                message: message.clone(),
            },
            WaitJailReason::LowPlan { message } => WaitJailReason::LowPlan { message: message.clone() },
            WaitJailReason::PendingInvoice { message } => WaitJailReason::PendingInvoice { message: message.clone() },
            WaitJailReason::BadUserBehavior { message } => WaitJailReason::BadUserBehavior { message: message.clone() },
            WaitJailReason::DisabledUser { message } => WaitJailReason::DisabledUser { message: message.clone() },
            WaitJailReason::SessionOverLimit { message } => WaitJailReason::SessionOverLimit { message: message.clone() },
            WaitJailReason::Internal { message } => WaitJailReason::Internal { message: message.clone() },
            WaitJailReason::Other { code, message } => WaitJailReason::Other { code: *code, message: message.clone() },
        }
    }
}

fn duplicate_jails(v: &Vec<WaitJailReason>) -> (r: Vec<WaitJailReason>)
    ensures
        jail_reason_views(r@) == jail_reason_views(v@),
{
    let mut r: Vec<WaitJailReason> = Vec::new();
    let mut i: usize = 0;
    while i < v.len()
        invariant
            i <= v.len(),
            r@.len() == i,
            forall|k: int| 0 <= k < i ==> (#[trigger] r@[k])@ == v@[k]@,
        decreases v.len() - i,
    {
        r.push(v[i].duplicate());
        i = i + 1;
    }
    assert(jail_reason_views(r@) =~= jail_reason_views(v@));
    r
}

impl LocalAgentHandler {
    /// A handler to which the local agent reported nothing yet.
    pub fn new() -> (h: LocalAgentHandler)
        ensures
            h@ == (LocalAgentHandlerView {
                last_peer: None,
                agent_info: no_agent_info(),
                established_ts: None,
                exit_label: None,
                jails: Seq::empty(),
            }),
    {
        let h = LocalAgentHandler {
            last_peer: None,
            agent_info: AgentConnectionInfo::new_empty(),
            exit_label: None,
            established_ts: None,
            jails: Vec::new(),
        };
        assert(h@.jails =~= Seq::<WaitJailReasonView>::empty());
        h
    }

    /// Why the connection waits for the local agent, see [wait_reason_of].
    pub fn get_wait_reason(&self) -> (w: Option<AgentConnectionWaitReason>)
        ensures
            opt_wait_view(w) == wait_reason_of(self@),
    {
        if self.agent_info.settings.soft_jail == Some(true) {
            Some(AgentConnectionWaitReason::SoftJailed)
        } else if self.jails.len() != 0 {
            Some(AgentConnectionWaitReason::HardJailed { jails: duplicate_jails(&self.jails) })
        } else {
            None
        }
    }

    /// The connection state for a peer connected at tunnel level, see
    /// [agent_state_of].
    pub fn get_state(&self, peer: PeerConnectionInfo) -> (s: ConnectionState)
        ensures
            s@ == agent_state_of(self@, peer@),
            wait_reason_of(self@) matches Some(w) ==> s@ == (ConnectionStateView::ConnectingToLocalAgent {
                peer: peer@,
                wait_reason: Some(w),
            }),
            s@ is Connected ==> wait_reason_of(self@) is None && self@.established_ts is Some,
    {
        if let Some(wait_reason) = self.get_wait_reason() {
            ConnectionState::ConnectingToLocalAgent { peer, wait_reason: Some(wait_reason) }
        } else if self.established_ts.is_some() {
            ConnectionState::Connected { peer, agent_info: Some(self.agent_info.duplicate()) }
        } else {
            ConnectionState::ConnectingToLocalAgent { peer, wait_reason: None }
        }
    }

    /// Records a connection to a peer, see [connected_to_peer].
    pub fn on_connected_to_peer(&mut self, peer: &PeerConnectionInfo)
        ensures
            final(self)@ == connected_to_peer(old(self)@, peer@),
    {
        let new_peer = peer.duplicate();
        let differs = match &self.last_peer {
            Some(last_peer) => !new_peer.same_as(last_peer),
            None => false,
        };
        if differs {
            self.established_ts = None;
            self.exit_label = None;
            self.agent_info = AgentConnectionInfo::new_empty();
            self.jails.clear();
            assert(jail_reason_views(self.jails@) =~= Seq::<WaitJailReasonView>::empty());
        }
        self.last_peer = Some(new_peer);
        assert(self@ =~= connected_to_peer(old(self)@, peer@));
    }

    /// Replaces the kept jails by the reasons for the reported ones.
    fn handle_jails(&mut self, jails: Option<Vec<Jail>>) -> (e: Option<Event>)
        ensures
            final(self)@ == (LocalAgentHandlerView { jails: jail_reasons_of(opt_jails(jails)), ..old(self)@ }),
            e is None,
    {
        let mut reasons: Vec<WaitJailReason> = Vec::new();
        let ghost param = jails;
        if let Some(jails) = jails {
            let ghost js = jails@;
            for jail in it: jails.into_iter()
                invariant
                    it.seq() == js,
                    jail_reason_views(reasons@) == jail_reasons_of(js.take(it.index() as int)),
            {
                let ghost n = it.index() as int;
                let ghost before = reasons@;
                assert(jail == js[n]);
                let reason = to_wait_jail_reason(jail);
                reasons.push(reason);
                assert(jail_reason_views(reasons@) =~= jail_reasons_of(js.take(n + 1))) by {
                    assert(jail_reason_views(reasons@) =~= jail_reason_views(before).push(reason@));
                    assert(js.take(n + 1) =~= js.take(n).push(js[n]));
                }
            }
            assert(js.take(js.len() as int) =~= js);
        } else {
            assert(jail_reason_views(reasons@) =~= jail_reasons_of(Seq::<Jail>::empty()));
        }
        self.jails = reasons;
        assert(self@ =~= LocalAgentHandlerView { jails: jail_reasons_of(opt_jails(param)), ..old(self)@ });
        None
    }

    /// Keeps a reported value and gives its event, see [value_step].
    fn handle_value(&mut self, value: LocalAgentValue) -> (e: Option<Event>)
        requires
            value matches LocalAgentValue::Stats(Some(stats)) ==> stats_fit(stats),
        ensures
            (final(self)@, opt_event_view(e)) == value_step(old(self)@, value),
    {
        match value {
            LocalAgentValue::InfoEstablished(timestamp) => self.established_ts = timestamp,
            LocalAgentValue::SettingsSoftjail(value) => self.agent_info.settings.soft_jail = value,
            LocalAgentValue::SettingsPortForwarding(value) => self.agent_info.settings.port_forwarding = value,
            LocalAgentValue::SettingsRandomNat(value) => self.agent_info.settings.random_nat = value,
            LocalAgentValue::SettingsSplitTcp(value) => self.agent_info.settings.split_tcp = value,
            LocalAgentValue::SettingsCircumventionRouting(value) => self.agent_info.settings.circumvention_routing
                = value,
            LocalAgentValue::SettingsNetshieldLevel(value) => self.agent_info.settings.netshield_level = value,
            LocalAgentValue::SettingsLabel(value) => self.exit_label = value,
            LocalAgentValue::StatsBytesReceived(_) | LocalAgentValue::StatsBytesSent(_) => {},
            LocalAgentValue::InfoPlatform(_) => {},
            LocalAgentValue::InfoRemote(value) => self.agent_info.user_isp_ip = value,
            LocalAgentValue::InfoGroups(value) => {
                self.agent_info.groups = match value {
                    Some(groups) => groups,
                    None => Vec::new(),
                };
                assert(self@.agent_info.groups =~= opt_strings_view(value));
            },
            LocalAgentValue::Infos => {},
            LocalAgentValue::Settings => {},
            LocalAgentValue::Stats(value) => {
                if let Some(stats) = value {
                    return Some(stats_event(stats));
                }
            },
            LocalAgentValue::Jails(jails) => {
                return self.handle_jails(jails);
            },
        }
        None
    }

    /// Handles a message of the local agent connection, see [message_step].
    pub fn handle_message(&mut self, message: LocalAgentMessage) -> (e: Option<Event>)
        requires
            message_fits(message),
        ensures
            (final(self)@, opt_event_view(e)) == message_step(old(self)@, message),
    {
        match message {
            LocalAgentMessage::Value(value) => self.handle_value(value),
            LocalAgentMessage::Error(error) => handle_error(error),
            LocalAgentMessage::MuonForkSelectorNeeded => Some(Event::Error { error: ErrorEvent::ApiSessionExpired }),
        }
    }

    /// The values the library asks the local agent to report.
    pub fn local_agent_selectors_to_watch() -> (v: Vec<LocalAgentSelector>)
        ensures
            v@ == seq![
                LocalAgentSelector::InfoEstablished,
                LocalAgentSelector::InfoRemote,
                LocalAgentSelector::InfoGroups,
                LocalAgentSelector::SettingsSoftjail,
                LocalAgentSelector::SettingsPortForwarding,
                LocalAgentSelector::SettingsRandomNat,
                LocalAgentSelector::SettingsSplitTcp,
                LocalAgentSelector::SettingsCircumventionRouting,
                LocalAgentSelector::SettingsNetshieldLevel,
                LocalAgentSelector::SettingsLabel,
                LocalAgentSelector::Jails,
            ],
    {
        let v = vec![
            LocalAgentSelector::InfoEstablished,
            LocalAgentSelector::InfoRemote,
            LocalAgentSelector::InfoGroups,
            LocalAgentSelector::SettingsSoftjail,
            LocalAgentSelector::SettingsPortForwarding,
            LocalAgentSelector::SettingsRandomNat,
            LocalAgentSelector::SettingsSplitTcp,
            LocalAgentSelector::SettingsCircumventionRouting,
            LocalAgentSelector::SettingsNetshieldLevel,
            LocalAgentSelector::SettingsLabel,
            LocalAgentSelector::Jails,
        ];
        v
    }
}

} // verus!
