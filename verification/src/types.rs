//! Shared data model: connection states, EC result codes, the status
//! snapshot that is fanned out to subscribers, and the protocol constants.

use vstd::prelude::*;

verus! {

/// Poll cadence while the credential store is not yet mounted. Deliberately
/// not a round number, to de-phase this pump from other periodic actors.
pub const BOOT_POLL_INTERVAL_MS: u32 = 3758;

/// Steady-state poll cadence, once the credential store is mounted.
pub const POLL_INTERVAL_MS: u32 = 10151;

/// How many poll intervals a join attempt may sit in `Connecting` or
/// `WaitDhcp` before the machine gives up and retries a fresh candidate.
pub const INTERVALS_BEFORE_RETRY: u32 = 3;

/// Lowest EC firmware revision this supervisor may drive, packed as
/// `(maj << 24) | (min << 16) | (rev << 8) | commits`.
pub const MIN_EC_REV: u32 = 0x0009_0600;

/// Longest passphrase the radio accepts, in bytes.
pub const WF200_PASS_MAX_LEN: usize = 64;

/// Most subscribers the status fan-out will carry at once.
pub const SUBSCRIBER_CAP: usize = 32;

/// Credential-store dictionary that maps an SSID to its passphrase.
pub const AP_DICT_NAME: &'static str = "wlan.networks";

/// The connection state machine's state variable. Exactly one variant is
/// active at any instant.
#[derive(Copy, Clone, Debug, PartialEq, Eq, Structural)]
pub enum WifiState {
    /// Initial state, nothing known about the link yet.
    Unknown,
    /// A join was issued; awaiting the EC's connect result.
    Connecting,
    /// Associated; awaiting IP configuration.
    WaitDhcp,
    /// Transient: forces a leave plus rescan on the next poll.
    Retry,
    /// The last attempt found no matching access point.
    InvalidAp,
    /// The last attempt's credentials were rejected.
    InvalidAuth,
    /// Associated and IP-configured.
    Connected,
    /// No association; ready to try a candidate.
    Disconnected,
    /// EC malfunction; the radio must be reset.
    Error,
}

/// Whether an SSID scan is currently running on the EC.
#[derive(Copy, Clone, Debug, PartialEq, Eq, Structural)]
pub enum SsidScanState {
    Idle,
    Scanning,
}

/// Terminal verdict of a join attempt, as decoded from the EC's `Connect`
/// interrupt argument.
#[derive(Copy, Clone, Debug, PartialEq, Eq, Structural)]
pub enum ConnectResult {
    Success,
    NoMatchingAp,
    Timeout,
    Reject,
    AuthFail,
    Aborted,
    Error,
    /// `Pending` as a terminal result is an EC protocol violation and is
    /// treated like `Error`.
    Pending,
}

/// Link state as the EC reports it.
#[derive(Copy, Clone, Debug, PartialEq, Eq, Structural)]
pub enum LinkState {
    Unknown,
    ResetHold,
    Disconnected,
    Connecting,
    Connected,
    WFXError,
}

/// IP configuration state as the EC reports it.
#[derive(Copy, Clone, Debug, PartialEq, Eq, Structural)]
pub enum IpState {
    Invalid,
    Pending,
    Bound,
}

/// Name and signal strength of the associated access point.
#[derive(Clone, Debug)]
pub struct SsidInfo {
    pub name: String,
    pub rssi: u8,
}

/// One status snapshot, delivered by value to every subscriber.
#[derive(Clone, Debug)]
pub struct WlanStatus {
    pub ssid: Option<SsidInfo>,
    pub link_state: LinkState,
    pub ip: IpState,
}

/// Mathematical image of [`SsidInfo`].
#[verifier::ext_equal]
pub ghost struct SsidInfoV {
    pub name: Seq<char>,
    pub rssi: u8,
}

/// Mathematical image of [`WlanStatus`].
#[verifier::ext_equal]
pub ghost struct StatusV {
    pub ssid: Option<SsidInfoV>,
    pub link_state: LinkState,
    pub ip: IpState,
}

impl View for SsidInfo {
    type V = SsidInfoV;

    open spec fn view(&self) -> SsidInfoV {
        SsidInfoV { name: self.name@, rssi: self.rssi }
    }
}

impl View for WlanStatus {
    type V = StatusV;

    open spec fn view(&self) -> StatusV {
        StatusV {
            ssid: match self.ssid {
                Some(info) => Some(info@),
                None => None,
            },
            link_state: self.link_state,
            ip: self.ip,
        }
    }
}

/// The snapshot broadcast while nothing is associated.
pub open spec fn default_status() -> StatusV {
    StatusV { ssid: None, link_state: LinkState::Disconnected, ip: IpState::Invalid }
}

impl WlanStatus {
    /// A fresh snapshot for an associated link, handy for tests and ports.
    pub fn new(ssid: Option<SsidInfo>, link_state: LinkState, ip: IpState) -> (r: WlanStatus)
        ensures
            r@ == (StatusV {
                ssid: match ssid {
                    Some(info) => Some(info@),
                    None => None,
                },
                link_state,
                ip,
            }),
    {
        WlanStatus { ssid, link_state, ip }
    }
}

impl Default for WlanStatus {
    /// The disconnected snapshot: no SSID, link down, no IP configuration.
    fn default() -> (r: WlanStatus)
        ensures
            r@ == default_status(),
    {
        WlanStatus { ssid: None, link_state: LinkState::Disconnected, ip: IpState::Invalid }
    }
}

/// Requests understood by the supervisor's inbox, in wire order: the message
/// identifier on the wire is the variant's position in this declaration.
#[derive(Copy, Clone, Debug, PartialEq, Eq, Structural)]
pub enum ConnectionManagerOpcode {
    Run,
    Poll,
    Stop,
    SubscribeWifiStats,
    UnsubWifiStats,
    ComInt,
    SuspendResume,
    Quit,
}

/// Requests understood by the poll pump, in wire order.
#[derive(Copy, Clone, Debug, PartialEq, Eq, Structural)]
pub enum PumpOp {
    Pump,
    Quit,
}

/// Decodes an inbox message identifier. Unknown identifiers yield `None`
/// and are dropped by the caller.
pub fn opcode_from_usize(id: usize) -> (r: Option<ConnectionManagerOpcode>)
    ensures
        r == spec_opcode_from_usize(id),
{
    match id {
        0 => Some(ConnectionManagerOpcode::Run),
        1 => Some(ConnectionManagerOpcode::Poll),
        2 => Some(ConnectionManagerOpcode::Stop),
        3 => Some(ConnectionManagerOpcode::SubscribeWifiStats),
        4 => Some(ConnectionManagerOpcode::UnsubWifiStats),
        5 => Some(ConnectionManagerOpcode::ComInt),
        6 => Some(ConnectionManagerOpcode::SuspendResume),
        7 => Some(ConnectionManagerOpcode::Quit),
        _ => None,
    }
}

/// Wire decoding of [`ConnectionManagerOpcode`], position for position.
pub open spec fn spec_opcode_from_usize(id: usize) -> Option<ConnectionManagerOpcode> {
    if id == 0 {
        Some(ConnectionManagerOpcode::Run)
    } else if id == 1 {
        Some(ConnectionManagerOpcode::Poll)
    } else if id == 2 {
        Some(ConnectionManagerOpcode::Stop)
    } else if id == 3 {
        Some(ConnectionManagerOpcode::SubscribeWifiStats)
    } else if id == 4 {
        Some(ConnectionManagerOpcode::UnsubWifiStats)
    } else if id == 5 {
        Some(ConnectionManagerOpcode::ComInt)
    } else if id == 6 {
        Some(ConnectionManagerOpcode::SuspendResume)
    } else if id == 7 {
        Some(ConnectionManagerOpcode::Quit)
    } else {
        None
    }
}

/// Decodes a pump message identifier.
pub fn pump_op_from_usize(id: usize) -> (r: Option<PumpOp>)
    ensures
        id == 0 ==> r == Some(PumpOp::Pump),
        id == 1 ==> r == Some(PumpOp::Quit),
        id > 1 ==> r is None,
{
    match id {
        0 => Some(PumpOp::Pump),
        1 => Some(PumpOp::Quit),
        _ => None,
    }
}

/// Packs an EC firmware tag `(maj, min, rev, commits)` into the single
/// revision word that is compared against [`MIN_EC_REV`].
pub fn pack_ec_rev(maj: u8, min: u8, rev: u8, commits: u8) -> (r: u32)
    ensures
        r == spec_pack_ec_rev(maj, min, rev, commits),
{
    (maj as u32) << 24 | (min as u32) << 16 | (rev as u32) << 8 | (commits as u32)
}

/// `(maj << 24) | (min << 16) | (rev << 8) | commits`.
pub open spec fn spec_pack_ec_rev(maj: u8, min: u8, rev: u8, commits: u8) -> u32 {
    (maj as u32) << 24 | (min as u32) << 16 | (rev as u32) << 8 | (commits as u32)
}

} // verus!
