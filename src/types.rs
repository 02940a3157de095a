use vstd::prelude::*;

verus! {

/// Commands issued to the library.
#[derive(Clone, Copy, Debug, PartialEq, Eq, Structural)]
pub enum BluetoothCommand {
    /// Detect all bluetooth adapters present on the system.
    DetectAdapters,
    /// Find out how many bluetooth adapters are detected.
    QueryNumAdapters,
}

/// The user's response to a bluetooth passkey.
#[derive(Clone, Copy, Debug, PartialEq, Eq, Structural)]
pub enum ResponseToPasskey {
    /// The passkey is accepted.
    Yes,
    /// The passkey is not accepted.
    No,
    /// The process is cancelled by the user.
    Cancel,
    /// Waiting on the user to decide.
    Waiting,
}

/// Messages sent directly from the application hosting the bluetooth controls.
#[derive(Clone, Copy, Debug, PartialEq, Eq, Structural)]
pub enum MessageFromBluetoothHost {
    /// A response about the active pairing passkey.
    PasskeyMessage(ResponseToPasskey),
}

/// Responses issued by the library.
#[derive(Clone, Copy, Debug, PartialEq, Eq, Structural)]
pub enum BluetoothResponse {
    /// The number of bluetooth adapters detected.
    Adapters(usize),
}

impl BluetoothCommand {
    /// The library's response to this command, on a system where `adapters`
    /// adapters were detected: a count answers `QueryNumAdapters`, and
    /// `DetectAdapters` needs no response.
    pub fn response(self, adapters: usize) -> (r: Option<BluetoothResponse>)
        ensures
            r == (match self {
                BluetoothCommand::QueryNumAdapters => Some(BluetoothResponse::Adapters(adapters)),
                BluetoothCommand::DetectAdapters => None,
            }),
    {
        match self {
            BluetoothCommand::QueryNumAdapters => Some(BluetoothResponse::Adapters(adapters)),
            BluetoothCommand::DetectAdapters => None,
        }
    }
}

/// Settings for an rfcomm profile.
#[derive(Clone, Debug)]
pub struct BluetoothRfcommProfileSettings {
    /// The uuid of the profile.
    pub uuid: String,
    /// A name for the profile that users can read.
    pub name: Option<String>,
    /// The service uuid of the profile (may be the same as `uuid`).
    pub service_uuid: Option<String>,
    /// The channel to use.
    pub channel: Option<u16>,
    /// PSM number used for uuids and SDP (if applicable).
    pub psm: Option<u16>,
    /// Whether a connection requires authentication.
    pub authenticate: Option<bool>,
    /// Whether a connection requires authorization.
    pub authorize: Option<bool>,
    /// For client profiles: connect the channel when a remote device connects.
    pub auto_connect: Option<bool>,
    /// A manual SDP record.
    pub sdp_record: Option<String>,
    /// SDP version.
    pub sdp_version: Option<u16>,
    /// SDP profile features.
    pub sdp_features: Option<u16>,
}

/// Settings for an l2cap profile.
#[derive(Clone, Debug)]
pub struct BluetoothL2capProfileSettings {
    /// The uuid of the profile.
    pub uuid: String,
    /// A name for the profile that users can read.
    pub name: Option<String>,
    /// The service uuid of the profile (may be the same as `uuid`).
    pub service_uuid: Option<String>,
    /// The channel to use.
    pub channel: Option<u16>,
    /// PSM number used for uuids and SDP (if applicable).
    pub psm: Option<u16>,
    /// Whether a connection requires authentication.
    pub authenticate: Option<bool>,
    /// Whether a connection requires authorization.
    pub authorize: Option<bool>,
    /// For client profiles: connect the channel when a remote device connects.
    pub auto_connect: Option<bool>,
    /// A manual SDP record.
    pub sdp_record: Option<String>,
    /// SDP version.
    pub sdp_version: Option<u16>,
    /// SDP profile features.
    pub sdp_features: Option<u16>,
}

/// The address of a bluetooth adapter.
#[derive(Clone, Debug)]
pub enum BluetoothAdapterAddress {
    /// The address in text form.
    String(String),
    /// The address as six bytes.
    Byte([u8; 6]),
}

/// The pairing (bonding) status of a bluetooth device.
#[derive(Clone, Copy, Debug, PartialEq, Eq, Structural)]
pub enum PairingStatus {
    /// The device is not paired.
    NotPaired,
    /// The device is being paired.
    Pairing,
    /// The device is paired.
    Paired,
    /// The status is unknown or invalid.
    Unknown,
}

/// The platform's bond-state codes.
pub const BOND_NONE: i32 = 10;

pub const BOND_BONDING: i32 = 11;

pub const BOND_BONDED: i32 = 12;

pub open spec fn pairing_status_of(code: i32) -> PairingStatus {
    if code == BOND_NONE {
        PairingStatus::NotPaired
    } else if code == BOND_BONDING {
        PairingStatus::Pairing
    } else if code == BOND_BONDED {
        PairingStatus::Paired
    } else {
        PairingStatus::Unknown
    }
}

impl PairingStatus {
    /// The status that a platform bond-state code stands for: 10 is not
    /// paired, 11 pairing, 12 paired, anything else unknown.
    pub fn from_bond_state(code: i32) -> (s: PairingStatus)
        ensures
            s == pairing_status_of(code),
    {
        if code == BOND_NONE {
            PairingStatus::NotPaired
        } else if code == BOND_BONDING {
            PairingStatus::Pairing
        } else if code == BOND_BONDED {
            PairingStatus::Paired
        } else {
            PairingStatus::Unknown
        }
    }
}

/// A placeholder backend that keeps the backend unions from being empty.
#[derive(Clone, Copy, Debug, PartialEq, Eq, Structural)]
pub struct Dummy {}

/// Managing when bluetooth discovery is enabled.
pub trait BluetoothDiscoveryTrait {}

/// The common functions of all bluetooth sockets.
pub trait BluetoothSocketTrait {}

/// The common functions of all bluetooth rfcomm sockets.
pub trait BluetoothRfcommSocketTrait {}

} // verus!
