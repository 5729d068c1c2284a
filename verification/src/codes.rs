//! Code tables: total mappings from the integer codes carried on the bus to
//! semantic enums, and from those enums to display severities and icon keys.

use vstd::prelude::*;

verus! {

/// Overall state of the network manager, as reported by its `State` property.
#[derive(Clone, Copy, PartialEq, Eq, Structural, Debug)]
pub enum NetworkState {
    Unknown,
    Asleep,
    Disconnected,
    Disconnecting,
    Connecting,
    ConnectedLocal,
    ConnectedSite,
    ConnectedGlobal,
}

/// Activation state of one active connection.
#[derive(Clone, Copy, PartialEq, Eq, Structural, Debug)]
pub enum ActiveConnectionState {
    Unknown,
    Activating,
    Activated,
    Deactivating,
    Deactivated,
}

/// Kind of a network device.
#[derive(Clone, Copy, PartialEq, Eq, Structural, Debug)]
pub enum DeviceType {
    Unknown,
    Ethernet,
    Wifi,
    Modem,
    Bridge,
    Tun,
    Wireguard,
}

/// Display classification of a rendered entry.
#[derive(Clone, Copy, PartialEq, Eq, Structural, Debug)]
pub enum Severity {
    Idle,
    Info,
    Good,
    Warning,
    Critical,
}

/// The overall-state code table: every documented code maps to its variant,
/// every other code to `Unknown`.
pub open spec fn spec_network_state(code: u32) -> NetworkState {
    match code {
        10u32 => NetworkState::Asleep,
        20u32 => NetworkState::Disconnected,
        30u32 => NetworkState::Disconnecting,
        40u32 => NetworkState::Connecting,
        50u32 => NetworkState::ConnectedLocal,
        60u32 => NetworkState::ConnectedSite,
        70u32 => NetworkState::ConnectedGlobal,
        _ => NetworkState::Unknown,
    }
}

/// The connection-activation code table.
pub open spec fn spec_active_connection_state(code: u32) -> ActiveConnectionState {
    match code {
        1u32 => ActiveConnectionState::Activating,
        2u32 => ActiveConnectionState::Activated,
        3u32 => ActiveConnectionState::Deactivating,
        4u32 => ActiveConnectionState::Deactivated,
        _ => ActiveConnectionState::Unknown,
    }
}

/// The device-type code table.
pub open spec fn spec_device_type(code: u32) -> DeviceType {
    match code {
        1u32 => DeviceType::Ethernet,
        2u32 => DeviceType::Wifi,
        8u32 => DeviceType::Modem,
        13u32 => DeviceType::Bridge,
        16u32 => DeviceType::Tun,
        29u32 => DeviceType::Wireguard,
        _ => DeviceType::Unknown,
    }
}

/// Severity of a connection given its activation state and the severity that
/// stands for "healthy" in the current refresh.
pub open spec fn spec_connection_severity(s: ActiveConnectionState, good: Severity) -> Severity {
    match s {
        ActiveConnectionState::Activated => good,
        ActiveConnectionState::Activating => Severity::Warning,
        ActiveConnectionState::Deactivating => Severity::Warning,
        ActiveConnectionState::Deactivated => Severity::Critical,
        ActiveConnectionState::Unknown => Severity::Critical,
    }
}

impl NetworkState {
    /// Total conversion from the wire code; undocumented codes give `Unknown`.
    pub fn from_code(code: u32) -> (r: NetworkState)
        ensures
            r == spec_network_state(code),
    {
        match code {
            10u32 => NetworkState::Asleep,
            20u32 => NetworkState::Disconnected,
            30u32 => NetworkState::Disconnecting,
            40u32 => NetworkState::Connecting,
            50u32 => NetworkState::ConnectedLocal,
            60u32 => NetworkState::ConnectedSite,
            70u32 => NetworkState::ConnectedGlobal,
            _ => NetworkState::Unknown,
        }
    }
}

impl ActiveConnectionState {
    /// Total conversion from the wire code; undocumented codes give `Unknown`.
    pub fn from_code(code: u32) -> (r: ActiveConnectionState)
        ensures
            r == spec_active_connection_state(code),
    {
        match code {
            1u32 => ActiveConnectionState::Activating,
            2u32 => ActiveConnectionState::Activated,
            3u32 => ActiveConnectionState::Deactivating,
            4u32 => ActiveConnectionState::Deactivated,
            _ => ActiveConnectionState::Unknown,
        }
    }

    /// The display severity of a connection in this activation state, given
    /// the severity that stands for "healthy" in the current refresh.
    pub fn to_state(&self, good: Severity) -> (r: Severity)
        ensures
            r == spec_connection_severity(*self, good),
    {
        match self {
            ActiveConnectionState::Activated => good,
            ActiveConnectionState::Activating => Severity::Warning,
            ActiveConnectionState::Deactivating => Severity::Warning,
            ActiveConnectionState::Deactivated => Severity::Critical,
            ActiveConnectionState::Unknown => Severity::Critical,
        }
    }
}

impl DeviceType {
    /// Total conversion from the wire code; undocumented codes give `Unknown`.
    pub fn from_code(code: u32) -> (r: DeviceType)
        ensures
            r == spec_device_type(code),
    {
        match code {
            1u32 => DeviceType::Ethernet,
            2u32 => DeviceType::Wifi,
            8u32 => DeviceType::Modem,
            13u32 => DeviceType::Bridge,
            16u32 => DeviceType::Tun,
            29u32 => DeviceType::Wireguard,
            _ => DeviceType::Unknown,
        }
    }
}

/// The icon-lookup key of a device type; `Unknown` has none.
pub open spec fn spec_icon_name(dt: DeviceType) -> Option<Seq<char>> {
    match dt {
        DeviceType::Ethernet => Some("net_wired"@),
        DeviceType::Wifi => Some("net_wireless"@),
        DeviceType::Modem => Some("net_modem"@),
        DeviceType::Bridge => Some("net_bridge"@),
        DeviceType::Tun => Some("net_bridge"@),
        DeviceType::Wireguard => Some("net_vpn"@),
        DeviceType::Unknown => None,
    }
}

/// The textual name of a device type, used as fallback display text when no
/// icon is available.
pub open spec fn spec_type_label(dt: DeviceType) -> Seq<char> {
    match dt {
        DeviceType::Ethernet => "Ethernet"@,
        DeviceType::Wifi => "Wifi"@,
        DeviceType::Modem => "Modem"@,
        DeviceType::Bridge => "Bridge"@,
        DeviceType::Tun => "Tun"@,
        DeviceType::Wireguard => "Wireguard"@,
        DeviceType::Unknown => "Unknown"@,
    }
}

impl DeviceType {
    /// The icon-lookup key for this device type, if one exists.
    pub fn to_icon_name(&self) -> (r: Option<String>)
        ensures
            match r {
                Some(s) => spec_icon_name(*self) == Some(s@),
                None => spec_icon_name(*self) is None,
            },
    {
        match self {
            DeviceType::Ethernet => Some(String::from_str("net_wired")),
            DeviceType::Wifi => Some(String::from_str("net_wireless")),
            DeviceType::Modem => Some(String::from_str("net_modem")),
            DeviceType::Bridge => Some(String::from_str("net_bridge")),
            DeviceType::Tun => Some(String::from_str("net_bridge")),
            DeviceType::Wireguard => Some(String::from_str("net_vpn")),
            DeviceType::Unknown => None,
        }
    }

    /// The textual name of this device type.
    pub fn type_label(&self) -> (r: String)
        ensures
            r@ == spec_type_label(*self),
    {
        match self {
            DeviceType::Ethernet => String::from_str("Ethernet"),
            DeviceType::Wifi => String::from_str("Wifi"),
            DeviceType::Modem => String::from_str("Modem"),
            DeviceType::Bridge => String::from_str("Bridge"),
            DeviceType::Tun => String::from_str("Tun"),
            DeviceType::Wireguard => String::from_str("Wireguard"),
            DeviceType::Unknown => String::from_str("Unknown"),
        }
    }
}

/// Every code outside the documented ranges maps to the `Unknown` variant of
/// its table: the code tables are total and never fail.
pub proof fn lemma_code_tables_total(code: u32)
    ensures
        !(code == 10 || code == 20 || code == 30 || code == 40 || code == 50 || code == 60
            || code == 70) ==> spec_network_state(code) == NetworkState::Unknown,
        !(1 <= code <= 4) ==> spec_active_connection_state(code)
            == ActiveConnectionState::Unknown,
        !(code == 1 || code == 2 || code == 8 || code == 13 || code == 16 || code == 29)
            ==> spec_device_type(code) == DeviceType::Unknown,
{
}

} // verus!
