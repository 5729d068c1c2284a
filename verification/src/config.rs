//! The block's configuration surface and the icon texts it renders with.

use vstd::prelude::*;

verus! {

/// Configuration of the block.  Unknown keys are rejected by the outer
/// configuration layer before a value of this type is built.
#[derive(Debug)]
pub struct NetworkManagerConfig {
    /// Command to spawn on a left click, if any.
    pub on_click: Option<String>,
    /// Whether to show only the primary connection, or all active connections.
    pub primary_only: bool,
    /// Whether to show a generic unknown-device icon instead of the type name
    /// for unknown devices.
    pub unknown_device_icon: bool,
    /// Whether to show the IP addresses of active networks.
    pub ip: bool,
    /// Whether to show the SSID of active wireless networks.
    pub ssid: bool,
    /// Maximum SSID width, in characters.
    pub max_ssid_width: usize,
}

impl Default for NetworkManagerConfig {
    /// The documented defaults: no click command, all connections, type-name
    /// fallback for unknown devices, IP and SSID display on, SSIDs cut at 21
    /// characters.
    fn default() -> (r: Self)
        ensures
            r.on_click is None,
            !r.primary_only,
            !r.unknown_device_icon,
            r.ip,
            r.ssid,
            r.max_ssid_width == 21,
    {
        NetworkManagerConfig {
            on_click: None,
            primary_only: false,
            unknown_device_icon: false,
            ip: true,
            ssid: true,
            max_ssid_width: 21,
        }
    }
}

/// The icon texts used by this block, one per icon-lookup key the device
/// types map to, plus the generic unknown-device icon.  A key the icon theme
/// does not know arrives here as the empty string.
#[derive(Debug)]
pub struct IconSet {
    pub net_wired: String,
    pub net_wireless: String,
    pub net_modem: String,
    pub net_bridge: String,
    pub net_vpn: String,
    pub unknown: String,
}

impl IconSet {
    /// An icon set with every icon empty.
    pub fn empty() -> (r: IconSet)
        ensures
            r.net_wired@ == Seq::<char>::empty(),
            r.net_wireless@ == Seq::<char>::empty(),
            r.net_modem@ == Seq::<char>::empty(),
            r.net_bridge@ == Seq::<char>::empty(),
            r.net_vpn@ == Seq::<char>::empty(),
            r.unknown@ == Seq::<char>::empty(),
    {
        IconSet {
            net_wired: String::new(),
            net_wireless: String::new(),
            net_modem: String::new(),
            net_bridge: String::new(),
            net_vpn: String::new(),
            unknown: String::new(),
        }
    }
}

} // verus!
