//! The refresh algorithm: turning the values one round of remote lookups
//! produced into an indicator and an ordered widget list.  Every failed
//! lookup arrives here as `None` and degrades only the field it feeds;
//! partial output is always preferred over discarding the refresh.

use vstd::prelude::*;
use crate::codes::ActiveConnectionState;
use crate::codes::DeviceType;
use crate::codes::NetworkState;
use crate::codes::Severity;
use crate::codes::spec_active_connection_state;
use crate::codes::spec_connection_severity;
use crate::codes::spec_device_type;
use crate::codes::spec_network_state;
use crate::config::IconSet;
use crate::config::NetworkManagerConfig;
use crate::ipv4::Ipv4Address;
use crate::ipv4::spec_addr_text;
use crate::text::join_strings;
use crate::text::spec_join;
use crate::text::spec_truncate;
use crate::text::truncate_chars;

verus! {

/// One renderable status entry.
#[derive(Debug)]
pub struct Widget {
    pub severity: Severity,
    pub text: String,
}

/// What one round of per-device lookups produced for one device.  A failed
/// lookup is `None`; an SSID is only present for a wireless device whose
/// access point and SSID both resolved.
#[derive(Debug)]
pub struct DeviceInfo {
    pub device_type_code: Option<u32>,
    pub ssid: Option<String>,
}

/// What one round of per-connection lookups produced for one connection.
#[derive(Debug)]
pub struct ConnectionInfo {
    pub state_code: Option<u32>,
    pub devices: Option<Vec<DeviceInfo>>,
    pub addresses: Option<Vec<Ipv4Address>>,
}

/// The render output of one refresh: the indicator stands alone when the
/// widget list is empty, otherwise the widgets replace it.
#[derive(Debug)]
pub struct RenderOutput {
    pub indicator: Widget,
    pub widgets: Vec<Widget>,
}

/// The overall state of the refresh; a failed state query counts as Unknown.
pub open spec fn spec_overall_state(code: Option<u32>) -> NetworkState {
    match code {
        Some(c) => spec_network_state(c),
        None => NetworkState::Unknown,
    }
}

/// The indicator severity of an overall state.
pub open spec fn spec_indicator_severity(st: NetworkState) -> Severity {
    match st {
        NetworkState::ConnectedGlobal => Severity::Good,
        NetworkState::ConnectedSite => Severity::Info,
        NetworkState::ConnectedLocal => Severity::Idle,
        NetworkState::Connecting => Severity::Warning,
        NetworkState::Disconnecting => Severity::Warning,
        _ => Severity::Critical,
    }
}

/// The indicator glyph of an overall state: a disconnect glyph when the
/// network is down or asleep, an error glyph when it is unknown.
pub open spec fn spec_indicator_glyph(st: NetworkState) -> Seq<char> {
    match st {
        NetworkState::Disconnected => "\u{00d7}"@,
        NetworkState::Asleep => "\u{00d7}"@,
        NetworkState::Unknown => "E"@,
        _ => ""@,
    }
}

/// Whether the refresh queries any connection data at all in this overall
/// state; when the network is down, asleep or unknown it would be wasted work.
pub open spec fn spec_wants_connections(st: NetworkState) -> bool {
    !(st is Disconnected || st is Asleep || st is Unknown)
}

/// The severity that stands for "healthy" in a refresh with this overall
/// state.
pub open spec fn spec_good_severity(st: NetworkState) -> Severity {
    match st {
        NetworkState::ConnectedGlobal => Severity::Good,
        NetworkState::ConnectedSite => Severity::Info,
        _ => Severity::Idle,
    }
}

/// The severity of one connection widget: its activation state mapped against
/// the refresh's good severity, with a failed state query counting as Unknown.
pub open spec fn spec_widget_severity(state_code: Option<u32>, good: Severity) -> Severity {
    match state_code {
        Some(c) => spec_connection_severity(spec_active_connection_state(c), good),
        None => spec_connection_severity(ActiveConnectionState::Unknown, good),
    }
}

/// The icon text of one device: the icon of its type's icon key, or, for an
/// unmapped type, either the generic unknown icon or the type's name,
/// controlled by configuration.  A failed type lookup gives no text.
pub open spec fn spec_icon_text(code: Option<u32>, icons: IconSet, unknown_device_icon:
    bool) -> Seq<char> {
    match code {
        Some(c) => match spec_device_type(c) {
            DeviceType::Ethernet => icons.net_wired@,
            DeviceType::Wifi => icons.net_wireless@,
            DeviceType::Modem => icons.net_modem@,
            DeviceType::Bridge => icons.net_bridge@,
            DeviceType::Tun => icons.net_bridge@,
            DeviceType::Wireguard => icons.net_vpn@,
            DeviceType::Unknown => if unknown_device_icon {
                icons.unknown@
            } else {
                "Unknown"@
            },
        },
        None => ""@,
    }
}

/// The SSID text of one device: the SSID cut to the configured width plus one
/// trailing space; nothing when SSID display is off or no SSID resolved.
pub open spec fn spec_ssid_text(ssid: Option<String>, enabled: bool, max_width:
    usize) -> Seq<char> {
    if enabled {
        match ssid {
            Some(s) => spec_truncate(s@, max_width as int) + " "@,
            None => ""@,
        }
    } else {
        ""@
    }
}

/// The text of one device entry: icon text followed by SSID text.
pub open spec fn spec_device_entry(d: DeviceInfo, cfg: NetworkManagerConfig, icons:
    IconSet) -> Seq<char> {
    spec_icon_text(d.device_type_code, icons, cfg.unknown_device_icon) + spec_ssid_text(
        d.ssid,
        cfg.ssid,
        cfg.max_ssid_width,
    )
}

/// The device text of one connection: its device entries joined with single
/// spaces; a failed device listing gives no text.
pub open spec fn spec_devices_text(devices: Option<Vec<DeviceInfo>>, cfg: NetworkManagerConfig,
    icons: IconSet) -> Seq<char> {
    match devices {
        Some(ds) => spec_join(
            ds@.map_values(|d: DeviceInfo| spec_device_entry(d, cfg, icons)),
            " "@,
        ),
        None => ""@,
    }
}

/// The IP text of one connection: its addresses as "address/prefix" joined
/// with commas; the placeholder glyph when the list is empty or any lookup
/// failed; nothing when IP display is off.
pub open spec fn spec_ip_text(addresses: Option<Vec<Ipv4Address>>, enabled: bool) -> Seq<char> {
    if enabled {
        match addresses {
            Some(a) => if a@.len() == 0 {
                "\u{00d7}"@
            } else {
                spec_join(a@.map_values(|x: Ipv4Address| spec_addr_text(x)), ","@)
            },
            None => "\u{00d7}"@,
        }
    } else {
        ""@
    }
}

/// The label of one connection widget: device text followed by IP text.
pub open spec fn spec_widget_text(info: ConnectionInfo, cfg: NetworkManagerConfig, icons:
    IconSet) -> Seq<char> {
    spec_devices_text(info.devices, cfg, icons) + spec_ip_text(info.addresses, cfg.ip)
}

/// The indicator of one refresh, from the overall-state reply; a failed query
/// is treated as Unknown.
pub fn indicator(state_code: Option<u32>) -> (w: Widget)
    ensures
        w.severity == spec_indicator_severity(spec_overall_state(state_code)),
        w.text@ == spec_indicator_glyph(spec_overall_state(state_code)),
{
    let st = match state_code {
        Some(c) => NetworkState::from_code(c),
        None => NetworkState::Unknown,
    };
    let severity = match st {
        NetworkState::ConnectedGlobal => Severity::Good,
        NetworkState::ConnectedSite => Severity::Info,
        NetworkState::ConnectedLocal => Severity::Idle,
        NetworkState::Connecting => Severity::Warning,
        NetworkState::Disconnecting => Severity::Warning,
        _ => Severity::Critical,
    };
    let text = match st {
        NetworkState::Disconnected => String::from_str("\u{00d7}"),
        NetworkState::Asleep => String::from_str("\u{00d7}"),
        NetworkState::Unknown => String::from_str("E"),
        _ => String::from_str(""),
    };
    Widget { severity, text }
}

/// Whether this refresh queries connection data at all.
pub fn wants_connections(state_code: Option<u32>) -> (b: bool)
    ensures
        b == spec_wants_connections(spec_overall_state(state_code)),
{
    let st = match state_code {
        Some(c) => NetworkState::from_code(c),
        None => NetworkState::Unknown,
    };
    match st {
        NetworkState::Disconnected => false,
        NetworkState::Asleep => false,
        NetworkState::Unknown => false,
        _ => true,
    }
}

/// The severity that stands for "healthy" in this refresh.
pub fn good_severity(state_code: Option<u32>) -> (s: Severity)
    ensures
        s == spec_good_severity(spec_overall_state(state_code)),
{
    let st = match state_code {
        Some(c) => NetworkState::from_code(c),
        None => NetworkState::Unknown,
    };
    match st {
        NetworkState::ConnectedGlobal => Severity::Good,
        NetworkState::ConnectedSite => Severity::Info,
        _ => Severity::Idle,
    }
}

/// The icon text of one device.
fn icon_text(code: Option<u32>, icons: &IconSet, unknown_device_icon: bool) -> (r: String)
    ensures
        r@ == spec_icon_text(code, *icons, unknown_device_icon),
{
    match code {
        Some(c) => {
            let dt = DeviceType::from_code(c);
            match dt {
                DeviceType::Ethernet => String::from_str(icons.net_wired.as_str()),
                DeviceType::Wifi => String::from_str(icons.net_wireless.as_str()),
                DeviceType::Modem => String::from_str(icons.net_modem.as_str()),
                DeviceType::Bridge => String::from_str(icons.net_bridge.as_str()),
                DeviceType::Tun => String::from_str(icons.net_bridge.as_str()),
                DeviceType::Wireguard => String::from_str(icons.net_vpn.as_str()),
                DeviceType::Unknown => if unknown_device_icon {
                    String::from_str(icons.unknown.as_str())
                } else {
                    String::from_str("Unknown")
                },
            }
        },
        None => String::from_str(""),
    }
}

/// The text of one device entry: icon text, then SSID text.
fn device_entry(d: &DeviceInfo, cfg: &NetworkManagerConfig, icons: &IconSet) -> (r: String)
    ensures
        r@ == spec_device_entry(*d, *cfg, *icons),
{
    let ghost icon_spec = spec_icon_text(d.device_type_code, *icons, cfg.unknown_device_icon);
    let mut s = icon_text(d.device_type_code, icons, cfg.unknown_device_icon);
    if cfg.ssid {
        match &d.ssid {
            Some(ss) => {
                let t = truncate_chars(ss.as_str(), cfg.max_ssid_width);
                s.append(t.as_str());
                s.append(" ");
                proof {
                    assert(s@ =~= icon_spec + (spec_truncate(ss@, cfg.max_ssid_width as int)
                        + " "@));
                }
            },
            None => {
                proof {
                    reveal_strlit("");
                    assert(s@ =~= icon_spec + ""@);
                }
            },
        }
    } else {
        proof {
            reveal_strlit("");
            assert(s@ =~= icon_spec + ""@);
        }
    }
    s
}

/// The device text of one connection.
fn devices_text(devices: &Option<Vec<DeviceInfo>>, cfg: &NetworkManagerConfig, icons:
    &IconSet) -> (r: String)
    ensures
        r@ == spec_devices_text(*devices, *cfg, *icons),
{
    match devices {
        Some(ds) => {
            let ghost entries_spec = ds@.map_values(
                |d: DeviceInfo| spec_device_entry(d, *cfg, *icons),
            );
            let mut entries: Vec<String> = Vec::new();
            let mut i: usize = 0;
            while i < ds.len()
                invariant
                    i <= ds@.len(),
                    entries@.len() == i,
                    entries_spec == ds@.map_values(
                        |d: DeviceInfo| spec_device_entry(d, *cfg, *icons),
                    ),
                    forall|j: int| 0 <= j < i as int ==> #[trigger] entries@[j]@ == entries_spec[j],
                decreases ds@.len() - i,
            {
                let e = device_entry(&ds[i], cfg, icons);
                entries.push(e);
                i += 1;
            }
            let r = join_strings(&entries, " ");
            proof {
                assert(entries@.map_values(|s: String| s@) =~= entries_spec);
            }
            r
        },
        None => String::from_str(""),
    }
}

/// The IP text of one connection.
fn ip_text(addresses: &Option<Vec<Ipv4Address>>, enabled: bool) -> (r: String)
    ensures
        r@ == spec_ip_text(*addresses, enabled),
{
    if !enabled {
        return String::from_str("");
    }
    match addresses {
        Some(a) => {
            if a.len() == 0 {
                String::from_str("\u{00d7}")
            } else {
                let ghost parts_spec = a@.map_values(|x: Ipv4Address| spec_addr_text(x));
                let mut parts: Vec<String> = Vec::new();
                let mut i: usize = 0;
                while i < a.len()
                    invariant
                        i <= a@.len(),
                        parts@.len() == i,
                        parts_spec == a@.map_values(|x: Ipv4Address| spec_addr_text(x)),
                        forall|j: int| 0 <= j < i as int ==> #[trigger] parts@[j]@ == parts_spec[j],
                    decreases a@.len() - i,
                {
                    let t = a[i].to_text();
                    parts.push(t);
                    i += 1;
                }
                let r = join_strings(&parts, ",");
                proof {
                    assert(parts@.map_values(|s: String| s@) =~= parts_spec);
                }
                r
            }
        },
        None => String::from_str("\u{00d7}"),
    }
}

/// One connection widget: the connection's activation severity and its label,
/// device text followed by IP text.
pub fn connection_widget(info: &ConnectionInfo, good: Severity, cfg: &NetworkManagerConfig, icons:
    &IconSet) -> (w: Widget)
    ensures
        w.severity == spec_widget_severity(info.state_code, good),
        w.text@ == spec_widget_text(*info, *cfg, *icons),
{
    let severity = match info.state_code {
        Some(c) => ActiveConnectionState::from_code(c).to_state(good),
        None => ActiveConnectionState::Unknown.to_state(good),
    };
    let dev = devices_text(&info.devices, cfg, icons);
    let ip = ip_text(&info.addresses, cfg.ip);
    let text = dev.concat(ip.as_str());
    Widget { severity, text }
}

/// The widget list of one refresh: empty when the overall state short-circuits
/// the refresh, regardless of any connection data; otherwise one widget per
/// connection, in the connections' order.
pub fn build_widgets(state_code: Option<u32>, infos: &Vec<ConnectionInfo>, cfg:
    &NetworkManagerConfig, icons: &IconSet) -> (r: Vec<Widget>)
    ensures
        !spec_wants_connections(spec_overall_state(state_code)) ==> r@ =~= Seq::<Widget>::empty(),
        spec_wants_connections(spec_overall_state(state_code)) ==> {
            &&& r@.len() == infos@.len()
            &&& forall|i: int|
                0 <= i < infos@.len() ==> #[trigger] r@[i].severity == spec_widget_severity(
                    infos@[i].state_code,
                    spec_good_severity(spec_overall_state(state_code)),
                )
            &&& forall|i: int|
                0 <= i < infos@.len() ==> #[trigger] r@[i].text@ == spec_widget_text(
                    infos@[i],
                    *cfg,
                    *icons,
                )
        },
{
    let mut r: Vec<Widget> = Vec::new();
    if !wants_connections(state_code) {
        return r;
    }
    let good = good_severity(state_code);
    let mut i: usize = 0;
    while i < infos.len()
        invariant
            i <= infos@.len(),
            r@.len() == i,
            good == spec_good_severity(spec_overall_state(state_code)),
            forall|j: int| 0 <= j < i as int ==> #[trigger] r@[j].severity == spec_widget_severity(
                infos@[j].state_code,
                good,
            ),
            forall|j: int| 0 <= j < i as int ==> #[trigger] r@[j].text@ == spec_widget_text(
                infos@[j],
                *cfg,
                *icons,
            ),
        decreases infos@.len() - i,
    {
        let w = connection_widget(&infos[i], good, cfg, icons);
        r.push(w);
        i += 1;
    }
    r
}

/// One full refresh, given the overall-state reply and the per-connection
/// lookup results of the ordered connection list.
pub fn refresh(state_code: Option<u32>, infos: &Vec<ConnectionInfo>, cfg: &NetworkManagerConfig,
    icons: &IconSet) -> (out: RenderOutput)
    ensures
        out.indicator.severity == spec_indicator_severity(spec_overall_state(state_code)),
        out.indicator.text@ == spec_indicator_glyph(spec_overall_state(state_code)),
        !spec_wants_connections(spec_overall_state(state_code)) ==> out.widgets@
            =~= Seq::<Widget>::empty(),
        spec_wants_connections(spec_overall_state(state_code)) ==> {
            &&& out.widgets@.len() == infos@.len()
            &&& forall|i: int|
                0 <= i < infos@.len() ==> #[trigger] out.widgets@[i].severity
                    == spec_widget_severity(
                    infos@[i].state_code,
                    spec_good_severity(spec_overall_state(state_code)),
                )
            &&& forall|i: int|
                0 <= i < infos@.len() ==> #[trigger] out.widgets@[i].text@ == spec_widget_text(
                    infos@[i],
                    *cfg,
                    *icons,
                )
        },
{
    let ind = indicator(state_code);
    let widgets = build_widgets(state_code, infos, cfg, icons);
    RenderOutput { indicator: ind, widgets }
}

/// When the overall state is Disconnected, Asleep or Unknown, the refresh
/// queries no connection data, so with `refresh`'s contract the widget list
/// is empty regardless of any connection data, and the indicator shows
/// Critical severity with the matching glyph: the disconnect glyph when down
/// or asleep, the error glyph when unknown.
pub proof fn lemma_short_circuit_states(st: NetworkState)
    requires
        st is Disconnected || st is Asleep || st is Unknown,
    ensures
        !spec_wants_connections(st),
        spec_indicator_severity(st) == Severity::Critical,
        (st is Disconnected || st is Asleep) ==> spec_indicator_glyph(st) == "\u{00d7}"@,
        st is Unknown ==> spec_indicator_glyph(st) == "E"@,
{
}

/// SSID text longer than the configured maximum width is cut to exactly that
/// many characters, with one trailing space appended.
pub proof fn lemma_ssid_truncation(s: String, max_width: usize)
    requires
        s@.len() > max_width,
    ensures
        spec_ssid_text(Some(s), true, max_width) == s@.take(max_width as int) + " "@,
        spec_ssid_text(Some(s), true, max_width).len() == max_width + 1,
{
    reveal_strlit(" ");
}

/// A copy of a widget with the same severity and the same text.
fn copy_widget(w: &Widget) -> (r: Widget)
    ensures
        r.severity == w.severity,
        r.text@ == w.text@,
{
    Widget { severity: w.severity, text: String::from_str(w.text.as_str()) }
}

/// What the host renders: the indicator alone when the widget list is empty,
/// otherwise the widget list in place of the indicator.
pub fn view_widgets(out: &RenderOutput) -> (v: Vec<Widget>)
    ensures
        out.widgets@.len() == 0 ==> v@.len() == 1 && v@[0].severity == out.indicator.severity
            && v@[0].text@ == out.indicator.text@,
        out.widgets@.len() > 0 ==> {
            &&& v@.len() == out.widgets@.len()
            &&& forall|i: int|
                0 <= i < out.widgets@.len() ==> #[trigger] v@[i].severity
                    == out.widgets@[i].severity
            &&& forall|i: int|
                0 <= i < out.widgets@.len() ==> #[trigger] v@[i].text@ == out.widgets@[i].text@
        },
{
    let mut v: Vec<Widget> = Vec::new();
    if out.widgets.len() == 0 {
        v.push(copy_widget(&out.indicator));
    } else {
        let mut i: usize = 0;
        while i < out.widgets.len()
            invariant
                i <= out.widgets@.len(),
                v@.len() == i,
                forall|j: int| 0 <= j < i as int ==> #[trigger] v@[j].severity
                    == out.widgets@[j].severity,
                forall|j: int| 0 <= j < i as int ==> #[trigger] v@[j].text@
                    == out.widgets@[j].text@,
            decreases out.widgets@.len() - i,
        {
            let w = copy_widget(&out.widgets[i]);
            v.push(w);
            i += 1;
        }
    }
    v
}

} // verus!
