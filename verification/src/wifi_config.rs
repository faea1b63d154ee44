use vstd::prelude::*;
use crate::config::Config;
use crate::credentials::AppError;
use crate::numfmt::{spec_decimal, u64_to_decimal};
use crate::strutil::push_char;

verus! {

/// Station-side radio settings: the network to join.
pub struct ClientConfiguration {
    pub ssid: String,
    pub password: String,
}

/// How an offered network authenticates its clients.
#[derive(Clone, Copy, Debug, PartialEq, Eq, Structural)]
pub enum AuthMethod {
    Open,
    Wpa2Personal,
}

/// Access-point-side radio settings: the network the device itself offers.
pub struct AccessPointConfiguration {
    pub ssid: String,
    pub password: String,
    pub auth_method: AuthMethod,
}

/// The derived radio configuration: pure station in normal mode, or a
/// combined station-and-access-point configuration in setup mode, so that an
/// operator can join the device's own network to submit credentials without
/// losing any existing partial connectivity.
pub enum WifiConfiguration {
    Client(ClientConfiguration),
    Mixed(ClientConfiguration, AccessPointConfiguration),
}

impl WifiConfiguration {
    /// The driver's records bound the SSID to 32 and the key to 64
    /// characters.
    pub open spec fn wf(&self) -> bool {
        match self {
            WifiConfiguration::Client(c) => c.ssid@.len() <= 32 && c.password@.len() <= 64,
            WifiConfiguration::Mixed(c, ap) => c.ssid@.len() <= 32 && c.password@.len() <= 64
                && ap.ssid@.len() <= 32 && ap.password@.len() <= 64,
        }
    }
}

/// Derives the radio configuration for a mode: the stored credentials drive
/// the station side, and in setup mode the compiled-in credentials open the
/// device's own access point beside it, secured with WPA2-Personal.
pub fn render_wifi_config(config: &Config, ssid: String, psk: String, setup_mode: bool) -> (r:
    WifiConfiguration)
    requires
        ssid@.len() <= 32,
        psk@.len() <= 64,
        config.wf(),
    ensures
        r.wf(),
        setup_mode ==> (r matches WifiConfiguration::Mixed(c, ap) && c.ssid@ == ssid@
            && c.password@ == psk@ && ap.ssid@ == config.wifi_ssid@ && ap.password@
            == config.wifi_psk@ && ap.auth_method == AuthMethod::Wpa2Personal),
        !setup_mode ==> (r matches WifiConfiguration::Client(c) && c.ssid@ == ssid@
            && c.password@ == psk@),
{
    if setup_mode {
        WifiConfiguration::Mixed(
            ClientConfiguration { ssid, password: psk },
            AccessPointConfiguration {
                ssid: config.wifi_ssid.as_str().to_owned(),
                password: config.wifi_psk.as_str().to_owned(),
                auth_method: AuthMethod::Wpa2Personal,
            },
        )
    } else {
        WifiConfiguration::Client(ClientConfiguration { ssid, password: psk })
    }
}

/// What re-applying the radio goes on to do once the active connection is
/// stopped: set this configuration, restart the driver, and issue `connect`
/// only outside setup mode.
pub struct ApplyPlan {
    pub config: WifiConfiguration,
    pub issue_connect: bool,
}

/// Plans a radio (re)configuration for a mode change.
pub fn plan_apply(config: &Config, ssid: String, psk: String, setup_mode: bool) -> (r: ApplyPlan)
    requires
        ssid@.len() <= 32,
        psk@.len() <= 64,
        config.wf(),
    ensures
        r.config.wf(),
        r.issue_connect == !setup_mode,
        setup_mode ==> (r.config matches WifiConfiguration::Mixed(c, ap) && c.ssid@ == ssid@
            && c.password@ == psk@ && ap.ssid@ == config.wifi_ssid@ && ap.password@
            == config.wifi_psk@ && ap.auth_method == AuthMethod::Wpa2Personal),
        !setup_mode ==> (r.config matches WifiConfiguration::Client(c) && c.ssid@ == ssid@
            && c.password@ == psk@),
{
    let wifi_config = render_wifi_config(config, ssid, psk, setup_mode);
    ApplyPlan { config: wifi_config, issue_connect: !setup_mode }
}

/// Clamps a hostname to the driver's 32-character limit by truncation; a
/// hostname within the limit passes through unchanged.
pub fn clamp_hostname(hostname: String) -> (r: String)
    ensures
        hostname@.len() <= 32 ==> r@ == hostname@,
        hostname@.len() > 32 ==> r@ == hostname@.take(32),
{
    let n = hostname.as_str().unicode_len();
    if n <= 32 {
        hostname
    } else {
        let r = hostname.as_str().substring_char(0, 32).to_owned();
        proof {
            assert(hostname@.subrange(0, 32) =~= hostname@.take(32));
        }
        r
    }
}

/// A station address in dotted-decimal notation.
pub open spec fn spec_ipv4(a: u8, b: u8, c: u8, d: u8) -> Seq<char> {
    spec_decimal(a as int) + seq!['.'] + spec_decimal(b as int) + seq!['.'] + spec_decimal(
        c as int,
    ) + seq!['.'] + spec_decimal(d as int)
}

/// Renders a station address for the display.
pub fn format_ipv4(a: u8, b: u8, c: u8, d: u8) -> (r: String)
    ensures
        r@ == spec_ipv4(a, b, c, d),
{
    let mut r = u64_to_decimal(a as u64);
    push_char(&mut r, '.');
    let o = u64_to_decimal(b as u64);
    r.append(o.as_str());
    push_char(&mut r, '.');
    let o = u64_to_decimal(c as u64);
    r.append(o.as_str());
    push_char(&mut r, '.');
    let o = u64_to_decimal(d as u64);
    r.append(o.as_str());
    r
}

/// The station address as the handlers read it: available exactly while the
/// radio is connected, a not-connected error otherwise — an expected
/// condition, not a failure.
pub fn get_client_ip(connected: bool, octets: (u8, u8, u8, u8)) -> (r: Result<String, AppError>)
    ensures
        connected ==> (r matches Ok(s) && s@ == spec_ipv4(
            octets.0,
            octets.1,
            octets.2,
            octets.3,
        )),
        !connected ==> r matches Err(AppError::NotConnected),
{
    if connected {
        Ok(format_ipv4(octets.0, octets.1, octets.2, octets.3))
    } else {
        Err(AppError::NotConnected)
    }
}

} // verus!
