use vstd::prelude::*;

verus! {

/// Compile-time configuration: the fallback Wi-Fi credentials used for the
/// device's own access point, and the default mDNS hostname.
pub struct Config {
    pub wifi_ssid: String,
    pub wifi_psk: String,
    pub default_hostname: String,
}

impl Config {
    /// An SSID must fit in 32 bytes and a pre-shared key in 64 bytes, the
    /// limits of the radio driver's configuration records.
    pub open spec fn wf(&self) -> bool {
        self.wifi_ssid@.len() <= 32 && self.wifi_psk@.len() <= 64
    }

    pub fn new(wifi_ssid: String, wifi_psk: String, default_hostname: String) -> (c: Config)
        ensures
            c.wifi_ssid@ == wifi_ssid@,
            c.wifi_psk@ == wifi_psk@,
            c.default_hostname@ == default_hostname@,
    {
        Config { wifi_ssid, wifi_psk, default_hostname }
    }
}

} // verus!
