use vstd::prelude::*;
use crate::numfmt::{format_fixed5, spec_fixed5};

verus! {

/// The display as the control loop sees it: a sink that accepts text writes
/// and tolerates failures.  Every write is fallible; after a failure the
/// sink is unavailable and later writes are skipped until a successful
/// re-initialisation.
pub struct DisplayHandler {
    pub available: bool,
}

impl DisplayHandler {
    /// A fresh handler is unavailable until its first successful
    /// initialisation.
    pub fn new() -> (d: DisplayHandler)
        ensures
            !d.available,
    {
        DisplayHandler { available: false }
    }

    /// Records an initialisation attempt: a no-op while the sink is already
    /// available, otherwise the sink becomes available exactly when the
    /// attempt succeeded.
    pub fn init(&mut self, init_ok: bool)
        ensures
            old(self).available ==> final(self).available,
            !old(self).available ==> final(self).available == init_ok,
    {
        if !self.available {
            self.available = init_ok;
        }
    }

    /// Records one write: skipped (`!attempted`) while the sink is
    /// unavailable; an attempted write that failed marks the sink
    /// unavailable.
    pub fn run(&mut self, write_ok: bool) -> (attempted: bool)
        ensures
            !old(self).available ==> !attempted && final(self).available == old(self).available,
            old(self).available ==> attempted && final(self).available == write_ok,
    {
        if self.available {
            self.available = write_ok;
            true
        } else {
            false
        }
    }
}

/// The text shown while in setup mode: the access point's SSID and key.
pub open spec fn spec_setup_hints(ap_ssid: Seq<char>, ap_psk: Seq<char>) -> Seq<char> {
    "SETUP MODE AP:\n"@ + ap_ssid + "\nKEY:\n"@ + ap_psk + "\n"@
}

/// Renders the setup-mode hint text.
pub fn render_setup_hints(ap_ssid: &str, ap_psk: &str) -> (r: String)
    ensures
        r@ == spec_setup_hints(ap_ssid@, ap_psk@),
{
    let mut r = "SETUP MODE AP:\n".to_owned();
    r.append(ap_ssid);
    r.append("\nKEY:\n");
    r.append(ap_psk);
    r.append("\n");
    r
}

/// The telemetry text shown each normal-mode tick: amps and watts, five
/// decimal places, padded so a shorter value overwrites a longer stale one.
pub open spec fn spec_telemetry_text(amps_e5: int, watts_e5: int) -> Seq<char> {
    spec_fixed5(amps_e5) + "A    \n"@ + spec_fixed5(watts_e5) + "W    \n"@
}

/// Renders the normal-mode telemetry text.
pub fn render_telemetry_text(amps_e5: u64, watts_e5: u64) -> (r: String)
    ensures
        r@ == spec_telemetry_text(amps_e5 as int, watts_e5 as int),
{
    let mut r = format_fixed5(amps_e5);
    r.append("A    \n");
    let watts = format_fixed5(watts_e5);
    r.append(watts.as_str());
    r.append("W    \n");
    r
}

} // verus!
