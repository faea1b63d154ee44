use vstd::prelude::*;
use crate::config::Config;

verus! {

/// The error kinds the library reports; each maps onto one platform error
/// code at the boundary.
#[derive(Clone, Copy, Debug, PartialEq, Eq, Structural)]
pub enum AppError {
    /// An argument was empty or otherwise unusable.
    InvalidArg,
    /// The radio is not connected to a network.
    NotConnected,
    /// A hardware driver call failed.
    DriverFault,
}

impl AppError {
    /// A short description, in place of a `Display` rendering.
    pub fn describe(&self) -> (s: &'static str)
        ensures
            s@ == match self {
                AppError::InvalidArg => "invalid argument"@,
                AppError::NotConnected => "not connected"@,
                AppError::DriverFault => "driver fault"@,
            },
    {
        match self {
            AppError::InvalidArg => "invalid argument",
            AppError::NotConnected => "not connected",
            AppError::DriverFault => "driver fault",
        }
    }
}

/// A stored value counts only when the read succeeded and the value is
/// non-empty.
pub open spec fn stored_present(stored: Option<Seq<char>>) -> bool {
    match stored {
        Some(s) => s.len() > 0,
        None => false,
    }
}

/// The decided operating mode: setup is forced when it was requested, or when
/// either credential is absent or empty.
pub open spec fn decided_setup_mode(
    force_setup: bool,
    ssid_present: bool,
    psk_present: bool,
) -> bool {
    force_setup || !ssid_present || !psk_present
}

/// Passes a non-empty string through and rejects an empty one.
pub fn non_empty_string_or_fail(s: String) -> (r: Result<String, AppError>)
    ensures
        s@.len() > 0 ==> (r matches Ok(v) && v@ == s@),
        s@.len() == 0 ==> r matches Err(AppError::InvalidArg),
{
    if s.as_str().unicode_len() == 0 {
        Err(AppError::InvalidArg)
    } else {
        Ok(s)
    }
}

/// Decides the credentials and the operating mode from what the persistent
/// store returned (`None` when a key was absent or unreadable).  In setup
/// mode the compiled-in access-point credentials replace the stored pair; the
/// hostname falls back to the compiled-in default but never forces setup.
pub fn get_ssid_psk_from_nvs(
    config: &Config,
    stored_ssid: Option<String>,
    stored_psk: Option<String>,
    stored_hostname: Option<String>,
    force_setup: bool,
) -> (r: (String, String, String, bool))
    ensures
        r.3 == decided_setup_mode(
            force_setup,
            stored_present(view_opt(stored_ssid)),
            stored_present(view_opt(stored_psk)),
        ),
        r.0@ == if r.3 {
            config.wifi_ssid@
        } else {
            view_opt(stored_ssid).unwrap()
        },
        r.1@ == if r.3 {
            config.wifi_psk@
        } else {
            view_opt(stored_psk).unwrap()
        },
        r.2@ == if stored_present(view_opt(stored_hostname)) {
            view_opt(stored_hostname).unwrap()
        } else {
            config.default_hostname@
        },
{
    let mut setup_mode = force_setup;
    let wifi_ssid: String = match stored_ssid {
        Some(s) => {
            if s.as_str().unicode_len() > 0 {
                s
            } else {
                setup_mode = true;
                clone_string(&config.wifi_ssid)
            }
        },
        None => {
            setup_mode = true;
            clone_string(&config.wifi_ssid)
        },
    };
    let wifi_psk: String = match stored_psk {
        Some(s) => {
            if s.as_str().unicode_len() > 0 {
                s
            } else {
                setup_mode = true;
                clone_string(&config.wifi_psk)
            }
        },
        None => {
            setup_mode = true;
            clone_string(&config.wifi_psk)
        },
    };
    let hostname: String = match stored_hostname {
        Some(s) => {
            if s.as_str().unicode_len() > 0 {
                s
            } else {
                clone_string(&config.default_hostname)
            }
        },
        None => clone_string(&config.default_hostname),
    };
    if setup_mode {
        (clone_string(&config.wifi_ssid), clone_string(&config.wifi_psk), hostname, true)
    } else {
        (wifi_ssid, wifi_psk, hostname, false)
    }
}

/// The character sequences behind an optional stored string.
pub open spec fn view_opt(stored: Option<String>) -> Option<Seq<char>> {
    match stored {
        Some(s) => Some(s@),
        None => None,
    }
}

fn clone_string(s: &String) -> (r: String)
    ensures
        r@ == s@,
{
    s.as_str().to_owned()
}

/// An empty or missing stored SSID or PSK forces setup mode, whatever mode
/// was asked for.
pub proof fn lemma_missing_credential_forces_setup(
    force_setup: bool,
    ssid_present: bool,
    psk_present: bool,
)
    requires
        !ssid_present || !psk_present,
    ensures
        decided_setup_mode(force_setup, ssid_present, psk_present),
{
}

/// With both credentials stored and non-empty and setup not forced, the
/// decided mode is normal and the stored values are returned verbatim; the
/// ensures of `get_ssid_psk_from_nvs` then gives the returned strings as
/// exactly the stored ones.
pub proof fn lemma_stored_credentials_pass_through(
    force_setup: bool,
    ssid_present: bool,
    psk_present: bool,
)
    requires
        ssid_present,
        psk_present,
        !force_setup,
    ensures
        !decided_setup_mode(force_setup, ssid_present, psk_present),
{
}

} // verus!
