use vstd::prelude::*;

verus! {

/// One cross-cutting value guarded by a mutual-exclusion primitive with
/// try-semantics: while the other side holds it, an attempt fails instead of
/// blocking.  `held` models the other side currently holding the lock.
pub struct Shared<T> {
    pub value: T,
    pub held: bool,
}

impl<T> Shared<T> {
    pub fn new(value: T) -> (s: Shared<T>)
        ensures
            s.value == value,
            !s.held,
    {
        Shared { value, held: false }
    }

    /// A non-blocking read: `None` while the other side holds the value.
    pub fn try_read(&self) -> (r: Option<&T>)
        ensures
            self.held ==> r is None,
            !self.held ==> (r matches Some(v) && v == &self.value),
    {
        if self.held {
            None
        } else {
            Some(&self.value)
        }
    }

    /// A non-blocking write: dropped, not retried, while the other side
    /// holds the value — freshness is preferred over completeness.
    pub fn try_write(&mut self, value: T) -> (ok: bool)
        ensures
            old(self).held ==> !ok && final(self).held && final(self).value == old(self).value,
            !old(self).held ==> ok && !final(self).held && final(self).value == value,
    {
        if self.held {
            false
        } else {
            self.value = value;
            true
        }
    }

    /// Models the other side taking or releasing the lock.
    pub fn set_held(&mut self, held: bool)
        ensures
            final(self).held == held,
            final(self).value == old(self).value,
    {
        self.held = held;
    }
}

/// Runs `f` on the guarded value.  The caller must know the value is free:
/// the control loop holds no lock across ticks, so a handler that reaches
/// this with the value held would have deadlocked instead — that input is
/// excluded rather than handled.
pub fn with_locked_value<T, R, F: FnOnce(&T) -> R>(value: &Shared<T>, f: F) -> (r: R)
    requires
        !value.held,
        call_requires(f, (&value.value,)),
    ensures
        call_ensures(f, (&value.value,), r),
{
    f(&value.value)
}

/// Passes its argument through unchanged; the reader used on a shared value
/// when the value itself is wanted.
pub fn identity<T>(x: T) -> (r: T)
    ensures
        r == x,
{
    x
}

/// The cross-cutting values reachable concurrently by the control loop and
/// by the HTTP handlers, each guarded on its own so that sampling is never
/// serialised against HTTP reads.
pub struct GlobalState {
    /// The operating mode flag.
    pub setup_mode: Shared<bool>,
    /// The latest amperage sample, in 1e-5 ampere.
    pub adc_value: Shared<u64>,
    /// The SSID the configuration form shows.
    pub wifi_ssid: Shared<String>,
    /// The configured webhook URL.
    pub webhook_url: Shared<String>,
}

impl GlobalState {
    pub fn new(setup_mode: bool, wifi_ssid: String, webhook_url: String) -> (s: GlobalState)
        ensures
            s.setup_mode.value == setup_mode,
            s.adc_value.value == 0,
            s.wifi_ssid.value@ == wifi_ssid@,
            s.webhook_url.value@ == webhook_url@,
            !s.setup_mode.held,
            !s.adc_value.held,
            !s.wifi_ssid.held,
            !s.webhook_url.held,
    {
        GlobalState {
            setup_mode: Shared::new(setup_mode),
            adc_value: Shared::new(0),
            wifi_ssid: Shared::new(wifi_ssid),
            webhook_url: Shared::new(webhook_url),
        }
    }
}

} // verus!
