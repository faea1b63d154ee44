use vstd::prelude::*;

verus! {

/// Consecutive disconnected ticks after which one speculative reconnect is
/// issued.
pub const RECONNECT_TICKS: u32 = 10;

/// Consecutive disconnected ticks at which the device falls back into setup
/// mode.
pub const FALLBACK_TICKS: u32 = 20;

/// The control loop's own state between ticks: the operating mode, the mode
/// of the previous tick (to detect transitions), and the disconnect counter.
#[derive(Clone, Copy, PartialEq, Eq, Structural, Debug)]
pub struct ControlState {
    pub setup_mode: bool,
    pub last_setup_mode: bool,
    pub disconnected_ticks: u32,
}

/// What the environment reports at one tick.
#[derive(Clone, Copy, PartialEq, Eq, Structural, Debug)]
pub struct TickInput {
    /// The mode button is held down.
    pub button_pressed: bool,
    /// The radio reports an established connection.
    pub connected: bool,
    /// The quiet-mode pin allows the status LED to light.
    pub blink_pin_high: bool,
    /// A non-empty webhook URL is configured.
    pub webhook_configured: bool,
}

/// Which HTTP handler set a rebuilt server carries.
#[derive(Clone, Copy, PartialEq, Eq, Structural, Debug)]
pub enum ServerKind {
    SetupServer,
    NormalServer,
}

/// What the loop body must do this tick.  A `rebuild_server` also means:
/// drop the old server, reload the credentials from storage, re-apply the
/// radio configuration, then bind the new handler set.
#[derive(Clone, Copy, PartialEq, Eq, Structural, Debug)]
pub struct TickActions {
    pub rebuild_server: Option<ServerKind>,
    /// Render the access-point SSID and key on the display.
    pub show_setup_hints: bool,
    /// Blink the status LED even in quiet mode: the device is unconfigured.
    pub force_blink: bool,
    /// Blink twice rapidly to confirm leaving setup mode.
    pub confirm_blink: bool,
    /// Re-issue the radio's connect call.
    pub issue_connect: bool,
    /// Run the sampler and publish the new amperage.
    pub sample_and_publish: bool,
    /// Dispatch the configured webhook.
    pub send_webhook: bool,
    /// Set the status LED to this level, when the tick drives it.
    pub led_level: Option<bool>,
}

impl ControlState {
    /// The counter never reaches the fallback threshold between ticks: the
    /// tick that would reach it flips the mode and resets it.
    pub open spec fn wf(&self) -> bool {
        self.disconnected_ticks < FALLBACK_TICKS
    }

    /// No mode transition is pending.
    pub open spec fn stable(&self) -> bool {
        self.last_setup_mode == self.setup_mode
    }

    /// The state the loop starts from, in the mode decided at boot from the
    /// stored credentials.
    pub fn boot(setup_mode: bool) -> (s: ControlState)
        ensures
            s.setup_mode == setup_mode,
            s.stable(),
            s.disconnected_ticks == 0,
            s.wf(),
    {
        ControlState { setup_mode, last_setup_mode: setup_mode, disconnected_ticks: 0 }
    }
}

/// The handler set belonging to a mode.
pub open spec fn spec_server_kind(setup_mode: bool) -> ServerKind {
    if setup_mode {
        ServerKind::SetupServer
    } else {
        ServerKind::NormalServer
    }
}

/// No actions.
pub open spec fn spec_no_actions(rebuild: Option<ServerKind>) -> TickActions {
    TickActions {
        rebuild_server: rebuild,
        show_setup_hints: false,
        force_blink: false,
        confirm_blink: false,
        issue_connect: false,
        sample_and_publish: false,
        send_webhook: false,
        led_level: None,
    }
}

/// One tick of the control loop as a pure transition: the next state and the
/// actions of this tick.
///
/// A pending mode transition is handled first: the tick rebuilds the HTTP
/// server for the new mode (reloading credentials and re-applying the radio
/// configuration on the way).  In setup mode the tick shows the
/// configuration hints and force-blinks; the button leaves setup.  In normal
/// mode the button enters setup; otherwise the disconnect counter is
/// advanced or reset, a speculative reconnect fires on the tenth
/// disconnected tick, the fallback to setup fires on the twentieth, and an
/// ordinary tick samples, publishes, and dispatches the webhook when
/// connected.
pub open spec fn spec_tick(s: ControlState, inp: TickInput) -> (ControlState, TickActions) {
    let mode_changed = s.last_setup_mode != s.setup_mode;
    let rebuild: Option<ServerKind> = if mode_changed {
        Some(spec_server_kind(s.setup_mode))
    } else {
        None
    };
    if s.setup_mode {
        if inp.button_pressed {
            (
                ControlState {
                    setup_mode: false,
                    last_setup_mode: true,
                    disconnected_ticks: 0,
                },
                TickActions {
                    rebuild_server: rebuild,
                    show_setup_hints: true,
                    force_blink: true,
                    confirm_blink: true,
                    issue_connect: false,
                    sample_and_publish: false,
                    send_webhook: false,
                    led_level: None,
                },
            )
        } else {
            (
                ControlState {
                    setup_mode: true,
                    last_setup_mode: true,
                    disconnected_ticks: s.disconnected_ticks,
                },
                TickActions {
                    rebuild_server: rebuild,
                    show_setup_hints: true,
                    force_blink: true,
                    confirm_blink: false,
                    issue_connect: false,
                    sample_and_publish: false,
                    send_webhook: false,
                    led_level: None,
                },
            )
        }
    } else {
        if inp.button_pressed {
            (
                ControlState { setup_mode: true, last_setup_mode: false, disconnected_ticks: 0 },
                spec_no_actions(rebuild),
            )
        } else if inp.connected {
            (
                ControlState { setup_mode: false, last_setup_mode: false, disconnected_ticks: 0 },
                TickActions {
                    rebuild_server: rebuild,
                    show_setup_hints: false,
                    force_blink: false,
                    confirm_blink: false,
                    issue_connect: false,
                    sample_and_publish: true,
                    send_webhook: inp.webhook_configured,
                    led_level: Some(inp.blink_pin_high),
                },
            )
        } else {
            let ticks = s.disconnected_ticks + 1;
            if ticks >= FALLBACK_TICKS {
                (
                    ControlState {
                        setup_mode: true,
                        last_setup_mode: false,
                        disconnected_ticks: 0,
                    },
                    spec_no_actions(rebuild),
                )
            } else {
                (
                    ControlState {
                        setup_mode: false,
                        last_setup_mode: false,
                        disconnected_ticks: ticks as u32,
                    },
                    TickActions {
                        rebuild_server: rebuild,
                        show_setup_hints: false,
                        force_blink: false,
                        confirm_blink: false,
                        issue_connect: ticks == RECONNECT_TICKS,
                        sample_and_publish: true,
                        send_webhook: false,
                        led_level: None,
                    },
                )
            }
        }
    }
}

/// One tick of the control loop.
pub fn tick(s: &ControlState, inp: &TickInput) -> (r: (ControlState, TickActions))
    requires
        s.wf(),
    ensures
        r == spec_tick(*s, *inp),
        r.0.wf(),
{
    let mode_changed = s.last_setup_mode != s.setup_mode;
    let rebuild: Option<ServerKind> = if mode_changed {
        Some(server_kind(s.setup_mode))
    } else {
        None
    };
    if s.setup_mode {
        if inp.button_pressed {
            (
                ControlState { setup_mode: false, last_setup_mode: true, disconnected_ticks: 0 },
                TickActions {
                    rebuild_server: rebuild,
                    show_setup_hints: true,
                    force_blink: true,
                    confirm_blink: true,
                    issue_connect: false,
                    sample_and_publish: false,
                    send_webhook: false,
                    led_level: None,
                },
            )
        } else {
            (
                ControlState {
                    setup_mode: true,
                    last_setup_mode: true,
                    disconnected_ticks: s.disconnected_ticks,
                },
                TickActions {
                    rebuild_server: rebuild,
                    show_setup_hints: true,
                    force_blink: true,
                    confirm_blink: false,
                    issue_connect: false,
                    sample_and_publish: false,
                    send_webhook: false,
                    led_level: None,
                },
            )
        }
    } else {
        if inp.button_pressed {
            (
                ControlState { setup_mode: true, last_setup_mode: false, disconnected_ticks: 0 },
                no_actions(rebuild),
            )
        } else if inp.connected {
            (
                ControlState { setup_mode: false, last_setup_mode: false, disconnected_ticks: 0 },
                TickActions {
                    rebuild_server: rebuild,
                    show_setup_hints: false,
                    force_blink: false,
                    confirm_blink: false,
                    issue_connect: false,
                    sample_and_publish: true,
                    send_webhook: inp.webhook_configured,
                    led_level: Some(inp.blink_pin_high),
                },
            )
        } else {
            let ticks = s.disconnected_ticks + 1;
            if ticks >= FALLBACK_TICKS {
                (
                    ControlState {
                        setup_mode: true,
                        last_setup_mode: false,
                        disconnected_ticks: 0,
                    },
                    no_actions(rebuild),
                )
            } else {
                (
                    ControlState {
                        setup_mode: false,
                        last_setup_mode: false,
                        disconnected_ticks: ticks,
                    },
                    TickActions {
                        rebuild_server: rebuild,
                        show_setup_hints: false,
                        force_blink: false,
                        confirm_blink: false,
                        issue_connect: ticks == RECONNECT_TICKS,
                        sample_and_publish: true,
                        send_webhook: false,
                        led_level: None,
                    },
                )
            }
        }
    }
}

fn server_kind(setup_mode: bool) -> (r: ServerKind)
    ensures
        r == spec_server_kind(setup_mode),
{
    if setup_mode {
        ServerKind::SetupServer
    } else {
        ServerKind::NormalServer
    }
}

fn no_actions(rebuild: Option<ServerKind>) -> (r: TickActions)
    ensures
        r == spec_no_actions(rebuild),
{
    TickActions {
        rebuild_server: rebuild,
        show_setup_hints: false,
        force_blink: false,
        confirm_blink: false,
        issue_connect: false,
        sample_and_publish: false,
        send_webhook: false,
        led_level: None,
    }
}

/// The state after a whole run of ticks.
pub open spec fn spec_run(s: ControlState, inputs: Seq<TickInput>) -> ControlState
    decreases inputs.len(),
{
    if inputs.len() == 0 {
        s
    } else {
        spec_run(spec_tick(s, inputs[0]).0, inputs.skip(1))
    }
}

/// A tick that gives the loop no reason to transition: the button is idle,
/// and — outside setup mode — the radio is connected or the counter stays
/// under the fallback threshold.
pub open spec fn spec_quiet_step(s: ControlState, inp: TickInput) -> bool {
    !inp.button_pressed && (s.setup_mode || inp.connected || s.disconnected_ticks + 1
        < FALLBACK_TICKS)
}

/// Mode transitions are idempotent: with no pending transition, an idle
/// button, and the disconnect counter below the fallback threshold, one tick
/// rebuilds no server and leaves the mode stable and unchanged.
pub proof fn lemma_tick_no_rebuild_when_stable(s: ControlState, inp: TickInput)
    requires
        s.wf(),
        s.stable(),
        spec_quiet_step(s, inp),
    ensures
        spec_tick(s, inp).1.rebuild_server is None,
        spec_tick(s, inp).0.wf(),
        spec_tick(s, inp).0.stable(),
        spec_tick(s, inp).0.setup_mode == s.setup_mode,
{
}

/// Mode transitions are idempotent over whole runs: as long as every tick is
/// quiet, repeated ticks never rebuild the server.
pub proof fn lemma_run_no_rebuild_when_quiet(s: ControlState, inputs: Seq<TickInput>)
    requires
        s.wf(),
        s.stable(),
        forall|k: int|
            0 <= k < inputs.len() ==> #[trigger] spec_quiet_step(
                spec_run(s, inputs.take(k)),
                inputs[k],
            ),
    ensures
        forall|k: int|
            0 <= k < inputs.len() ==> #[trigger] spec_tick(
                spec_run(s, inputs.take(k)),
                inputs[k],
            ).1.rebuild_server is None,
        spec_run(s, inputs).wf(),
        spec_run(s, inputs).stable(),
        spec_run(s, inputs).setup_mode == s.setup_mode,
    decreases inputs.len(),
{
    if inputs.len() == 0 {
    } else {
        assert(inputs.take(0) =~= Seq::<TickInput>::empty());
        assert(spec_quiet_step(spec_run(s, inputs.take(0)), inputs[0]));
        lemma_tick_no_rebuild_when_stable(s, inputs[0]);
        let s2 = spec_tick(s, inputs[0]).0;
        let rest = inputs.skip(1);
        assert forall|k: int| 0 <= k < rest.len() implies #[trigger] spec_quiet_step(
            spec_run(s2, rest.take(k)),
            rest[k],
        ) by {
            assert(inputs.take(k + 1).skip(1) =~= rest.take(k));
            assert(inputs.take(k + 1)[0] == inputs[0]);
            assert(spec_run(s, inputs.take(k + 1)) == spec_run(s2, rest.take(k)));
            assert(spec_quiet_step(spec_run(s, inputs.take(k + 1)), inputs[k + 1]));
        }
        lemma_run_no_rebuild_when_quiet(s2, rest);
        assert forall|k: int| 0 <= k < inputs.len() implies #[trigger] spec_tick(
            spec_run(s, inputs.take(k)),
            inputs[k],
        ).1.rebuild_server is None by {
            if k == 0 {
                assert(inputs.take(0) =~= Seq::<TickInput>::empty());
            } else {
                assert(inputs.take(k).skip(1) =~= rest.take(k - 1));
                assert(inputs.take(k)[0] == inputs[0]);
                assert(spec_run(s, inputs.take(k)) == spec_run(s2, rest.take(k - 1)));
                assert(spec_tick(spec_run(s2, rest.take(k - 1)), rest[k - 1]).1.rebuild_server
                    is None);
            }
        }
        assert(spec_run(s, inputs) == spec_run(s2, rest));
    }
}

/// The disconnect counter resets to zero the moment the radio reports a
/// connection.
pub proof fn lemma_counter_resets_on_connect(s: ControlState, inp: TickInput)
    requires
        s.wf(),
        !s.setup_mode,
        !inp.button_pressed,
        inp.connected,
    ensures
        spec_tick(s, inp).0.disconnected_ticks == 0,
{
}

/// A pending mode transition makes the next tick rebuild the server for the
/// new mode.
pub proof fn lemma_rebuild_after_transition(s: ControlState, inp: TickInput)
    requires
        !s.stable(),
    ensures
        spec_tick(s, inp).1.rebuild_server == Some(spec_server_kind(s.setup_mode)),
{
}

/// Crossing the fallback threshold is exact: a disconnected tick that brings
/// the counter short of the threshold keeps the device in normal mode, while
/// the tick that reaches it flips the mode to setup — and the rebuild then
/// follows on the next evaluation, not on the flipping tick itself.
pub proof fn lemma_fallback_threshold_is_exact(s: ControlState, inp: TickInput, next: TickInput)
    requires
        s.wf(),
        s.stable(),
        !s.setup_mode,
        !inp.button_pressed,
        !inp.connected,
    ensures
        s.disconnected_ticks + 1 < FALLBACK_TICKS ==> !spec_tick(s, inp).0.setup_mode,
        s.disconnected_ticks + 1 == FALLBACK_TICKS ==> spec_tick(s, inp).0.setup_mode,
        s.disconnected_ticks + 1 == FALLBACK_TICKS ==> spec_tick(s, inp).1.rebuild_server
            is None,
        s.disconnected_ticks + 1 == FALLBACK_TICKS ==> spec_tick(
            spec_tick(s, inp).0,
            next,
        ).1.rebuild_server == Some(ServerKind::SetupServer),
{
}

/// From a stable normal state, disconnected no-button ticks leave the device
/// in normal mode with the counter simply advanced for as long as the
/// counter stays short of the fallback threshold, and the run that reaches
/// the threshold — exactly twenty consecutive disconnected ticks from a
/// fresh counter — ends in setup mode.
pub proof fn lemma_disconnected_run(s: ControlState, inputs: Seq<TickInput>)
    requires
        s.wf(),
        s.stable(),
        !s.setup_mode,
        forall|k: int|
            0 <= k < inputs.len() ==> !(#[trigger] inputs[k]).button_pressed
                && !inputs[k].connected,
        s.disconnected_ticks + inputs.len() <= FALLBACK_TICKS,
    ensures
        s.disconnected_ticks + inputs.len() < FALLBACK_TICKS ==> {
            let f = spec_run(s, inputs);
            !f.setup_mode && f.stable() && f.disconnected_ticks == s.disconnected_ticks
                + inputs.len()
        },
        s.disconnected_ticks + inputs.len() == FALLBACK_TICKS && inputs.len() > 0 ==> {
            let f = spec_run(s, inputs);
            f.setup_mode && !f.stable()
        },
    decreases inputs.len(),
{
    if inputs.len() == 0 {
    } else {
        let s2 = spec_tick(s, inputs[0]).0;
        let rest = inputs.skip(1);
        if s.disconnected_ticks + 1 == FALLBACK_TICKS {
            assert(s2.setup_mode);
            assert(rest.len() == 0);
            assert(spec_run(s2, rest) == s2);
            assert(spec_run(s, inputs) == spec_run(s2, rest));
        } else {
            lemma_disconnected_run(s2, rest);
            assert(spec_run(s, inputs) == spec_run(s2, rest));
        }
    }
}

} // verus!
