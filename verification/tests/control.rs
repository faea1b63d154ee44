use wattometer::config::Config;
use wattometer::credentials::{get_ssid_psk_from_nvs, non_empty_string_or_fail, AppError};
use wattometer::display::{render_setup_hints, render_telemetry_text, DisplayHandler};
use wattometer::shared::{identity, with_locked_value, GlobalState, Shared};
use wattometer::supervisor::{tick, ControlState, ServerKind, TickInput, FALLBACK_TICKS, RECONNECT_TICKS};
use wattometer::webhook::{send_webhook, substitute_amps};
use wattometer::wifi_config::{
    clamp_hostname, format_ipv4, get_client_ip, plan_apply, render_wifi_config, AuthMethod,
    WifiConfiguration,
};

fn test_config() -> Config {
    Config::new(
        "Wokwi-GUEST".to_string(),
        "".to_string(),
        "wattometer".to_string(),
    )
}

fn idle(connected: bool) -> TickInput {
    TickInput { button_pressed: false, connected, blink_pin_high: true, webhook_configured: false }
}

#[test]
fn empty_stored_ssid_forces_setup_whatever_was_asked() {
    let config = test_config();
    for force in [false, true] {
        let (ssid, psk, _host, setup) = get_ssid_psk_from_nvs(
            &config,
            Some("".to_string()),
            Some("secret".to_string()),
            None,
            force,
        );
        assert!(setup);
        assert_eq!(ssid, "Wokwi-GUEST");
        assert_eq!(psk, "");
    }
}

#[test]
fn missing_stored_psk_forces_setup_whatever_was_asked() {
    let config = test_config();
    for force in [false, true] {
        let (_ssid, _psk, _host, setup) =
            get_ssid_psk_from_nvs(&config, Some("home".to_string()), None, None, force);
        assert!(setup);
    }
}

#[test]
fn stored_credentials_pass_through_verbatim() {
    let config = test_config();
    let (ssid, psk, host, setup) = get_ssid_psk_from_nvs(
        &config,
        Some("home-net".to_string()),
        Some("s3cret".to_string()),
        Some("meter".to_string()),
        false,
    );
    assert!(!setup);
    assert_eq!(ssid, "home-net");
    assert_eq!(psk, "s3cret");
    assert_eq!(host, "meter");
}

#[test]
fn hostname_falls_back_without_forcing_setup() {
    let config = test_config();
    let (_, _, host, setup) = get_ssid_psk_from_nvs(
        &config,
        Some("home".to_string()),
        Some("pw".to_string()),
        None,
        false,
    );
    assert!(!setup);
    assert_eq!(host, "wattometer");
}

#[test]
fn forced_setup_returns_the_compiled_in_pair() {
    let config = test_config();
    let (ssid, psk, _, setup) = get_ssid_psk_from_nvs(
        &config,
        Some("home".to_string()),
        Some("pw".to_string()),
        None,
        true,
    );
    assert!(setup);
    assert_eq!(ssid, "Wokwi-GUEST");
    assert_eq!(psk, "");
}

#[test]
fn empty_string_is_invalid() {
    assert!(matches!(non_empty_string_or_fail(String::new()), Err(AppError::InvalidArg)));
    assert_eq!(non_empty_string_or_fail("x".to_string()).unwrap(), "x");
}

#[test]
fn quiet_connected_ticks_never_rebuild() {
    let mut s = ControlState::boot(false);
    for _ in 0..50 {
        let (next, actions) = tick(&s, &idle(true));
        assert!(actions.rebuild_server.is_none());
        assert!(actions.sample_and_publish);
        assert_eq!(next.disconnected_ticks, 0);
        assert!(!next.setup_mode);
        s = next;
    }
}

#[test]
fn reconnect_is_issued_on_the_tenth_disconnected_tick() {
    let mut s = ControlState::boot(false);
    for n in 1..=15u32 {
        let (next, actions) = tick(&s, &idle(false));
        assert_eq!(actions.issue_connect, n == RECONNECT_TICKS, "tick {}", n);
        assert_eq!(next.disconnected_ticks, n);
        s = next;
    }
}

#[test]
fn counter_resets_the_moment_the_radio_connects() {
    let mut s = ControlState::boot(false);
    for _ in 0..7 {
        s = tick(&s, &idle(false)).0;
    }
    assert_eq!(s.disconnected_ticks, 7);
    let (next, _) = tick(&s, &idle(true));
    assert_eq!(next.disconnected_ticks, 0);
}

#[test]
fn fallback_fires_on_exactly_the_twentieth_disconnected_tick() {
    let mut s = ControlState::boot(false);
    for n in 1..FALLBACK_TICKS {
        let (next, actions) = tick(&s, &idle(false));
        assert!(!next.setup_mode, "tick {}", n);
        assert!(actions.rebuild_server.is_none());
        s = next;
    }
    assert_eq!(s.disconnected_ticks, FALLBACK_TICKS - 1);
    let (flipped, actions) = tick(&s, &idle(false));
    assert!(flipped.setup_mode);
    assert!(!flipped.last_setup_mode);
    assert!(actions.rebuild_server.is_none(), "the rebuild follows on the next evaluation");
    assert!(!actions.sample_and_publish);
    let (_, actions) = tick(&flipped, &idle(false));
    assert_eq!(actions.rebuild_server, Some(ServerKind::SetupServer));
}

#[test]
fn button_toggles_between_the_modes() {
    let s = ControlState::boot(false);
    let pressed = TickInput { button_pressed: true, ..idle(true) };
    let (in_setup, actions) = tick(&s, &pressed);
    assert!(in_setup.setup_mode);
    assert!(!actions.confirm_blink);
    let (_, actions) = tick(&in_setup, &idle(false));
    assert_eq!(actions.rebuild_server, Some(ServerKind::SetupServer));
    assert!(actions.show_setup_hints);
    assert!(actions.force_blink);

    let stable_setup = ControlState::boot(true);
    let (leaving, actions) = tick(&stable_setup, &pressed);
    assert!(!leaving.setup_mode);
    assert!(actions.confirm_blink);
    let (_, actions) = tick(&leaving, &idle(true));
    assert_eq!(actions.rebuild_server, Some(ServerKind::NormalServer));
}

#[test]
fn webhook_fires_only_when_connected_and_configured() {
    let s = ControlState::boot(false);
    let mut input = idle(true);
    input.webhook_configured = true;
    let (_, actions) = tick(&s, &input);
    assert!(actions.send_webhook);
    let (_, actions) = tick(&s, &idle(true));
    assert!(!actions.send_webhook);
    let mut disconnected = idle(false);
    disconnected.webhook_configured = true;
    let (_, actions) = tick(&s, &disconnected);
    assert!(!actions.send_webhook);
}

#[test]
fn webhook_url_template_substitution() {
    let request = send_webhook("http://x/hook?a={{amps}}", true, 123456, 27160320)
        .expect("connected sends go through");
    assert_eq!(request.url, "http://x/hook?a=1.23456");
    assert_eq!(request.body, "{\"amps\":1.23456,\"watts\":271.60320}");
}

#[test]
fn webhook_without_placeholder_posts_to_the_url_verbatim() {
    let request = send_webhook("https://example.test/hook", true, 50000, 11000000).unwrap();
    assert_eq!(request.url, "https://example.test/hook");
    assert_eq!(request.body, "{\"amps\":0.50000,\"watts\":110.00000}");
}

#[test]
fn webhook_replaces_every_placeholder() {
    assert_eq!(substitute_amps("{{amps}}/{{amps}}", "7.00000"), "7.00000/7.00000");
    assert_eq!(substitute_amps("{{amps}", "7"), "{{amps}");
}

#[test]
fn webhook_fails_fast_when_disconnected() {
    assert!(matches!(
        send_webhook("http://x/{{amps}}", false, 1, 2),
        Err(AppError::NotConnected)
    ));
}

#[test]
fn display_sink_availability() {
    let mut d = DisplayHandler::new();
    assert!(!d.available);
    assert!(!d.run(true), "writes are skipped while unavailable");
    d.init(false);
    assert!(!d.available);
    d.init(true);
    assert!(d.available);
    assert!(d.run(true));
    assert!(d.available);
    assert!(d.run(false));
    assert!(!d.available, "a failed write marks the sink unavailable");
    assert!(!d.run(true));
    d.init(true);
    assert!(d.available);
}

#[test]
fn display_text_rendering() {
    assert_eq!(
        render_setup_hints("Wokwi-GUEST", "pw"),
        "SETUP MODE AP:\nWokwi-GUEST\nKEY:\npw\n"
    );
    assert_eq!(render_telemetry_text(123456, 27160320), "1.23456A    \n271.60320W    \n");
}

#[test]
fn shared_values_drop_writes_while_held() {
    let mut slot = Shared::new(5u64);
    assert_eq!(slot.try_read(), Some(&5));
    slot.set_held(true);
    assert!(slot.try_read().is_none());
    assert!(!slot.try_write(9));
    slot.set_held(false);
    assert_eq!(slot.try_read(), Some(&5));
    assert!(slot.try_write(9));
    assert_eq!(slot.try_read(), Some(&9));
}

#[test]
fn locked_value_helpers() {
    let slot = Shared::new(41u64);
    let read = with_locked_value(&slot, |v: &u64| *v + 1);
    assert_eq!(read, 42);
    assert_eq!(identity(7), 7);
    let state = GlobalState::new(true, "ap".to_string(), "".to_string());
    assert_eq!(with_locked_value(&state.wifi_ssid, |s: &String| s.clone()), "ap");
    assert_eq!(with_locked_value(&state.setup_mode, |b: &bool| *b), true);
    assert_eq!(with_locked_value(&state.adc_value, |v: &u64| *v), 0);
}

#[test]
fn radio_configuration_per_mode() {
    let config = test_config();
    match render_wifi_config(&config, "home".to_string(), "pw".to_string(), true) {
        WifiConfiguration::Mixed(client, ap) => {
            assert_eq!(client.ssid, "home");
            assert_eq!(client.password, "pw");
            assert_eq!(ap.ssid, "Wokwi-GUEST");
            assert_eq!(ap.password, "");
            assert_eq!(ap.auth_method, AuthMethod::Wpa2Personal);
        },
        _ => panic!("setup mode derives a mixed configuration"),
    }
    match render_wifi_config(&config, "home".to_string(), "pw".to_string(), false) {
        WifiConfiguration::Client(client) => {
            assert_eq!(client.ssid, "home");
            assert_eq!(client.password, "pw");
        },
        _ => panic!("normal mode derives a pure station configuration"),
    }
    let plan = plan_apply(&config, "home".to_string(), "pw".to_string(), true);
    assert!(!plan.issue_connect, "no connect call while in setup mode");
    let plan = plan_apply(&config, "home".to_string(), "pw".to_string(), false);
    assert!(plan.issue_connect);
}

#[test]
fn client_ip_is_available_exactly_while_connected() {
    assert_eq!(format_ipv4(192, 168, 1, 40), "192.168.1.40");
    assert_eq!(format_ipv4(0, 0, 0, 0), "0.0.0.0");
    assert_eq!(get_client_ip(true, (10, 0, 0, 7)).unwrap(), "10.0.0.7");
    assert!(matches!(get_client_ip(false, (10, 0, 0, 7)), Err(AppError::NotConnected)));
    assert_eq!(AppError::NotConnected.describe(), "not connected");
    assert_eq!(AppError::InvalidArg.describe(), "invalid argument");
}

#[test]
fn hostnames_are_clamped_by_truncation() {
    assert_eq!(clamp_hostname("wattometer".to_string()), "wattometer");
    let long = "a-very-long-hostname-that-goes-past-the-limit".to_string();
    let clamped = clamp_hostname(long);
    assert_eq!(clamped.chars().count(), 32);
    assert_eq!(clamped, "a-very-long-hostname-that-goes-p");
}
