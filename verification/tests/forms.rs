use wattometer::form::{parse_form, percent_decode_str, split_urlencoded_kv};
use wattometer::http::{handle_request, handle_save_post, ContentType, Method};
use wattometer::strutil::{find_char, str_eq, trim_at_nul};

#[test]
fn percent_decoding_basics() {
    assert_eq!(percent_decode_str("My%20Net"), "My Net");
    assert_eq!(percent_decode_str("pa%2Bss"), "pa+ss");
    assert_eq!(percent_decode_str("a+b"), "a b");
    assert_eq!(percent_decode_str("plain"), "plain");
    assert_eq!(percent_decode_str(""), "");
}

#[test]
fn percent_decoding_upper_and_lower_hex() {
    assert_eq!(percent_decode_str("%41%6a%6A"), "Ajj");
}

#[test]
fn percent_decoding_malformed_escape_becomes_question_mark() {
    assert_eq!(percent_decode_str("%zz"), "?");
    assert_eq!(percent_decode_str("a%g1b"), "a?b");
}

#[test]
fn percent_decoding_truncated_escape_is_malformed_too() {
    assert_eq!(percent_decode_str("abc%2"), "abc?");
    assert_eq!(percent_decode_str("abc%"), "abc?");
    assert_eq!(percent_decode_str("%"), "?");
}

#[test]
fn split_kv_splits_at_the_first_equals() {
    let (k, v) = split_urlencoded_kv("a=b%20c");
    assert_eq!(k, "a");
    assert_eq!(v, "b c");
    let (k, v) = split_urlencoded_kv("x=1=2");
    assert_eq!(k, "x");
    assert_eq!(v, "1=2");
}

#[test]
fn split_kv_without_equals_has_empty_value() {
    let (k, v) = split_urlencoded_kv("abc");
    assert_eq!(k, "abc");
    assert_eq!(v, "");
}

#[test]
fn split_kv_cuts_at_the_buffer_padding() {
    let (k, v) = split_urlencoded_kv("k=v\0\0\0");
    assert_eq!(k, "k");
    assert_eq!(v, "v");
}

#[test]
fn form_parsing_decodes_both_credentials() {
    let fields = parse_form("wifi_ssid=My%20Net&wifi_psk=pa%2Bss");
    assert_eq!(fields.wifi_ssid, "My Net");
    assert_eq!(fields.wifi_psk, "pa+ss");
    assert_eq!(fields.webhook, "");
}

#[test]
fn form_parsing_ignores_unknown_keys_and_keeps_the_last_value() {
    let fields = parse_form("junk=1&wifi_ssid=a&wifi_ssid=b&webhook=http%3A%2F%2Fx");
    assert_eq!(fields.wifi_ssid, "b");
    assert_eq!(fields.webhook, "http://x");
}

#[test]
fn save_post_persists_and_restarts() {
    let outcome = handle_save_post("wifi_ssid=Home&wifi_psk=Secret1&webhook=");
    assert_eq!(outcome.response.status, 200);
    assert_eq!(outcome.response.body, "Saved Wi-Fi credentials and restarting system");
    assert!(outcome.response.restart);
    let fields = outcome.persist.expect("a successful save persists the fields");
    assert_eq!(fields.wifi_ssid, "Home");
    assert_eq!(fields.wifi_psk, "Secret1");
    assert_eq!(fields.webhook, "");
}

#[test]
fn save_post_rejects_a_missing_credential() {
    let outcome = handle_save_post("wifi_ssid=&wifi_psk=x");
    assert_eq!(outcome.response.status, 400);
    assert_eq!(outcome.response.body, "Missing Wi-Fi SSID or Password");
    assert!(!outcome.response.restart);
    assert!(outcome.persist.is_none());

    let outcome = handle_save_post("wifi_ssid=x&wifi_psk=");
    assert_eq!(outcome.response.status, 400);

    let outcome = handle_save_post("");
    assert_eq!(outcome.response.status, 400);
}

#[test]
fn routing_in_setup_mode_serves_only_the_configuration() {
    let page = handle_request(true, Method::Get, "/", "", "MyAp", "", 0)
        .expect("the root is served in setup mode");
    assert_eq!(page.response.status, 200);
    assert!(matches!(page.response.content_type, ContentType::TextHtml));
    assert!(page.response.body.contains("value=\"MyAp\""));
    assert!(handle_request(true, Method::Get, "/amps", "", "", "", 0).is_none());
    assert!(handle_request(true, Method::Get, "/watts", "", "", "", 0).is_none());
    assert!(handle_request(true, Method::Get, "/nope", "", "", "", 0).is_none());
}

#[test]
fn routing_in_normal_mode_serves_telemetry_and_configuration() {
    let amps = handle_request(false, Method::Get, "/amps", "", "", "", 123456)
        .expect("amps are served in normal mode");
    assert_eq!(amps.response.body, "1.234560000000");
    let watts = handle_request(false, Method::Get, "/watts", "", "", "", 123456)
        .expect("watts are served in normal mode");
    assert_eq!(watts.response.body, "271.603200000000");
    let root = handle_request(false, Method::Get, "/", "", "", "", 123456)
        .expect("the root is served in normal mode");
    assert!(root.response.body.contains("Amps: 1.23456A"));
    assert!(root.response.body.contains("271.60320W"));
    let save = handle_request(false, Method::Post, "/save", "wifi_ssid=a&wifi_psk=b", "", "", 0)
        .expect("the save handler is shared with setup mode");
    assert_eq!(save.response.status, 200);
    assert!(save.response.restart);
    let restart = handle_request(false, Method::Get, "/restart", "", "", "", 0)
        .expect("the restart handler exists");
    assert_eq!(restart.response.body, "Restarting system");
    assert!(restart.response.restart);
}

#[test]
fn string_helpers() {
    assert!(str_eq("abc", "abc"));
    assert!(!str_eq("abc", "abd"));
    assert!(!str_eq("abc", "ab"));
    assert_eq!(find_char("a=b", '=', 0), 1);
    assert_eq!(find_char("abc", '=', 0), 3);
    assert_eq!(trim_at_nul(b"abc\0def"), b"abc");
    assert_eq!(trim_at_nul(b"abc"), b"abc");
}
