use vstd::prelude::*;
use crate::form::{parse_form, spec_parse_form, FormFields};
use crate::numfmt::{format_fixed5, format_fixed12, spec_fixed5, spec_fixed12};
use crate::strutil::str_eq;

verus! {

/// Line voltage assumed when turning amps into watts.
pub const AC_VOLTS: u64 = 220;

/// Watts in 1e-5 units from amps in 1e-5 units.
pub open spec fn spec_watts_e5(amps_e5: int) -> int {
    amps_e5 * AC_VOLTS
}

pub fn watts_from_amps(amps_e5: u64) -> (watts_e5: u64)
    requires
        amps_e5 * AC_VOLTS <= u64::MAX,
    ensures
        watts_e5 == spec_watts_e5(amps_e5 as int),
{
    amps_e5 * AC_VOLTS
}

/// The two body kinds the firmware serves.
pub enum ContentType {
    TextHtml,
    TextPlain,
}

/// The request methods the firmware routes.
pub enum Method {
    Get,
    Post,
}

/// What a handler answers: the status line, the body, and whether the device
/// restarts right after the response is written.
pub struct Response {
    pub status: u16,
    pub content_type: ContentType,
    pub body: String,
    pub restart: bool,
}

/// A handled request: the response, and the fields to persist when the
/// request was a successful configuration save.
pub struct Outcome {
    pub response: Response,
    pub persist: Option<FormFields>,
}

/// The HTML of the configuration form, with the currently known SSID and
/// webhook URL filled in; the password field is always left blank.
pub open spec fn spec_setup_page(ssid: Seq<char>, webhook: Seq<char>) -> Seq<char> {
    "<!DOCTYPE html>\n        <html><head><title>Coarse watt-o-meter</title></head>\n        <body>\n        <form action=\"/save\" method=\"post\">\n        <label for=\"wifi_ssid\">Wi-Fi SSID:</label><br>\n        <input type=\"text\" id=\"wifi_ssid\" name=\"wifi_ssid\" value=\""@
        + ssid
        + "\"><br>\n        <label for=\"wifi_psk\">Wi-Fi Password:</label><br>\n        <input type=\"password\" id=\"wifi_psk\" name=\"wifi_psk\" value\"\"><br><br>\n        <label for=\"webhook\">URL to POST with the Amps in {{amps}} (if non-empty)</label><br>\n        <input type=\"text\" id=\"webhook\" name=\"webhook\" value=\""@
        + webhook
        + "\"><br><br>\n        <input type=\"submit\" value=\"Submit\">\n        </body></html>"@
}

/// Renders the configuration form.
pub fn render_setup_page(current_ssid: &str, current_webhook: &str) -> (r: Response)
    ensures
        r.status == 200,
        r.content_type is TextHtml,
        r.body@ == spec_setup_page(current_ssid@, current_webhook@),
        !r.restart,
{
    let mut body =
        "<!DOCTYPE html>\n        <html><head><title>Coarse watt-o-meter</title></head>\n        <body>\n        <form action=\"/save\" method=\"post\">\n        <label for=\"wifi_ssid\">Wi-Fi SSID:</label><br>\n        <input type=\"text\" id=\"wifi_ssid\" name=\"wifi_ssid\" value=\"".to_owned();
    body.append(current_ssid);
    body.append(
        "\"><br>\n        <label for=\"wifi_psk\">Wi-Fi Password:</label><br>\n        <input type=\"password\" id=\"wifi_psk\" name=\"wifi_psk\" value\"\"><br><br>\n        <label for=\"webhook\">URL to POST with the Amps in {{amps}} (if non-empty)</label><br>\n        <input type=\"text\" id=\"webhook\" name=\"webhook\" value=\"",
    );
    body.append(current_webhook);
    body.append(
        "\"><br><br>\n        <input type=\"submit\" value=\"Submit\">\n        </body></html>",
    );
    Response { status: 200, content_type: ContentType::TextHtml, body, restart: false }
}

/// The HTML of the telemetry landing page.
pub open spec fn spec_index_page(amps_e5: int, watts_e5: int) -> Seq<char> {
    "<!DOCTYPE html>\n                    <html><head><title>Coarse watt-o-meter</title></head>\n                    <body><a href=\"/amps\">Amps: "@
        + spec_fixed5(amps_e5) + "A</a><br />\n                    <a href=\"/watts\">"@
        + spec_fixed5(watts_e5) + "W</a></body>\n                    </html>"@
}

/// Renders the telemetry landing page for the latest sample.
pub fn render_index_page(amps_e5: u64, watts_e5: u64) -> (r: Response)
    ensures
        r.status == 200,
        r.content_type is TextHtml,
        r.body@ == spec_index_page(amps_e5 as int, watts_e5 as int),
        !r.restart,
{
    let mut body =
        "<!DOCTYPE html>\n                    <html><head><title>Coarse watt-o-meter</title></head>\n                    <body><a href=\"/amps\">Amps: ".to_owned();
    let amps = format_fixed5(amps_e5);
    body.append(amps.as_str());
    body.append("A</a><br />\n                    <a href=\"/watts\">");
    let watts = format_fixed5(watts_e5);
    body.append(watts.as_str());
    body.append("W</a></body>\n                    </html>");
    Response { status: 200, content_type: ContentType::TextHtml, body, restart: false }
}

/// Renders the plain-text amperage, twelve decimal places.
pub fn render_amps_page(amps_e5: u64) -> (r: Response)
    ensures
        r.status == 200,
        r.content_type is TextPlain,
        r.body@ == spec_fixed12(amps_e5 as int),
        !r.restart,
{
    Response {
        status: 200,
        content_type: ContentType::TextPlain,
        body: format_fixed12(amps_e5),
        restart: false,
    }
}

/// Renders the plain-text wattage, twelve decimal places.
pub fn render_watts_page(watts_e5: u64) -> (r: Response)
    ensures
        r.status == 200,
        r.content_type is TextPlain,
        r.body@ == spec_fixed12(watts_e5 as int),
        !r.restart,
{
    Response {
        status: 200,
        content_type: ContentType::TextPlain,
        body: format_fixed12(watts_e5),
        restart: false,
    }
}

/// Handles a configuration save: an empty SSID or password is rejected with
/// a 400 and nothing is persisted; otherwise the three fields are persisted
/// verbatim and the device restarts right after the confirmation is sent.
pub fn handle_save_post(body: &str) -> (r: Outcome)
    ensures
        ({
            let fields = spec_parse_form(body@);
            if fields.0.len() == 0 || fields.1.len() == 0 {
                r.response.status == 400 && r.response.content_type is TextPlain
                    && r.response.body@ == "Missing Wi-Fi SSID or Password"@
                    && !r.response.restart && r.persist is None
            } else {
                r.response.status == 200 && r.response.content_type is TextPlain
                    && r.response.body@ == "Saved Wi-Fi credentials and restarting system"@
                    && r.response.restart && (r.persist matches Some(f) && f.view_fields()
                    == fields)
            }
        }),
{
    let fields = parse_form(body);
    if fields.wifi_ssid.as_str().unicode_len() == 0 || fields.wifi_psk.as_str().unicode_len()
        == 0 {
        Outcome {
            response: Response {
                status: 400,
                content_type: ContentType::TextPlain,
                body: "Missing Wi-Fi SSID or Password".to_owned(),
                restart: false,
            },
            persist: None,
        }
    } else {
        Outcome {
            response: Response {
                status: 200,
                content_type: ContentType::TextPlain,
                body: "Saved Wi-Fi credentials and restarting system".to_owned(),
                restart: true,
            },
            persist: Some(fields),
        }
    }
}

/// Handles a restart request: the confirmation is sent, then the device
/// restarts.
pub fn handle_restart() -> (r: Response)
    ensures
        r.status == 200,
        r.content_type is TextPlain,
        r.body@ == "Restarting system"@,
        r.restart,
{
    Response {
        status: 200,
        content_type: ContentType::TextPlain,
        body: "Restarting system".to_owned(),
        restart: true,
    }
}

/// Which handler a request reaches; the telemetry routes exist only outside
/// setup mode, the configuration routes exist in both modes.
pub enum Route {
    SetupPage,
    IndexPage,
    AmpsPage,
    WattsPage,
    Save,
    Restart,
    NotFound,
}

pub open spec fn spec_route(setup_mode: bool, method: Method, path: Seq<char>) -> Route {
    if method is Get && path == "/"@ {
        if setup_mode {
            Route::SetupPage
        } else {
            Route::IndexPage
        }
    } else if method is Get && path == "/save"@ {
        Route::SetupPage
    } else if method is Post && path == "/save"@ {
        Route::Save
    } else if method is Get && path == "/restart"@ {
        Route::Restart
    } else if !setup_mode && method is Get && path == "/amps"@ {
        Route::AmpsPage
    } else if !setup_mode && method is Get && path == "/watts"@ {
        Route::WattsPage
    } else {
        Route::NotFound
    }
}

/// Routes one request against the handler set of the current mode and runs
/// its handler.  `None` stands for a path the server has no handler for.
pub fn handle_request(
    setup_mode: bool,
    method: Method,
    path: &str,
    body: &str,
    current_ssid: &str,
    current_webhook: &str,
    amps_e5: u64,
) -> (r: Option<Outcome>)
    requires
        amps_e5 * AC_VOLTS <= u64::MAX,
    ensures
        ({
            let route = spec_route(setup_mode, method, path@);
            match route {
                Route::SetupPage => r matches Some(o) && o.persist is None && o.response.status
                    == 200 && o.response.body@ == spec_setup_page(
                    current_ssid@,
                    current_webhook@,
                ) && !o.response.restart,
                Route::IndexPage => r matches Some(o) && o.persist is None && o.response.status
                    == 200 && o.response.body@ == spec_index_page(
                    amps_e5 as int,
                    spec_watts_e5(amps_e5 as int),
                ) && !o.response.restart,
                Route::AmpsPage => r matches Some(o) && o.persist is None && o.response.status
                    == 200 && o.response.body@ == spec_fixed12(amps_e5 as int)
                    && !o.response.restart,
                Route::WattsPage => r matches Some(o) && o.persist is None && o.response.status
                    == 200 && o.response.body@ == spec_fixed12(spec_watts_e5(amps_e5 as int))
                    && !o.response.restart,
                Route::Save => r matches Some(o) && ({
                    let fields = spec_parse_form(body@);
                    if fields.0.len() == 0 || fields.1.len() == 0 {
                        o.response.status == 400 && !o.response.restart && o.persist is None
                    } else {
                        o.response.status == 200 && o.response.restart && (o.persist matches Some(
                            f,
                        ) && f.view_fields() == fields)
                    }
                }),
                Route::Restart => r matches Some(o) && o.persist is None && o.response.status
                    == 200 && o.response.body@ == "Restarting system"@ && o.response.restart,
                Route::NotFound => r is None,
            }
        }),
{
    let is_get = match method {
        Method::Get => true,
        Method::Post => false,
    };
    if is_get && str_eq(path, "/") {
        if setup_mode {
            Some(outcome_of(render_setup_page(current_ssid, current_webhook)))
        } else {
            let watts_e5 = watts_from_amps(amps_e5);
            Some(outcome_of(render_index_page(amps_e5, watts_e5)))
        }
    } else if is_get && str_eq(path, "/save") {
        Some(outcome_of(render_setup_page(current_ssid, current_webhook)))
    } else if !is_get && str_eq(path, "/save") {
        Some(handle_save_post(body))
    } else if is_get && str_eq(path, "/restart") {
        Some(outcome_of(handle_restart()))
    } else if !setup_mode && is_get && str_eq(path, "/amps") {
        Some(outcome_of(render_amps_page(amps_e5)))
    } else if !setup_mode && is_get && str_eq(path, "/watts") {
        let watts_e5 = watts_from_amps(amps_e5);
        Some(outcome_of(render_watts_page(watts_e5)))
    } else {
        None
    }
}

fn outcome_of(response: Response) -> (r: Outcome)
    ensures
        r.response == response,
        r.persist is None,
{
    Outcome { response, persist: None }
}

} // verus!
