use vstd::prelude::*;
use crate::credentials::AppError;
use crate::numfmt::{format_fixed5, spec_fixed5};
use crate::strutil::push_char;

verus! {

/// The URL template placeholder that is replaced by the measured amperage.
pub open spec fn spec_placeholder() -> Seq<char> {
    "{{amps}}"@
}

/// Every occurrence of the placeholder in `s` replaced by `rep`, scanning
/// left to right without overlap.
pub open spec fn spec_substitute(s: Seq<char>, rep: Seq<char>) -> Seq<char>
    decreases s.len(),
{
    if s.len() == 0 {
        Seq::empty()
    } else if s.len() >= 8 && s.subrange(0, 8) == spec_placeholder() {
        rep + spec_substitute(s.skip(8), rep)
    } else {
        seq![s[0]] + spec_substitute(s.skip(1), rep)
    }
}

fn matches_placeholder(s: &str, i: usize) -> (r: bool)
    requires
        i + 8 <= s@.len(),
        s@.len() <= usize::MAX,
    ensures
        r == (s@.subrange(i as int, i as int + 8) == spec_placeholder()),
{
    proof {
        reveal_strlit("{{amps}}");
    }
    let r = s.get_char(i) == '{' && s.get_char(i + 1) == '{' && s.get_char(i + 2) == 'a'
        && s.get_char(i + 3) == 'm' && s.get_char(i + 4) == 'p' && s.get_char(i + 5) == 's'
        && s.get_char(i + 6) == '}' && s.get_char(i + 7) == '}';
    proof {
        let sub = s@.subrange(i as int, i as int + 8);
        if r {
            assert(sub =~= spec_placeholder());
        }
        if sub == spec_placeholder() {
            assert(s@[i as int] == sub[0]);
            assert(s@[i as int + 1] == sub[1]);
            assert(s@[i as int + 2] == sub[2]);
            assert(s@[i as int + 3] == sub[3]);
            assert(s@[i as int + 4] == sub[4]);
            assert(s@[i as int + 5] == sub[5]);
            assert(s@[i as int + 6] == sub[6]);
            assert(s@[i as int + 7] == sub[7]);
            assert(r);
        }
    }
    r
}

fn substitute_from(s: &str, i: usize, rep: &str) -> (r: String)
    requires
        i <= s@.len(),
    ensures
        r@ == spec_substitute(s@.skip(i as int), rep@),
    decreases s@.len() - i,
{
    let n = s.unicode_len();
    if i == n {
        proof {
            assert(s@.skip(i as int) =~= Seq::<char>::empty());
        }
        String::new()
    } else {
        let ghost tail = s@.skip(i as int);
        proof {
            assert(tail[0] == s@[i as int]);
            if n - i >= 8 {
                assert(tail.subrange(0, 8) =~= s@.subrange(i as int, i as int + 8));
            }
        }
        if n - i >= 8 && matches_placeholder(s, i) {
            proof {
                assert(tail.skip(8) =~= s@.skip(i as int + 8));
            }
            let mut r = rep.to_owned();
            let rest = substitute_from(s, i + 8, rep);
            r.append(rest.as_str());
            r
        } else {
            proof {
                assert(tail.skip(1) =~= s@.skip(i as int + 1));
            }
            let mut r = String::new();
            push_char(&mut r, s.get_char(i));
            let rest = substitute_from(s, i + 1, rep);
            r.append(rest.as_str());
            r
        }
    }
}

/// The URL with every amperage placeholder substituted.
pub fn substitute_amps(url: &str, amps_text: &str) -> (r: String)
    ensures
        r@ == spec_substitute(url@, amps_text@),
{
    let r = substitute_from(url, 0, amps_text);
    proof {
        assert(url@.skip(0) =~= url@);
    }
    r
}

/// The JSON telemetry payload, both readings with five decimal places.
pub open spec fn spec_json_body(amps_e5: int, watts_e5: int) -> Seq<char> {
    "{\"amps\":"@ + spec_fixed5(amps_e5) + ",\"watts\":"@ + spec_fixed5(watts_e5) + "}"@
}

/// One webhook delivery, ready for the transport: the target URL with the
/// placeholder substituted, and the JSON body to post.
pub struct WebhookRequest {
    pub url: String,
    pub body: String,
}

/// Decides and formats one webhook send.  Disconnected, it fails fast with a
/// not-connected error and nothing is sent; connected, it yields exactly one
/// request with the substituted URL and the five-decimal JSON payload.
pub fn send_webhook(webhook_url: &str, connected: bool, amps_e5: u64, watts_e5: u64) -> (r:
    Result<WebhookRequest, AppError>)
    ensures
        !connected ==> r matches Err(AppError::NotConnected),
        connected ==> (r matches Ok(req) && req.url@ == spec_substitute(
            webhook_url@,
            spec_fixed5(amps_e5 as int),
        ) && req.body@ == spec_json_body(amps_e5 as int, watts_e5 as int)),
{
    if !connected {
        return Err(AppError::NotConnected);
    }
    let amps_text = format_fixed5(amps_e5);
    let url = substitute_amps(webhook_url, amps_text.as_str());
    let mut body = "{\"amps\":".to_owned();
    body.append(amps_text.as_str());
    body.append(",\"watts\":");
    let watts_text = format_fixed5(watts_e5);
    body.append(watts_text.as_str());
    body.append("}");
    Ok(WebhookRequest { url, body })
}

} // verus!
