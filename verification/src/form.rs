use vstd::prelude::*;
use crate::strutil::{find_char, push_char, spec_find, str_eq, lemma_spec_find_range};

verus! {

/// A hexadecimal digit, upper or lower case.
pub open spec fn is_hex_digit(c: char) -> bool {
    (48 <= c as int && c as int <= 57) || (97 <= c as int && c as int <= 102) || (65 <= c as int
        && c as int <= 70)
}

/// The value of a hexadecimal digit.
pub open spec fn hex_val(c: char) -> int {
    if 48 <= c as int && c as int <= 57 {
        c as int - 48
    } else if 97 <= c as int && c as int <= 102 {
        c as int - 87
    } else {
        c as int - 55
    }
}

/// What a two-character escape decodes to: the byte the two hex digits spell,
/// or `'?'` when either character is not a hex digit.
pub open spec fn decoded_escape(c1: char, c2: char) -> char {
    if is_hex_digit(c1) && is_hex_digit(c2) {
        (16 * hex_val(c1) + hex_val(c2)) as char
    } else {
        '?'
    }
}

/// Percent-decoding of a form value: `%xx` escapes become the byte they
/// spell, `'+'` becomes a space, anything else passes through.  A malformed
/// escape — hex digits missing or not hex digits at all — decodes to `'?'`;
/// a `'%'` with fewer than two characters after it is such an escape, and is
/// all that remains of the input.
pub open spec fn spec_percent_decode(s: Seq<char>) -> Seq<char>
    decreases s.len(),
{
    if s.len() == 0 {
        Seq::empty()
    } else if s[0] == '%' {
        if s.len() < 3 {
            seq!['?']
        } else {
            seq![decoded_escape(s[1], s[2])] + spec_percent_decode(s.skip(3))
        }
    } else if s[0] == '+' {
        seq![' '] + spec_percent_decode(s.skip(1))
    } else {
        seq![s[0]] + spec_percent_decode(s.skip(1))
    }
}

fn hex_digit_value(c: char) -> (r: Option<u8>)
    ensures
        is_hex_digit(c) <==> (r matches Some(v) && v == hex_val(c)),
        !is_hex_digit(c) <==> r is None,
{
    let v = c as u32;
    if 48 <= v && v <= 57 {
        Some((v - 48) as u8)
    } else if 97 <= v && v <= 102 {
        Some((v - 87) as u8)
    } else if 65 <= v && v <= 70 {
        Some((v - 55) as u8)
    } else {
        None
    }
}

fn decode_escape(c1: char, c2: char) -> (r: char)
    ensures
        r == decoded_escape(c1, c2),
{
    match (hex_digit_value(c1), hex_digit_value(c2)) {
        (Some(hi), Some(lo)) => (16 * hi + lo) as char,
        _ => '?',
    }
}

fn percent_decode_from(s: &str, i: usize) -> (r: String)
    requires
        i <= s@.len(),
    ensures
        r@ == spec_percent_decode(s@.skip(i as int)),
    decreases s@.len() - i,
{
    let n = s.unicode_len();
    if i == n {
        proof {
            assert(s@.skip(i as int) =~= Seq::<char>::empty());
        }
        String::new()
    } else {
        let ghost tail = s@.skip(i as int);
        proof {
            assert(tail[0] == s@[i as int]);
        }
        let c = s.get_char(i);
        if c == '%' {
            if n - i < 3 {
                let mut r = String::new();
                push_char(&mut r, '?');
                r
            } else {
                proof {
                    assert(tail[1] == s@[i as int + 1]);
                    assert(tail[2] == s@[i as int + 2]);
                    assert(tail.skip(3) =~= s@.skip(i as int + 3));
                }
                let d = decode_escape(s.get_char(i + 1), s.get_char(i + 2));
                let mut r = String::new();
                push_char(&mut r, d);
                let rest = percent_decode_from(s, i + 3);
                r.append(rest.as_str());
                r
            }
        } else if c == '+' {
            proof {
                assert(tail.skip(1) =~= s@.skip(i as int + 1));
            }
            let mut r = String::new();
            push_char(&mut r, ' ');
            let rest = percent_decode_from(s, i + 1);
            r.append(rest.as_str());
            r
        } else {
            proof {
                assert(tail.skip(1) =~= s@.skip(i as int + 1));
            }
            let mut r = String::new();
            push_char(&mut r, c);
            let rest = percent_decode_from(s, i + 1);
            r.append(rest.as_str());
            r
        }
    }
}

/// Percent-decodes a form value.
pub fn percent_decode_str(input: &str) -> (r: String)
    ensures
        r@ == spec_percent_decode(input@),
{
    let r = percent_decode_from(input, 0);
    proof {
        assert(input@.skip(0) =~= input@);
    }
    r
}

/// The key of one `key=value` piece: everything before the first `'='`.
pub open spec fn spec_kv_key(s: Seq<char>) -> Seq<char> {
    s.take(spec_find(s, '=', 0))
}

/// The value of one `key=value` piece: what stands between the `'='` and the
/// first NUL, percent-decoded, cut again at the first decoded NUL.  A piece
/// without `'='` has an empty value.
pub open spec fn spec_kv_value(s: Seq<char>) -> Seq<char> {
    let eq = spec_find(s, '=', 0);
    if eq == s.len() {
        Seq::empty()
    } else {
        let nul = spec_find(s, '\0', eq + 1);
        let decoded = spec_percent_decode(s.subrange(eq + 1, nul));
        decoded.take(spec_find(decoded, '\0', 0))
    }
}

/// Splits one `key=value` piece of a form body and percent-decodes the
/// value; NULs bound the value because the request body arrives in a
/// zero-filled buffer.
pub fn split_urlencoded_kv(input: &str) -> (r: (String, String))
    ensures
        r.0@ == spec_kv_key(input@),
        r.1@ == spec_kv_value(input@),
{
    let n = input.unicode_len();
    let eq = find_char(input, '=', 0);
    proof {
        lemma_spec_find_range(input@, '=', 0);
    }
    let key = input.substring_char(0, eq).to_owned();
    proof {
        assert(input@.subrange(0, eq as int) =~= input@.take(eq as int));
    }
    if eq == n {
        (key, String::new())
    } else {
        let nul = find_char(input, '\0', eq + 1);
        proof {
            lemma_spec_find_range(input@, '\0', eq as int + 1);
        }
        let raw = input.substring_char(eq + 1, nul);
        let decoded = percent_decode_str(raw);
        let nul2 = find_char(decoded.as_str(), '\0', 0);
        proof {
            lemma_spec_find_range(decoded@, '\0', 0);
        }
        let value = decoded.as_str().substring_char(0, nul2).to_owned();
        proof {
            assert(decoded@.subrange(0, nul2 as int) =~= decoded@.take(nul2 as int));
        }
        (key, value)
    }
}

/// The three fields the configuration form carries.
pub struct FormFields {
    pub wifi_ssid: String,
    pub wifi_psk: String,
    pub webhook: String,
}

impl FormFields {
    pub open spec fn view_fields(&self) -> (Seq<char>, Seq<char>, Seq<char>) {
        (self.wifi_ssid@, self.wifi_psk@, self.webhook@)
    }

    pub fn empty() -> (r: FormFields)
        ensures
            r.view_fields() == (Seq::<char>::empty(), Seq::<char>::empty(), Seq::<char>::empty()),
    {
        FormFields { wifi_ssid: String::new(), wifi_psk: String::new(), webhook: String::new() }
    }
}

/// One form piece folded into the accumulated fields: a recognised key
/// replaces its field, anything else is ignored.
pub open spec fn spec_apply_piece(
    acc: (Seq<char>, Seq<char>, Seq<char>),
    piece: Seq<char>,
) -> (Seq<char>, Seq<char>, Seq<char>) {
    let key = spec_kv_key(piece);
    let value = spec_kv_value(piece);
    if key == "wifi_ssid"@ {
        (value, acc.1, acc.2)
    } else if key == "wifi_psk"@ {
        (acc.0, value, acc.2)
    } else if key == "webhook"@ {
        (acc.0, acc.1, value)
    } else {
        acc
    }
}

/// The whole form body folded left to right: pieces are separated by `'&'`,
/// and a later piece with the same key overrides an earlier one.
pub open spec fn spec_fold_form(
    s: Seq<char>,
    piece: Seq<char>,
    acc: (Seq<char>, Seq<char>, Seq<char>),
) -> (Seq<char>, Seq<char>, Seq<char>)
    decreases s.len(),
{
    if s.len() == 0 {
        spec_apply_piece(acc, piece)
    } else if s[0] == '&' {
        spec_fold_form(s.skip(1), Seq::empty(), spec_apply_piece(acc, piece))
    } else {
        spec_fold_form(s.skip(1), piece + seq![s[0]], acc)
    }
}

/// What a form body parses to.
pub open spec fn spec_parse_form(s: Seq<char>) -> (Seq<char>, Seq<char>, Seq<char>) {
    spec_fold_form(s, Seq::empty(), (Seq::<char>::empty(), Seq::<char>::empty(), Seq::<char>::empty()))
}

fn apply_piece(acc: FormFields, piece: &str) -> (r: FormFields)
    ensures
        r.view_fields() == spec_apply_piece(acc.view_fields(), piece@),
{
    let (key, value) = split_urlencoded_kv(piece);
    if str_eq(key.as_str(), "wifi_ssid") {
        FormFields { wifi_ssid: value, wifi_psk: acc.wifi_psk, webhook: acc.webhook }
    } else if str_eq(key.as_str(), "wifi_psk") {
        FormFields { wifi_ssid: acc.wifi_ssid, wifi_psk: value, webhook: acc.webhook }
    } else if str_eq(key.as_str(), "webhook") {
        FormFields { wifi_ssid: acc.wifi_ssid, wifi_psk: acc.wifi_psk, webhook: value }
    } else {
        acc
    }
}


/// Parses an `application/x-www-form-urlencoded` body into the three fields
/// of the configuration form.
pub fn parse_form(body: &str) -> (r: FormFields)
    ensures
        r.view_fields() == spec_parse_form(body@),
{
    let n = body.unicode_len();
    let mut acc = FormFields::empty();
    let mut piece = String::new();
    let mut i: usize = 0;
    proof {
        assert(body@.skip(0) =~= body@);
    }
    while i < n
        invariant
            0 <= i <= n,
            n == body@.len(),
            spec_fold_form(body@.skip(i as int), piece@, acc.view_fields()) == spec_parse_form(
                body@,
            ),
        decreases n - i,
    {
        let ghost tail = body@.skip(i as int);
        proof {
            assert(tail[0] == body@[i as int]);
            assert(tail.skip(1) =~= body@.skip(i as int + 1));
        }
        let c = body.get_char(i);
        if c == '&' {
            acc = apply_piece(acc, piece.as_str());
            piece = String::new();
        } else {
            push_char(&mut piece, c);
        }
        i = i + 1;
    }
    proof {
        assert(body@.skip(n as int) =~= Seq::<char>::empty());
    }
    apply_piece(acc, piece.as_str())
}

} // verus!
