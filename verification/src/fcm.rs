//! Push-notification payloads: typed payload kinds and the JSON message
//! body handed to the notification gateway, with verified string escaping.
//!
//! The exact wire layout is this crate's choice (the gateway's format is not
//! fixed by the core): one `message` object holding the device token, the
//! `notification` title and body, and a `data` object exactly when the
//! payload kind carries data entries.

use vstd::prelude::*;
use crate::text::{spec_u64_chars, u64_to_string};
use vstd::string::StrSliceExecFns;
use vstd::string::StringExecFns;

verus! {

/// The typed payload of a push notification.
#[derive(Debug)]
pub enum NotificationType {
    Standard,
    Link { url: String },
    Image { url: String },
    Chat { sender_id: String, chat_id: String },
    Call { caller_id: String, call_id: String, is_video: bool },
}

/// The key/value data entries a payload kind contributes, in order.
pub open spec fn spec_data_entries(nt: NotificationType) -> Seq<(Seq<char>, Seq<char>)> {
    match nt {
        NotificationType::Standard => Seq::empty(),
        NotificationType::Link { url } => seq![("type"@, "link"@), ("url"@, url@)],
        NotificationType::Image { url } => seq![("type"@, "image"@), ("image_url"@, url@)],
        NotificationType::Chat { sender_id, chat_id } => seq![
            ("type"@, "chat"@),
            ("sender_id"@, sender_id@),
            ("chat_id"@, chat_id@),
        ],
        NotificationType::Call { caller_id, call_id, is_video } => seq![
            ("type"@, "call"@),
            ("caller_id"@, caller_id@),
            ("call_id"@, call_id@),
            ("is_video"@, if is_video {
                "true"@
            } else {
                "false"@
            }),
        ],
    }
}

/// The hexadecimal digit character for a value below sixteen.
pub open spec fn spec_hex_char(d: int) -> char {
    if d < 10 {
        crate::text::spec_digit_char(d)
    } else if d == 10 {
        'a'
    } else if d == 11 {
        'b'
    } else if d == 12 {
        'c'
    } else if d == 13 {
        'd'
    } else if d == 14 {
        'e'
    } else {
        'f'
    }
}

/// How one character is written inside a JSON string literal: quote and
/// backslash are escaped, the named control characters use their short
/// escapes, other control characters use a `\u00XX` escape, and everything
/// else stands for itself.
pub open spec fn spec_escape_char(c: char) -> Seq<char> {
    if c == '"' {
        seq!['\\', '"']
    } else if c == '\\' {
        seq!['\\', '\\']
    } else if c == '\n' {
        seq!['\\', 'n']
    } else if c == '\r' {
        seq!['\\', 'r']
    } else if c == '\t' {
        seq!['\\', 't']
    } else if c == '\u{8}' {
        seq!['\\', 'b']
    } else if c == '\u{c}' {
        seq!['\\', 'f']
    } else if (c as u32) < 32 {
        seq!['\\', 'u', '0', '0', spec_hex_char(c as u32 as int / 16), spec_hex_char(c as u32 as int % 16)]
    } else {
        seq![c]
    }
}

/// A character sequence written inside a JSON string literal.
pub open spec fn spec_escape(s: Seq<char>) -> Seq<char>
    decreases s.len(),
{
    if s.len() == 0 {
        Seq::empty()
    } else {
        spec_escape(s.drop_last()) + spec_escape_char(s.last())
    }
}

/// A JSON string literal: the escaped contents between double quotes.
pub open spec fn spec_quoted(s: Seq<char>) -> Seq<char> {
    seq!['"'] + spec_escape(s) + seq!['"']
}

fn hex_str(d: u32) -> (r: &'static str)
    requires
        d < 16,
    ensures
        r@ =~= seq![spec_hex_char(d as int)],
{
    proof {
        reveal_strlit("0");
        reveal_strlit("1");
        reveal_strlit("2");
        reveal_strlit("3");
        reveal_strlit("4");
        reveal_strlit("5");
        reveal_strlit("6");
        reveal_strlit("7");
        reveal_strlit("8");
        reveal_strlit("9");
        reveal_strlit("a");
        reveal_strlit("b");
        reveal_strlit("c");
        reveal_strlit("d");
        reveal_strlit("e");
        reveal_strlit("f");
    }
    match d {
        0 => "0",
        1 => "1",
        2 => "2",
        3 => "3",
        4 => "4",
        5 => "5",
        6 => "6",
        7 => "7",
        8 => "8",
        9 => "9",
        10 => "a",
        11 => "b",
        12 => "c",
        13 => "d",
        14 => "e",
        _ => "f",
    }
}

proof fn lemma_escape_push(s: Seq<char>, c: char)
    ensures
        spec_escape(s.push(c)) == spec_escape(s) + spec_escape_char(c),
{
    assert(s.push(c).drop_last() =~= s);
    assert(s.push(c).last() == c);
}

/// Appends the escaped form of `s` to `out`.
fn append_escaped(out: &mut String, s: &str)
    ensures
        final(out)@ == old(out)@ + spec_escape(s@),
{
    let n = s.unicode_len();
    let mut i: usize = 0;
    proof {
        assert(s@.take(0) =~= Seq::<char>::empty());
        assert(old(out)@ + spec_escape(s@.take(0)) =~= old(out)@);
    }
    while i < n
        invariant
            n == s@.len(),
            i <= n,
            out@ == old(out)@ + spec_escape(s@.take(i as int)),
        decreases n - i,
    {
        let c = s.get_char(i);
        proof {
            assert(s@.take(i + 1) =~= s@.take(i as int).push(c));
            lemma_escape_push(s@.take(i as int), c);
            reveal_strlit("\\\"");
            reveal_strlit("\\\\");
            reveal_strlit("\\n");
            reveal_strlit("\\r");
            reveal_strlit("\\t");
            reveal_strlit("\\b");
            reveal_strlit("\\f");
            reveal_strlit("\\u00");
        }
        let u = c as u32;
        if c == '"' {
            out.append("\\\"");
        } else if c == '\\' {
            out.append("\\\\");
        } else if c == '\n' {
            out.append("\\n");
        } else if c == '\r' {
            out.append("\\r");
        } else if c == '\t' {
            out.append("\\t");
        } else if u == 8 {
            out.append("\\b");
        } else if u == 12 {
            out.append("\\f");
        } else if u < 32 {
            out.append("\\u00");
            out.append(hex_str(u / 16));
            out.append(hex_str(u % 16));
        } else {
            let one = s.substring_char(i, i + 1);
            proof {
                assert(one@ =~= seq![c]);
            }
            out.append(one);
        }
        proof {
            assert(out@ =~= old(out)@ + spec_escape(s@.take(i + 1)));
        }
        i += 1;
    }
    proof {
        assert(s@.take(n as int) =~= s@);
    }
}

/// Appends a JSON string literal holding `s` to `out`.
fn append_quoted(out: &mut String, s: &str)
    ensures
        final(out)@ == old(out)@ + spec_quoted(s@),
{
    proof {
        reveal_strlit("\"");
    }
    out.append("\"");
    append_escaped(out, s);
    out.append("\"");
    proof {
        assert(out@ =~= old(out)@ + spec_quoted(s@));
    }
}

/// The JSON data-object text for a payload kind's entries.
pub open spec fn spec_data_json(entries: Seq<(Seq<char>, Seq<char>)>) -> Seq<char>
    decreases entries.len(),
{
    if entries.len() == 0 {
        Seq::empty()
    } else if entries.len() == 1 {
        spec_quoted(entries[0].0) + seq![':'] + spec_quoted(entries[0].1)
    } else {
        spec_data_json(entries.drop_last()) + seq![','] + spec_quoted(entries.last().0)
            + seq![':'] + spec_quoted(entries.last().1)
    }
}

/// The complete gateway message for one device token: the token, the
/// notification title and body, and the payload kind's data entries when it
/// has any.
pub open spec fn spec_fcm_message_json(
    token: Seq<char>,
    title: Seq<char>,
    body: Seq<char>,
    nt: NotificationType,
) -> Seq<char> {
    let entries = spec_data_entries(nt);
    "{\"message\":{\"token\":"@ + spec_quoted(token) + ",\"notification\":{\"title\":"@
        + spec_quoted(title) + ",\"body\":"@ + spec_quoted(body) + "}"@ + (if entries.len() == 0 {
        Seq::<char>::empty()
    } else {
        ",\"data\":{"@ + spec_data_json(entries) + "}"@
    }) + "}}"@
}

/// Appends one `"key":"value"` pair to `out`.
fn append_pair(out: &mut String, key: &str, value: &str)
    ensures
        final(out)@ == old(out)@ + spec_quoted(key@) + seq![':'] + spec_quoted(value@),
{
    proof {
        reveal_strlit(":");
    }
    append_quoted(out, key);
    out.append(":");
    append_quoted(out, value);
}

/// Appends `,"key":"value"` to `out`.
fn append_pair_comma(out: &mut String, key: &str, value: &str)
    ensures
        final(out)@ == old(out)@ + seq![','] + spec_quoted(key@) + seq![':'] + spec_quoted(
            value@,
        ),
{
    proof {
        reveal_strlit(",");
    }
    out.append(",");
    append_pair(out, key, value);
}

/// Appends the `,"data":{...}` fragment a payload kind contributes; a kind
/// without data entries contributes nothing.
#[verifier::rlimit(100)]
fn append_data_object(out: &mut String, nt: &NotificationType)
    ensures
        final(out)@ == old(out)@ + (if spec_data_entries(*nt).len() == 0 {
            Seq::<char>::empty()
        } else {
            ",\"data\":{"@ + spec_data_json(spec_data_entries(*nt)) + "}"@
        }),
{
    proof {
        reveal_with_fuel(spec_data_json, 6);
    }
    match nt {
        NotificationType::Standard => {
            proof {
                assert(out@ =~= old(out)@ + Seq::<char>::empty());
            }
        },
        NotificationType::Link { url } => {
            out.append(",\"data\":{");
            append_pair(out, "type", "link");
            append_pair_comma(out, "url", url.as_str());
            out.append("}");
            proof {
                let entries = spec_data_entries(*nt);
                assert(entries.drop_last().len() == 1);
                assert(entries.drop_last()[0] == ("type"@, "link"@));
                assert(out@ =~= old(out)@ + (",\"data\":{"@ + spec_data_json(entries) + "}"@));
            }
        },
        NotificationType::Image { url } => {
            out.append(",\"data\":{");
            append_pair(out, "type", "image");
            append_pair_comma(out, "image_url", url.as_str());
            out.append("}");
            proof {
                let entries = spec_data_entries(*nt);
                assert(entries.drop_last().len() == 1);
                assert(entries.drop_last()[0] == ("type"@, "image"@));
                assert(out@ =~= old(out)@ + (",\"data\":{"@ + spec_data_json(entries) + "}"@));
            }
        },
        NotificationType::Chat { sender_id, chat_id } => {
            out.append(",\"data\":{");
            append_pair(out, "type", "chat");
            append_pair_comma(out, "sender_id", sender_id.as_str());
            append_pair_comma(out, "chat_id", chat_id.as_str());
            out.append("}");
            proof {
                let entries = spec_data_entries(*nt);
                assert(entries.drop_last().drop_last().len() == 1);
                assert(entries.drop_last().drop_last()[0] == ("type"@, "chat"@));
                assert(entries.drop_last().len() == 2);
                assert(entries.drop_last().last() == ("sender_id"@, sender_id@));
                assert(out@ =~= old(out)@ + (",\"data\":{"@ + spec_data_json(entries) + "}"@));
            }
        },
        NotificationType::Call { caller_id, call_id, is_video } => {
            out.append(",\"data\":{");
            append_pair(out, "type", "call");
            append_pair_comma(out, "caller_id", caller_id.as_str());
            append_pair_comma(out, "call_id", call_id.as_str());
            if *is_video {
                append_pair_comma(out, "is_video", "true");
            } else {
                append_pair_comma(out, "is_video", "false");
            }
            out.append("}");
            proof {
                let entries = spec_data_entries(*nt);
                assert(entries.drop_last().drop_last().drop_last().len() == 1);
                assert(entries.drop_last().drop_last().drop_last()[0] == ("type"@, "call"@));
                assert(entries.drop_last().drop_last().len() == 2);
                assert(entries.drop_last().drop_last().last() == ("caller_id"@, caller_id@));
                assert(entries.drop_last().len() == 3);
                assert(entries.drop_last().last() == ("call_id"@, call_id@));
                assert(out@ =~= old(out)@ + (",\"data\":{"@ + spec_data_json(entries) + "}"@));
            }
        },
    }
}

/// Builds the gateway message body for one device token.
#[verifier::rlimit(100)]
pub fn fcm_message_json(token: &str, title: &str, body: &str, nt: &NotificationType) -> (r: String)
    ensures
        r@ == spec_fcm_message_json(token@, title@, body@, *nt),
{
    let mut out = String::from_str("{\"message\":{\"token\":");
    append_quoted(&mut out, token);
    out.append(",\"notification\":{\"title\":");
    append_quoted(&mut out, title);
    out.append(",\"body\":");
    append_quoted(&mut out, body);
    out.append("}");
    append_data_object(&mut out, nt);
    out.append("}}");
    proof {
        assert(out@ =~= spec_fcm_message_json(token@, title@, body@, *nt));
    }
    out
}


/// The claims the gateway client presents when exchanging its service
/// account key for an access token.
pub struct OauthClaims {
    pub iss: String,
    pub scope: String,
    pub aud: String,
    pub exp: u64,
    pub iat: u64,
}

/// Builds the token-exchange claims: the service account as issuer, the
/// messaging scope, the token endpoint as audience, and a validity of one
/// hour from `now_seconds`.
pub fn oauth_claims(client_email: &str, now_seconds: u64) -> (r: OauthClaims)
    requires
        now_seconds + 3600 <= u64::MAX,
    ensures
        r.iss@ == client_email@,
        r.scope@ == "https://www.googleapis.com/auth/firebase.messaging"@,
        r.aud@ == "https://oauth2.googleapis.com/token"@,
        r.iat == now_seconds,
        r.exp == now_seconds + 3600,
{
    OauthClaims {
        iss: String::from_str(client_email),
        scope: String::from_str("https://www.googleapis.com/auth/firebase.messaging"),
        aud: String::from_str("https://oauth2.googleapis.com/token"),
        exp: now_seconds + 3600,
        iat: now_seconds,
    }
}

/// The JSON text the claims serialize to, field by field.
pub open spec fn spec_oauth_claims_json(c: OauthClaims) -> Seq<char> {
    "{\"iss\":"@ + spec_quoted(c.iss@) + ",\"scope\":"@ + spec_quoted(c.scope@) + ",\"aud\":"@
        + spec_quoted(c.aud@) + ",\"exp\":"@ + spec_u64_chars(c.exp as int) + ",\"iat\":"@
        + spec_u64_chars(c.iat as int) + "}"@
}

/// Renders the claims as the JSON payload to be signed.
pub fn oauth_claims_json(c: &OauthClaims) -> (r: String)
    ensures
        r@ == spec_oauth_claims_json(*c),
{
    let mut out = String::from_str("{\"iss\":");
    append_quoted(&mut out, c.iss.as_str());
    out.append(",\"scope\":");
    append_quoted(&mut out, c.scope.as_str());
    out.append(",\"aud\":");
    append_quoted(&mut out, c.aud.as_str());
    out.append(",\"exp\":");
    out.append(u64_to_string(c.exp).as_str());
    out.append(",\"iat\":");
    out.append(u64_to_string(c.iat).as_str());
    out.append("}");
    proof {
        assert(out@ =~= spec_oauth_claims_json(*c));
    }
    out
}

/// The form body of the token exchange: the fixed grant type, form-encoded,
/// and the signed assertion.  A compact JWT's alphabet needs no encoding of
/// its own.
pub open spec fn spec_token_request_form(jwt: Seq<char>) -> Seq<char> {
    "grant_type=urn%3Aietf%3Aparams%3Aoauth%3Agrant-type%3Ajwt-bearer&assertion="@ + jwt
}

/// Builds the token-exchange form body around a signed assertion.
pub fn token_request_form(jwt: &str) -> (r: String)
    ensures
        r@ == spec_token_request_form(jwt@),
{
    let mut out = String::from_str(
        "grant_type=urn%3Aietf%3Aparams%3Aoauth%3Agrant-type%3Ajwt-bearer&assertion=",
    );
    out.append(jwt);
    out
}

} // verus!
