//! What a request is checked for before its handler runs: the admin bearer
//! token, the client's IP address, and the shape of a model ID.

use subtle::ConstantTimeEq;
use vstd::prelude::*;

use crate::error::AppError;
use crate::text::{
    after_last, begins_with, char_vec, strip_prefix_text, text_after_last, trim,
    trimmed,
};

verus! {

/// Maximum allowed length for a client UUID, in bytes.
pub const MAX_CLIENT_UUID_LEN: usize = 64;

/// Proof that a request carries the configured admin bearer token.
pub struct AdminAuth;

/// The characters of an optional text.
pub open spec fn opt_text(o: Option<&str>) -> Option<Seq<char>> {
    match o {
        Some(s) => Some(s@),
        None => None,
    }
}

/// The UTF-8 encoding of `s`.
pub open spec fn utf8(s: Seq<char>) -> Seq<u8> {
    vstd::utf8::encode_utf8(s)
}

/// Compares two byte strings with `subtle::ConstantTimeEq::ct_eq` for
/// slices, which yields a `Choice` of 1 exactly when both slices have the
/// same length and the same bytes; `bool::from` turns that into `true`.
#[verifier::external_body]
fn bytes_equal_in_constant_time(a: &[u8], b: &[u8]) -> (r: bool)
    ensures
        r == (a@ == b@),
{
    a.ct_eq(b).into()
}

impl AdminAuth {
    /// What the admin check answers for the configured token `configured`
    /// and the request's `Authorization` header `header`.
    pub open spec fn verdict(configured: Seq<char>, header: Option<Seq<char>>) -> Result<
        (),
        (u16, Seq<char>),
    > {
        if configured.len() == 0 {
            Err((500, "ADMIN_TOKEN not configured"@))
        } else {
            match header {
                Some(h) if begins_with(h, "Bearer "@) => {
                    if h.skip("Bearer "@.len() as int) == configured {
                        Ok(())
                    } else {
                        Err((401, "Invalid or missing admin token"@))
                    }
                },
                _ => Err((401, "Missing or invalid admin token"@)),
            }
        }
    }

    /// Checks that the `Authorization` header `authorization` (absent, or
    /// not valid visible ASCII, as `None`) carries `Bearer ` followed by
    /// exactly the configured admin token `configured_token`.
    ///
    /// The token is compared byte for byte in constant time once the
    /// lengths agree.
    pub fn authorize(configured_token: &str, authorization: Option<&str>) -> (r: Result<
        AdminAuth,
        AppError,
    >)
        ensures
            match Self::verdict(configured_token@, opt_text(authorization)) {
                Ok(()) => r is Ok,
                Err((status, msg)) => r matches Err(e) && e.status() == status && e.text()
                    == msg,
            },
    {
        if configured_token.unicode_len() == 0 {
            return Err(AppError::Internal(String::from_str("ADMIN_TOKEN not configured")));
        }
        let provided = match authorization {
            Some(h) => strip_prefix_text(h, "Bearer "),
            None => None,
        };
        let provided = match provided {
            Some(p) => p,
            None => {
                return Err(AppError::Unauthorized(String::from_str("Missing or invalid admin token")));
            },
        };
        let ok = provided.as_str().len() == configured_token.len()
            && bytes_equal_in_constant_time(provided.as_str().as_bytes(), configured_token.as_bytes());
        proof {
            if utf8(provided@) == utf8(configured_token@) {
                vstd::utf8::encode_utf8_decode_utf8(provided@);
                vstd::utf8::encode_utf8_decode_utf8(configured_token@);
            }
        }
        if !ok {
            return Err(AppError::Unauthorized(String::from_str("Invalid or missing admin token")));
        }
        Ok(AdminAuth)
    }
}

/// The client IP address that a request is attributed to, from the
/// `Fly-Client-IP` header, the `X-Forwarded-For` header and the peer address
/// (each `None` when absent or not valid visible ASCII).
pub open spec fn client_ip(fly: Option<Seq<char>>, forwarded: Option<Seq<char>>, peer: Option<
    Seq<char>,
>) -> Seq<char> {
    if fly is Some && trim(fly->0).len() > 0 {
        trim(fly->0)
    } else if forwarded is Some && trim(after_last(forwarded->0, ',')).len() > 0 {
        trim(after_last(forwarded->0, ','))
    } else if peer is Some {
        peer->0
    } else {
        "unknown"@
    }
}

/// Extract the client IP address from trusted proxy headers or the socket.
///
/// Priority order:
/// 1. `Fly-Client-IP` — set by Fly.io edge proxy, not forgeable by clients.
/// 2. `X-Forwarded-For` — last entry (appended by the trusted reverse proxy).
///    Using the *last* entry prevents clients from injecting fake IPs by
///    prepending to the header.
/// 3. The IP of the direct peer socket address.
/// 4. `"unknown"` as a final fallback.
///
/// Header values are trimmed of white space; a value that trims to nothing
/// counts as absent.
pub fn extract_client_ip(
    fly_client_ip: Option<&str>,
    forwarded_for: Option<&str>,
    peer_ip: Option<&str>,
) -> (r: String)
    ensures
        r@ == client_ip(opt_text(fly_client_ip), opt_text(forwarded_for), opt_text(peer_ip)),
{
    if let Some(fly) = fly_client_ip {
        let t = trimmed(fly);
        if t.as_str().unicode_len() > 0 {
            return t;
        }
    }
    if let Some(forwarded) = forwarded_for {
        let last = text_after_last(forwarded, ',');
        let t = trimmed(last.as_str());
        if t.as_str().unicode_len() > 0 {
            return t;
        }
    }
    match peer_ip {
        Some(p) => String::from_str(p),
        None => String::from_str("unknown"),
    }
}

/// The `Fly-Client-IP` header decides the IP whenever it holds more than
/// white space, whatever the other headers say; without any header the
/// peer address is used, and without that the IP is `unknown`.
pub proof fn law_client_ip_priority(
    fly: Seq<char>,
    forwarded: Option<Seq<char>>,
    peer: Option<Seq<char>>,
)
    ensures
        trim(fly).len() > 0 ==> client_ip(Some(fly), forwarded, peer) == trim(fly),
        peer matches Some(p) ==> client_ip(None, None, peer) == p,
        client_ip(None, None, None) == "unknown"@,
{
}

/// What follows the last comma of a header value does not depend on what
/// precedes that comma.
proof fn lemma_after_last_comma(spoofed: Seq<char>, appended: Seq<char>)
    requires
        !appended.contains(','),
    ensures
        after_last(spoofed + seq![','] + appended, ',') == appended,
    decreases appended.len(),
{
    let whole = spoofed + seq![','] + appended;
    if appended.len() == 0 {
        assert(whole.last() == ',');
    } else {
        assert(whole.last() == appended.last());
        assert(appended.last() != ',') by {
            assert(appended[appended.len() - 1] == appended.last());
        }
        assert(whole.drop_last() =~= spoofed + seq![','] + appended.drop_last());
        assert forall|i: int| 0 <= i < appended.drop_last().len() implies appended.drop_last()[i]
            != ',' by {
            assert(appended.drop_last()[i] == appended[i]);
        }
        lemma_after_last_comma(spoofed, appended.drop_last());
        assert(appended.drop_last().push(appended.last()) =~= appended);
    }
}

/// Entries that a client prepends to `X-Forwarded-For` never decide its
/// IP: the header `spoofed, appended` (where the proxy appended
/// `appended`, which holds no comma) attributes the request as the header
/// `appended` alone would.
pub proof fn law_forwarded_for_prefix_is_ignored(
    fly: Option<Seq<char>>,
    spoofed: Seq<char>,
    appended: Seq<char>,
    peer: Option<Seq<char>>,
)
    requires
        !appended.contains(','),
    ensures
        client_ip(fly, Some(spoofed + seq![','] + appended), peer) == client_ip(
            fly,
            Some(appended),
            peer,
        ),
{
    lemma_after_last_comma(spoofed, appended);
    lemma_after_last_comma(Seq::empty(), appended);
    assert(Seq::<char>::empty() + seq![','] + appended =~= seq![','] + appended);
    lemma_after_last_no_comma(appended);
}

/// A value with no comma is its own last entry.
proof fn lemma_after_last_no_comma(s: Seq<char>)
    requires
        !s.contains(','),
    ensures
        after_last(s, ',') == s,
    decreases s.len(),
{
    if s.len() > 0 {
        assert(s[s.len() - 1] == s.last());
        assert forall|i: int| 0 <= i < s.drop_last().len() implies s.drop_last()[i] != ',' by {
            assert(s.drop_last()[i] == s[i]);
        }
        lemma_after_last_no_comma(s.drop_last());
        assert(s.drop_last().push(s.last()) =~= s);
    }
}

/// The admin check lets a request through exactly when a token is
/// configured and the `Authorization` header is `Bearer ` followed by that
/// token.
pub proof fn law_admin_accepts_exactly_the_token(configured: Seq<char>, header: Option<Seq<char>>)
    ensures
        AdminAuth::verdict(configured, header) is Ok <==> configured.len() > 0 && header == Some(
            "Bearer "@ + configured,
        ),
{
    let b = "Bearer "@;
    if let Some(h) = header {
        if begins_with(h, b) && h.skip(b.len() as int) == configured {
            assert(h =~= b + configured);
        }
        if h == b + configured {
            assert((b + configured).take(b.len() as int) =~= b);
            assert((b + configured).skip(b.len() as int) =~= configured);
        }
    }
}

/// Whether `c` may appear in a model ID: an ASCII letter or digit, `-`, `_`,
/// `.` or `/`.
pub open spec fn is_model_id_char(c: char) -> bool {
    ||| 'a' <= c <= 'z'
    ||| 'A' <= c <= 'Z'
    ||| '0' <= c <= '9'
    ||| c == '-'
    ||| c == '_'
    ||| c == '.'
    ||| c == '/'
}

/// The characters a model ID may hold, listed one by one: the 26 lower-case
/// and 26 upper-case ASCII letters, the ten ASCII digits, `-`, `_`, `.` and
/// `/`.
pub open spec fn listed_model_id_char(c: char) -> bool {
    ||| c == 'a'
    ||| c == 'b'
    ||| c == 'c'
    ||| c == 'd'
    ||| c == 'e'
    ||| c == 'f'
    ||| c == 'g'
    ||| c == 'h'
    ||| c == 'i'
    ||| c == 'j'
    ||| c == 'k'
    ||| c == 'l'
    ||| c == 'm'
    ||| c == 'n'
    ||| c == 'o'
    ||| c == 'p'
    ||| c == 'q'
    ||| c == 'r'
    ||| c == 's'
    ||| c == 't'
    ||| c == 'u'
    ||| c == 'v'
    ||| c == 'w'
    ||| c == 'x'
    ||| c == 'y'
    ||| c == 'z'
    ||| c == 'A'
    ||| c == 'B'
    ||| c == 'C'
    ||| c == 'D'
    ||| c == 'E'
    ||| c == 'F'
    ||| c == 'G'
    ||| c == 'H'
    ||| c == 'I'
    ||| c == 'J'
    ||| c == 'K'
    ||| c == 'L'
    ||| c == 'M'
    ||| c == 'N'
    ||| c == 'O'
    ||| c == 'P'
    ||| c == 'Q'
    ||| c == 'R'
    ||| c == 'S'
    ||| c == 'T'
    ||| c == 'U'
    ||| c == 'V'
    ||| c == 'W'
    ||| c == 'X'
    ||| c == 'Y'
    ||| c == 'Z'
    ||| c == '0'
    ||| c == '1'
    ||| c == '2'
    ||| c == '3'
    ||| c == '4'
    ||| c == '5'
    ||| c == '6'
    ||| c == '7'
    ||| c == '8'
    ||| c == '9'
    ||| c == '-'
    ||| c == '_'
    ||| c == '.'
    ||| c == '/'
}

/// A model ID character is exactly one of the listed characters.
pub proof fn law_model_id_chars_are_the_listed_ones(c: char)
    ensures
        is_model_id_char(c) <==> listed_model_id_char(c),
{
}

/// A model ID is well formed exactly when it is non-empty and every one of
/// its characters is a listed character; so every non-empty ID made of
/// ASCII letters, digits, `-`, `_`, `.` and `/` (such as
/// `meta-llama/Llama-3.1-70B`) is accepted, and any other character
/// anywhere refuses it.
pub proof fn law_model_id_well_formed_iff_listed(id: Seq<char>)
    ensures
        model_id_well_formed(id) <==> (id.len() > 0 && forall|i: int|
            0 <= i < id.len() ==> listed_model_id_char(#[trigger] id[i])),
{
    assert forall|i: int| 0 <= i < id.len() implies (is_model_id_char(#[trigger] id[i])
        <==> listed_model_id_char(id[i])) by {
        law_model_id_chars_are_the_listed_ones(id[i]);
    }
}

/// Whether `id` is a well-formed model ID: non-empty, and made of model ID
/// characters only.
pub open spec fn model_id_well_formed(id: Seq<char>) -> bool {
    id.len() > 0 && forall|i: int| 0 <= i < id.len() ==> is_model_id_char(#[trigger] id[i])
}

/// Validate that a model ID contains only safe characters.
///
/// Allowed: `[a-zA-Z0-9\-_./]` (alphanumeric, `-`, `_`, `.`, `/` for the
/// `org/model` format); the ID must not be empty.
pub fn is_valid_model_id(id: &str) -> (r: bool)
    ensures
        r == model_id_well_formed(id@),
{
    let chars = char_vec(id);
    let n = chars.len();
    if n == 0 {
        return false;
    }
    let mut i: usize = 0;
    while i < n
        invariant
            i <= n,
            n == id@.len(),
            chars@ == id@,
            forall|j: int| 0 <= j < i ==> is_model_id_char(#[trigger] id@[j]),
        decreases n - i,
    {
        let c = chars[i];
        let ok = ('a' <= c && c <= 'z') || ('A' <= c && c <= 'Z') || ('0' <= c && c <= '9') || c
            == '-' || c == '_' || c == '.' || c == '/';
        if !ok {
            return false;
        }
        i = i + 1;
    }
    true
}

} // verus!
