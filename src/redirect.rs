//! Redirect target composition, the redirect decision of both operating
//! modes, and the bounded retry policy for applying a redirect.
use vstd::prelude::*;
use crate::manifest::{is_stale, stale_spec, version_view, VersionManifest};
use base64::Engine;

verus! {

/// The standard base64 encoding (with padding) of a string's UTF-8 bytes.
pub uninterp spec fn base64_of(s: Seq<char>) -> Seq<char>;

/// A character of the standard base64 alphabet, padding included.
pub open spec fn base64_char(c: char) -> bool {
    ('A' <= c && c <= 'Z') || ('a' <= c && c <= 'z') || ('0' <= c && c <= '9') || c == '+'
        || c == '/' || c == '='
}

/// Relies on base64's `STANDARD.encode`: the result is a function of the
/// input bytes alone, is written in the standard alphabet with `=` padding,
/// and empty input encodes to the empty string. A `str` holds at most
/// `isize::MAX` bytes, so the size computation cannot overflow.
#[verifier::external_body]
fn base64_encode(s: &str) -> (r: String)
    ensures
        r@ == base64_of(s@),
        forall|i: int| 0 <= i < r@.len() ==> base64_char(#[trigger] r@[i]),
        s@.len() == 0 ==> r@.len() == 0,
{
    base64::engine::general_purpose::STANDARD.encode(s.as_bytes())
}

/// Characters that percent-encoding leaves as they are.
pub open spec fn unreserved(c: char) -> bool {
    ('0' <= c && c <= '9') || ('A' <= c && c <= 'Z') || ('a' <= c && c <= 'z') || c == '-'
        || c == '.' || c == '_' || c == '~'
}

/// Upper-case hexadecimal digit of `d < 16`.
pub open spec fn hex_digit(d: u32) -> char {
    "0123456789ABCDEF"@[d as int]
}

/// The encoding of one ASCII character.
pub open spec fn percent_char(c: char) -> Seq<char> {
    if unreserved(c) {
        seq![c]
    } else {
        seq!['%', hex_digit((c as u32) / 16), hex_digit((c as u32) % 16)]
    }
}

/// Percent-encoding of an ASCII string, character by character.
pub open spec fn percent_ascii(s: Seq<char>) -> Seq<char>
    decreases s.len(),
{
    if s.len() == 0 {
        Seq::empty()
    } else {
        percent_ascii(s.drop_last()) + percent_char(s.last())
    }
}

pub open spec fn ascii(s: Seq<char>) -> bool {
    forall|i: int| 0 <= i < s.len() ==> (#[trigger] s[i] as u32) < 128
}

/// Relies on urlencoding's `encode`: each byte of the input is kept when
/// unreserved and otherwise written as `%` and two upper-case hex digits;
/// on ASCII input a byte is a character.
#[verifier::external_body]
fn percent_encode(s: &str) -> (r: String)
    requires
        ascii(s@),
    ensures
        r@ == percent_ascii(s@),
{
    urlencoding::encode(s).into_owned()
}

/// `<origin>?apiKey=<key>`.
pub open spec fn with_key_spec(origin: Seq<char>, key: Seq<char>) -> Seq<char> {
    origin + "?apiKey="@ + key
}

/// The redirect target for an optional secret: a non-empty secret is carried,
/// base64-encoded then percent-encoded, in the `apiKey` query parameter.
/// Base64 output is ASCII, so its percent-encoding is `percent_ascii`.
pub open spec fn target_spec(origin: Seq<char>, secret: Option<Seq<char>>) -> Seq<char> {
    match secret {
        Some(k) => if k.len() == 0 {
            origin
        } else {
            with_key_spec(origin, percent_ascii(base64_of(k)))
        },
        None => origin,
    }
}

/// The script that replaces the view's location with `url`.
pub open spec fn script_spec(url: Seq<char>) -> Seq<char> {
    "window.location.replace('"@ + url + "');"@
}

pub open spec fn opt_view(s: Option<String>) -> Option<Seq<char>> {
    match s {
        Some(k) => Some(k@),
        None => None,
    }
}

/// Appends an already encoded key to the origin as the `apiKey` parameter.
pub fn url_with_key(origin: &str, encoded_key: &str) -> (r: String)
    ensures
        r@ == with_key_spec(origin@, encoded_key@),
{
    let mut u = String::from_str(origin);
    u.append("?apiKey=");
    u.append(encoded_key);
    u
}

/// The redirect target URL for the origin and the relayed secret.
pub fn redirect_url(origin: &str, secret: &Option<String>) -> (r: String)
    ensures
        r@ == target_spec(origin@, opt_view(*secret)),
{
    match secret {
        Some(k) => {
            if k.as_str().unicode_len() == 0 {
                String::from_str(origin)
            } else {
                let b = base64_encode(k.as_str());
                assert(ascii(b@));
                let p = percent_encode(b.as_str());
                url_with_key(origin, p.as_str())
            }
        },
        None => String::from_str(origin),
    }
}

/// The script evaluated in the view to navigate to `url`.
pub fn redirect_script(url: &str) -> (r: String)
    ensures
        r@ == script_spec(url@),
{
    let mut s = String::from_str("window.location.replace('");
    s.append(url);
    s.append("');");
    s
}

/// What reconciliation does to the displayed view.
#[derive(Debug)]
pub enum RedirectDecision {
    StayLocal,
    RedirectTo(String),
}

/// Unconditional mode: redirect exactly when the origin answered.
pub fn decide_reachable(reachable: bool, origin: &str, secret: &Option<String>) -> (r: RedirectDecision)
    ensures
        !reachable ==> r is StayLocal,
        reachable ==> r is RedirectTo && r->RedirectTo_0@ == target_spec(origin@, opt_view(*secret)),
{
    if reachable {
        RedirectDecision::RedirectTo(redirect_url(origin, secret))
    } else {
        RedirectDecision::StayLocal
    }
}

/// Version-gated mode: redirect exactly when the bundle is stale.
pub fn decide_versioned(
    local: &Option<VersionManifest>,
    remote: &Option<VersionManifest>,
    origin: &str,
    secret: &Option<String>,
) -> (r: RedirectDecision)
    ensures
        !stale_spec(version_view(*local), version_view(*remote)) ==> r is StayLocal,
        stale_spec(version_view(*local), version_view(*remote)) ==> r is RedirectTo
            && r->RedirectTo_0@ == target_spec(origin@, opt_view(*secret)),
{
    if is_stale(local, remote) {
        RedirectDecision::RedirectTo(redirect_url(origin, secret))
    } else {
        RedirectDecision::StayLocal
    }
}

/// An empty or absent secret leaves the bare origin; any other one is
/// carried as `apiKey=` followed by its base64 then percent encoding.
pub proof fn lemma_target_shape(origin: Seq<char>, secret: Option<Seq<char>>)
    ensures
        (secret is None || secret->0.len() == 0) ==> target_spec(origin, secret) == origin,
        (secret is Some && secret->0.len() > 0) ==> target_spec(origin, secret) == origin
            + "?apiKey="@ + percent_ascii(base64_of(secret->0)),
{
}

/// Most evaluation attempts made for one redirect.
pub const MAX_ATTEMPTS: u32 = 3;

/// The next step of the retry loop that applies a redirect.
#[derive(Debug, Clone, Copy, PartialEq, Eq, Structural)]
pub enum RetryAction {
    /// Wait the fixed delay, then evaluate the redirect script once more.
    DelayThenEvaluate,
    /// The loop is over.
    Stop,
}

/// Given how many evaluations were made and whether the last one was
/// accepted, decides whether to stop.
pub fn next_retry_action(attempts: u32, last_succeeded: bool) -> (r: RetryAction)
    ensures
        r is Stop <==> (last_succeeded || attempts >= MAX_ATTEMPTS),
{
    if last_succeeded || attempts >= MAX_ATTEMPTS {
        RetryAction::Stop
    } else {
        RetryAction::DelayThenEvaluate
    }
}

/// `r` evaluations are made when the evaluations would return `outcomes`
/// in turn (`true` for an accepted call): the loop stops at the first
/// accepted call, after `MAX_ATTEMPTS` calls, or when no outcome is left.
pub open spec fn attempts_spec(outcomes: Seq<bool>, r: nat) -> bool {
    &&& r <= MAX_ATTEMPTS
    &&& r <= outcomes.len()
    &&& forall|i: int| 0 <= i < r - 1 ==> !#[trigger] outcomes[i]
    &&& (r == MAX_ATTEMPTS || r == outcomes.len() || (r > 0 && outcomes[r - 1]))
}

/// Runs the retry policy against a list of evaluation outcomes and returns
/// how many evaluations it makes.
pub fn count_attempts(outcomes: &Vec<bool>) -> (r: u32)
    ensures
        attempts_spec(outcomes@, r as nat),
{
    let mut n: u32 = 0;
    let mut last = false;
    let mut go = next_retry_action(n, last) == RetryAction::DelayThenEvaluate && outcomes.len() > 0;
    while go
        invariant
            n <= MAX_ATTEMPTS,
            n as int <= outcomes@.len(),
            forall|i: int| 0 <= i < n - 1 ==> !#[trigger] outcomes@[i],
            last == (n > 0 && outcomes@[n - 1]),
            go ==> (!last && n < MAX_ATTEMPTS && (n as int) < outcomes@.len()),
            !go ==> (last || n == MAX_ATTEMPTS || n as int == outcomes@.len()),
        decreases MAX_ATTEMPTS - n,
    {
        last = outcomes[n as usize];
        n = n + 1;
        go = next_retry_action(n, last) == RetryAction::DelayThenEvaluate && (n as usize) < outcomes.len();
    }
    n
}

} // verus!
