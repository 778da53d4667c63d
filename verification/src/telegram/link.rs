//! Linking a Telegram account with a web account: the random code of a
//! link request, the checks of a code the user sends, and the replies.
//!
//! The codes live in a database that the caller reads and writes; it
//! hands the stored code's direction and expiry to [`check_link_code`].

use rand::Rng;
use vstd::prelude::*;

use crate::text::{chars_of, push_str, string_of};

verus! {

/// Whether `c` is an ASCII letter or digit.
pub open spec fn is_ascii_alnum(c: char) -> bool {
    ('A' <= c <= 'Z') || ('a' <= c <= 'z') || ('0' <= c <= '9')
}

/// One character drawn by `rand::rng().sample(rand::distr::Alphanumeric)`:
/// the contract claims only that it is an ASCII letter or digit, which is
/// the whole alphabet the distribution draws from.
#[verifier::external_body]
fn random_alphanumeric() -> (r: char)
    ensures
        is_ascii_alnum(r),
{
    char::from(rand::rng().sample(rand::distr::Alphanumeric))
}

/// A random code of `len` ASCII letters and digits.
pub fn generate_random_code(len: usize) -> (r: String)
    ensures
        r@.len() == len,
        forall|i: int| 0 <= i < len ==> is_ascii_alnum(#[trigger] r@[i]),
{
    let mut out: Vec<char> = Vec::new();
    for i in 0..len
        invariant
            out@.len() == i,
            forall|k: int| 0 <= k < i ==> is_ascii_alnum(#[trigger] out@[k]),
    {
        out.push(random_alphanumeric());
    }
    string_of(&out)
}

/// Length of the code of a link request.
pub const LINK_CODE_LEN: usize = 6;

/// A stored link code: the direction it links in and when it expires
/// (whole seconds since the epoch and the nanoseconds past them).
pub struct StoredLinkCode {
    pub direction: String,
    pub expires_at: (i64, u32),
}

/// Whether instant `a` comes before instant `b`.
pub open spec fn before(a: (i64, u32), b: (i64, u32)) -> bool {
    a.0 < b.0 || (a.0 == b.0 && a.1 < b.1)
}

/// Why a code sent with `/link <code>` is refused, if it is: unknown,
/// expired at `now`, or made for the other direction.
pub open spec fn link_code_error(stored: Option<StoredLinkCode>, now: (i64, u32)) -> Option<Seq<char>> {
    match stored {
        None => Some("Invalid or expired link code."@),
        Some(c) => if before(c.expires_at, now) {
            Some("Link code has expired."@)
        } else if c.direction@ != "web_to_tg"@ {
            Some("Invalid link code direction."@)
        } else {
            None
        },
    }
}

/// Check a code sent with `/link <code>` against what is stored for it at
/// the instant `now`: `Ok` when the account can be linked, else the reply.
pub fn check_link_code(stored: Option<&StoredLinkCode>, now: (i64, u32)) -> (r: Result<(), String>)
    ensures
        match r {
            Ok(()) => link_code_error(
                match stored {
                    Some(c) => Some(*c),
                    None => None,
                },
                now,
            ) is None,
            Err(e) => link_code_error(
                match stored {
                    Some(c) => Some(*c),
                    None => None,
                },
                now,
            ) == Some(e@),
        },
{
    match stored {
        None => Err("Invalid or expired link code.".to_string()),
        Some(c) => {
            if c.expires_at.0 < now.0 || (c.expires_at.0 == now.0 && c.expires_at.1 < now.1) {
                Err("Link code has expired.".to_string())
            } else if !crate::text::str_eq(c.direction.as_str(), "web_to_tg") {
                Err("Invalid link code direction.".to_string())
            } else {
                Ok(())
            }
        },
    }
}

/// The reply once the account was linked.
pub const LINKED_REPLY: &'static str = "Account linked successfully!";

/// The reply to `/link` without a code: the URL to open, with the code.
pub open spec fn link_request_reply(base_url: Seq<char>, code: Seq<char>) -> Seq<char> {
    "To link your Telegram account, open this URL in your browser (expires in 5 minutes):\n\n"@
        + base_url + "/link?tg_code="@ + code
}

/// The reply to `/link` without a code.
pub fn link_request_message(base_url: &str, code: &str) -> (r: String)
    ensures
        r@ == link_request_reply(base_url@, code@),
{
    let mut out: Vec<char> = Vec::new();
    push_str(
        &mut out,
        "To link your Telegram account, open this URL in your browser (expires in 5 minutes):\n\n",
    );
    push_str(&mut out, base_url);
    push_str(&mut out, "/link?tg_code=");
    push_str(&mut out, code);
    proof {
        assert(out@ =~= link_request_reply(base_url@, code@));
    }
    string_of(&out)
}

} // verus!
