//! `/anchors` and `/checkout`: the replies for each outcome of the backend
//! calls. The anchor-tree image is drawn from the DOT text of
//! [`super::anchor_dot::render_dot`] by the caller.

use vstd::prelude::*;

use super::anchor_dot::{ForkEdge, SessionBranch};
use super::client::CheckoutResult;
use super::CommandReply;
use crate::text::{chars_of, decimal, push_decimal, push_str, string_of, trim, trim_exec};

verus! {

/// The reply when the chat has no session.
pub const NO_SESSION: &'static str = "No active session.";

/// The number of sessions in a branch: the session and every session
/// forked from it, at any depth.
pub open spec fn session_count(b: SessionBranch) -> nat
    decreases b, b.forks@.len() + 1,
{
    1 + forks_count(b, b.forks@.len())
}

/// The number of sessions under the first `n` forks of a branch.
pub open spec fn forks_count(b: SessionBranch, n: nat) -> nat
    decreases b, n,
{
    if n == 0 || n > b.forks@.len() {
        0
    } else {
        forks_count(b, (n - 1) as nat) + session_count(b.forks@[n - 1].branch)
    }
}

/// Count the sessions in a branch (saturating at `usize::MAX`, a count no
/// tree in memory reaches).
pub fn count_sessions(b: &SessionBranch) -> (r: usize)
    ensures
        r == if session_count(*b) <= usize::MAX {
            session_count(*b)
        } else {
            usize::MAX as nat
        },
    decreases b,
{
    let mut total: usize = 1;
    let n = b.forks.len();
    for i in 0..n
        invariant
            n == b.forks@.len(),
            total == if 1 + forks_count(*b, i as nat) <= usize::MAX {
                1 + forks_count(*b, i as nat)
            } else {
                usize::MAX as nat
            },
    {
        proof {
            assert(decreases_to!(b => b.forks[i as int].branch));
        }
        let c = count_sessions(&b.forks[i].branch);
        total = total.saturating_add(c);
    }
    total
}

/// The session count, saturating at `usize::MAX`.
pub open spec fn capped_count(b: SessionBranch) -> nat {
    if session_count(b) <= usize::MAX {
        session_count(b)
    } else {
        usize::MAX as nat
    }
}

/// The caption of the anchor-tree image.
pub open spec fn anchors_caption(b: SessionBranch) -> Seq<char> {
    "Anchor tree ("@ + decimal(capped_count(b)) + " sessions)"@
}

/// The caption of the anchor-tree image of a branch.
pub fn anchors_caption_text(b: &SessionBranch) -> (r: String)
    ensures
        r@ == anchors_caption(*b),
{
    let mut out: Vec<char> = Vec::new();
    push_str(&mut out, "Anchor tree (");
    push_decimal(&mut out, count_sessions(b) as u128);
    push_str(&mut out, " sessions)");
    proof {
        assert(out@ =~= anchors_caption(*b));
    }
    string_of(&out)
}

fn text_with(prefix: &str, err: &str) -> (r: CommandReply)
    ensures
        r matches CommandReply::Text(t) && t@ == prefix@ + err@,
{
    let mut out = chars_of(prefix);
    push_str(&mut out, err);
    CommandReply::Text(string_of(&out))
}

/// `/anchors`: the reply when the tree could not be built.
pub fn tree_failed_reply(err: &str) -> (r: CommandReply)
    ensures
        r matches CommandReply::Text(t) && t@ == "Failed to build anchor tree: "@ + err@,
{
    text_with("Failed to build anchor tree: ", err)
}

/// `/anchors`: the reply when the image could not be drawn (there is no
/// text fallback: the command answers with an image or an error).
pub fn image_failed_reply(err: &str) -> (r: CommandReply)
    ensures
        r matches CommandReply::Text(t) && t@ == "Failed to render anchor tree image: "@ + err@,
{
    text_with("Failed to render anchor tree image: ", err)
}

/// `/checkout [anchor]`: the anchor named, when the arguments hold more
/// than white space (else the session goes back to its parent).
pub fn checkout_anchor(args: &str) -> (r: Option<String>)
    ensures
        match r {
            Some(a) => a@ == trim(args@) && a@.len() > 0,
            None => trim(args@).len() == 0,
        },
{
    let t = trim_exec(&chars_of(args));
    if t.len() == 0 {
        None
    } else {
        Some(string_of(&t))
    }
}

/// `/checkout`: the reply for what the backend did, or its failure.
pub fn checkout_reply(result: &Result<CheckoutResult, String>) -> (r: CommandReply)
    ensures
        r matches CommandReply::Text(t) && t@ == match result {
            Err(e) => "Failed to checkout: "@ + e@,
            Ok(CheckoutResult::NoParent) => "Current session has no parent session."@,
            Ok(CheckoutResult::SwitchedToParent { session_key }) => "Switched to parent session: "@
                + session_key@,
            Ok(CheckoutResult::ForkedFromAnchor { anchor_name, session_key }) => "Forked from anchor '"@
                + anchor_name@ + "' into session: "@ + session_key@,
        },
{
    match result {
        Err(e) => text_with("Failed to checkout: ", e.as_str()),
        Ok(CheckoutResult::NoParent) => CommandReply::Text("Current session has no parent session.".to_string()),
        Ok(CheckoutResult::SwitchedToParent { session_key }) => text_with(
            "Switched to parent session: ",
            session_key.as_str(),
        ),
        Ok(CheckoutResult::ForkedFromAnchor { anchor_name, session_key }) => {
            let mut out = chars_of("Forked from anchor '");
            push_str(&mut out, anchor_name.as_str());
            push_str(&mut out, "' into session: ");
            push_str(&mut out, session_key.as_str());
            CommandReply::Text(string_of(&out))
        },
    }
}

} // verus!
