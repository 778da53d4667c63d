//! `/gateway`: owner-only gateway status, restart and update.

use vstd::prelude::*;

use super::client::{GatewayCommandOutcome, GatewayStatus};
use super::session::{format_timestamp, short_timestamp, timestamp_sliceable};
use super::CommandReply;
use crate::text::{
    chars_of, cut_at_bytes, cut_at_bytes_exec, decimal, eq_lit, escape_html, first_word,
    first_word_exec, push_decimal, push_escaped_html, push_escaped_str, push_str, slice_of,
    string_of, utf8_len,
};

verus! {

/// What `/gateway` was asked to do.
#[derive(Debug, Clone, Copy, PartialEq, Eq, Structural)]
pub enum GatewaySubcommand {
    Status,
    Restart,
    Update,
    /// An unknown subcommand: show the usage.
    Usage,
}

/// The subcommand named by the first word of the arguments (`status` when
/// there is none).
pub open spec fn gateway_subcommand(args: Seq<char>) -> GatewaySubcommand {
    match first_word(args) {
        None => GatewaySubcommand::Status,
        Some(w) => if w == "status"@ {
            GatewaySubcommand::Status
        } else if w == "restart"@ {
            GatewaySubcommand::Restart
        } else if w == "update"@ {
            GatewaySubcommand::Update
        } else {
            GatewaySubcommand::Usage
        },
    }
}

/// Parse the arguments of `/gateway`.
pub fn parse_gateway_subcommand(args: &str) -> (r: GatewaySubcommand)
    ensures
        r == gateway_subcommand(args@),
{
    let a = chars_of(args);
    match first_word_exec(&a) {
        None => GatewaySubcommand::Status,
        Some(w) => {
            if eq_lit(&w, "status") {
                GatewaySubcommand::Status
            } else if eq_lit(&w, "restart") {
                GatewaySubcommand::Restart
            } else if eq_lit(&w, "update") {
                GatewaySubcommand::Update
            } else {
                GatewaySubcommand::Usage
            }
        },
    }
}

/// Whether a user may run `/gateway`: their platform id is one of the
/// configured owner/admin ids.
pub fn gateway_allowed(allowed_user_ids: &Vec<String>, user_id: &str) -> (r: bool)
    ensures
        r == exists|i: int| 0 <= i < allowed_user_ids@.len() && (#[trigger] allowed_user_ids@[i])@ == user_id@,
{
    let u = chars_of(user_id);
    let n = allowed_user_ids.len();
    let mut i: usize = 0;
    while i < n
        invariant
            n == allowed_user_ids@.len(),
            u@ == user_id@,
            i <= n,
            forall|j: int| 0 <= j < i ==> (#[trigger] allowed_user_ids@[j])@ != user_id@,
        decreases n - i,
    {
        if crate::text::seq_eq(&chars_of(allowed_user_ids[i].as_str()), &u) {
            return true;
        }
        i = i + 1;
    }
    false
}

/// The reply to a user who is not an owner.
pub fn unauthorized_reply() -> (r: CommandReply)
    ensures
        r matches CommandReply::Text(t) && t@
            == "This command is restricted to configured owner/admin Telegram users."@,
{
    CommandReply::Text("This command is restricted to configured owner/admin Telegram users.".to_string())
}

/// The usage of `/gateway`.
pub fn usage_reply() -> (r: CommandReply)
    ensures
        r matches CommandReply::Html(t) && t@
            == "<b>Gateway commands</b>\n<code>/gateway status</code>\n<code>/gateway restart</code>\n<code>/gateway update</code>"@,
{
    CommandReply::Html(
        "<b>Gateway commands</b>\n<code>/gateway status</code>\n<code>/gateway restart</code>\n<code>/gateway update</code>".to_string(),
    )
}

// ---------------------------------------------------------------------------
// Revisions
// ---------------------------------------------------------------------------

/// Whether the first 12 bytes of a revision of more than 12 bytes end on a
/// character boundary (always so for hexadecimal revisions).
pub open spec fn rev_sliceable(rev: Seq<char>) -> bool {
    utf8_len(rev) > 12 ==> cut_at_bytes(rev, 0, 0, 12) is Some
}

/// A revision cut to its first 12 bytes.
pub open spec fn short_rev_of(rev: Seq<char>) -> Seq<char> {
    if utf8_len(rev) > 12 {
        match cut_at_bytes(rev, 0, 0, 12) {
            Some(k) => rev.take(k),
            None => rev,
        }
    } else {
        rev
    }
}

/// A revision shortened to 12 bytes.
pub fn short_rev(rev: &str) -> (r: String)
    requires
        rev_sliceable(rev@),
    ensures
        r@ == short_rev_of(rev@),
{
    let v = chars_of(rev);
    if crate::text::fits_in_bytes(&v, 0, 12) {
        proof {
            assert(v@.subrange(0, v@.len() as int) =~= v@);
        }
        return string_of(&v);
    }
    proof {
        assert(v@.subrange(0, v@.len() as int) =~= v@);
    }
    match cut_at_bytes_exec(&v, 0, 12) {
        Some(k) => {
            proof {
                super::session::lemma_cut_at_bytes(v@, 0, 0, 12);
            }
            let s = slice_of(&v, 0, k);
            proof {
                assert(s@ =~= v@.take(k as int));
            }
            string_of(&s)
        },
        None => string_of(&v),
    }
}

// ---------------------------------------------------------------------------
// Status and outcome
// ---------------------------------------------------------------------------

/// `yes` or `no`.
pub open spec fn yes_no(b: bool) -> Seq<char> {
    if b {
        "yes"@
    } else {
        "no"@
    }
}

fn push_yes_no(out: &mut Vec<char>, b: bool)
    ensures
        final(out)@ == old(out)@ + yes_no(b),
{
    if b {
        push_str(out, "yes");
    } else {
        push_str(out, "no");
    }
}

/// Whether the revisions and timestamp of a status can be shortened.
pub open spec fn status_sliceable(s: GatewayStatus) -> bool {
    &&& rev_sliceable(s.update.current_rev@)
    &&& (s.update.upstream_rev matches Some(u) ==> rev_sliceable(u@))
    &&& (s.update.last_check_time matches Some(t) ==> timestamp_sliceable(t@))
}

/// The PID line value.
pub open spec fn pid_text(pid: Option<u32>) -> Seq<char> {
    match pid {
        Some(p) => decimal(p as nat),
        None => "n/a"@,
    }
}

/// The upstream revision shown.
pub open spec fn upstream_text(s: GatewayStatus) -> Seq<char> {
    match s.update.upstream_rev {
        Some(u) => short_rev_of(u@),
        None => "unknown"@,
    }
}

/// The last check shown.
pub open spec fn last_check_text(s: GatewayStatus) -> Seq<char> {
    match s.update.last_check_time {
        Some(t) => short_timestamp(t@),
        None => "never"@,
    }
}

/// The gateway status report.
pub open spec fn status_report(s: GatewayStatus) -> Seq<char> {
    "<b>Gateway status</b>\n<b>Agent running:</b> "@ + yes_no(s.agent.running)
        + "\n<b>PID:</b> <code>"@ + pid_text(s.agent.pid) + "</code>\n<b>Restart count:</b> "@
        + decimal(s.agent.restart_count as nat) + "\n<b>Current rev:</b> <code>"@ + escape_html(
        short_rev_of(s.update.current_rev@),
    ) + "</code>\n<b>Upstream rev:</b> <code>"@ + escape_html(upstream_text(s))
        + "</code>\n<b>Update available:</b> "@ + yes_no(s.update.update_available)
        + "\n<b>Last check:</b> "@ + escape_html(last_check_text(s))
        + "\n\n<code>/gateway restart</code>\n<code>/gateway update</code>"@
}

/// Render the gateway status report.
pub fn render_status(status: &GatewayStatus) -> (r: String)
    requires
        status_sliceable(*status),
    ensures
        r@ == status_report(*status),
{
    let mut out: Vec<char> = Vec::new();
    push_str(&mut out, "<b>Gateway status</b>\n<b>Agent running:</b> ");
    push_yes_no(&mut out, status.agent.running);
    push_str(&mut out, "\n<b>PID:</b> <code>");
    match status.agent.pid {
        Some(p) => push_decimal(&mut out, p as u128),
        None => push_str(&mut out, "n/a"),
    }
    push_str(&mut out, "</code>\n<b>Restart count:</b> ");
    push_decimal(&mut out, status.agent.restart_count as u128);
    push_str(&mut out, "\n<b>Current rev:</b> <code>");
    push_escaped_str(&mut out, short_rev(status.update.current_rev.as_str()).as_str());
    push_str(&mut out, "</code>\n<b>Upstream rev:</b> <code>");
    match &status.update.upstream_rev {
        Some(u) => push_escaped_str(&mut out, short_rev(u.as_str()).as_str()),
        None => push_escaped_str(&mut out, "unknown"),
    }
    push_str(&mut out, "</code>\n<b>Update available:</b> ");
    push_yes_no(&mut out, status.update.update_available);
    push_str(&mut out, "\n<b>Last check:</b> ");
    match &status.update.last_check_time {
        Some(t) => push_escaped_str(&mut out, format_timestamp(t.as_str()).as_str()),
        None => push_escaped_str(&mut out, "never"),
    }
    push_str(&mut out, "\n\n<code>/gateway restart</code>\n<code>/gateway update</code>");
    proof {
        assert(out@ =~= status_report(*status));
    }
    string_of(&out)
}

/// Whether the revisions of an outcome can be shortened.
pub open spec fn outcome_sliceable(o: GatewayCommandOutcome) -> bool {
    &&& (o.target_rev matches Some(t) ==> rev_sliceable(t@))
    &&& (o.active_rev matches Some(a) ==> rev_sliceable(a@))
}

/// The optional lines of an outcome: target and active revision, rollback.
pub open spec fn outcome_details(o: GatewayCommandOutcome) -> Seq<char> {
    (match o.target_rev {
        Some(t) => "<b>Target rev:</b> <code>"@ + escape_html(short_rev_of(t@)) + "</code>\n"@,
        None => seq![],
    }) + (match o.active_rev {
        Some(a) => "<b>Active rev:</b> <code>"@ + escape_html(short_rev_of(a@)) + "</code>\n"@,
        None => seq![],
    }) + (match o.rolled_back {
        Some(b) => "<b>Rolled back:</b> "@ + yes_no(b) + "\n"@,
        None => seq![],
    })
}

/// The report of a restart or update request.
pub open spec fn outcome_report(o: GatewayCommandOutcome) -> Seq<char> {
    "<b>Gateway "@ + escape_html(o.action@) + "</b>: "@ + (if o.ok {
        "accepted"@
    } else {
        "completed with issues"@
    }) + "\n<b>Status:</b> <code>"@ + escape_html(o.status@) + "</code>\n<b>Detail:</b> "@
        + escape_html(o.detail@) + "\n"@ + outcome_details(o)
        + "\nProgress details are also emitted through the configured gateway notification channel."@
}

/// Append an optional line: `label` (which opens a `<code>` element), a
/// short revision and the closing tag.
fn push_rev_line(out: &mut Vec<char>, label: &str, rev: &Option<String>)
    requires
        *rev matches Some(r) ==> rev_sliceable(r@),
    ensures
        final(out)@ == old(out)@ + match *rev {
            Some(r) => label@ + escape_html(short_rev_of(r@)) + "</code>\n"@,
            None => seq![],
        },
{
    let ghost start = out@;
    match rev {
        Some(r) => {
            push_str(out, label);
            push_escaped_str(out, short_rev(r.as_str()).as_str());
            push_str(out, "</code>\n");
            proof {
                assert(out@ =~= start + label@ + escape_html(short_rev_of(r@)) + "</code>\n"@);
            }
        },
        None => {
            proof {
                assert(out@ =~= start);
            }
        },
    }
}

/// Render the report of a restart or update request.
pub fn render_outcome(outcome: &GatewayCommandOutcome) -> (r: String)
    requires
        outcome_sliceable(*outcome),
    ensures
        r@ == outcome_report(*outcome),
{
    let mut out: Vec<char> = Vec::new();
    push_str(&mut out, "<b>Gateway ");
    push_escaped_str(&mut out, outcome.action.as_str());
    push_str(&mut out, "</b>: ");
    if outcome.ok {
        push_str(&mut out, "accepted");
    } else {
        push_str(&mut out, "completed with issues");
    }
    push_str(&mut out, "\n<b>Status:</b> <code>");
    push_escaped_str(&mut out, outcome.status.as_str());
    push_str(&mut out, "</code>\n<b>Detail:</b> ");
    push_escaped_str(&mut out, outcome.detail.as_str());
    push_str(&mut out, "\n");
    let ghost head = out@;
    push_rev_line(&mut out, "<b>Target rev:</b> <code>", &outcome.target_rev);
    push_rev_line(&mut out, "<b>Active rev:</b> <code>", &outcome.active_rev);
    let ghost revs = out@;
    match outcome.rolled_back {
        Some(b) => {
            push_str(&mut out, "<b>Rolled back:</b> ");
            push_yes_no(&mut out, b);
            push_str(&mut out, "\n");
        },
        None => {},
    }
    let ghost details = out@;
    push_str(
        &mut out,
        "\nProgress details are also emitted through the configured gateway notification channel.",
    );
    proof {
        let rb: Seq<char> = match outcome.rolled_back {
            Some(b) => "<b>Rolled back:</b> "@ + yes_no(b) + "\n"@,
            None => seq![],
        };
        assert(details =~= revs + rb);
        assert(details =~= head + outcome_details(*outcome));
        assert(out@ =~= outcome_report(*outcome));
    }
    string_of(&out)
}

/// Reply to `/gateway status` given the backend's answer.
pub fn status_reply(result: &Result<GatewayStatus, String>) -> (r: CommandReply)
    requires
        *result matches Ok(s) ==> status_sliceable(s),
    ensures
        match *result {
            Ok(s) => r matches CommandReply::Html(t) && t@ == status_report(s),
            Err(e) => r matches CommandReply::Text(t) && t@ == "Failed to fetch gateway status: "@ + e@,
        },
{
    match result {
        Ok(s) => CommandReply::Html(render_status(s)),
        Err(e) => {
            let mut out: Vec<char> = Vec::new();
            push_str(&mut out, "Failed to fetch gateway status: ");
            push_str(&mut out, e.as_str());
            CommandReply::Text(string_of(&out))
        },
    }
}

/// Reply to `/gateway restart` (`update == false`) or `/gateway update`
/// given the backend's answer.
pub fn outcome_reply(update: bool, result: &Result<GatewayCommandOutcome, String>) -> (r: CommandReply)
    requires
        *result matches Ok(o) ==> outcome_sliceable(o),
    ensures
        match *result {
            Ok(o) => r matches CommandReply::Html(t) && t@ == outcome_report(o),
            Err(e) => r matches CommandReply::Text(t) && t@ == (if update {
                "Failed to request update: "@
            } else {
                "Failed to request restart: "@
            }) + e@,
        },
{
    match result {
        Ok(o) => CommandReply::Html(render_outcome(o)),
        Err(e) => {
            let mut out: Vec<char> = Vec::new();
            if update {
                push_str(&mut out, "Failed to request update: ");
            } else {
                push_str(&mut out, "Failed to request restart: ");
            }
            push_str(&mut out, e.as_str());
            CommandReply::Text(string_of(&out))
        },
    }
}

} // verus!
