//! Poetic loading hints shown in the progress message while the model
//! thinks.

use rand::Rng;
use vstd::prelude::*;

verus! {

/// Number of loading hints.
pub const HINT_COUNT: usize = 8;

/// Loading hint `i`.
pub open spec fn hint_text(i: nat) -> Seq<char> {
    if i == 0 {
        "稍候片刻，日出文自明。"@
    } else if i == 1 {
        "风过空庭，字句正徐来。"@
    } else if i == 2 {
        "纸白微明，未成篇章。"@
    } else if i == 3 {
        "夜退星沉，此页初醒。"@
    } else if i == 4 {
        "墨痕未定，片语已生香。"@
    } else if i == 5 {
        "云开一隙，文章将至。"@
    } else if i == 6 {
        "万籁俱寂，万字将成。"@
    } else {
        "且听风定，再看句成。"@
    }
}

/// Loading hint `i`.
pub fn hint(i: usize) -> (r: &'static str)
    requires
        i < HINT_COUNT,
    ensures
        r@ == hint_text(i as nat),
{
    if i == 0 {
        "稍候片刻，日出文自明。"
    } else if i == 1 {
        "风过空庭，字句正徐来。"
    } else if i == 2 {
        "纸白微明，未成篇章。"
    } else if i == 3 {
        "夜退星沉，此页初醒。"
    } else if i == 4 {
        "墨痕未定，片语已生香。"
    } else if i == 5 {
        "云开一隙，文章将至。"
    } else if i == 6 {
        "万籁俱寂，万字将成。"
    } else {
        "且听风定，再看句成。"
    }
}

/// `rand::rng().random_range(0..n)`: the contract claims only that the
/// index lies in the range; `n` must be positive (an empty range panics).
#[verifier::external_body]
fn random_index(n: usize) -> (r: usize)
    requires
        n > 0,
    ensures
        r < n,
{
    rand::rng().random_range(0..n)
}

/// A randomly chosen loading hint.
pub fn random_hint() -> (r: &'static str)
    ensures
        exists|i: nat| i < HINT_COUNT && r@ == hint_text(i),
{
    let i = random_index(HINT_COUNT);
    let r = hint(i);
    proof {
        assert(i < HINT_COUNT && r@ == hint_text(i as nat));
    }
    r
}

} // verus!
