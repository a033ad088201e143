//! Properties of issuance that hold across all tiers, payments and ledgers.
use vstd::prelude::*;
use crate::ledger::{issue_relation, IssueError, Issued, LedgerView, Rejected};
use crate::tier::{has_tier, price_of, standard_rows};

verus! {

/// Paying exactly a tier's price succeeds: the vault grows by that price and
/// no change comes back (where the vault can hold the new balance and an
/// identifier is left to mint under).
pub proof fn lemma_exact_payment_succeeds(
    pre: LedgerView,
    tier: Seq<char>,
    paid: int,
    nonce: u64,
    now: i64,
    post: LedgerView,
    r: Result<Issued, Rejected>,
)
    requires
        has_tier(pre.tiers, tier),
        paid == price_of(pre.tiers, tier).value(),
        pre.vault + price_of(pre.tiers, tier).value() <= u128::MAX,
        pre.authority.next_id <= u64::MAX,
        issue_relation(pre, paid, tier, nonce, now, post, r),
    ensures
        match r {
            Ok(issued) => post.vault == pre.vault + paid && issued.change@ == 0,
            Err(_) => false,
        },
{
}

/// Overpaying a tier's price by `k` succeeds, the vault grows by the price
/// alone and exactly `k` comes back (where the vault can hold the new balance
/// and an identifier is left to mint under).
pub proof fn lemma_overpayment_returns_excess(
    pre: LedgerView,
    tier: Seq<char>,
    k: int,
    nonce: u64,
    now: i64,
    post: LedgerView,
    r: Result<Issued, Rejected>,
)
    requires
        has_tier(pre.tiers, tier),
        k > 0,
        pre.vault + price_of(pre.tiers, tier).value() <= u128::MAX,
        pre.authority.next_id <= u64::MAX,
        issue_relation(pre, price_of(pre.tiers, tier).value() + k, tier, nonce, now, post, r),
    ensures
        match r {
            Ok(issued) => post.vault == pre.vault + price_of(pre.tiers, tier).value()
                && issued.change@ == k,
            Err(_) => false,
        },
{
}

/// Paying less than a tier's price fails with `InsufficientPayment` and
/// leaves the vault as it was.
pub proof fn lemma_underpayment_rejected(
    pre: LedgerView,
    tier: Seq<char>,
    paid: int,
    nonce: u64,
    now: i64,
    post: LedgerView,
    r: Result<Issued, Rejected>,
)
    requires
        has_tier(pre.tiers, tier),
        paid < price_of(pre.tiers, tier).value(),
        issue_relation(pre, paid, tier, nonce, now, post, r),
    ensures
        match r {
            Ok(_) => false,
            Err(rejected) => rejected.error == IssueError::InsufficientPayment
                && post.vault == pre.vault,
        },
{
}

/// On the standard tier table, any name other than "common", "rare" and
/// "epic" fails with `InvalidTier` whatever the payment, and leaves the vault
/// as it was.
pub proof fn lemma_unknown_tier_rejected(
    pre: LedgerView,
    tier: Seq<char>,
    paid: int,
    nonce: u64,
    now: i64,
    post: LedgerView,
    r: Result<Issued, Rejected>,
)
    requires
        pre.tiers == standard_rows(),
        tier != "common"@,
        tier != "rare"@,
        tier != "epic"@,
        issue_relation(pre, paid, tier, nonce, now, post, r),
    ensures
        match r {
            Ok(_) => false,
            Err(rejected) => rejected.error == IssueError::InvalidTier && post.vault == pre.vault,
        },
{
    assert(!has_tier(pre.tiers, tier)) by {
        if has_tier(pre.tiers, tier) {
            let i = choose|i: int| 0 <= i < pre.tiers.len() && #[trigger] pre.tiers[i].0 == tier;
            assert(i == 0 || i == 1 || i == 2);
        }
    }
}

/// Two issuances in a row with the same tier and nonce both carry that tier
/// and nonce, under distinct identifiers: a repeated nonce is neither refused
/// nor merged.
pub proof fn lemma_repeated_nonce_distinct_badges(
    l0: LedgerView,
    tier: Seq<char>,
    nonce: u64,
    paid1: int,
    now1: i64,
    l1: LedgerView,
    r1: Result<Issued, Rejected>,
    paid2: int,
    now2: i64,
    l2: LedgerView,
    r2: Result<Issued, Rejected>,
)
    requires
        issue_relation(l0, paid1, tier, nonce, now1, l1, r1),
        issue_relation(l1, paid2, tier, nonce, now2, l2, r2),
        r1 is Ok,
        r2 is Ok,
    ensures
        match (r1, r2) {
            (Ok(a), Ok(b)) => a.badge.id != b.badge.id
                && a.badge.data.tier@ == tier && b.badge.data.tier@ == tier
                && a.badge.data.nonce == nonce && b.badge.data.nonce == nonce,
            _ => false,
        },
{
}

} // verus!
