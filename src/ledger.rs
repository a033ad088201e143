use vstd::prelude::*;
use crate::amount::Amount;
use crate::payment::{PaymentBundle, Vault};
use crate::tier::{has_tier, price_of, quote_spec, standard_rows, QuoteError, TierTable};
use crate::token::{AuthorityView, Badge, GachaFiBadgeData, TokenAuthority};

verus! {

/// Why an issuance was refused. Every refusal leaves the ledger as it was and
/// hands the whole payment back.
#[derive(Clone, Copy, Debug, PartialEq, Eq, Structural)]
pub enum IssueError {
    /// The tier name is not in the tier table.
    InvalidTier,
    /// The payment is below the tier's price.
    InsufficientPayment,
    /// The vault cannot hold its balance plus the price.
    VaultFull,
    /// The token authority could not mint.
    MintFailed,
}

/// A successful issuance: the new badge and the part of the payment that was
/// not spent.
#[derive(Debug)]
pub struct Issued {
    pub badge: Badge,
    pub change: PaymentBundle,
}

/// A refused issuance: the reason and the untouched payment.
#[derive(Debug)]
pub struct Rejected {
    pub error: IssueError,
    pub payment: PaymentBundle,
}

/// The issuance ledger: the tier table, the vault of collected payment and
/// the token authority that mints badges on the ledger's behalf.
#[derive(Debug)]
pub struct GachaFi {
    tiers: TierTable,
    vault: Vault,
    authority: TokenAuthority,
}

/// What a reader of the ledger can observe.
pub struct LedgerView {
    pub tiers: Seq<(Seq<char>, Amount)>,
    pub vault: int,
    pub authority: AuthorityView,
}

/// Seconds since the epoch, rounded down to a whole minute.
pub open spec fn minute_floor(t: int) -> int {
    t - t % 60
}

/// The refusal owed to a payment of `paid` towards tier `tier` on a ledger in
/// state `pre`, or `None` where the issuance goes through.
pub open spec fn issue_error(pre: LedgerView, paid: int, tier: Seq<char>) -> Option<IssueError> {
    match quote_spec(pre.tiers, tier, paid) {
        Err(QuoteError::InvalidTier) => Some(IssueError::InvalidTier),
        Err(QuoteError::InsufficientPayment) => Some(IssueError::InsufficientPayment),
        Ok(price) => if pre.vault + price.value() > u128::MAX {
            Some(IssueError::VaultFull)
        } else if pre.authority.next_id > u64::MAX {
            Some(IssueError::MintFailed)
        } else {
            None
        },
    }
}

/// The state after a successful issuance of tier `tier` from state `pre`: the
/// vault gains the tier's price and the authority has used one identifier.
pub open spec fn issued_state(pre: LedgerView, tier: Seq<char>) -> LedgerView {
    LedgerView {
        tiers: pre.tiers,
        vault: pre.vault + price_of(pre.tiers, tier).value(),
        authority: AuthorityView { next_id: pre.authority.next_id + 1, ..pre.authority },
    }
}

/// How one call of `mint_gacha_badge` relates the ledger before (`pre`) and
/// after (`post`), the payment's amount, the tier, nonce and clock reading
/// handed in, and the result: a success exactly where `issue_error` owes
/// none, with the price captured, the badge stamped and the change returned;
/// otherwise the refusal `issue_error` names, with nothing changed.
pub open spec fn issue_relation(
    pre: LedgerView,
    paid: int,
    tier: Seq<char>,
    nonce: u64,
    now: i64,
    post: LedgerView,
    r: Result<Issued, Rejected>,
) -> bool {
    match r {
        Ok(issued) => {
            &&& issue_error(pre, paid, tier) == None::<IssueError>
            &&& post == issued_state(pre, tier)
            &&& issued.change@ == paid - price_of(pre.tiers, tier).value()
            &&& issued.badge.id == pre.authority.next_id
            &&& issued.badge.data.tier@ == tier
            &&& issued.badge.data.nonce == nonce
            &&& issued.badge.data.issued_at == minute_floor(now as int)
        },
        Err(rejected) => {
            &&& issue_error(pre, paid, tier) == Some(rejected.error)
            &&& post == pre
            &&& rejected.payment@ == paid
        },
    }
}

/// Rounds `t` (seconds since the epoch) down to a whole minute.
pub fn truncate_to_minute(t: i64) -> (r: i64)
    requires
        t >= i64::MIN + 60,
    ensures
        r == minute_floor(t as int),
{
    if t >= 0 {
        let rem = (t as u64) % 60;
        (t - rem as i64)
    } else {
        let a: u64 = (-(t + 1)) as u64;
        let rem = a % 60;
        proof {
            let q = (a as int) / 60;
            assert(a as int == 60 * q + rem as int) by (nonlinear_arith)
                requires q == (a as int) / 60, rem as int == (a as int) % 60;
            assert(t as int == 60 * (-q - 1) + (59 - rem as int));
            assert((t as int) % 60 == 59 - rem as int) by (nonlinear_arith)
                requires t as int == 60 * (-q - 1) + (59 - rem as int), 0 <= rem < 60;
        }
        t + rem as i64 + 1 - 60
    }
}

impl View for GachaFi {
    type V = LedgerView;

    closed spec fn view(&self) -> LedgerView {
        LedgerView { tiers: self.tiers@, vault: self.vault@, authority: self.authority@ }
    }
}

impl GachaFi {
    /// The ledger's invariant: unique tier names and the badge class's fixed
    /// policies.
    pub closed spec fn wf(&self) -> bool {
        self.tiers.wf() && self.authority.wf()
    }

    /// A fresh ledger: the standard tier table, an empty vault and a new
    /// badge class with open, locked mint and burn policies.
    pub fn instantiate() -> (l: GachaFi)
        ensures
            l.wf(),
            l@.tiers == standard_rows(),
            l@.vault == 0,
            l@.authority.next_id == 0,
            l@.authority.name == "GachaFi Badge"@,
            l@.authority.symbol == "GFB"@,
            l@.authority.mint_policy == crate::token::open_locked(),
            l@.authority.burn_policy == crate::token::open_locked(),
    {
        GachaFi {
            tiers: TierTable::standard(),
            vault: Vault::new(),
            authority: TokenAuthority::new_badge_class(),
        }
    }

    /// The price of tier `tier` where `offered` covers it, else why not;
    /// changes nothing.
    pub fn quote(&self, tier: &String, offered: &Amount) -> (r: Result<Amount, QuoteError>)
        requires
            self.wf(),
        ensures
            r == quote_spec(self@.tiers, tier@, offered.value()),
    {
        self.tiers.quote(tier, offered)
    }

    /// The vault's balance.
    pub fn vault_balance(&self) -> (r: Amount)
        ensures
            r.value() == self@.vault,
    {
        self.vault.amount()
    }

    /// The tier table.
    pub fn tiers(&self) -> (t: &TierTable)
        requires
            self.wf(),
        ensures
            t@ == self@.tiers,
            t.wf(),
    {
        &self.tiers
    }

    /// The token authority.
    pub fn authority(&self) -> (a: &TokenAuthority)
        requires
            self.wf(),
        ensures
            a@ == self@.authority,
            a.wf(),
    {
        &self.authority
    }

    /// Issues a badge of tier `tier` against `payment`. On success exactly the
    /// tier's price moves into the vault, a badge stamped with the tier, the
    /// minute of `now` and `nonce` is minted, and both the badge and the rest
    /// of the payment come back. On refusal nothing changes and the payment
    /// comes back whole.
    pub fn mint_gacha_badge(&mut self, payment: PaymentBundle, tier: String, nonce: u64, now: i64) -> (r: Result<Issued, Rejected>)
        requires
            old(self).wf(),
            now >= i64::MIN + 60,
        ensures
            final(self).wf(),
            issue_relation(old(self)@, payment@, tier@, nonce, now, final(self)@, r),
    {
        let mut payment = payment;
        let paid = payment.amount();
        proof {
            self.vault.lemma_bounds();
        }
        let price = match self.tiers.quote(&tier, &paid) {
            Ok(p) => p,
            Err(QuoteError::InvalidTier) => {
                return Err(Rejected { error: IssueError::InvalidTier, payment });
            },
            Err(QuoteError::InsufficientPayment) => {
                return Err(Rejected { error: IssueError::InsufficientPayment, payment });
            },
        };
        let captured = match payment.take(&price) {
            Some(c) => c,
            None => {
                return Err(Rejected { error: IssueError::InsufficientPayment, payment });
            },
        };
        match self.vault.put(captured) {
            Ok(()) => {
                proof {
                    self.vault.lemma_bounds();
                }
            },
            Err(back) => {
                let _ = payment.join(back);
                return Err(Rejected { error: IssueError::VaultFull, payment });
            },
        }
        let data = GachaFiBadgeData { tier, issued_at: truncate_to_minute(now), nonce };
        match self.authority.mint(data) {
            Ok(badge) => Ok(Issued { badge, change: payment }),
            Err(_) => {
                let refund = self.vault.take(&price);
                let _ = payment.join(refund);
                Err(Rejected { error: IssueError::MintFailed, payment })
            },
        }
    }
}

} // verus!
