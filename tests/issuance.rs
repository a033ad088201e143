use gachafi::amount::{Amount, ATTOS_PER_UNIT};
use gachafi::badge_contract::{BadgeContract, INITIAL_BADGE_SUPPLY};
use gachafi::ledger::{truncate_to_minute, GachaFi, IssueError};
use gachafi::payment::{PaymentBundle, Vault};
use gachafi::tier::{QuoteError, TierTable};
use gachafi::token::{AccessRule, GachaFiBadgeData, TokenAuthority};

fn units(n: u64) -> PaymentBundle {
    PaymentBundle::new(Amount::whole(n))
}

#[test]
fn fresh_ledger_scenario() {
    let mut ledger = GachaFi::instantiate();
    let first = ledger.mint_gacha_badge(units(8), "common".to_string(), 1, 600).unwrap();
    assert_eq!(ledger.vault_balance(), Amount::whole(8));
    assert_eq!(first.badge.data.tier, "common");
    assert_eq!(first.badge.data.nonce, 1);
    assert_eq!(first.change.amount(), Amount::zero());

    let second = ledger.mint_gacha_badge(units(25), "epic".to_string(), 1, 660).unwrap();
    assert_eq!(ledger.vault_balance(), Amount::whole(33));
    assert_eq!(second.badge.data.tier, "epic");
    assert_eq!(second.badge.data.nonce, 1);
    assert_ne!(first.badge.id, second.badge.id);
    assert_eq!(second.change.amount(), Amount::zero());

    let third = ledger.mint_gacha_badge(units(5), "common".to_string(), 2, 720).unwrap_err();
    assert_eq!(third.error, IssueError::InsufficientPayment);
    assert_eq!(third.payment.amount(), Amount::whole(5));
    assert_eq!(ledger.vault_balance(), Amount::whole(33));
}

#[test]
fn exact_payment_each_tier() {
    for (name, price) in [("common", 8u64), ("rare", 15), ("epic", 25)] {
        let mut ledger = GachaFi::instantiate();
        let issued = ledger.mint_gacha_badge(units(price), name.to_string(), 7, 0).unwrap();
        assert_eq!(ledger.vault_balance(), Amount::whole(price));
        assert_eq!(issued.change.amount(), Amount::zero());
        assert_eq!(issued.badge.data.tier, name);
    }
}

#[test]
fn overpayment_returns_excess() {
    let mut ledger = GachaFi::instantiate();
    let issued = ledger.mint_gacha_badge(units(20), "rare".to_string(), 3, 0).unwrap();
    assert_eq!(ledger.vault_balance(), Amount::whole(15));
    assert_eq!(issued.change.amount(), Amount::whole(5));

    let one_atto_over = PaymentBundle::new(Amount::from_attos(25 * ATTOS_PER_UNIT + 1));
    let issued = ledger.mint_gacha_badge(one_atto_over, "epic".to_string(), 3, 0).unwrap();
    assert_eq!(ledger.vault_balance(), Amount::whole(40));
    assert_eq!(issued.change.amount(), Amount::from_attos(1));
}

#[test]
fn underpayment_rejected() {
    let mut ledger = GachaFi::instantiate();
    let just_short = PaymentBundle::new(Amount::from_attos(15 * ATTOS_PER_UNIT - 1));
    let rejected = ledger.mint_gacha_badge(just_short, "rare".to_string(), 1, 0).unwrap_err();
    assert_eq!(rejected.error, IssueError::InsufficientPayment);
    assert_eq!(rejected.payment.amount(), Amount::from_attos(15 * ATTOS_PER_UNIT - 1));
    assert_eq!(ledger.vault_balance(), Amount::zero());

    let rejected = ledger.mint_gacha_badge(units(24), "epic".to_string(), 1, 0).unwrap_err();
    assert_eq!(rejected.error, IssueError::InsufficientPayment);
    assert_eq!(ledger.vault_balance(), Amount::zero());
}

#[test]
fn unknown_tier_rejected() {
    let mut ledger = GachaFi::instantiate();
    for name in ["legendary", "Common", "", "common "] {
        let rejected = ledger.mint_gacha_badge(units(1000), name.to_string(), 1, 0).unwrap_err();
        assert_eq!(rejected.error, IssueError::InvalidTier);
        assert_eq!(rejected.payment.amount(), Amount::whole(1000));
        assert_eq!(ledger.vault_balance(), Amount::zero());
    }
    let rejected = ledger.mint_gacha_badge(units(0), "mythic".to_string(), 1, 0).unwrap_err();
    assert_eq!(rejected.error, IssueError::InvalidTier);
}

#[test]
fn repeated_nonce_gives_distinct_badges() {
    let mut ledger = GachaFi::instantiate();
    let a = ledger.mint_gacha_badge(units(8), "common".to_string(), 42, 0).unwrap();
    let b = ledger.mint_gacha_badge(units(8), "common".to_string(), 42, 0).unwrap();
    assert_ne!(a.badge.id, b.badge.id);
    assert_eq!(a.badge.data.tier, b.badge.data.tier);
    assert_eq!(a.badge.data.nonce, 42);
    assert_eq!(b.badge.data.nonce, 42);
    assert_eq!(ledger.vault_balance(), Amount::whole(16));
}

#[test]
fn badge_stamped_with_minute() {
    let mut ledger = GachaFi::instantiate();
    let issued = ledger.mint_gacha_badge(units(8), "common".to_string(), 1, 1_700_000_059).unwrap();
    assert_eq!(issued.badge.data.issued_at, 1_700_000_040);
}

#[test]
fn truncation_to_minute() {
    assert_eq!(truncate_to_minute(0), 0);
    assert_eq!(truncate_to_minute(59), 0);
    assert_eq!(truncate_to_minute(60), 60);
    assert_eq!(truncate_to_minute(125), 120);
    assert_eq!(truncate_to_minute(-1), -60);
    assert_eq!(truncate_to_minute(-60), -60);
    assert_eq!(truncate_to_minute(-61), -120);
    assert_eq!(truncate_to_minute(i64::MAX), i64::MAX - 7);
}

#[test]
fn standard_tier_table() {
    let table = TierTable::standard();
    assert_eq!(table.len(), 3);
    assert_eq!(table.quote(&"common".to_string(), &Amount::whole(8)), Ok(Amount::whole(8)));
    assert_eq!(table.quote(&"rare".to_string(), &Amount::whole(100)), Ok(Amount::whole(15)));
    assert_eq!(table.quote(&"epic".to_string(), &Amount::whole(25)), Ok(Amount::whole(25)));
    assert_eq!(table.quote(&"epic".to_string(), &Amount::whole(24)), Err(QuoteError::InsufficientPayment));
    assert_eq!(table.quote(&"EPIC".to_string(), &Amount::whole(25)), Err(QuoteError::InvalidTier));
}

#[test]
fn ledger_quote_changes_nothing() {
    let ledger = GachaFi::instantiate();
    assert_eq!(ledger.quote(&"rare".to_string(), &Amount::whole(15)), Ok(Amount::whole(15)));
    assert_eq!(ledger.vault_balance(), Amount::zero());
    assert_eq!(ledger.tiers().len(), 3);
}

#[test]
fn authority_policies_locked_open() {
    let ledger = GachaFi::instantiate();
    let authority = ledger.authority();
    assert_eq!(authority.mint_policy().rule, AccessRule::AllowAll);
    assert_eq!(authority.mint_policy().updater, AccessRule::DenyAll);
    assert_eq!(authority.burn_policy().rule, AccessRule::AllowAll);
    assert_eq!(authority.burn_policy().updater, AccessRule::DenyAll);
    assert!(authority.can_mint());
}

#[test]
fn burned_identifier_not_reused() {
    let mut authority = TokenAuthority::new_badge_class();
    let data = GachaFiBadgeData { tier: "rare".to_string(), issued_at: 60, nonce: 9 };
    let first = authority.mint(data.clone()).unwrap();
    let first_id = first.id;
    authority.burn(first);
    let second = authority.mint(data).unwrap();
    assert_ne!(first_id, second.id);
    assert_eq!(second.data.nonce, 9);
}

#[test]
fn amount_arithmetic() {
    assert_eq!(Amount::whole(1).attos, ATTOS_PER_UNIT);
    assert!(Amount::whole(8).covers(&Amount::whole(8)));
    assert!(!Amount::whole(7).covers(&Amount::whole(8)));
    assert_eq!(Amount::whole(3).checked_add(&Amount::whole(4)), Some(Amount::whole(7)));
    assert_eq!(Amount::from_attos(u128::MAX).checked_add(&Amount::from_attos(1)), None);
    assert_eq!(Amount::whole(9).checked_sub(&Amount::whole(4)), Some(Amount::whole(5)));
    assert_eq!(Amount::whole(4).checked_sub(&Amount::whole(9)), None);
}

#[test]
fn payment_take_and_join() {
    let mut bundle = units(10);
    let part = bundle.take(&Amount::whole(4)).unwrap();
    assert_eq!(part.amount(), Amount::whole(4));
    assert_eq!(bundle.amount(), Amount::whole(6));
    assert!(bundle.take(&Amount::whole(7)).is_none());
    assert_eq!(bundle.amount(), Amount::whole(6));
    assert!(bundle.join(part).is_ok());
    assert_eq!(bundle.amount(), Amount::whole(10));
}

#[test]
fn vault_refuses_overflow() {
    let mut vault = Vault::new();
    assert!(vault.put(PaymentBundle::new(Amount::from_attos(u128::MAX))).is_ok());
    let back = vault.put(PaymentBundle::new(Amount::from_attos(1))).unwrap_err();
    assert_eq!(back.amount(), Amount::from_attos(1));
    assert_eq!(vault.amount(), Amount::from_attos(u128::MAX));
}

#[test]
fn dispenser_hands_out_supply() {
    let mut contract = BadgeContract::new();
    assert_eq!(contract.remaining(), INITIAL_BADGE_SUPPLY);
    for _ in 0..INITIAL_BADGE_SUPPLY {
        assert_eq!(contract.get_badge(), Some(1));
    }
    assert_eq!(contract.remaining(), 0);
    assert_eq!(contract.get_badge(), None);
}
