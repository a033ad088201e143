//! A tier-priced badge issuance ledger.
//!
//! A caller hands the ledger a payment and a tier name; the ledger captures
//! exactly the tier's price into its vault and has its token authority mint a
//! badge stamped with the tier, the issuance minute and the caller's nonce.
//! Each issuance either happens in full or leaves the ledger untouched.
pub mod amount;
pub mod tier;
pub mod payment;
pub mod token;
pub mod ledger;
pub mod laws;
pub mod badge_contract;
