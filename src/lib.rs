//! State-transition logic of a permissioned, account-based ledger: account
//! registration, authenticated transfers, data attachment and a term-indexed
//! cumulative distribution scheme for lazily accrued rewards.
pub mod hashing;
pub mod laws;
pub mod ledger;
pub mod types;

pub use hashing::account_id_of;
pub use ledger::{Ledger, LedgerView, INITIAL_GRANT};
pub use types::{
    Account, AccountId, Balance, Event, LedgerError, SignedData, Tx, TxCreateAccount, TxMint, TxNextTerm,
    TxSend, TermNumber, TxVote, TxWrite, Verdict,
};
