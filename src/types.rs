use vstd::prelude::*;

verus! {

/// Amount of currency; signed, so that a shortfall shows up as a negative value.
pub type Balance = i64;

/// Global epoch counter.
pub type TermNumber = u64;

/// Content-derived account identifier: the BLAKE2b-256 digest of the account's certificate.
#[derive(Clone, Copy, Debug, PartialEq, Eq)]
pub struct AccountId {
    pub bytes: [u8; 32],
}

impl View for AccountId {
    type V = Seq<u8>;

    open spec fn view(&self) -> Seq<u8> {
        self.bytes@
    }
}

impl AccountId {
    /// Byte-wise comparison of two identifiers.
    pub fn same_as(&self, other: &AccountId) -> (r: bool)
        ensures
            r == (self@ == other@),
    {
        let mut k: usize = 0;
        while k < 32
            invariant
                0 <= k <= 32,
                self@.len() == 32,
                other@.len() == 32,
                forall|j: int| 0 <= j < k ==> self@[j] == other@[j],
            decreases 32 - k,
        {
            if self.bytes[k] != other.bytes[k] {
                return false;
            }
            k = k + 1;
        }
        assert(self@ =~= other@);
        true
    }
}

/// A registered account.
#[derive(Clone, Debug)]
pub struct Account {
    pub id: AccountId,
    /// Certificate supplied at creation; carries the public key that authenticates the account.
    pub cert: Vec<u8>,
    /// Counts the state-changing transactions the account has originated.
    pub nonce: u64,
    /// Opaque payload, overwritten by each write.
    pub data: Vec<u8>,
    /// Term in effect when the account was created: the baseline of its accrual.
    pub created_at: TermNumber,
}

/// What a successful transaction reports.
#[derive(Clone, Copy, Debug, PartialEq, Eq)]
pub enum Event {
    AccountCreated(AccountId),
    Transferred(AccountId, AccountId, Balance),
    DataWritten(AccountId),
    TermAdvanced(TermNumber),
}

/// Why a transaction was rejected.
#[derive(Clone, Copy, Debug, PartialEq, Eq)]
pub enum LedgerError {
    AccountNotFound,
    AccountAlreadyExists,
    MalformedCertificate,
    InvalidSignature,
    InsufficientBalance,
    ArithmeticError,
    FeatureDisabled,
    InvalidPayload,
}

/// Outcome of the cryptographic checks on a transaction: the certificate's
/// self-consistency, the extraction of its public key and the signature check.
/// The checks themselves are performed by the caller, against the certificate
/// that the ledger holds for the sender (or, at creation, the certificate in the payload).
/// `InconsistentCertificate` is the failed self-consistency check of a creation payload.
#[derive(Clone, Copy, Debug, PartialEq, Eq)]
pub enum Verdict {
    Valid,
    InconsistentCertificate,
    MalformedCertificate,
    InvalidSignature,
}

/// The error, if any, that a verdict stands for.
pub open spec fn verdict_error(v: Verdict) -> Option<LedgerError> {
    match v {
        Verdict::Valid => None,
        Verdict::InconsistentCertificate => Some(LedgerError::InvalidPayload),
        Verdict::MalformedCertificate => Some(LedgerError::MalformedCertificate),
        Verdict::InvalidSignature => Some(LedgerError::InvalidSignature),
    }
}

pub fn check_verdict(v: Verdict) -> (r: Result<(), LedgerError>)
    ensures
        match verdict_error(v) {
            None => r is Ok,
            Some(e) => r == Err::<(), LedgerError>(e),
        },
{
    match v {
        Verdict::Valid => Ok(()),
        Verdict::InconsistentCertificate => Err(LedgerError::InvalidPayload),
        Verdict::MalformedCertificate => Err(LedgerError::MalformedCertificate),
        Verdict::InvalidSignature => Err(LedgerError::InvalidSignature),
    }
}

pub struct TxCreateAccount {
    pub cert: Vec<u8>,
    pub nonce: u64,
}

pub struct TxSend {
    pub to: AccountId,
    pub amount: Balance,
}

pub struct TxMint {
    pub amount: Balance,
}

pub struct TxVote {
    pub amount: Balance,
}

pub struct TxWrite {
    pub data: Vec<u8>,
}

pub struct TxNextTerm {}

/// The to-be-signed payload of a transaction, one variant per kind.
pub enum Tx {
    CreateAccount(TxCreateAccount),
    Send(TxSend),
    Mint(TxMint),
    Vote(TxVote),
    Write(TxWrite),
    NextTerm(TxNextTerm),
}

/// A signed transaction envelope.
pub struct SignedData {
    /// Identifier the sender claims; trusted only once the signature checks out.
    pub id: AccountId,
    pub tbs: Tx,
    pub signature: Vec<u8>,
}

} // verus!
