use crate::hashing::{account_id_of, blake2_256_of};
use crate::types::{
    check_verdict, verdict_error, Account, AccountId, Balance, Event, LedgerError, SignedData, Tx,
    TermNumber, TxCreateAccount, TxMint, TxNextTerm, TxSend, TxVote, TxWrite, Verdict,
};
use vstd::prelude::*;

verus! {

/// Raw balance granted to every new account.
pub const INITIAL_GRANT: Balance = 1000000;

/// The ledger's state, as plain sequences.
pub struct LedgerView {
    /// Accounts in order of creation; an account's position is its ordinal.
    pub accounts: Seq<Account>,
    /// Raw balance of the account at the same position.
    pub balances: Seq<Balance>,
    pub term: TermNumber,
    /// Cumulative distribution total of each term from 0 up to `term`.
    pub votes: Seq<Balance>,
    /// Events emitted so far, oldest first.
    pub events: Seq<Event>,
}

impl LedgerView {
    pub open spec fn contains(self, id: Seq<u8>) -> bool {
        exists|i: int| 0 <= i < self.accounts.len() && self.accounts[i].id@ == id
    }

    /// Ordinal of the account with identifier `id` (meaningful when it exists).
    pub open spec fn index_of(self, id: Seq<u8>) -> int {
        choose|i: int| 0 <= i < self.accounts.len() && self.accounts[i].id@ == id
    }

    /// Cumulative total at term `t`; zero for a term not reached yet.
    pub open spec fn votes_at(self, t: int) -> int {
        if 0 <= t < self.votes.len() {
            self.votes[t] as int
        } else {
            0
        }
    }

    /// Distribution accrued by the account at ordinal `i` since its creation.
    pub open spec fn accrued(self, i: int) -> int {
        self.votes_at(self.term as int) - self.votes_at(self.accounts[i].created_at as int)
    }

    /// Raw balance plus accrued distribution, as an unbounded integer.
    pub open spec fn effective(self, id: Seq<u8>) -> int {
        self.balances[self.index_of(id)] + self.accrued(self.index_of(id))
    }

    pub open spec fn account_of(self, id: Seq<u8>) -> Account {
        self.accounts[self.index_of(id)]
    }

    pub open spec fn wf(self) -> bool {
        &&& self.balances.len() == self.accounts.len()
        &&& self.votes.len() == self.term + 1
        &&& self.votes[0] == 0
        &&& forall|s: int, t: int| 0 <= s <= t < self.votes.len() ==> self.votes[s] <= self.votes[t]
        &&& forall|i: int| 0 <= i < self.accounts.len() ==> self.accounts[i].created_at <= self.term
        &&& forall|i: int, j: int|
            0 <= i < j < self.accounts.len() ==> self.accounts[i].id@ != self.accounts[j].id@
    }

    /// Whether `effective(id)` is a value of `Balance`.
    pub open spec fn effective_fits(self, id: Seq<u8>) -> bool {
        i64::MIN <= self.effective(id) <= i64::MAX
    }

    /// The error with which a transfer of `amount` from `from` to `to` fails, if any.
    pub open spec fn transfer_error(self, from: Seq<u8>, to: Seq<u8>, amount: Balance) -> Option<
        LedgerError,
    > {
        let fi = self.index_of(from);
        let ti = self.index_of(to);
        if !self.contains(from) || !self.contains(to) {
            Some(LedgerError::AccountNotFound)
        } else if !self.effective_fits(from) || !(i64::MIN <= self.effective(from) - amount
            <= i64::MAX) {
            Some(LedgerError::ArithmeticError)
        } else if self.effective(from) - amount < 0 {
            Some(LedgerError::InsufficientBalance)
        } else if !self.effective_fits(to) || !(self.effective(to) + amount <= i64::MAX) || !(
        i64::MIN <= self.effective(to) + amount) {
            Some(LedgerError::ArithmeticError)
        } else if fi != ti && (!(i64::MIN <= self.balances[fi] - amount <= i64::MAX) || !(
        i64::MIN <= self.balances[ti] + amount <= i64::MAX)) {
            Some(LedgerError::ArithmeticError)
        } else {
            None
        }
    }

    /// The state after a transfer that passed its checks: the raw balances move,
    /// nothing else but the event log changes.
    pub open spec fn transferred(self, from: AccountId, to: AccountId, amount: Balance) -> LedgerView {
        let fi = self.index_of(from@);
        let ti = self.index_of(to@);
        LedgerView {
            balances: if fi == ti {
                self.balances
            } else {
                self.balances.update(fi, (self.balances[fi] - amount) as Balance).update(
                    ti,
                    (self.balances[ti] + amount) as Balance,
                )
            },
            events: self.events.push(Event::Transferred(from, to, amount)),
            ..self
        }
    }

    /// The error with which authentication of `id` fails, given the cryptographic verdict.
    pub open spec fn auth_error(self, id: Seq<u8>, check: Verdict) -> Option<LedgerError> {
        if !self.contains(id) {
            Some(LedgerError::AccountNotFound)
        } else {
            verdict_error(check)
        }
    }

    /// The state with the nonce of account `id` one higher.
    pub open spec fn bumped(self, id: Seq<u8>) -> LedgerView {
        let i = self.index_of(id);
        LedgerView {
            accounts: self.accounts.update(
                i,
                Account { nonce: (self.accounts[i].nonce + 1) as u64, ..self.accounts[i] },
            ),
            ..self
        }
    }

    /// The error with which a handler of an authenticated, nonce-bumping kind fails
    /// before its own work: authentication, then a nonce that cannot grow.
    pub open spec fn sender_error(self, id: Seq<u8>, check: Verdict) -> Option<LedgerError> {
        if self.auth_error(id, check) is Some {
            self.auth_error(id, check)
        } else if self.account_of(id).nonce == u64::MAX {
            Some(LedgerError::ArithmeticError)
        } else {
            None
        }
    }

    pub open spec fn send_error(
        self,
        sender: Seq<u8>,
        check: Verdict,
        to: Seq<u8>,
        amount: Balance,
    ) -> Option<LedgerError> {
        if self.sender_error(sender, check) is Some {
            self.sender_error(sender, check)
        } else {
            self.transfer_error(sender, to, amount)
        }
    }

    /// The state after a successful write of `data` by account `id`.
    pub open spec fn written(self, id: AccountId, data: Vec<u8>) -> LedgerView {
        let i = self.index_of(id@);
        LedgerView {
            accounts: self.accounts.update(
                i,
                Account { data, nonce: (self.accounts[i].nonce + 1) as u64, ..self.accounts[i] },
            ),
            events: self.events.push(Event::DataWritten(id)),
            ..self
        }
    }

    pub open spec fn next_term_error(self, id: Seq<u8>, check: Verdict) -> Option<LedgerError> {
        if self.auth_error(id, check) is Some {
            self.auth_error(id, check)
        } else if self.term == u64::MAX {
            Some(LedgerError::ArithmeticError)
        } else {
            None
        }
    }

    /// The state after the term advances: the prior cumulative total is carried forward.
    pub open spec fn advanced(self) -> LedgerView {
        LedgerView {
            term: (self.term + 1) as u64,
            votes: self.votes.push(self.votes[self.term as int]),
            events: self.events.push(Event::TermAdvanced((self.term + 1) as u64)),
            ..self
        }
    }

    /// `post` is this state with one more account, registered under the digest
    /// of `cert` with nonce 0, no data, the current term and the initial grant.
    pub open spec fn registered(self, post: LedgerView, cert: Seq<u8>) -> bool {
        let a = post.accounts.last();
        &&& post.accounts.len() == self.accounts.len() + 1
        &&& post.accounts.drop_last() == self.accounts
        &&& a.id@ == blake2_256_of(cert)
        &&& a.cert@ == cert
        &&& a.nonce == 0
        &&& a.data@.len() == 0
        &&& a.created_at == self.term
        &&& post.balances == self.balances.push(INITIAL_GRANT)
        &&& post.term == self.term
        &&& post.votes == self.votes
        &&& post.events == self.events.push(Event::AccountCreated(a.id))
    }

    pub open spec fn create_error(self, tbs: TxCreateAccount, check: Verdict) -> Option<LedgerError> {
        if tbs.nonce != 0 {
            Some(LedgerError::InvalidPayload)
        } else if verdict_error(check) is Some {
            verdict_error(check)
        } else if self.contains(blake2_256_of(tbs.cert@)) {
            Some(LedgerError::AccountAlreadyExists)
        } else {
            None
        }
    }

    /// No account disappears and no nonce goes down from this state to `post`.
    pub open spec fn nonces_kept(self, post: LedgerView) -> bool {
        &&& self.accounts.len() <= post.accounts.len()
        &&& forall|i: int|
            0 <= i < self.accounts.len() ==> self.accounts[i].nonce <= post.accounts[i].nonce
    }
}

/// The ledger: accounts, raw balances, the term counter and the cumulative
/// distribution totals, with the log of emitted events.
pub struct Ledger {
    accounts: Vec<Account>,
    balances: Vec<Balance>,
    term: TermNumber,
    votes: Vec<Balance>,
    events: Vec<Event>,
}

impl View for Ledger {
    type V = LedgerView;

    closed spec fn view(&self) -> LedgerView {
        LedgerView {
            accounts: self.accounts@,
            balances: self.balances@,
            term: self.term,
            votes: self.votes@,
            events: self.events@,
        }
    }
}

/// With distinct identifiers, the ordinal of a present identifier is the position holding it.
pub(crate) proof fn lemma_index_of(v: LedgerView, i: int)
    requires
        0 <= i < v.accounts.len(),
        forall|a: int, b: int|
            0 <= a < b < v.accounts.len() ==> v.accounts[a].id@ != v.accounts[b].id@,
    ensures
        v.contains(v.accounts[i].id@),
        v.index_of(v.accounts[i].id@) == i,
{
    let id = v.accounts[i].id@;
    assert(v.contains(id));
    let j = v.index_of(id);
    if j < i {
        assert(v.accounts[j].id@ != v.accounts[i].id@);
    } else if i < j {
        assert(v.accounts[i].id@ != v.accounts[j].id@);
    }
}

impl Ledger {
    /// An empty ledger at term 0, with a zero cumulative total.
    pub fn new() -> (r: Ledger)
        ensures
            r@.wf(),
            r@.accounts.len() == 0,
            r@.term == 0,
            r@.votes_at(0) == 0,
            r@.events.len() == 0,
    {
        let mut votes: Vec<Balance> = Vec::new();
        votes.push(0);
        Ledger { accounts: Vec::new(), balances: Vec::new(), term: 0, votes, events: Vec::new() }
    }

    /// Ordinal of the account with identifier `id`, if it is registered.
    fn find(&self, id: &AccountId) -> (r: Option<usize>)
        requires
            self@.wf(),
        ensures
            r is None <==> !self@.contains(id@),
            r matches Some(i) ==> i == self@.index_of(id@) && i < self@.accounts.len(),
    {
        let mut i: usize = 0;
        while i < self.accounts.len()
            invariant
                self@.wf(),
                0 <= i <= self.accounts@.len(),
                forall|j: int| 0 <= j < i ==> self.accounts@[j].id@ != id@,
            decreases self.accounts@.len() - i,
        {
            if self.accounts[i].id.same_as(id) {
                proof {
                    lemma_index_of(self@, i as int);
                }
                return Some(i);
            }
            i = i + 1;
        }
        None
    }

    /// Whether an account with identifier `id` is registered.
    pub fn contains_account(&self, id: &AccountId) -> (r: bool)
        requires
            self@.wf(),
        ensures
            r == self@.contains(id@),
    {
        self.find(id).is_some()
    }

    /// Effective balance of the account at ordinal `i`.
    fn balance_at(&self, i: usize) -> (r: Result<Balance, LedgerError>)
        requires
            self@.wf(),
            i < self@.accounts.len(),
        ensures
            i64::MIN <= self@.balances[i as int] + self@.accrued(i as int) <= i64::MAX
                ==> r == Ok::<Balance, LedgerError>(
                (self@.balances[i as int] + self@.accrued(i as int)) as Balance,
            ),
            !(i64::MIN <= self@.balances[i as int] + self@.accrued(i as int) <= i64::MAX)
                ==> r == Err::<Balance, LedgerError>(LedgerError::ArithmeticError),
    {
        let created = self.accounts[i].created_at;
        let n_votes = self.votes.len();
        assert(created < n_votes && self.term < n_votes);
        let now = self.votes[self.term as usize];
        let base = self.votes[created as usize];
        assert(self@.votes[0] <= self@.votes[created as int]);
        assert(self@.votes[created as int] <= self@.votes[self.term as int]);
        let accrued: Balance = now - base;
        assert(accrued == self@.accrued(i as int));
        match self.balances[i].checked_add(accrued) {
            Some(b) => Ok(b),
            None => Err(LedgerError::ArithmeticError),
        }
    }

    /// Effective balance of account `id`: its raw balance plus the distribution
    /// accrued since the term of its creation.
    pub fn compute_balance(&self, id: &AccountId) -> (r: Result<Balance, LedgerError>)
        requires
            self@.wf(),
        ensures
            !self@.contains(id@) ==> r == Err::<Balance, LedgerError>(LedgerError::AccountNotFound),
            self@.contains(id@) && self@.effective_fits(id@) ==> r == Ok::<Balance, LedgerError>(
                self@.effective(id@) as Balance,
            ),
            self@.contains(id@) && !self@.effective_fits(id@) ==> r == Err::<Balance, LedgerError>(
                LedgerError::ArithmeticError,
            ),
    {
        match self.find(id) {
            None => Err(LedgerError::AccountNotFound),
            Some(i) => self.balance_at(i),
        }
    }

    /// Moves `amount` of raw balance from `from` to `to`. Both accounts must be
    /// registered, the sender's effective balance must cover the amount, and no
    /// figure may leave the range of `Balance`. Only the raw balances change:
    /// the accrued part is derived, not stored.
    pub fn transfer(&mut self, from: AccountId, to: AccountId, amount: Balance) -> (r: Result<
        (),
        LedgerError,
    >)
        requires
            old(self)@.wf(),
        ensures
            final(self)@.wf(),
            match old(self)@.transfer_error(from@, to@, amount) {
                Some(e) => r == Err::<(), LedgerError>(e) && final(self)@ == old(self)@,
                None => r is Ok && final(self)@ == old(self)@.transferred(from, to, amount),
            },
    {
        let fi = match self.find(&from) {
            None => return Err(LedgerError::AccountNotFound),
            Some(i) => i,
        };
        let ti = match self.find(&to) {
            None => return Err(LedgerError::AccountNotFound),
            Some(i) => i,
        };
        let eff_from = match self.balance_at(fi) {
            Err(e) => return Err(e),
            Ok(b) => b,
        };
        let left = match eff_from.checked_sub(amount) {
            None => return Err(LedgerError::ArithmeticError),
            Some(b) => b,
        };
        if left < 0 {
            return Err(LedgerError::InsufficientBalance);
        }
        let eff_to = match self.balance_at(ti) {
            Err(e) => return Err(e),
            Ok(b) => b,
        };
        if eff_to.checked_add(amount).is_none() {
            return Err(LedgerError::ArithmeticError);
        }
        if fi != ti {
            let new_from = match self.balances[fi].checked_sub(amount) {
                None => return Err(LedgerError::ArithmeticError),
                Some(b) => b,
            };
            let new_to = match self.balances[ti].checked_add(amount) {
                None => return Err(LedgerError::ArithmeticError),
                Some(b) => b,
            };
            self.balances[fi] = new_from;
            self.balances[ti] = new_to;
        }
        self.events.push(Event::Transferred(from, to, amount));
        Ok(())
    }

    /// Resolves the claimed sender `id` to a registered account and applies the
    /// verdict of the signature check made against that account's certificate.
    pub fn ensure_rsa_signed(&self, id: &AccountId, check: Verdict) -> (r: Result<
        AccountId,
        LedgerError,
    >)
        requires
            self@.wf(),
        ensures
            match self@.auth_error(id@, check) {
                Some(e) => r == Err::<AccountId, LedgerError>(e),
                None => r == Ok::<AccountId, LedgerError>(*id),
            },
    {
        if self.find(id).is_none() {
            return Err(LedgerError::AccountNotFound);
        }
        match check_verdict(check) {
            Err(e) => Err(e),
            Ok(()) => Ok(*id),
        }
    }

    /// Raises the nonce of account `id` by one.
    pub fn increment_nonce(&mut self, id: &AccountId) -> (r: Result<(), LedgerError>)
        requires
            old(self)@.wf(),
        ensures
            final(self)@.wf(),
            !old(self)@.contains(id@) ==> r == Err::<(), LedgerError>(LedgerError::AccountNotFound)
                && final(self)@ == old(self)@,
            old(self)@.contains(id@) && old(self)@.account_of(id@).nonce == u64::MAX ==> r
                == Err::<(), LedgerError>(LedgerError::ArithmeticError) && final(self)@ == old(
                self,
            )@,
            old(self)@.contains(id@) && old(self)@.account_of(id@).nonce < u64::MAX ==> r is Ok
                && final(self)@ == old(self)@.bumped(id@),
    {
        let i = match self.find(id) {
            None => return Err(LedgerError::AccountNotFound),
            Some(i) => i,
        };
        if self.accounts[i].nonce == u64::MAX {
            return Err(LedgerError::ArithmeticError);
        }
        self.accounts[i].nonce = self.accounts[i].nonce + 1;
        assert(self@.accounts =~= old(self)@.bumped(id@).accounts);
        Ok(())
    }

    /// Transfers `tbs.amount` from the authenticated sender to `tbs.to` and raises
    /// the sender's nonce. The nonce of the transaction itself is not compared
    /// with the stored one: the stored nonce only counts transactions.
    pub fn send(&mut self, sender: &AccountId, tbs: TxSend, check: Verdict) -> (r: Result<
        (),
        LedgerError,
    >)
        requires
            old(self)@.wf(),
        ensures
            final(self)@.wf(),
            match old(self)@.send_error(sender@, check, tbs.to@, tbs.amount) {
                Some(e) => r == Err::<(), LedgerError>(e) && final(self)@ == old(self)@,
                None => r is Ok && final(self)@ == old(self)@.transferred(
                    *sender,
                    tbs.to,
                    tbs.amount,
                ).bumped(sender@),
            },
    {
        let from = match self.ensure_rsa_signed(sender, check) {
            Err(e) => return Err(e),
            Ok(id) => id,
        };
        let i = match self.find(&from) {
            None => return Err(LedgerError::AccountNotFound),
            Some(i) => i,
        };
        if self.accounts[i].nonce == u64::MAX {
            return Err(LedgerError::ArithmeticError);
        }
        match self.transfer(from, tbs.to, tbs.amount) {
            Err(e) => return Err(e),
            Ok(()) => {},
        }
        self.increment_nonce(&from)
    }

    /// Minting is disabled: always fails, and cannot touch the ledger.
    pub fn mint(&self, _sender: &AccountId, _tbs: TxMint) -> (r: Result<(), LedgerError>)
        ensures
            r == Err::<(), LedgerError>(LedgerError::FeatureDisabled),
    {
        Err(LedgerError::FeatureDisabled)
    }

    /// Voting is disabled: always fails, and cannot touch the ledger.
    pub fn vote(&self, _sender: &AccountId, _tbs: TxVote) -> (r: Result<(), LedgerError>)
        ensures
            r == Err::<(), LedgerError>(LedgerError::FeatureDisabled),
    {
        Err(LedgerError::FeatureDisabled)
    }

    /// Advances the term by one, carrying the cumulative total forward unchanged.
    /// Any authenticated account may trigger it.
    pub fn next_term(&mut self, sender: &AccountId, tbs: TxNextTerm, check: Verdict) -> (r: Result<
        (),
        LedgerError,
    >)
        requires
            old(self)@.wf(),
        ensures
            final(self)@.wf(),
            match old(self)@.next_term_error(sender@, check) {
                Some(e) => r == Err::<(), LedgerError>(e) && final(self)@ == old(self)@,
                None => r is Ok && final(self)@ == old(self)@.advanced(),
            },
    {
        match self.ensure_rsa_signed(sender, check) {
            Err(e) => return Err(e),
            Ok(_) => {},
        }
        if self.term == u64::MAX {
            return Err(LedgerError::ArithmeticError);
        }
        let cur = self.term;
        let n_votes = self.votes.len();
        assert(cur < n_votes);
        let carried = self.votes[cur as usize];
        let new_term = cur + 1;
        self.votes.push(carried);
        self.term = new_term;
        self.events.push(Event::TermAdvanced(new_term));
        assert(forall|s: int, t: int|
            0 <= s <= t < self@.votes.len() ==> self@.votes[s] <= self@.votes[t]) by {
            assert(forall|s: int| 0 <= s < old(self)@.votes.len() ==> old(self)@.votes[s] <= carried);
        }
        Ok(())
    }

    /// Replaces the authenticated sender's data with `tbs.data` and raises its nonce.
    pub fn write(&mut self, sender: &AccountId, tbs: TxWrite, check: Verdict) -> (r: Result<
        (),
        LedgerError,
    >)
        requires
            old(self)@.wf(),
        ensures
            final(self)@.wf(),
            match old(self)@.sender_error(sender@, check) {
                Some(e) => r == Err::<(), LedgerError>(e) && final(self)@ == old(self)@,
                None => r is Ok && final(self)@ == old(self)@.written(*sender, tbs.data),
            },
    {
        let from = match self.ensure_rsa_signed(sender, check) {
            Err(e) => return Err(e),
            Ok(id) => id,
        };
        let i = match self.find(&from) {
            None => return Err(LedgerError::AccountNotFound),
            Some(i) => i,
        };
        if self.accounts[i].nonce == u64::MAX {
            return Err(LedgerError::ArithmeticError);
        }
        self.accounts[i].data = tbs.data;
        self.accounts[i].nonce = self.accounts[i].nonce + 1;
        self.events.push(Event::DataWritten(from));
        assert(self@.accounts =~= old(self)@.written(*sender, tbs.data).accounts);
        Ok(())
    }

    /// Registers the account whose certificate is `cert`: identifier = digest of
    /// the certificate, nonce 0, no data, created in the current term, with the
    /// initial grant as raw balance.
    pub fn insert_account(&mut self, cert: Vec<u8>) -> (r: Result<(), LedgerError>)
        requires
            old(self)@.wf(),
        ensures
            final(self)@.wf(),
            old(self)@.contains(blake2_256_of(cert@)) ==> r == Err::<(), LedgerError>(
                LedgerError::AccountAlreadyExists,
            ) && final(self)@ == old(self)@,
            !old(self)@.contains(blake2_256_of(cert@)) ==> r is Ok && old(self)@.registered(
                final(self)@,
                cert@,
            ),
    {
        let id = account_id_of(&cert);
        if self.find(&id).is_some() {
            return Err(LedgerError::AccountAlreadyExists);
        }
        let account = Account {
            id,
            cert,
            nonce: 0,
            data: Vec::new(),
            created_at: self.term,
        };
        self.accounts.push(account);
        self.balances.push(INITIAL_GRANT);
        self.events.push(Event::AccountCreated(id));
        assert(self@.accounts.drop_last() =~= old(self)@.accounts);
        Ok(())
    }

    /// Creates an account from a self-signed certificate: the payload's nonce must
    /// be 0, and the verdict is that of the checks made against the certificate
    /// in the payload itself, since no account exists yet.
    pub fn create_account(&mut self, tbs: TxCreateAccount, check: Verdict) -> (r: Result<
        (),
        LedgerError,
    >)
        requires
            old(self)@.wf(),
        ensures
            final(self)@.wf(),
            match old(self)@.create_error(tbs, check) {
                Some(e) => r == Err::<(), LedgerError>(e) && final(self)@ == old(self)@,
                None => r is Ok && old(self)@.registered(final(self)@, tbs.cert@),
            },
    {
        if tbs.nonce != 0 {
            return Err(LedgerError::InvalidPayload);
        }
        match check_verdict(check) {
            Err(e) => return Err(e),
            Ok(()) => {},
        }
        self.insert_account(tbs.cert)
    }

    /// Routes a signed transaction to the handler of its kind. `check` is the
    /// verdict of the cryptographic checks on `tx`. A failed transaction leaves
    /// the ledger as it was, and no transaction lowers a nonce.
    pub fn go(&mut self, tx: SignedData, check: Verdict) -> (r: Result<(), LedgerError>)
        requires
            old(self)@.wf(),
        ensures
            final(self)@.wf(),
            r is Err ==> final(self)@ == old(self)@,
            old(self)@.nonces_kept(final(self)@),
            match tx.tbs {
                Tx::CreateAccount(t) => match old(self)@.create_error(t, check) {
                    Some(e) => r == Err::<(), LedgerError>(e),
                    None => r is Ok && old(self)@.registered(final(self)@, t.cert@),
                },
                Tx::Send(t) => match old(self)@.send_error(tx.id@, check, t.to@, t.amount) {
                    Some(e) => r == Err::<(), LedgerError>(e),
                    None => r is Ok && final(self)@ == old(self)@.transferred(
                        tx.id,
                        t.to,
                        t.amount,
                    ).bumped(tx.id@),
                },
                Tx::Mint(_) => r == Err::<(), LedgerError>(LedgerError::FeatureDisabled),
                Tx::Vote(_) => r == Err::<(), LedgerError>(LedgerError::FeatureDisabled),
                Tx::Write(t) => match old(self)@.sender_error(tx.id@, check) {
                    Some(e) => r == Err::<(), LedgerError>(e),
                    None => r is Ok && final(self)@ == old(self)@.written(tx.id, t.data),
                },
                Tx::NextTerm(_) => match old(self)@.next_term_error(tx.id@, check) {
                    Some(e) => r == Err::<(), LedgerError>(e),
                    None => r is Ok && final(self)@ == old(self)@.advanced(),
                },
            },
    {
        let sender = tx.id;
        let r = match tx.tbs {
            Tx::CreateAccount(t) => self.create_account(t, check),
            Tx::Send(t) => self.send(&sender, t, check),
            Tx::Mint(t) => self.mint(&sender, t),
            Tx::Vote(t) => self.vote(&sender, t),
            Tx::Write(t) => self.write(&sender, t, check),
            Tx::NextTerm(t) => self.next_term(&sender, t, check),
        };
        proof {
            let pre = old(self)@;
            let post = self@;
            if post.accounts.len() > pre.accounts.len() {
                assert forall|i: int| 0 <= i < pre.accounts.len() implies pre.accounts[i]
                    == post.accounts[i] by {
                    assert(post.accounts.drop_last()[i] == post.accounts[i]);
                }
            }
        }
        r
    }

    /// Number of registered accounts.
    pub fn account_count(&self) -> (r: u64)
        ensures
            r == self@.accounts.len(),
    {
        self.accounts.len() as u64
    }

    /// Identifier of the account with ordinal `n` (its place in order of creation).
    pub fn account_enum(&self, n: u64) -> (r: Option<AccountId>)
        ensures
            n < self@.accounts.len() ==> r == Some(self@.accounts[n as int].id),
            n >= self@.accounts.len() ==> r is None,
    {
        if n < self.accounts.len() as u64 {
            Some(self.accounts[n as usize].id)
        } else {
            None
        }
    }

    /// The account registered under `id`, if any.
    pub fn account(&self, id: &AccountId) -> (r: Option<&Account>)
        requires
            self@.wf(),
        ensures
            !self@.contains(id@) ==> r is None,
            self@.contains(id@) ==> r == Some(&self@.account_of(id@)),
    {
        match self.find(id) {
            None => None,
            Some(i) => Some(&self.accounts[i]),
        }
    }

    /// Raw balance of account `id`; zero for an unregistered identifier.
    pub fn balance(&self, id: &AccountId) -> (r: Balance)
        requires
            self@.wf(),
        ensures
            !self@.contains(id@) ==> r == 0,
            self@.contains(id@) ==> r == self@.balances[self@.index_of(id@)],
    {
        match self.find(id) {
            None => 0,
            Some(i) => self.balances[i],
        }
    }

    /// The current term.
    pub fn term_number(&self) -> (r: TermNumber)
        ensures
            r == self@.term,
    {
        self.term
    }

    /// Cumulative distribution total at term `t`; zero for a term not reached yet.
    pub fn votes_cum(&self, t: TermNumber) -> (r: Balance)
        ensures
            r == self@.votes_at(t as int),
    {
        if t < self.votes.len() as u64 {
            self.votes[t as usize]
        } else {
            0
        }
    }

    /// Events emitted so far, oldest first.
    pub fn events(&self) -> (r: &Vec<Event>)
        ensures
            r@ == self@.events,
    {
        &self.events
    }
}

} // verus!
