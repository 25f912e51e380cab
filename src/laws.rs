//! Properties of the ledger that relate several states or several operations.
use crate::ledger::{lemma_index_of, LedgerView};
use crate::types::{AccountId, Balance};
use vstd::prelude::*;

verus! {

/// A transfer that passes its checks keeps the sum of the two parties'
/// effective balances: what the sender loses, the receiver gains.
pub proof fn law_transfer_conserves(pre: LedgerView, from: AccountId, to: AccountId, amount: Balance)
    requires
        pre.wf(),
        pre.transfer_error(from@, to@, amount) is None,
    ensures
        pre.transferred(from, to, amount).effective(from@) + pre.transferred(
            from,
            to,
            amount,
        ).effective(to@) == pre.effective(from@) + pre.effective(to@),
{
}

/// The cumulative total never decreases from one term to the next.
pub proof fn law_votes_monotone(v: LedgerView, t: int)
    requires
        v.wf(),
        1 <= t <= v.term,
    ensures
        v.votes_at(t - 1) <= v.votes_at(t),
{
}

/// An account queried in the term of its creation has accrued nothing:
/// its effective balance is its raw balance.
pub proof fn law_fresh_account_accrues_nothing(v: LedgerView, id: AccountId)
    requires
        v.wf(),
        v.contains(id@),
        v.account_of(id@).created_at == v.term,
    ensures
        v.effective(id@) == v.balances[v.index_of(id@)],
{
}

/// Advancing the term raises the counter by exactly one, carries the prior
/// cumulative total forward unchanged, and so leaves every registered
/// account's effective balance as it was.
pub proof fn law_next_term_carries_forward(v: LedgerView, id: AccountId)
    requires
        v.wf(),
        v.term < u64::MAX,
    ensures
        v.advanced().term == v.term + 1,
        v.advanced().votes_at(v.term + 1) == v.votes_at(v.term as int),
        v.contains(id@) ==> v.advanced().effective(id@) == v.effective(id@),
{
}

/// A successful send raises the sender's nonce by exactly one.
pub proof fn law_send_bumps_nonce(pre: LedgerView, sender: AccountId, to: AccountId, amount: Balance)
    requires
        pre.wf(),
        pre.contains(sender@),
        pre.account_of(sender@).nonce < u64::MAX,
        pre.transfer_error(sender@, to@, amount) is None,
    ensures
        pre.transferred(sender, to, amount).bumped(sender@).account_of(sender@).nonce
            == pre.account_of(sender@).nonce + 1,
{
    let mid = pre.transferred(sender, to, amount);
    let post = mid.bumped(sender@);
    let i = pre.index_of(sender@);
    assert(mid.accounts == pre.accounts);
    assert(post.accounts[i].id == pre.accounts[i].id);
    lemma_index_of(post, i);
}

/// A successful write raises the writer's nonce by exactly one and stores the data.
pub proof fn law_write_bumps_nonce(pre: LedgerView, sender: AccountId, data: Vec<u8>)
    requires
        pre.wf(),
        pre.contains(sender@),
        pre.account_of(sender@).nonce < u64::MAX,
    ensures
        pre.written(sender, data).account_of(sender@).nonce == pre.account_of(sender@).nonce + 1,
        pre.written(sender, data).account_of(sender@).data == data,
{
    let post = pre.written(sender, data);
    let i = pre.index_of(sender@);
    assert(post.accounts[i].id == pre.accounts[i].id);
    lemma_index_of(post, i);
}

} // verus!
