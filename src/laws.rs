//! Properties of campaigns that span several operations.

use vstd::prelude::*;

use crate::model::{claim_model, fund_model, initial, CampaignView, CrowdfundingError};
use crate::status::{status_of, Status};

verus! {

/// A sequence of deposit attempts `(caller, amount, now)` applied in order;
/// rejected attempts leave the state as it was.
pub open spec fn apply_funds(v: CampaignView, attempts: Seq<(u64, nat, nat)>) -> CampaignView
    decreases attempts.len(),
{
    if attempts.len() == 0 {
        v
    } else {
        let before = apply_funds(v, attempts.drop_last());
        let (caller, amount, now) = attempts.last();
        match fund_model(before, caller, amount, now) {
            Ok(after) => after,
            Err(_) => before,
        }
    }
}

/// Once the deadline has passed, the status no longer depends on the time:
/// it is never again the funding period, and later instants see the same
/// classification for the same balance.
pub proof fn lemma_status_settles(deadline: nat, balance: nat, target: nat, t1: nat, t2: nat)
    requires
        deadline < t1 <= t2,
    ensures
        status_of(t1, deadline, balance, target) != Status::FundingPeriod,
        status_of(t2, deadline, balance, target) == status_of(t1, deadline, balance, target),
{
}

/// Until a claim is settled, the sum of all ledger entries equals the value
/// held: this holds right after creation and after any sequence of deposit
/// attempts, admitted or rejected.
pub proof fn lemma_funding_keeps_ledger_balanced(
    target: nat,
    deadline: nat,
    owner: u64,
    attempts: Seq<(u64, nat, nat)>,
)
    ensures
        apply_funds(initial(target, deadline, owner), attempts).balanced(),
    decreases attempts.len(),
{
    if attempts.len() > 0 {
        lemma_funding_keeps_ledger_balanced(target, deadline, owner, attempts.drop_last());
    }
}

/// While the ledger accounts for the balance, every refund is covered by it:
/// a refund claim on a failed campaign is never rejected and keeps the
/// ledger balanced.
pub proof fn lemma_balanced_refund_covered(v: CampaignView, who: u64, now: nat)
    requires
        v.wf(),
        v.balanced(),
        v.status(now) == Status::Failed,
    ensures
        v.deposits[who] <= v.balance,
        claim_model(v, who, now) is Ok,
        claim_model(v, who, now)->Ok_0.0.balanced(),
{
}

/// After a refund claim by `who` on a failed campaign, a second claim by
/// `who`, at any later time, pays nothing and changes nothing; the refund
/// left every other principal's entry as it was.
pub proof fn lemma_refund_paid_once(v: CampaignView, who: u64, t1: nat, t2: nat)
    requires
        v.wf(),
        v.status(t1) == Status::Failed,
        t1 <= t2,
        claim_model(v, who, t1) is Ok,
    ensures
        ({
            let v1 = claim_model(v, who, t1)->Ok_0.0;
            &&& claim_model(v1, who, t2) == Ok::<(CampaignView, nat), CrowdfundingError>((v1, 0))
            &&& forall|p: u64| p != who ==> #[trigger] v1.deposits[p] == v.deposits[p]
        }),
{
    let v1 = claim_model(v, who, t1)->Ok_0.0;
    assert(v1.deposits[who] == 0);
    assert(v1.balance <= v.balance);
    assert(v1.status(t2) == Status::Failed);
}

/// On a successful campaign only the owner can claim: anyone else is
/// refused with nothing changed; the owner takes the whole balance, and a
/// second claim by the owner, at any later time, moves nothing. That second
/// claim pays zero where the owner has no ledger entry of its own, and is
/// rejected as uncovered otherwise.
pub proof fn lemma_owner_paid_once(v: CampaignView, other: u64, t1: nat, t2: nat)
    requires
        v.wf(),
        v.status(t1) == Status::Successful,
        t1 <= t2,
        other != v.owner,
    ensures
        claim_model(v, other, t1) == Err::<(CampaignView, nat), CrowdfundingError>(
            CrowdfundingError::Unauthorized,
        ),
        claim_model(v, v.owner, t1) is Ok,
        ({
            let (v1, paid) = claim_model(v, v.owner, t1)->Ok_0;
            &&& paid == v.balance
            &&& v1.balance == 0
            &&& v1.deposits == v.deposits
            &&& match claim_model(v1, v.owner, t2) {
                Ok((v2, paid2)) => paid2 == 0 && v2 == v1,
                Err(e) => e == CrowdfundingError::InsufficientFunds && v.deposits[v.owner] > 0,
            }
        }),
{
    let v1 = claim_model(v, v.owner, t1)->Ok_0.0;
    assert(v1.status(t2) == Status::Failed);
}

} // verus!
