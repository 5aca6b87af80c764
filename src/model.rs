//! The abstract state of a campaign and what each operation does to it.

use vstd::prelude::*;

use crate::status::{status_of, Status};

verus! {

/// Why an operation was rejected. A rejected operation changes nothing and
/// moves no value.
#[derive(Clone, Copy, Debug, PartialEq, Eq, Structural)]
pub enum CrowdfundingError {
    /// The target given at creation is zero.
    InvalidTarget,
    /// The deadline given at creation is not after the current time.
    InvalidDeadline,
    /// A deposit was attempted after the deadline.
    FundingClosed,
    /// A claim was attempted before the deadline had passed.
    ClaimTooEarly,
    /// Someone other than the owner claimed the funds of a successful campaign.
    Unauthorized,
    /// A refund would take more than the pooled balance holds; the host's
    /// transfer would fail, so the whole call is rejected. This happens only
    /// once the owner has already withdrawn the balance.
    InsufficientFunds,
}

/// A campaign seen as mathematical values.
pub struct CampaignView {
    /// The amount that must be reached.
    pub target: nat,
    /// The last instant of the funding window.
    pub deadline: nat,
    /// The principal entitled to the funds of a successful campaign.
    pub owner: u64,
    /// The value the campaign holds now.
    pub balance: nat,
    /// What each principal has deposited and not been refunded (zero for all
    /// others).
    pub deposits: Map<u64, nat>,
    /// The sum of all ledger entries.
    pub ledger_total: nat,
}

impl CampaignView {
    /// The campaign's status at time `now`.
    pub open spec fn status(self, now: nat) -> Status {
        status_of(now, self.deadline, self.balance, self.target)
    }

    /// The state invariant: a positive target, a ledger entry for every
    /// principal, and no entry (nor the balance) above the ledger's total.
    pub open spec fn wf(self) -> bool {
        &&& self.target > 0
        &&& forall|p: u64| #[trigger] self.deposits.contains_key(p)
        &&& forall|p: u64| #[trigger] self.deposits[p] <= self.ledger_total
        &&& self.balance <= self.ledger_total
    }

    /// The ledger accounts for exactly the value held.
    pub open spec fn balanced(self) -> bool {
        self.ledger_total == self.balance
    }
}

/// A ledger with nothing recorded for anybody.
pub open spec fn empty_deposits() -> Map<u64, nat> {
    Map::new(|p: u64| true, |p: u64| 0nat)
}

/// The state of a campaign right after its creation.
pub open spec fn initial(target: nat, deadline: nat, owner: u64) -> CampaignView {
    CampaignView {
        target,
        deadline,
        owner,
        balance: 0,
        deposits: empty_deposits(),
        ledger_total: 0,
    }
}

/// Creation of a campaign at time `now`: the target must be positive and the
/// deadline in the future.
pub open spec fn init_model(target: nat, deadline: nat, now: nat, owner: u64) -> Result<
    CampaignView,
    CrowdfundingError,
> {
    if target == 0 {
        Err(CrowdfundingError::InvalidTarget)
    } else if deadline <= now {
        Err(CrowdfundingError::InvalidDeadline)
    } else {
        Ok(initial(target, deadline, owner))
    }
}

/// A deposit of `amount` by `caller` at time `now`: admitted only during the
/// funding period, where it adds `amount` to the caller's entry and to the
/// balance.
pub open spec fn fund_model(v: CampaignView, caller: u64, amount: nat, now: nat) -> Result<
    CampaignView,
    CrowdfundingError,
> {
    if v.status(now) == Status::FundingPeriod {
        Ok(
            CampaignView {
                target: v.target,
                deadline: v.deadline,
                owner: v.owner,
                balance: v.balance + amount,
                deposits: v.deposits.insert(caller, v.deposits[caller] + amount),
                ledger_total: v.ledger_total + amount,
            },
        )
    } else {
        Err(CrowdfundingError::FundingClosed)
    }
}

/// A claim by `caller` at time `now`: the new state and the amount paid to
/// the caller.
///
/// Before the deadline nothing can be claimed. On success the owner, and only
/// the owner, takes the whole balance. On failure each principal takes back
/// its own entry, which is then cleared; an empty entry is a no-op.
pub open spec fn claim_model(v: CampaignView, caller: u64, now: nat) -> Result<
    (CampaignView, nat),
    CrowdfundingError,
> {
    match v.status(now) {
        Status::FundingPeriod => Err(CrowdfundingError::ClaimTooEarly),
        Status::Successful => {
            if caller == v.owner {
                Ok(
                    (
                        CampaignView {
                            target: v.target,
                            deadline: v.deadline,
                            owner: v.owner,
                            balance: 0,
                            deposits: v.deposits,
                            ledger_total: v.ledger_total,
                        },
                        v.balance,
                    ),
                )
            } else {
                Err(CrowdfundingError::Unauthorized)
            }
        },
        Status::Failed => {
            let d = v.deposits[caller];
            if d == 0 {
                Ok((v, 0))
            } else if d > v.balance {
                Err(CrowdfundingError::InsufficientFunds)
            } else {
                Ok(
                    (
                        CampaignView {
                            target: v.target,
                            deadline: v.deadline,
                            owner: v.owner,
                            balance: (v.balance - d) as nat,
                            deposits: v.deposits.insert(caller, 0),
                            ledger_total: (v.ledger_total - d) as nat,
                        },
                        d,
                    ),
                )
            }
        },
    }
}

} // verus!
