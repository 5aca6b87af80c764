//! Derivation of a campaign's status from time and balance.

use vstd::prelude::*;

verus! {

/// Where a campaign stands; always computed, never stored.
#[derive(Clone, Copy, Debug, PartialEq, Eq, Structural)]
pub enum Status {
    /// The deadline has not passed yet: deposits are accepted.
    FundingPeriod,
    /// The deadline has passed and the balance reached the target.
    Successful,
    /// The deadline has passed and the balance fell short of the target.
    Failed,
}

/// The status of a campaign at time `now`, given its deadline, its pooled
/// balance and its target. The deadline instant itself still belongs to the
/// funding window.
pub open spec fn status_of(now: nat, deadline: nat, balance: nat, target: nat) -> Status {
    if now <= deadline {
        Status::FundingPeriod
    } else if balance >= target {
        Status::Successful
    } else {
        Status::Failed
    }
}

/// Computes the status of a campaign. Pure and total.
pub fn evaluate(now: u64, deadline: u64, balance: u128, target: u128) -> (r: Status)
    ensures
        r == status_of(now as nat, deadline as nat, balance as nat, target as nat),
        now <= deadline ==> r == Status::FundingPeriod,
        now > deadline && balance >= target ==> r == Status::Successful,
        now > deadline && balance < target ==> r == Status::Failed,
{
    if now <= deadline {
        Status::FundingPeriod
    } else if balance >= target {
        Status::Successful
    } else {
        Status::Failed
    }
}

} // verus!
