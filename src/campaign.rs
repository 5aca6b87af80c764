//! The campaign engine: admission of deposits and settlement of claims.

use vstd::prelude::*;

use crate::ledger::{
    deposit_in, keys_unique, lemma_absent, lemma_deposit_le_total, lemma_entry, lemma_push_entry,
    lemma_set_entry, ledger_total,
};
use crate::model::{
    claim_model, empty_deposits, fund_model, init_model, CampaignView, CrowdfundingError,
};
use crate::status::{evaluate, Status};

verus! {

/// One campaign: its fixed target, deadline and owner, the value it holds,
/// and the ledger of deposits.
///
/// The host supplies the current time and the caller's identity to each
/// operation, and moves the value: it attaches the deposited amount to
/// `fund`, and pays out what `claim` returns, to the caller, in the same
/// atomic call.
pub struct Crowdfunding {
    target: u128,
    deadline: u64,
    owner: u64,
    balance: u128,
    deposits: Vec<(u64, u128)>,
}

impl View for Crowdfunding {
    type V = CampaignView;

    /// `deposits` maps each principal to its ledger entry, and
    /// `ledger_total` is the sum of all entries.
    closed spec fn view(&self) -> CampaignView {
        CampaignView {
            target: self.target as nat,
            deadline: self.deadline as nat,
            owner: self.owner,
            balance: self.balance as nat,
            deposits: Map::new(|p: u64| true, |p: u64| deposit_in(self.deposits@, p)),
            ledger_total: ledger_total(self.deposits@),
        }
    }
}

impl Crowdfunding {
    /// The representation invariant.
    pub closed spec fn inv(&self) -> bool {
        &&& self@.wf()
        &&& keys_unique(self.deposits@)
    }

    proof fn lemma_view_wf(&self)
        requires
            keys_unique(self.deposits@),
            self.target > 0,
            self.balance <= ledger_total(self.deposits@),
        ensures
            self.inv(),
    {
        assert forall|p: u64| #[trigger] self@.deposits[p] <= self@.ledger_total by {
            lemma_deposit_le_total(self.deposits@, p);
        }
    }

    /// Creates a campaign at time `now` for `owner`, with a positive `target`
    /// and a `deadline` after `now`.
    pub fn init(target: u128, deadline: u64, now: u64, owner: u64) -> (r: Result<
        Crowdfunding,
        CrowdfundingError,
    >)
        ensures
            match init_model(target as nat, deadline as nat, now as nat, owner) {
                Ok(v) => r is Ok && r->Ok_0@ == v && r->Ok_0.inv(),
                Err(e) => r == Err::<Crowdfunding, CrowdfundingError>(e),
            },
            r is Ok ==> r->Ok_0@.balanced(),
    {
        if target == 0 {
            return Err(CrowdfundingError::InvalidTarget);
        }
        if deadline <= now {
            return Err(CrowdfundingError::InvalidDeadline);
        }
        let c = Crowdfunding { target, deadline, owner, balance: 0, deposits: Vec::new() };
        proof {
            assert(c@.deposits =~= empty_deposits());
            c.lemma_view_wf();
        }
        Ok(c)
    }

    /// The index of `who`'s entry, if it has one.
    fn position_of(&self, who: u64) -> (r: Option<usize>)
        ensures
            match r {
                Some(i) => i < self.deposits@.len() && self.deposits@[i as int].0 == who,
                None => forall|i: int|
                    0 <= i < self.deposits@.len() ==> self.deposits@[i].0 != who,
            },
    {
        let n = self.deposits.len();
        let mut i: usize = 0;
        while i < n
            invariant
                n == self.deposits@.len(),
                i <= n,
                forall|j: int| 0 <= j < i ==> self.deposits@[j].0 != who,
            decreases n - i,
        {
            if self.deposits[i].0 == who {
                return Some(i);
            }
            i = i + 1;
        }
        None
    }

    /// The target amount.
    pub fn target(&self) -> (r: u128)
        ensures
            r as nat == self@.target,
    {
        self.target
    }

    /// The last instant of the funding window.
    pub fn deadline(&self) -> (r: u64)
        ensures
            r as nat == self@.deadline,
    {
        self.deadline
    }

    /// The principal entitled to the funds of a successful campaign.
    pub fn owner(&self) -> (r: u64)
        ensures
            r == self@.owner,
    {
        self.owner
    }

    /// The value the campaign holds now.
    pub fn get_current_funds(&self) -> (r: u128)
        ensures
            r as nat == self@.balance,
    {
        self.balance
    }

    /// What `who` has deposited and not been refunded; zero if nothing.
    pub fn deposit(&self, who: u64) -> (r: u128)
        requires
            self.inv(),
        ensures
            r as nat == self@.deposits[who],
    {
        match self.position_of(who) {
            Some(i) => {
                proof {
                    lemma_entry(self.deposits@, i as int);
                }
                self.deposits[i].1
            },
            None => {
                proof {
                    lemma_absent(self.deposits@, who);
                }
                0
            },
        }
    }

    /// Records a deposit of `amount`, attached by `caller` at time `now`.
    ///
    /// Admitted only during the funding period; afterwards it is rejected
    /// with `FundingClosed` and nothing changes. The caller's entry and the
    /// balance both grow by exactly `amount`. The sums must fit in a `u128`.
    pub fn fund(&mut self, caller: u64, amount: u128, now: u64) -> (r: Result<(), CrowdfundingError>)
        requires
            old(self).inv(),
            old(self)@.balance + amount <= u128::MAX,
            old(self)@.deposits[caller] + amount <= u128::MAX,
        ensures
            final(self).inv(),
            match fund_model(old(self)@, caller, amount as nat, now as nat) {
                Ok(v) => r is Ok && final(self)@ == v,
                Err(e) => r == Err::<(), CrowdfundingError>(e) && final(self)@ == old(self)@,
            },
            r is Ok <==> now as nat <= old(self)@.deadline,
            r is Ok ==> final(self)@.balance == old(self)@.balance + amount,
            r is Ok ==> final(self)@.deposits[caller] == old(self)@.deposits[caller] + amount,
            old(self)@.balanced() ==> final(self)@.balanced(),
    {
        if self.status(now) != Status::FundingPeriod {
            return Err(CrowdfundingError::FundingClosed);
        }
        let ghost before = self@;
        let ghost l0 = self.deposits@;
        match self.position_of(caller) {
            Some(i) => {
                proof {
                    lemma_entry(l0, i as int);
                    lemma_set_entry(l0, i as int, (l0[i as int].1 + amount) as u128);
                }
                let cur = self.deposits[i].1;
                self.deposits.set(i, (caller, cur + amount));
            },
            None => {
                proof {
                    lemma_absent(l0, caller);
                    lemma_push_entry(l0, caller, amount);
                }
                self.deposits.push((caller, amount));
            },
        }
        self.balance = self.balance + amount;
        proof {
            let want = fund_model(before, caller, amount as nat, now as nat)->Ok_0;
            assert(self@.deposits =~= want.deposits);
            self.lemma_view_wf();
        }
        Ok(())
    }

    /// Settles a claim by `caller` at time `now` and returns the amount that
    /// the host must transfer to the caller.
    ///
    /// Before the deadline every claim fails with `ClaimTooEarly`. On success
    /// only the owner may claim, and takes the whole balance; anyone else
    /// gets `Unauthorized`. On failure the caller's entry is cleared and
    /// refunded; with nothing recorded the claim pays zero. A rejected claim
    /// changes nothing.
    pub fn claim(&mut self, caller: u64, now: u64) -> (r: Result<u128, CrowdfundingError>)
        requires
            old(self).inv(),
        ensures
            final(self).inv(),
            match claim_model(old(self)@, caller, now as nat) {
                Ok((v, paid)) => r == Ok::<u128, CrowdfundingError>(paid as u128) && final(self)@
                    == v,
                Err(e) => r == Err::<u128, CrowdfundingError>(e) && final(self)@ == old(self)@,
            },
            old(self)@.status(now as nat) == Status::FundingPeriod ==> r == Err::<
                u128,
                CrowdfundingError,
            >(CrowdfundingError::ClaimTooEarly),
            old(self)@.balanced() && old(self)@.status(now as nat) == Status::Failed
                ==> final(self)@.balanced() && r is Ok,
    {
        match self.status(now) {
            Status::FundingPeriod => Err(CrowdfundingError::ClaimTooEarly),
            Status::Successful => {
                if caller != self.owner {
                    return Err(CrowdfundingError::Unauthorized);
                }
                let paid = self.balance;
                self.balance = 0;
                proof {
                    self.lemma_view_wf();
                }
                Ok(paid)
            },
            Status::Failed => {
                let ghost before = self@;
                let ghost l0 = self.deposits@;
                proof {
                    lemma_deposit_le_total(l0, caller);
                }
                match self.position_of(caller) {
                    None => {
                        proof {
                            lemma_absent(l0, caller);
                        }
                        Ok(0)
                    },
                    Some(i) => {
                        proof {
                            lemma_entry(l0, i as int);
                        }
                        let d = self.deposits[i].1;
                        if d == 0 {
                            return Ok(0);
                        }
                        if d > self.balance {
                            return Err(CrowdfundingError::InsufficientFunds);
                        }
                        proof {
                            lemma_set_entry(l0, i as int, 0);
                        }
                        self.deposits.set(i, (caller, 0));
                        self.balance = self.balance - d;
                        proof {
                            let want = claim_model(before, caller, now as nat)->Ok_0.0;
                            assert(self@.deposits =~= want.deposits);
                            self.lemma_view_wf();
                        }
                        Ok(d)
                    },
                }
            },
        }
    }

    /// The campaign's status at time `now`.
    pub fn status(&self, now: u64) -> (r: Status)
        ensures
            r == self@.status(now as nat),
            now <= self@.deadline ==> r == Status::FundingPeriod,
            now > self@.deadline && self@.balance >= self@.target ==> r == Status::Successful,
            now > self@.deadline && self@.balance < self@.target ==> r == Status::Failed,
    {
        evaluate(now, self.deadline, self.balance, self.target)
    }
}

} // verus!
