use crate::errors::EscrowError;
use crate::gateway::{spec_payment, Payment};
use crate::ledger::{
    claim_of, lemma_claim_le_sum, lookup_claim, nonneg_amounts, set_claim, sum_claims,
    unique_accounts, ClaimEntry,
};
use crate::phase::{derive_phase, phase_of, state_code, State};
use vstd::prelude::*;

verus! {

/// The immutable configuration of a threshold escrow, created exactly once by
/// `initialize` and never mutated afterwards.
#[derive(Clone, Copy, PartialEq, Eq, Structural, Debug)]
pub struct EscrowConfig {
    /// The account paid in full when the escrow succeeds.
    pub recipient: u64,
    /// The ledger time at which deposits close.
    pub deadline: u64,
    /// The ledger time at which the escrow was initialized.
    pub started: u64,
    /// The custody balance the escrow must reach by the deadline.
    pub target: i128,
    /// The fungible asset the escrow is denominated in.
    pub token: u64,
}

/// The threshold-crowdfunding engine: participants deposit until the
/// deadline; afterwards the recipient sweeps custody if the target was met,
/// and otherwise each depositor reclaims exactly their own deposit.
///
/// The struct is the program instance's entire persistent state.  `custody`
/// mirrors the balance the program's own account holds in the escrow's token:
/// the host performs every `Payment` an operation returns, or abandons the
/// new state, so the mirror and the real balance move together.
pub struct Crowdfund {
    /// The program's own custody account.
    pub contract_address: u64,
    /// The configuration; `None` until `initialize` has run.
    pub config: Option<EscrowConfig>,
    /// Each participant's outstanding deposit.
    pub claims: Vec<ClaimEntry>,
    /// The value currently held in custody.
    pub custody: i128,
    /// The total refunded to depositors after expiry.
    pub refunded: i128,
    /// The total swept to the recipient after success.
    pub swept: i128,
    /// The total ever deposited into custody.
    pub deposited: i128,
}

impl Crowdfund {
    /// Conservation of value: everything ever deposited is either still in
    /// custody, refunded to a depositor, or swept to the recipient; and the
    /// outstanding claims account exactly for custody plus what the recipient
    /// was paid (a successful sweep consumes the depositors' claims).
    pub open spec fn conserved(self) -> bool {
        &&& self.deposited == self.custody + self.refunded + self.swept
        &&& sum_claims(self.claims@) == self.custody + self.swept
    }

    /// Well-formedness: a claim ledger without duplicates or negative
    /// amounts, non-negative running totals, and conservation of value.
    pub open spec fn wf(self) -> bool {
        &&& unique_accounts(self.claims@)
        &&& nonneg_amounts(self.claims@)
        &&& self.custody >= 0
        &&& self.refunded >= 0
        &&& self.swept >= 0
        &&& self.deposited >= 0
        &&& self.conserved()
    }

    pub open spec fn is_initialized(self) -> bool {
        self.config is Some
    }

    pub open spec fn cfg(self) -> EscrowConfig {
        self.config->Some_0
    }

    /// The phase the escrow is in at ledger time `now`, derived afresh from
    /// the configuration and the custody balance.
    pub open spec fn phase(self, now: u64) -> State {
        phase_of(self.cfg().deadline, self.cfg().target, self.custody, now)
    }

    /// The deposit currently recorded for `account`.
    pub open spec fn spec_claim(self, account: u64) -> int {
        claim_of(self.claims@, account)
    }

    /// How `withdraw` relates the escrow before and after the call.
    ///
    /// While running, nothing can be withdrawn.  After success only the
    /// recipient may withdraw and is paid the entire custody balance.  After
    /// expiry the recipient is barred and any other account is paid exactly
    /// its recorded deposit, which is then cleared; a payout larger than
    /// custody holds (possible only once the recipient has swept) is refused
    /// as the gateway would refuse it.
    pub open spec fn withdraw_transition(
        pre: Crowdfund,
        post: Crowdfund,
        to: u64,
        now: u64,
        r: Result<Payment, EscrowError>,
    ) -> bool {
        if !pre.is_initialized() {
            r == Err::<Payment, EscrowError>(EscrowError::StateViolation) && post == pre
        } else if pre.phase(now) == State::Running {
            r == Err::<Payment, EscrowError>(EscrowError::StateViolation) && post == pre
        } else if pre.phase(now) == State::Success {
            if to != pre.cfg().recipient {
                r == Err::<Payment, EscrowError>(EscrowError::AuthorizationFailure) && post
                    == pre
            } else {
                &&& r == Ok::<Payment, EscrowError>(
                    spec_payment(pre.cfg().token, pre.contract_address, to, pre.custody),
                )
                &&& post.custody == 0
                &&& post.swept == pre.swept + pre.custody
                &&& post.claims@ == pre.claims@
                &&& post.refunded == pre.refunded
                &&& post.deposited == pre.deposited
                &&& post.config == pre.config
                &&& post.contract_address == pre.contract_address
            }
        } else {
            if to == pre.cfg().recipient {
                r == Err::<Payment, EscrowError>(EscrowError::AuthorizationFailure) && post
                    == pre
            } else if pre.spec_claim(to) > pre.custody {
                r == Err::<Payment, EscrowError>(EscrowError::ExternalTransferFailure) && post
                    == pre
            } else {
                &&& r == Ok::<Payment, EscrowError>(
                    spec_payment(
                        pre.cfg().token,
                        pre.contract_address,
                        to,
                        (pre.spec_claim(to)) as i128,
                    ),
                )
                &&& post.spec_claim(to) == 0
                &&& forall|a: u64| a != to ==> post.spec_claim(a) == pre.spec_claim(a)
                &&& post.custody == pre.custody - pre.spec_claim(to)
                &&& post.refunded == pre.refunded + pre.spec_claim(to)
                &&& post.swept == pre.swept
                &&& post.deposited == pre.deposited
                &&& post.config == pre.config
                &&& post.contract_address == pre.contract_address
            }
        }
    }

    /// A fresh, uninitialized program instance whose custody account is
    /// `contract_address`.
    pub fn new(contract_address: u64) -> (c: Crowdfund)
        ensures
            c.wf(),
            !c.is_initialized(),
            c.contract_address == contract_address,
            c.claims@.len() == 0,
            c.custody == 0,
            c.refunded == 0,
            c.swept == 0,
            c.deposited == 0,
    {
        Crowdfund {
            contract_address,
            config: None,
            claims: Vec::new(),
            custody: 0,
            refunded: 0,
            swept: 0,
            deposited: 0,
        }
    }

    /// Records the escrow's configuration.  Permitted exactly once per
    /// program instance: a second call fails and leaves the original
    /// configuration untouched.
    pub fn initialize(
        &mut self,
        recipient: u64,
        deadline: u64,
        target_amount: i128,
        token: u64,
        now: u64,
    ) -> (r: Result<(), EscrowError>)
        requires
            old(self).wf(),
        ensures
            final(self).wf(),
            old(self).is_initialized() ==> r == Err::<(), EscrowError>(
                EscrowError::StateViolation,
            ) && *final(self) == *old(self),
            !old(self).is_initialized() ==> {
                &&& r == Ok::<(), EscrowError>(())
                &&& final(self).config == Some(
                    EscrowConfig { recipient, deadline, started: now, target: target_amount, token },
                )
                &&& final(self).claims@ == old(self).claims@
                &&& final(self).custody == old(self).custody
                &&& final(self).refunded == old(self).refunded
                &&& final(self).swept == old(self).swept
                &&& final(self).deposited == old(self).deposited
                &&& final(self).contract_address == old(self).contract_address
            },
    {
        if self.config.is_some() {
            return Err(EscrowError::StateViolation);
        }
        self.config = Some(
            EscrowConfig { recipient, deadline, started: now, target: target_amount, token },
        );
        Ok(())
    }

    /// The account the escrow pays on success.
    pub fn recipient(&self) -> (r: Result<u64, EscrowError>)
        ensures
            self.is_initialized() ==> r == Ok::<u64, EscrowError>(self.cfg().recipient),
            !self.is_initialized() ==> r == Err::<u64, EscrowError>(EscrowError::StateViolation),
    {
        match self.config {
            Some(c) => Ok(c.recipient),
            None => Err(EscrowError::StateViolation),
        }
    }

    /// The ledger time at which deposits close.
    pub fn deadline(&self) -> (r: Result<u64, EscrowError>)
        ensures
            self.is_initialized() ==> r == Ok::<u64, EscrowError>(self.cfg().deadline),
            !self.is_initialized() ==> r == Err::<u64, EscrowError>(EscrowError::StateViolation),
    {
        match self.config {
            Some(c) => Ok(c.deadline),
            None => Err(EscrowError::StateViolation),
        }
    }

    /// The ledger time at which the escrow was initialized.
    pub fn started(&self) -> (r: Result<u64, EscrowError>)
        ensures
            self.is_initialized() ==> r == Ok::<u64, EscrowError>(self.cfg().started),
            !self.is_initialized() ==> r == Err::<u64, EscrowError>(EscrowError::StateViolation),
    {
        match self.config {
            Some(c) => Ok(c.started),
            None => Err(EscrowError::StateViolation),
        }
    }

    /// The funding target.
    pub fn target(&self) -> (r: Result<i128, EscrowError>)
        ensures
            self.is_initialized() ==> r == Ok::<i128, EscrowError>(self.cfg().target),
            !self.is_initialized() ==> r == Err::<i128, EscrowError>(EscrowError::StateViolation),
    {
        match self.config {
            Some(c) => Ok(c.target),
            None => Err(EscrowError::StateViolation),
        }
    }

    /// The asset the escrow is denominated in.
    pub fn token(&self) -> (r: Result<u64, EscrowError>)
        ensures
            self.is_initialized() ==> r == Ok::<u64, EscrowError>(self.cfg().token),
            !self.is_initialized() ==> r == Err::<u64, EscrowError>(EscrowError::StateViolation),
    {
        match self.config {
            Some(c) => Ok(c.token),
            None => Err(EscrowError::StateViolation),
        }
    }

    /// The current phase as its numeric code.
    pub fn state(&self, now: u64) -> (r: Result<u32, EscrowError>)
        ensures
            self.is_initialized() ==> r == Ok::<u32, EscrowError>(state_code(self.phase(now))),
            !self.is_initialized() ==> r == Err::<u32, EscrowError>(EscrowError::StateViolation),
    {
        let c = match self.config {
            Some(c) => c,
            None => {
                return Err(EscrowError::StateViolation);
            },
        };
        let s = derive_phase(c.deadline, c.target, self.custody, now);
        match s {
            State::Running => Ok(0),
            State::Success => Ok(1),
            State::Expired => Ok(2),
        }
    }

    /// What `user` could withdraw at ledger time `now`: after success, the
    /// whole custody balance for the recipient and nothing for anyone else;
    /// otherwise the user's own recorded deposit.
    pub fn balance(&self, user: u64, now: u64) -> (r: Result<i128, EscrowError>)
        ensures
            !self.is_initialized() ==> r == Err::<i128, EscrowError>(EscrowError::StateViolation),
            self.is_initialized() && self.phase(now) == State::Success ==> r
                == Ok::<i128, EscrowError>(
                if user == self.cfg().recipient {
                    self.custody
                } else {
                    0
                },
            ),
            self.is_initialized() && self.phase(now) != State::Success ==> r == Ok::<
                i128,
                EscrowError,
            >((self.spec_claim(user)) as i128),
    {
        let c = match self.config {
            Some(c) => c,
            None => {
                return Err(EscrowError::StateViolation);
            },
        };
        let s = derive_phase(c.deadline, c.target, self.custody, now);
        if s == State::Success {
            if user != c.recipient {
                return Ok(0);
            }
            return Ok(self.custody);
        }
        Ok(lookup_claim(&self.claims, user))
    }

    /// Deposits `amount` for `user`: only while the escrow is running, only
    /// for a positive amount, and never for the recipient.  On success the
    /// claim and custody grow by `amount` and the returned payment pulls
    /// `amount` from the depositor into custody.
    ///
    /// The host authorizes the acting identity as `user` before calling.
    pub fn deposit(&mut self, user: u64, amount: i128, now: u64) -> (r: Result<
        Payment,
        EscrowError,
    >)
        requires
            old(self).wf(),
        ensures
            final(self).wf(),
            r is Err ==> *final(self) == *old(self),
            amount <= 0 ==> r == Err::<Payment, EscrowError>(EscrowError::PreconditionViolation),
            amount > 0 && !old(self).is_initialized() ==> r == Err::<Payment, EscrowError>(
                EscrowError::StateViolation,
            ),
            amount > 0 && old(self).is_initialized() && old(self).phase(now) != State::Running
                ==> r == Err::<Payment, EscrowError>(EscrowError::StateViolation),
            amount > 0 && old(self).is_initialized() && old(self).phase(now) == State::Running
                && user == old(self).cfg().recipient ==> r == Err::<Payment, EscrowError>(
                EscrowError::AuthorizationFailure,
            ),
            amount > 0 && old(self).is_initialized() && old(self).phase(now) == State::Running
                && user != old(self).cfg().recipient && old(self).deposited + amount
                > i128::MAX ==> r == Err::<Payment, EscrowError>(
                EscrowError::PreconditionViolation,
            ),
            amount > 0 && old(self).is_initialized() && old(self).phase(now) == State::Running
                && user != old(self).cfg().recipient && old(self).deposited + amount
                <= i128::MAX ==> {
                &&& r == Ok::<Payment, EscrowError>(
                    spec_payment(
                        old(self).cfg().token,
                        user,
                        old(self).contract_address,
                        amount,
                    ),
                )
                &&& final(self).spec_claim(user) == old(self).spec_claim(user) + amount
                &&& forall|a: u64|
                    a != user ==> final(self).spec_claim(a) == old(self).spec_claim(a)
                &&& final(self).custody == old(self).custody + amount
                &&& final(self).deposited == old(self).deposited + amount
                &&& final(self).refunded == old(self).refunded
                &&& final(self).swept == old(self).swept
                &&& final(self).config == old(self).config
                &&& final(self).contract_address == old(self).contract_address
            },
    {
        if amount <= 0 {
            return Err(EscrowError::PreconditionViolation);
        }
        let c = match self.config {
            Some(c) => c,
            None => {
                return Err(EscrowError::StateViolation);
            },
        };
        let s = derive_phase(c.deadline, c.target, self.custody, now);
        if s != State::Running {
            return Err(EscrowError::StateViolation);
        }
        if user == c.recipient {
            return Err(EscrowError::AuthorizationFailure);
        }
        if amount > i128::MAX - self.deposited {
            return Err(EscrowError::PreconditionViolation);
        }
        let prev = lookup_claim(&self.claims, user);
        proof {
            lemma_claim_le_sum(self.claims@, user);
        }
        set_claim(&mut self.claims, user, prev + amount);
        self.custody = self.custody + amount;
        self.deposited = self.deposited + amount;
        Ok(Payment { token: c.token, from: user, to: self.contract_address, amount })
    }

    /// Resolves a claim at ledger time `now`.
    ///
    /// While the escrow is running nothing can be withdrawn.  After success
    /// only the recipient may withdraw, and is paid the entire custody
    /// balance; a repeated call finds custody already empty and pays zero.
    /// After expiry the recipient is barred and any other account is paid
    /// exactly its own recorded deposit, which is then cleared, so a repeated
    /// call pays zero — a claim resolves at most once.
    ///
    /// The host authorizes the acting identity as `to` before calling.
    pub fn withdraw(&mut self, to: u64, now: u64) -> (r: Result<Payment, EscrowError>)
        requires
            old(self).wf(),
        ensures
            final(self).wf(),
            Crowdfund::withdraw_transition(*old(self), *final(self), to, now, r),
    {
        let c = match self.config {
            Some(c) => c,
            None => {
                return Err(EscrowError::StateViolation);
            },
        };
        let s = derive_phase(c.deadline, c.target, self.custody, now);
        match s {
            State::Running => Err(EscrowError::StateViolation),
            State::Success => {
                if to != c.recipient {
                    return Err(EscrowError::AuthorizationFailure);
                }
                let paid = self.custody;
                self.custody = 0;
                self.swept = self.swept + paid;
                Ok(Payment { token: c.token, from: self.contract_address, to, amount: paid })
            },
            State::Expired => {
                if to == c.recipient {
                    return Err(EscrowError::AuthorizationFailure);
                }
                let owed = lookup_claim(&self.claims, to);
                proof {
                    lemma_claim_le_sum(self.claims@, to);
                }
                if owed > self.custody {
                    return Err(EscrowError::ExternalTransferFailure);
                }
                set_claim(&mut self.claims, to, 0);
                self.custody = self.custody - owed;
                self.refunded = self.refunded + owed;
                Ok(Payment { token: c.token, from: self.contract_address, to, amount: owed })
            },
        }
    }
}

/// Conservation: at every observation point, everything ever deposited is
/// either still in custody, refunded to a depositor, or swept to the
/// recipient — and the outstanding claims account exactly for custody plus
/// what the recipient was paid.  Every operation preserves well-formedness,
/// so this holds along every sequence of operations.
pub proof fn lemma_conservation(c: Crowdfund)
    requires
        c.wf(),
    ensures
        c.deposited == c.custody + c.refunded + c.swept,
        sum_claims(c.claims@) == c.custody + c.swept,
{
}

/// Single resolution: once a withdrawal for an account has succeeded, any
/// later successful withdrawal for the same account pays zero — there is
/// never a second non-zero payout.
pub proof fn lemma_single_resolution(
    s0: Crowdfund,
    s1: Crowdfund,
    s2: Crowdfund,
    to: u64,
    now1: u64,
    now2: u64,
    p1: Payment,
    p2: Payment,
)
    requires
        s0.wf(),
        Crowdfund::withdraw_transition(s0, s1, to, now1, Ok(p1)),
        Crowdfund::withdraw_transition(s1, s2, to, now2, Ok(p2)),
    ensures
        p2.amount == 0,
{
}

} // verus!
