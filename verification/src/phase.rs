use vstd::prelude::*;

verus! {

/// The derived lifecycle phase of a threshold escrow.
///
/// The phase is never stored: every operation recomputes it from the deadline,
/// the funding target, the custody balance, and the clock, so it can never go
/// stale.
#[derive(Clone, Copy, PartialEq, Eq, Structural, Debug)]
pub enum State {
    /// The deadline has not passed; deposits are accepted.
    Running,
    /// The deadline has passed and custody reached the target.
    Success,
    /// The deadline has passed and custody fell short of the target.
    Expired,
}

/// What phase a threshold escrow is in, as a function of the deadline, the
/// funding target, the custody balance, and the current ledger time — and of
/// nothing else.
pub open spec fn phase_of(deadline: u64, target: i128, custody: i128, now: u64) -> State {
    if now < deadline {
        State::Running
    } else if custody >= target {
        State::Success
    } else {
        State::Expired
    }
}

/// The numeric code under which a program reports its phase.
pub open spec fn state_code(s: State) -> u32 {
    match s {
        State::Running => 0,
        State::Success => 1,
        State::Expired => 2,
    }
}

/// Derives the current phase.  Mutating operations call this afresh on every
/// invocation and never branch on a phase computed in an earlier call.
pub fn derive_phase(deadline: u64, target: i128, custody: i128, now: u64) -> (s: State)
    ensures
        s == phase_of(deadline, target, custody, now),
{
    if now < deadline {
        State::Running
    } else if custody >= target {
        State::Success
    } else {
        State::Expired
    }
}

/// Phase derivation is deterministic: two derivations from identical
/// `(deadline, target, custody, now)` inputs yield identical phases, whenever
/// and wherever they are made.
pub proof fn lemma_phase_deterministic(
    d1: u64,
    t1: i128,
    c1: i128,
    n1: u64,
    d2: u64,
    t2: i128,
    c2: i128,
    n2: u64,
)
    requires
        d1 == d2,
        t1 == t2,
        c1 == c2,
        n1 == n2,
    ensures
        phase_of(d1, t1, c1, n1) == phase_of(d2, t2, c2, n2),
{
}

} // verus!
