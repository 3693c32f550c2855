use vstd::prelude::*;

verus! {

/// One participant's outstanding claim: the value the escrow owes them back
/// should the escrow fail, or their standing bid.
#[derive(Clone, Copy, PartialEq, Eq, Structural, Debug)]
pub struct ClaimEntry {
    /// The participant the claim belongs to.
    pub account: u64,
    /// The claimed value.  A zero amount means the claim has been resolved.
    pub amount: i128,
}

/// No participant appears twice in the ledger.
pub open spec fn unique_accounts(s: Seq<ClaimEntry>) -> bool {
    forall|i: int, j: int| 0 <= i < j < s.len() ==> s[i].account != s[j].account
}

/// Every recorded claim is non-negative.
pub open spec fn nonneg_amounts(s: Seq<ClaimEntry>) -> bool {
    forall|i: int| 0 <= i < s.len() ==> s[i].amount >= 0
}

/// Whether `account` has an entry in the ledger.
pub open spec fn has_claim(s: Seq<ClaimEntry>, account: u64) -> bool {
    exists|i: int| 0 <= i < s.len() && s[i].account == account
}

/// The claim recorded for `account`, defaulting to zero when the account has
/// never taken part.
pub open spec fn claim_of(s: Seq<ClaimEntry>, account: u64) -> int
    decreases s.len(),
{
    if s.len() == 0 {
        0
    } else if s[0].account == account {
        s[0].amount as int
    } else {
        claim_of(s.drop_first(), account)
    }
}

/// The sum of all recorded claims.
pub open spec fn sum_claims(s: Seq<ClaimEntry>) -> int
    decreases s.len(),
{
    if s.len() == 0 {
        0
    } else {
        s[0].amount + sum_claims(s.drop_first())
    }
}

/// An account that has no entry holds no claim.
pub proof fn lemma_claim_absent(s: Seq<ClaimEntry>, account: u64)
    requires
        !has_claim(s, account),
    ensures
        claim_of(s, account) == 0,
    decreases s.len(),
{
    if s.len() > 0 {
        assert(s[0].account != account);
        assert(forall|i: int|
            0 <= i < s.drop_first().len() ==> s.drop_first()[i] == s[i + 1]);
        lemma_claim_absent(s.drop_first(), account);
    }
}

/// In a ledger without repeated accounts, the claim of the account at index
/// `i` is exactly the amount recorded there.
pub proof fn lemma_claim_at_index(s: Seq<ClaimEntry>, i: int)
    requires
        unique_accounts(s),
        0 <= i < s.len(),
    ensures
        claim_of(s, s[i].account) == s[i].amount,
    decreases s.len(),
{
    if i > 0 {
        assert(s[0].account != s[i].account);
        assert(unique_accounts(s.drop_first())) by {
            assert(forall|k: int|
                0 <= k < s.drop_first().len() ==> s.drop_first()[k] == s[k + 1]);
        }
        lemma_claim_at_index(s.drop_first(), i - 1);
    }
}

/// No single claim exceeds the sum of all claims, and both are non-negative.
pub proof fn lemma_claim_le_sum(s: Seq<ClaimEntry>, account: u64)
    requires
        nonneg_amounts(s),
    ensures
        0 <= claim_of(s, account),
        claim_of(s, account) <= sum_claims(s),
    decreases s.len(),
{
    if s.len() > 0 {
        assert(forall|i: int|
            0 <= i < s.drop_first().len() ==> s.drop_first()[i] == s[i + 1]);
        lemma_claim_le_sum(s.drop_first(), account);
    }
}

/// Appending an entry adds its amount to the sum.
pub proof fn lemma_sum_push(s: Seq<ClaimEntry>, e: ClaimEntry)
    ensures
        sum_claims(s.push(e)) == sum_claims(s) + e.amount,
    decreases s.len(),
{
    if s.len() == 0 {
        assert(s.push(e).drop_first() =~= Seq::<ClaimEntry>::empty());
        assert(s.push(e)[0] == e);
        assert(sum_claims(s.push(e)) == e.amount + sum_claims(s.push(e).drop_first()));
    } else {
        assert(s.push(e).drop_first() =~= s.drop_first().push(e));
        lemma_sum_push(s.drop_first(), e);
        assert(s.push(e)[0] == s[0]);
        assert(sum_claims(s.push(e)) == s.push(e)[0].amount + sum_claims(
            s.push(e).drop_first(),
        ));
    }
}

/// Appending an entry for a fresh account sets that account's claim and
/// leaves every other claim as it was.
pub proof fn lemma_claim_push(s: Seq<ClaimEntry>, e: ClaimEntry, account: u64)
    requires
        !has_claim(s, e.account),
    ensures
        e.account == account ==> claim_of(s.push(e), account) == e.amount,
        e.account != account ==> claim_of(s.push(e), account) == claim_of(s, account),
    decreases s.len(),
{
    if s.len() == 0 {
        assert(s.push(e).drop_first() =~= Seq::<ClaimEntry>::empty());
        assert(s.push(e)[0] == e);
        if e.account != account {
            assert(claim_of(s.push(e), account) == claim_of(s.push(e).drop_first(), account));
        }
    } else {
        assert(s.push(e).drop_first() =~= s.drop_first().push(e));
        assert(forall|i: int|
            0 <= i < s.drop_first().len() ==> s.drop_first()[i] == s[i + 1]);
        lemma_claim_push(s.drop_first(), e, account);
        assert(s.push(e)[0] == s[0]);
        if s[0].account == account {
            assert(claim_of(s.push(e), account) == s[0].amount);
            assert(claim_of(s, account) == s[0].amount);
        } else {
            assert(claim_of(s.push(e), account) == claim_of(s.push(e).drop_first(), account));
            assert(claim_of(s, account) == claim_of(s.drop_first(), account));
        }
    }
}

/// Overwriting the entry at index `i` shifts the sum by the difference of the
/// amounts.
pub proof fn lemma_sum_update(s: Seq<ClaimEntry>, i: int, v: ClaimEntry)
    requires
        0 <= i < s.len(),
    ensures
        sum_claims(s.update(i, v)) == sum_claims(s) - s[i].amount + v.amount,
    decreases s.len(),
{
    if i == 0 {
        assert(s.update(0, v).drop_first() =~= s.drop_first());
    } else {
        assert(s.update(i, v).drop_first() =~= s.drop_first().update(i - 1, v));
        lemma_sum_update(s.drop_first(), i - 1, v);
    }
}

/// Overwriting the entry at index `i` with an entry for the same account sets
/// that account's claim and leaves every other claim as it was.
pub proof fn lemma_claim_update(s: Seq<ClaimEntry>, i: int, v: ClaimEntry, account: u64)
    requires
        unique_accounts(s),
        0 <= i < s.len(),
        v.account == s[i].account,
    ensures
        s[i].account == account ==> claim_of(s.update(i, v), account) == v.amount,
        s[i].account != account ==> claim_of(s.update(i, v), account) == claim_of(s, account),
    decreases s.len(),
{
    if i == 0 {
        assert(s.update(0, v).drop_first() =~= s.drop_first());
    } else {
        assert(s.update(i, v).drop_first() =~= s.drop_first().update(i - 1, v));
        assert(unique_accounts(s.drop_first())) by {
            assert(forall|k: int|
                0 <= k < s.drop_first().len() ==> s.drop_first()[k] == s[k + 1]);
        }
        lemma_claim_update(s.drop_first(), i - 1, v, account);
    }
}

/// Unfolding `claim_of` over the tail of the ledger: while the prefix holds
/// no entry for the account, the claim is decided by the remaining suffix.
pub proof fn lemma_claim_skip(s: Seq<ClaimEntry>, i: int, account: u64)
    requires
        0 <= i < s.len(),
        s[i].account != account,
    ensures
        claim_of(s.skip(i), account) == claim_of(s.skip(i + 1), account),
{
    assert(s.skip(i).len() > 0);
    assert(s.skip(i)[0] == s[i]);
    assert(s.skip(i).drop_first() =~= s.skip(i + 1));
}

/// Looks a participant's claim up, defaulting to zero.
pub fn lookup_claim(claims: &Vec<ClaimEntry>, account: u64) -> (r: i128)
    ensures
        r as int == claim_of(claims@, account),
{
    let n: usize = claims.len();
    let mut i: usize = 0;
    proof {
        assert(claims@.skip(0) =~= claims@);
    }
    while i < n
        invariant
            n == claims@.len(),
            0 <= i <= n,
            claim_of(claims@, account) == claim_of(claims@.skip(i as int), account),
        decreases n - i,
    {
        if claims[i].account == account {
            proof {
                assert(claims@.skip(i as int)[0] == claims@[i as int]);
            }
            return claims[i].amount;
        }
        proof {
            lemma_claim_skip(claims@, i as int, account);
        }
        i = i + 1;
    }
    proof {
        assert(claims@.skip(n as int) =~= Seq::<ClaimEntry>::empty());
    }
    0
}

/// Finds the index of a participant's entry, if there is one.
fn find_claim_index(claims: &Vec<ClaimEntry>, account: u64) -> (r: Option<usize>)
    ensures
        match r {
            Some(i) => i < claims@.len() && claims@[i as int].account == account,
            None => !has_claim(claims@, account),
        },
{
    let n: usize = claims.len();
    let mut i: usize = 0;
    while i < n
        invariant
            n == claims@.len(),
            0 <= i <= n,
            forall|k: int| 0 <= k < i ==> claims@[k].account != account,
        decreases n - i,
    {
        if claims[i].account == account {
            return Some(i);
        }
        i = i + 1;
    }
    None
}

/// Records `amount` as the participant's claim, creating the entry when the
/// account has never taken part.  Only the lifecycle controllers call this.
pub fn set_claim(claims: &mut Vec<ClaimEntry>, account: u64, amount: i128)
    requires
        unique_accounts(old(claims)@),
    ensures
        unique_accounts(final(claims)@),
        claim_of(final(claims)@, account) == amount,
        forall|a: u64|
            a != account ==> claim_of(final(claims)@, a) == claim_of(old(claims)@, a),
        sum_claims(final(claims)@) == sum_claims(old(claims)@) + amount - claim_of(
            old(claims)@,
            account,
        ),
        nonneg_amounts(old(claims)@) && amount >= 0 ==> nonneg_amounts(final(claims)@),
{
    let entry = ClaimEntry { account, amount };
    match find_claim_index(claims, account) {
        Some(i) => {
            proof {
                lemma_claim_at_index(claims@, i as int);
                lemma_sum_update(claims@, i as int, entry);
                lemma_claim_update(claims@, i as int, entry, account);
                assert forall|a: u64| a != account implies claim_of(
                    claims@.update(i as int, entry),
                    a,
                ) == claim_of(claims@, a) by {
                    lemma_claim_update(claims@, i as int, entry, a);
                }
            }
            claims[i] = entry;
        },
        None => {
            proof {
                lemma_claim_absent(claims@, account);
                lemma_sum_push(claims@, entry);
                lemma_claim_push(claims@, entry, account);
                assert forall|a: u64| a != account implies claim_of(claims@.push(entry), a)
                    == claim_of(claims@, a) by {
                    lemma_claim_push(claims@, entry, a);
                }
            }
            claims.push(entry);
        },
    }
}

} // verus!
