//! The correctness laws of the lifecycle, stated over the registry
//! model.
//!
//! Each exec operation's contract ties it to a model step
//! (`Registry::take` to the contents with the key removed,
//! [`spec_on_verified`] and [`spec_on_deadline`] to the decisions);
//! the laws here say what any interleaving of those steps yields
//! once linearized.

use vstd::prelude::*;

use crate::errors::GateError;
use crate::join_check::{spec_on_deadline, spec_on_verified, ExpiryDecision, VerifiedOutcome};
use crate::registry::{spec_resolved, JoinRequest, JoinRequestKey};

verus! {

/// Outcomes of `n` successive `take` attempts on `key`, in
/// linearization order: `true` where the attempt received the
/// record, `false` where it observed the key absent.
pub open spec fn take_winners(
    m: Map<JoinRequestKey, JoinRequest>,
    key: JoinRequestKey,
    n: nat,
) -> Seq<bool>
    decreases n,
{
    if n == 0 {
        Seq::empty()
    } else {
        seq![m.contains_key(key)] + take_winners(spec_resolved(m, key), key, (n - 1) as nat)
    }
}

/// How many attempts won.
pub open spec fn count_true(s: Seq<bool>) -> nat
    decreases s.len(),
{
    if s.len() == 0 {
        0
    } else {
        count_true(s.drop_last()) + if s.last() {
            1nat
        } else {
            0nat
        }
    }
}

proof fn lemma_count_of_lone_head(s: Seq<bool>)
    requires
        forall|i: int| 1 <= i < s.len() ==> !s[i],
    ensures
        count_true(s) == if s.len() > 0 && s[0] {
            1nat
        } else {
            0nat
        },
    decreases s.len(),
{
    if s.len() > 1 {
        assert(forall|i: int| 1 <= i < s.drop_last().len() ==> s.drop_last()[i] == s[i]);
        lemma_count_of_lone_head(s.drop_last());
        assert(s.drop_last()[0] == s[0]);
        assert(!s.last());
    } else if s.len() == 1 {
        assert(s.drop_last().len() == 0);
        assert(count_true(s.drop_last()) == 0);
        assert(s.last() == s[0]);
    }
}

/// Exactly-once resolution: however many callers race `take` on one
/// key, once their calls are linearized only the first attempt wins
/// -- and it wins exactly when the key was present -- while every
/// later attempt observes the key absent.  In particular, of `n >=
/// 1` attempts on a present key, exactly one wins and `n - 1`
/// observe `NotFound`.
pub proof fn lemma_exactly_once_resolution(
    m: Map<JoinRequestKey, JoinRequest>,
    key: JoinRequestKey,
    n: nat,
)
    ensures
        take_winners(m, key, n).len() == n,
        forall|i: int|
            0 <= i < n ==> take_winners(m, key, n)[i] == (i == 0 && m.contains_key(key)),
        count_true(take_winners(m, key, n)) == if n >= 1 && m.contains_key(key) {
            1nat
        } else {
            0nat
        },
    decreases n,
{
    lemma_winner_positions(m, key, n);
    lemma_count_of_lone_head(take_winners(m, key, n));
}

proof fn lemma_winner_positions(m: Map<JoinRequestKey, JoinRequest>, key: JoinRequestKey, n: nat)
    ensures
        take_winners(m, key, n).len() == n,
        forall|i: int|
            0 <= i < n ==> take_winners(m, key, n)[i] == (i == 0 && m.contains_key(key)),
    decreases n,
{
    if n > 0 {
        lemma_winner_positions(spec_resolved(m, key), key, (n - 1) as nat);
        assert(!spec_resolved(m, key).contains_key(key));
        assert forall|i: int|
            0 <= i < n implies take_winners(m, key, n)[i] == (i == 0 && m.contains_key(
            key,
        )) by {
            if i > 0 {
                assert(take_winners(m, key, n)[i] == take_winners(
                    spec_resolved(m, key),
                    key,
                    (n - 1) as nat,
                )[i - 1]);
            }
        }
    }
}

/// No double side effect: once a key has been resolved -- by the
/// verification resolver or by the deadline enforcer, both of which
/// leave `spec_resolved` contents behind -- a later verification
/// callback gets the "request no longer valid" outcome and is owed
/// no side effects, and the registry no longer changes.
pub proof fn lemma_no_double_side_effect(m: Map<JoinRequestKey, JoinRequest>, key: JoinRequestKey)
    ensures
        spec_on_verified(spec_resolved(m, key), key) == Err::<VerifiedOutcome, GateError>(
            GateError::NotFound,
        ),
        spec_resolved(spec_resolved(m, key), key) == spec_resolved(m, key),
{
    assert(!spec_resolved(m, key).contains_key(key));
}

/// Deadline enforcement fires only when unresolved: the enforcer
/// decides on expiry side effects exactly for a request that is
/// still pending and not marked verified; and once a verification
/// has succeeded, a timer firing afterwards performs no removal.
pub proof fn lemma_deadline_enforcement(m: Map<JoinRequestKey, JoinRequest>, key: JoinRequestKey)
    ensures
        m.contains_key(key) && !m[key].is_verified ==> spec_on_deadline(m, key) == (
        ExpiryDecision::Expired { subject: m[key].subject, prompt_ref: m[key].prompt_ref }),
        !(m.contains_key(key) && !m[key].is_verified) ==> spec_on_deadline(m, key)
            == ExpiryDecision::AlreadyResolved,
        spec_on_verified(m, key) is Ok ==> spec_on_deadline(spec_resolved(m, key), key)
            == ExpiryDecision::AlreadyResolved,
{
    assert(!spec_resolved(m, key).contains_key(key));
}

} // verus!
