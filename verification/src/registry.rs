//! The concurrent store of pending join requests.
//!
//! The registry maps a [`JoinRequestKey`] to the [`JoinRequest`]
//! owned by it while the verification is unresolved.  All mutation
//! goes through atomic single-key operations of the underlying
//! concurrent map; `take` (remove-and-return in one step) is the
//! single point of exactly-once resolution between the deadline
//! enforcer and the verification resolver.
//!
//! Verus specifies mutation through exclusive references, so the
//! registry's operations take `&mut self` and are verified against
//! the sequential model [`spec_resolved`] steps through.  The
//! concurrent map underneath performs each single-key operation
//! atomically under its shard's lock, which is exactly what lets
//! racing callers be read as a linearized sequence of those model
//! steps; the laws of the crate speak about such sequences.

use vstd::prelude::*;

use crate::errors::GateError;
use dashmap::mapref::entry::Entry;

verus! {

/// Composite identifier of one pending verification: the group and
/// the request discriminator.  The discriminator is the subject's
/// user identifier, so a group holds at most one pending request
/// per subject.
#[derive(Clone, Copy, PartialEq, Eq, Hash, Debug)]
pub struct JoinRequestKey {
    /// Identifier of the group whose membership is gated.
    pub group: i64,
    /// Identifier of the user awaiting verification.
    pub subject: u64,
}

/// The record owned exclusively by the registry while a request is
/// pending.
#[derive(Clone, Copy, PartialEq, Eq, Debug)]
pub struct JoinRequest {
    /// Identifier of the user being verified.
    pub subject: u64,
    /// Reference to the verification prompt message, needed to
    /// delete the prompt on resolution; absent if the transport
    /// could not supply one at creation time.
    pub prompt_ref: Option<i64>,
    /// Monotonic creation timestamp, for diagnostics only; the
    /// deadline is driven by the scheduled enforcer task, not by
    /// re-checking this field.
    pub created_at: u64,
    /// Whether the request was marked verified just before its
    /// removal; see [`Registry::mark_verified_then_take`].
    pub is_verified: bool,
}

impl JoinRequest {
    /// A fresh, not yet verified record.
    pub fn new(subject: u64, prompt_ref: Option<i64>, created_at: u64) -> (r: JoinRequest)
        ensures
            r == (JoinRequest { subject, prompt_ref, created_at, is_verified: false }),
    {
        JoinRequest { subject, prompt_ref, created_at, is_verified: false }
    }
}

#[verifier::external_type_specification]
#[verifier::external_body]
#[verifier::reject_recursive_types(K)]
#[verifier::reject_recursive_types(V)]
#[verifier::reject_recursive_types(S)]
pub struct ExDashMap<K, V, S>(dashmap::DashMap<K, V, S>);

/// The entries the registry's concurrent map holds, as a
/// mathematical map from key tuple to record.
pub uninterp spec fn dash_entries(
    m: dashmap::DashMap<(i64, u64), JoinRequest>,
) -> Map<(i64, u64), JoinRequest>;

/// Relies on dashmap::DashMap::entry: the vacant arm of the entry
/// view inserts under the shard's write lock, so an existing record
/// is never overwritten and the check and the insert are one atomic
/// step.
#[verifier::external_body]
fn dm_try_insert(
    m: &mut dashmap::DashMap<(i64, u64), JoinRequest>,
    k: (i64, u64),
    v: JoinRequest,
) -> (r: bool)
    ensures
        r == !dash_entries(*old(m)).contains_key(k),
        dash_entries(*final(m)) == if dash_entries(*old(m)).contains_key(k) {
            dash_entries(*old(m))
        } else {
            dash_entries(*old(m)).insert(k, v)
        },
{
    match m.entry(k) {
        Entry::Occupied(_) => false,
        Entry::Vacant(slot) => {
            slot.insert(v);
            true
        },
    }
}

/// Relies on dashmap::DashMap::remove: removes the entry under the
/// key and returns it, in one atomic step under the shard's write
/// lock; returns nothing if the key is absent.
#[verifier::external_body]
fn dm_remove(
    m: &mut dashmap::DashMap<(i64, u64), JoinRequest>,
    k: (i64, u64),
) -> (r: Option<JoinRequest>)
    ensures
        r == if dash_entries(*old(m)).contains_key(k) {
            Some(dash_entries(*old(m))[k])
        } else {
            None::<JoinRequest>
        },
        dash_entries(*final(m)) == if dash_entries(*old(m)).contains_key(k) {
            dash_entries(*old(m)).remove(k)
        } else {
            dash_entries(*old(m))
        },
{
    m.remove(&k).map(|kv| kv.1)
}

/// Relies on dashmap::DashMap::get: returns a read guard on the
/// entry under the key, or nothing; the wrapper copies the record
/// out of the guard.
#[verifier::external_body]
fn dm_get(
    m: &dashmap::DashMap<(i64, u64), JoinRequest>,
    k: (i64, u64),
) -> (r: Option<JoinRequest>)
    ensures
        r == if dash_entries(*m).contains_key(k) {
            Some(dash_entries(*m)[k])
        } else {
            None::<JoinRequest>
        },
{
    m.get(&k).map(|guard| *guard.value())
}

/// The key under which a request is stored in the concurrent map.
pub open spec fn key_tuple(key: JoinRequestKey) -> (i64, u64) {
    (key.group, key.subject)
}

/// The registry contents after a resolution attempt on `key`: the
/// entry is gone if it was present, and nothing else changes.  Both
/// `take` and `mark_verified_then_take` step the contents by this
/// function.
pub open spec fn spec_resolved(
    m: Map<JoinRequestKey, JoinRequest>,
    key: JoinRequestKey,
) -> Map<JoinRequestKey, JoinRequest> {
    if m.contains_key(key) {
        m.remove(key)
    } else {
        m
    }
}

/// Concurrent registry of pending join requests.  A record is
/// created by `insert`, read by `peek`, and destroyed exactly once
/// by whichever call to `take` (or `mark_verified_then_take`) wins.
pub struct Registry {
    map: dashmap::DashMap<(i64, u64), JoinRequest>,
}

impl View for Registry {
    type V = Map<JoinRequestKey, JoinRequest>;

    closed spec fn view(&self) -> Map<JoinRequestKey, JoinRequest> {
        Map::new(
            |key: JoinRequestKey| dash_entries(self.map).contains_key(key_tuple(key)),
            |key: JoinRequestKey| dash_entries(self.map)[key_tuple(key)],
        )
    }
}

/// Relies on dashmap::DashMap::new; the wrapper promises nothing of
/// the fresh map, which is emptied right after through `dm_clear`.
#[verifier::external_body]
fn dm_new() -> (m: dashmap::DashMap<(i64, u64), JoinRequest>) {
    dashmap::DashMap::new()
}

/// Relies on dashmap::DashMap::clear: removes every entry the map
/// held.
#[verifier::external_body]
fn dm_clear(m: &mut dashmap::DashMap<(i64, u64), JoinRequest>)
    ensures
        dash_entries(*final(m)) == dash_entries(*old(m)).remove_keys(
            dash_entries(*old(m)).dom(),
        ),
{
    m.clear()
}

impl Registry {
    /// An empty registry.
    pub fn new() -> (r: Registry)
        ensures
            r@ == Map::<JoinRequestKey, JoinRequest>::empty(),
    {
        let mut map = dm_new();
        dm_clear(&mut map);
        let r = Registry { map };
        proof {
            assert(forall|k: (i64, u64)| !dash_entries(r.map).contains_key(k));
            assert(r@ =~= Map::<JoinRequestKey, JoinRequest>::empty());
        }
        r
    }

    /// Stores `record` under `key`, or fails with `DuplicateKey` if
    /// the key is already pending, leaving the existing record
    /// untouched.  Callers must not re-prompt an already-pending
    /// subject.
    pub fn insert(&mut self, key: JoinRequestKey, record: JoinRequest) -> (r: Result<
        (),
        GateError,
    >)
        ensures
            r == if old(self)@.contains_key(key) {
                Err::<(), GateError>(GateError::DuplicateKey)
            } else {
                Ok::<(), GateError>(())
            },
            final(self)@ == if old(self)@.contains_key(key) {
                old(self)@
            } else {
                old(self)@.insert(key, record)
            },
    {
        let fresh = dm_try_insert(&mut self.map, (key.group, key.subject), record);
        if fresh {
            proof {
                assert(self@ =~= old(self)@.insert(key, record));
            }
            Ok(())
        } else {
            proof {
                assert(self@ =~= old(self)@);
            }
            Err(GateError::DuplicateKey)
        }
    }

    /// A read-only snapshot of the record under `key`, or nothing.
    /// Used only for existence checks; mutation must go through
    /// `take` or `mark_verified_then_take`.
    pub fn peek(&self, key: JoinRequestKey) -> (r: Option<JoinRequest>)
        ensures
            r == if self@.contains_key(key) {
                Some(self@[key])
            } else {
                None::<JoinRequest>
            },
    {
        dm_get(&self.map, (key.group, key.subject))
    }

    /// Atomically removes and returns the record under `key`, or
    /// returns nothing if the key is absent (already resolved by a
    /// concurrent actor).  This is the single point of exactly-once
    /// resolution: for a given key, exactly one caller across the
    /// system ever receives a record from it.
    pub fn take(&mut self, key: JoinRequestKey) -> (r: Option<JoinRequest>)
        ensures
            r == if old(self)@.contains_key(key) {
                Some(old(self)@[key])
            } else {
                None::<JoinRequest>
            },
            final(self)@ == spec_resolved(old(self)@, key),
    {
        let got = dm_remove(&mut self.map, (key.group, key.subject));
        proof {
            if old(self)@.contains_key(key) {
                assert(self@ =~= old(self)@.remove(key));
            } else {
                assert(self@ =~= old(self)@);
            }
        }
        got
    }

    /// Two-step variant of `take` for resolutions whose verified
    /// state must be recorded even if the side effect that follows
    /// fails: the returned record carries `is_verified == true`.
    /// The record is still destroyed exactly as by `take`.
    pub fn mark_verified_then_take(&mut self, key: JoinRequestKey) -> (r: Option<JoinRequest>)
        ensures
            r == if old(self)@.contains_key(key) {
                Some(JoinRequest { is_verified: true, ..old(self)@[key] })
            } else {
                None::<JoinRequest>
            },
            final(self)@ == spec_resolved(old(self)@, key),
    {
        match self.take(key) {
            Some(record) => Some(
                JoinRequest {
                    subject: record.subject,
                    prompt_ref: record.prompt_ref,
                    created_at: record.created_at,
                    is_verified: true,
                },
            ),
            None => None,
        }
    }
}

} // verus!
