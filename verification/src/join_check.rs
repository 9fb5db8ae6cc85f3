//! The join-request lifecycle: admitting a new member into the
//! verification flow, expiring it on deadline, and resolving it on a
//! successful proof.
//!
//! Each function here is a decision kernel: it consumes plain values
//! and the registry, decides, and returns the side effects the
//! caller must apply.  The unverified glue performs the transport
//! calls and hands events back; the race between the deadline
//! enforcer and the verification resolver is decided solely by the
//! registry's atomic `take`.

use vstd::prelude::*;

use crate::config::{spec_welcome_msg, GroupSettings, GroupsConfig};
use crate::errors::GateError;
use crate::registry::{spec_resolved, JoinRequest, JoinRequestKey, Registry};
use crate::text::{i64_to_dec, spec_dec_int, spec_dec_nat, u64_to_dec};

verus! {

/// What the transport glue must do with a join event.
#[derive(Debug, PartialEq)]
pub enum JoinDecision {
    /// The bot does not serve this group: send the notice, then
    /// leave the group.
    Refuse { notice: String },
    /// The joiner is a bot: do nothing.
    Ignore,
    /// Mute the subject and show the verification prompt.
    Prompt { welcome: String, verify_path: String, deadline_secs: u64 },
}

/// The relative link of the verification page for one request.
pub open spec fn spec_verify_path(group: i64, subject: u64) -> Seq<char> {
    "verify/"@ + spec_dec_int(group as int) + "/"@ + spec_dec_nat(subject as nat)
}

/// Builds the relative link of the verification page for one
/// request.
pub fn verify_path(group: i64, subject: u64) -> (r: String)
    ensures
        r@ == spec_verify_path(group, subject),
{
    proof {
        reveal_strlit("verify/");
        reveal_strlit("/");
    }
    let group_part = i64_to_dec(group);
    let subject_part = u64_to_dec(subject);
    let mut path = String::new();
    path.append("verify/");
    path.append(group_part.as_str());
    path.append("/");
    path.append(subject_part.as_str());
    proof {
        assert(path@ =~= spec_verify_path(group, subject));
    }
    path
}

/// The display name used in the welcome prompt: the configured name
/// if there is one, else the transport-supplied one.
pub open spec fn spec_chat_name(settings: GroupSettings, transport_name: Seq<char>) -> Seq<char> {
    match settings.chat_name {
        Some(name) => name@,
        None => transport_name,
    }
}

/// What to do when `subject` joins `group`.  This is the pure part
/// of join handling; it performs no registry mutation (see
/// [`on_join`] for the insert).
pub fn prepare_join(
    config: &GroupsConfig,
    group: i64,
    subject: u64,
    subject_is_bot: bool,
    user_mention: &str,
    transport_chat_name: &str,
) -> (r: JoinDecision)
    ensures
        ({
            let settings = config.spec_get(group);
            if !config.spec_is_group_allowed(group) {
                r matches JoinDecision::Refuse { notice } && notice@
                    == settings.messages.unauthorized_group@
            } else if subject_is_bot {
                r is Ignore
            } else {
                r matches JoinDecision::Prompt { welcome, verify_path, deadline_secs }
                    && welcome@ == spec_welcome_msg(
                    settings.messages.new_user_template@,
                    user_mention@,
                    spec_chat_name(settings, transport_chat_name@),
                ) && verify_path@ == spec_verify_path(group, subject) && deadline_secs
                    == settings.ban_after_secs
            }
        }),
{
    if !config.is_group_allowed(group) {
        let settings = config.get(group);
        return JoinDecision::Refuse { notice: settings.messages.unauthorized_group.clone() };
    }
    if subject_is_bot {
        return JoinDecision::Ignore;
    }
    let settings = config.get(group);
    let welcome = match &settings.chat_name {
        Some(name) => settings.messages.create_welcome_msg(user_mention, name.as_str()),
        None => settings.messages.create_welcome_msg(user_mention, transport_chat_name),
    };
    JoinDecision::Prompt {
        welcome,
        verify_path: verify_path(group, subject),
        deadline_secs: settings.ban_after_secs,
    }
}

/// What a join event leaves behind: the key now pending and the
/// deadline after which the enforcer must fire for it.
#[derive(Clone, Copy, PartialEq, Eq, Debug)]
pub struct OnJoinOutcome {
    /// The key of the fresh request.
    pub key: JoinRequestKey,
    /// Seconds until the deadline enforcer must attempt expiry.
    pub deadline_secs: u64,
}

/// Registers the verification request of `subject` joining `group`:
/// inserts the record and reports the deadline the caller must
/// schedule an enforcer task for.  Fails with `DuplicateKey`, and
/// changes nothing, if the subject is already pending in this group.
pub fn on_join(
    reg: &mut Registry,
    config: &GroupsConfig,
    group: i64,
    subject: u64,
    prompt_ref: Option<i64>,
    now: u64,
) -> (r: Result<OnJoinOutcome, GateError>)
    ensures
        ({
            let key = JoinRequestKey { group, subject };
            let record = JoinRequest { subject, prompt_ref, created_at: now, is_verified: false };
            &&& r == if old(reg)@.contains_key(key) {
                Err::<OnJoinOutcome, GateError>(GateError::DuplicateKey)
            } else {
                Ok::<OnJoinOutcome, GateError>(
                    OnJoinOutcome { key, deadline_secs: config.spec_get(group).ban_after_secs },
                )
            }
            &&& final(reg)@ == if old(reg)@.contains_key(key) {
                old(reg)@
            } else {
                old(reg)@.insert(key, record)
            }
        }),
{
    let key = JoinRequestKey { group, subject };
    let record = JoinRequest::new(subject, prompt_ref, now);
    match reg.insert(key, record) {
        Ok(()) => {
            let settings = config.get(group);
            Ok(OnJoinOutcome { key, deadline_secs: settings.ban_after_secs })
        },
        Err(e) => Err(e),
    }
}

/// What the deadline enforcer must do when a timer fires.
#[derive(Clone, Copy, PartialEq, Eq, Debug)]
pub enum ExpiryDecision {
    /// The request was still unresolved: remove the subject from
    /// the group and delete the prompt.
    Expired { subject: u64, prompt_ref: Option<i64> },
    /// The request was already resolved (or marked verified): the
    /// timer is a no-op.
    AlreadyResolved,
}

/// The decision the enforcer reaches on registry contents `m`.
pub open spec fn spec_on_deadline(
    m: Map<JoinRequestKey, JoinRequest>,
    key: JoinRequestKey,
) -> ExpiryDecision {
    if m.contains_key(key) && !m[key].is_verified {
        ExpiryDecision::Expired { subject: m[key].subject, prompt_ref: m[key].prompt_ref }
    } else {
        ExpiryDecision::AlreadyResolved
    }
}

/// The deadline enforcer's action when the timer of `key` fires: it
/// attempts to consume the request as expired.  At most one expiry
/// attempt is ever made, because a consumed record is gone from the
/// registry whatever the caller then does.  No other component may
/// remove a record because time elapsed.
pub fn on_deadline(reg: &mut Registry, key: JoinRequestKey) -> (d: ExpiryDecision)
    ensures
        d == spec_on_deadline(old(reg)@, key),
        final(reg)@ == spec_resolved(old(reg)@, key),
{
    match reg.take(key) {
        Some(record) => {
            if !record.is_verified {
                ExpiryDecision::Expired { subject: record.subject, prompt_ref: record.prompt_ref }
            } else {
                ExpiryDecision::AlreadyResolved
            }
        },
        None => ExpiryDecision::AlreadyResolved,
    }
}

/// The side effects owed after a successful proof: restore the
/// subject's permissions and delete the prompt.
#[derive(Clone, Copy, PartialEq, Eq, Debug)]
pub struct VerifiedOutcome {
    /// Whose permissions to restore.
    pub subject: u64,
    /// The prompt to delete, if one was recorded.
    pub prompt_ref: Option<i64>,
}

/// The outcome the resolver reaches on registry contents `m`:
/// success side effects if the request is still pending, else the
/// "request no longer valid" outcome.
pub open spec fn spec_on_verified(
    m: Map<JoinRequestKey, JoinRequest>,
    key: JoinRequestKey,
) -> Result<VerifiedOutcome, GateError> {
    if m.contains_key(key) {
        Ok(VerifiedOutcome { subject: m[key].subject, prompt_ref: m[key].prompt_ref })
    } else {
        Err(GateError::NotFound)
    }
}

/// Completes a successful proof submission for `key`.  Consumes the
/// request (marking it verified on its way out) and returns the side
/// effects the caller must apply once; answers `NotFound` -- and
/// performs nothing -- if the request already expired or was already
/// verified by a duplicate callback.
pub fn on_verified(reg: &mut Registry, key: JoinRequestKey) -> (r: Result<
    VerifiedOutcome,
    GateError,
>)
    ensures
        r == spec_on_verified(old(reg)@, key),
        final(reg)@ == spec_resolved(old(reg)@, key),
{
    match reg.mark_verified_then_take(key) {
        Some(record) => Ok(
            VerifiedOutcome { subject: record.subject, prompt_ref: record.prompt_ref },
        ),
        None => Err(GateError::NotFound),
    }
}

/// Applies the provider's verdict on a proof for `key`: an accepted
/// proof resolves the request as verified; a rejected one surfaces
/// the rejection and leaves the request pending, so a later
/// legitimate proof can still succeed before the deadline.
pub fn complete_verification(
    reg: &mut Registry,
    key: JoinRequestKey,
    verdict: crate::provider::ProviderVerdict,
) -> (r: Result<VerifiedOutcome, GateError>)
    ensures
        ({
            match verdict {
                crate::provider::ProviderVerdict::Accepted => r == spec_on_verified(old(reg)@, key)
                    && final(reg)@ == spec_resolved(old(reg)@, key),
                crate::provider::ProviderVerdict::Rejected(rej) => r == Err::<
                    VerifiedOutcome,
                    GateError,
                >(GateError::ProviderRejected(rej)) && final(reg)@ == old(reg)@,
            }
        }),
{
    match verdict {
        crate::provider::ProviderVerdict::Accepted => on_verified(reg, key),
        crate::provider::ProviderVerdict::Rejected(rej) => Err(GateError::ProviderRejected(rej)),
    }
}

} // verus!
