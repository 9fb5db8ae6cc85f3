//! Interpreting the proof-verification provider's answer.
//!
//! The outbound HTTP call itself is unverified plumbing; it hands
//! this module the response's status and, for error responses, the
//! `code` field of the response body.  The classification decides
//! whether the proof is accepted, invalid, or already used -- the
//! last must reach the front end as a distinct outcome.

use vstd::prelude::*;

use crate::errors::ProviderRejection;
use crate::text::str_eq;

verus! {

/// The provider's verdict on one submitted proof.
#[derive(Clone, Copy, PartialEq, Eq, Debug)]
pub enum ProviderVerdict {
    /// The proof was accepted: the resolver may complete the
    /// request.
    Accepted,
    /// The proof was declined; the request must stay pending.
    Rejected(ProviderRejection),
}

/// How a provider response reads: error statuses (400 through 599)
/// are rejections, the code `max_verifications_reached` marking a
/// proof that was already used; everything else is acceptance.
pub open spec fn spec_classify_provider_response(
    status: u16,
    code: Option<Seq<char>>,
) -> ProviderVerdict {
    if status < 400 || status >= 600 {
        ProviderVerdict::Accepted
    } else if code == Some("max_verifications_reached"@) {
        ProviderVerdict::Rejected(ProviderRejection::AlreadyUsed)
    } else {
        ProviderVerdict::Rejected(ProviderRejection::InvalidProof)
    }
}

/// Classifies a provider response from its HTTP status and the
/// `code` field of its error body, if any.
pub fn classify_provider_response(status: u16, code: Option<&str>) -> (r: ProviderVerdict)
    ensures
        r == spec_classify_provider_response(
            status,
            match code {
                Some(c) => Some(c@),
                None => None::<Seq<char>>,
            },
        ),
{
    if status < 400 || status >= 600 {
        return ProviderVerdict::Accepted;
    }
    match code {
        Some(c) => {
            if str_eq(c, "max_verifications_reached") {
                ProviderVerdict::Rejected(ProviderRejection::AlreadyUsed)
            } else {
                ProviderVerdict::Rejected(ProviderRejection::InvalidProof)
            }
        },
        None => ProviderVerdict::Rejected(ProviderRejection::InvalidProof),
    }
}

/// The action and signal the provider call must carry, derived from
/// the request key: the group renders as the action, the subject as
/// the signal.
pub struct ProviderCallParams {
    /// Decimal rendering of the group identifier.
    pub action: String,
    /// Decimal rendering of the subject identifier.
    pub signal: String,
}

/// Derives the action/signal pair of the provider call for `key`.
pub fn provider_call_params(key: crate::registry::JoinRequestKey) -> (r: ProviderCallParams)
    ensures
        r.action@ == crate::text::spec_dec_int(key.group as int),
        r.signal@ == crate::text::spec_dec_nat(key.subject as nat),
{
    ProviderCallParams {
        action: crate::text::i64_to_dec(key.group),
        signal: crate::text::u64_to_dec(key.subject),
    }
}

} // verus!
