//! The computed parts of the HTTP front end: the verification page
//! and the existence check behind it.
//!
//! Routing, extraction and the outbound provider call are unverified
//! plumbing; it hands this module plain values and serves the
//! strings it returns.

use vstd::prelude::*;

use vstd::string::StringExecFns;

use crate::errors::{GateError, ProviderRejection};
use crate::registry::{JoinRequestKey, Registry};
use crate::text::{i64_to_dec, spec_dec_int, spec_dec_nat, u64_to_dec};

verus! {

/// The HTTP status each error kind answers with: an absent request
/// is not found; a duplicate insert is a conflict; an already-used
/// proof maps to too-many-requests so the front end can word it as
/// "you can't verify twice"; any other rejected proof is a bad
/// request; a failed side effect after a won key is an internal
/// error.
pub open spec fn spec_http_status(err: GateError) -> u16 {
    match err {
        GateError::DuplicateKey => 409,
        GateError::NotFound => 404,
        GateError::SideEffectFailure(_) => 500,
        GateError::ProviderRejected(ProviderRejection::AlreadyUsed) => 429,
        GateError::ProviderRejected(ProviderRejection::InvalidProof) => 400,
    }
}

/// Maps an error kind to the HTTP status the front end answers
/// with.
pub fn http_status_of(err: GateError) -> (s: u16)
    ensures
        s == spec_http_status(err),
{
    match err {
        GateError::DuplicateKey => 409,
        GateError::NotFound => 404,
        GateError::SideEffectFailure(_) => 500,
        GateError::ProviderRejected(ProviderRejection::AlreadyUsed) => 429,
        GateError::ProviderRejected(ProviderRejection::InvalidProof) => 400,
    }
}

/// Whether a verification for `key` is still pending, hence whether
/// the verification page and callback exist for it.
pub fn verification_pending(reg: &Registry, key: JoinRequestKey) -> (r: bool)
    ensures
        r == reg@.contains_key(key),
{
    reg.peek(key).is_some()
}

/// The verification page for one request: the subject identifier is
/// the proof signal, the group identifier the action, and the proof
/// is posted back to the page's own path.
pub open spec fn spec_verify_page(app_id: Seq<char>, group: i64, subject: u64) -> Seq<char> {
    "<!DOCTYPE html>\n<html lang=\"en\">\n<head>\n<meta charset=\"UTF-8\" />\n<meta http-equiv=\"X-UA-Compatible\" content=\"IE=edge\" />\n<meta name=\"viewport\" content=\"width=device-width, initial-scale=1.0\" />\n<title>Verify with World ID</title>\n</head>\n<body>\n<script src=\"https://unpkg.com/@worldcoin/idkit-standalone/build/index.global.js\"></script>\n<script>\nIDKit.init({\nautoClose: true,\nsignal: '"@
        + spec_dec_nat(subject as nat) + "',\napp_id: '"@ + app_id + "',\naction: '"@
        + spec_dec_int(group as int)
        + "',\nenableTelemetry: true,\ncredential_types: ['phone', 'orb'],\n})\n\nwindow.addEventListener('load', async () => {\nconst res = await fetch('/verify/"@
        + spec_dec_int(group as int) + "/"@ + spec_dec_nat(subject as nat)
        + "', {\nmethod: 'POST',\nbody: JSON.stringify(await IDKit.open()),\nheaders: { 'Content-Type': 'application/json' },\n})\n\nif (res.ok) alert('Successfully verified! You can now close this and go back to the group.')\nelse if (res.status === 429) alert('This World ID has already been used to join this group. You can\\'t do it again!')\nelse alert('Something went wrong, please try again later.')\n\nwindow.close()\n})\n</script>\n</body>\n</html>"@
}

/// Renders the verification page for one request.
pub fn verify_page_html(app_id: &str, group: i64, subject: u64) -> (r: String)
    ensures
        r@ == spec_verify_page(app_id@, group, subject),
{
    let signal = u64_to_dec(subject);
    let action = i64_to_dec(group);
    let mut page = String::new();
    page.append(
        "<!DOCTYPE html>\n<html lang=\"en\">\n<head>\n<meta charset=\"UTF-8\" />\n<meta http-equiv=\"X-UA-Compatible\" content=\"IE=edge\" />\n<meta name=\"viewport\" content=\"width=device-width, initial-scale=1.0\" />\n<title>Verify with World ID</title>\n</head>\n<body>\n<script src=\"https://unpkg.com/@worldcoin/idkit-standalone/build/index.global.js\"></script>\n<script>\nIDKit.init({\nautoClose: true,\nsignal: '",
    );
    page.append(signal.as_str());
    page.append("',\napp_id: '");
    page.append(app_id);
    page.append("',\naction: '");
    page.append(action.as_str());
    page.append(
        "',\nenableTelemetry: true,\ncredential_types: ['phone', 'orb'],\n})\n\nwindow.addEventListener('load', async () => {\nconst res = await fetch('/verify/",
    );
    page.append(action.as_str());
    page.append("/");
    page.append(signal.as_str());
    page.append(
        "', {\nmethod: 'POST',\nbody: JSON.stringify(await IDKit.open()),\nheaders: { 'Content-Type': 'application/json' },\n})\n\nif (res.ok) alert('Successfully verified! You can now close this and go back to the group.')\nelse if (res.status === 429) alert('This World ID has already been used to join this group. You can\\'t do it again!')\nelse alert('Something went wrong, please try again later.')\n\nwindow.close()\n})\n</script>\n</body>\n</html>",
    );
    proof {
        assert(page@ =~= spec_verify_page(app_id@, group, subject));
    }
    page
}

} // verus!
