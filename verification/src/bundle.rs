use vstd::prelude::*;
use vstd::string::StringExecFns;

use crate::error::BundleError;
use crate::principal::{principal_text_ok, Principal};
use crate::schema::GOVERNANCE_CANISTER_ID;
use crate::text::{join_comma, join_with_commas};

verus! {

/// The method every payload of the batch is addressed to.
pub const MANAGE_NEURON_METHOD: &'static str = "manage_neuron";

/// Resolves the fixed target canister identifier from its canonical textual
/// form; a constant that does not parse is a fatal configuration error.
pub fn governance_principal() -> (r: Result<Principal, BundleError>)
    ensures
        (r is Ok) == principal_text_ok(GOVERNANCE_CANISTER_ID@),
        r matches Ok(p) ==> p@ == GOVERNANCE_CANISTER_ID@ && p.wf(),
        r matches Err(e) ==> e is Config,
{
    match Principal::from_text(GOVERNANCE_CANISTER_ID) {
        Some(p) => Ok(p),
        None => Err(BundleError::Config("Invalid governance canister id".to_owned())),
    }
}

/// What the signing collaborator hands back for one payload: the serialized
/// signed call envelope, and the request identifier derived during signing
/// (absent only if the collaborator broke its contract).
pub struct SignedEnvelope {
    pub buffer: String,
    pub request_id: Option<String>,
}

/// Extracts the request identifier a signed envelope must carry; an
/// envelope without one is an unrecoverable internal fault, never retried.
pub fn require_request_id(envelope: &SignedEnvelope) -> (r: Result<String, BundleError>)
    ensures
        (r is Ok) == (envelope.request_id is Some),
        r matches Ok(id) ==> id@ == envelope.request_id.unwrap()@,
        r matches Err(e) ==> e is MissingRequestId,
{
    match &envelope.request_id {
        Some(id) => Ok(id.clone()),
        None => Err(BundleError::MissingRequestId),
    }
}

/// One bundle entry: the signed call envelope and the signed status poll for
/// its request identifier, merged verbatim into one textual object.
pub open spec fn entry_text(ingress: Seq<char>, request_status: Seq<char>) -> Seq<char> {
    "{ \"ingress\": "@ + ingress + ", \"request_status\": "@ + request_status + "}"@
}

/// Merges a signed call envelope and its signed status poll into one bundle
/// entry, both taken verbatim.
pub fn bundle_entry(ingress: &str, request_status: &str) -> (r: String)
    ensures
        r@ == entry_text(ingress@, request_status@),
{
    let mut out = "{ \"ingress\": ".to_owned();
    out.append(ingress);
    out.append(", \"request_status\": ");
    out.append(request_status);
    out.append("}");
    out
}

/// The whole artifact: every bundle entry, comma-joined inside brackets.
pub open spec fn artifact_text(entries: Seq<Seq<char>>) -> Seq<char> {
    "["@ + join_comma(entries) + "]"@
}

/// Concatenates the bundle entries into the final artifact. An empty batch
/// is a construction error, never an empty artifact.
pub fn assemble_artifact(entries: &Vec<String>) -> (r: Result<String, BundleError>)
    ensures
        (r is Ok) == (entries@.len() > 0),
        r matches Ok(s) ==> s@ == artifact_text(entries@.map_values(|e: String| e@)),
        r matches Err(e) ==> e is NoInstructions,
{
    if entries.len() == 0 {
        return Err(BundleError::NoInstructions);
    }
    let mut out = "[".to_owned();
    let body = join_with_commas(entries);
    out.append(body.as_str());
    out.append("]");
    Ok(out)
}

} // verus!
