use vstd::prelude::*;

use crate::candid_api::candid_error_text;
use crate::error::BundleError;
use crate::model::{active_count, build_requests, ManageNeuron, ManageOpts, requests_spec};
use crate::render::{render_request, request_text};

verus! {

/// What candid's canonical binary encoding makes of an argument text:
/// the encoded bytes, or nothing where candid refuses the text.
pub uninterp spec fn candid_encoded(s: Seq<char>) -> Option<Seq<u8>>;

/// Relies on candid's textual argument parser (the FromStr impl of
/// candid::IDLArgs) and its serializer (candid::IDLArgs::to_bytes): whether
/// the text parses, and the bytes the parsed arguments serialize to, depend
/// on the text alone.
#[verifier::external_body]
fn encode_args_text(s: &str) -> (r: Result<Vec<u8>, candid::Error>)
    ensures
        (r is Ok) == (candid_encoded(s@) is Some),
        r matches Ok(b) ==> b@ == candid_encoded(s@).unwrap(),
{
    match s.parse::<candid::IDLArgs>() {
        Ok(args) => args.to_bytes(),
        Err(e) => Err(e),
    }
}

/// Whether a request's canonical binary encoding succeeds.
pub open spec fn encodable(m: ManageNeuron) -> bool {
    candid_encoded(request_text(m)) is Some
}

/// The canonical binary argument of one request.
pub open spec fn encoded_request(m: ManageNeuron) -> Seq<u8> {
    candid_encoded(request_text(m)).unwrap()
}

/// Encodes one request into the canonical binary argument form of
/// `manage_neuron`.
pub fn encode_manage_neuron(m: &ManageNeuron) -> (r: Result<Vec<u8>, BundleError>)
    ensures
        (r is Ok) == encodable(*m),
        r matches Ok(b) ==> b@ == encoded_request(*m),
        r matches Err(e) ==> e is Encode,
{
    let tx = render_request(m);
    match encode_args_text(tx.as_str()) {
        Ok(b) => Ok(b),
        Err(e) => Err(BundleError::Encode(candid_error_text(&e))),
    }
}

/// Whether every request of the intent set's batch encodes.
pub open spec fn all_encodable(o: ManageOpts) -> bool {
    forall|i: int| 0 <= i < requests_spec(o).len() ==> encodable(#[trigger] requests_spec(o)[i])
}

/// Builds and encodes the whole payload batch of an intent set: one payload
/// per active intent, in the fixed emission order. With no active intent the
/// batch is refused before anything is encoded or signed.
#[verifier::rlimit(100)]
pub fn build_payloads(opts: ManageOpts) -> (r: Result<Vec<Vec<u8>>, BundleError>)
    ensures
        (r is Ok) == (active_count(opts) > 0 && all_encodable(opts)),
        r matches Ok(ps) ==> ps@.len() == active_count(opts) && (forall|i: int|
            0 <= i < ps@.len() ==> (#[trigger] ps@[i])@ == encoded_request(requests_spec(opts)[i])),
        (r matches Err(e) && e is NoInstructions) == (active_count(opts) == 0),
        active_count(opts) > 0 && r is Err ==> !all_encodable(opts) && (r matches Err(e)
            && e is Encode),
{
    let msgs = build_requests(opts);
    if msgs.len() == 0 {
        return Err(BundleError::NoInstructions);
    }
    let mut out: Vec<Vec<u8>> = Vec::new();
    let mut i: usize = 0;
    while i < msgs.len()
        invariant
            msgs@ == requests_spec(opts),
            0 <= i <= msgs@.len(),
            out@.len() == i,
            forall|j: int| 0 <= j < i ==> encodable(#[trigger] msgs@[j]),
            forall|j: int| 0 <= j < i ==> (#[trigger] out@[j])@ == encoded_request(msgs@[j]),
        decreases msgs@.len() - i,
    {
        match encode_manage_neuron(&msgs[i]) {
            Ok(b) => out.push(b),
            Err(e) => {
                proof {
                    assert(!encodable(requests_spec(opts)[i as int]));
                }
                return Err(e);
            },
        }
        i += 1;
    }
    Ok(out)
}

} // verus!
