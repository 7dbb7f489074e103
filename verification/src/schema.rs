use vstd::prelude::*;

use crate::text::str_eq;

verus! {

/// The canonical textual identifier of the governance canister.
pub const GOVERNANCE_CANISTER_ID: &'static str = "rrkah-fqaaa-aaaaa-aaaaq-cai";

/// The canonical textual identifier of the ledger canister.
pub const LEDGER_CANISTER_ID: &'static str = "ryjl3-tyaaa-aaaaa-aaaba-cai";

/// The bundled interface description of the governance canister.
pub const GOVERNANCE_INTERFACE: &'static str = "type NeuronId = record { id : nat64 }; type IncreaseDissolveDelay = record { additional_dissolve_delay_seconds : nat32 }; type StartDissolving = record {}; type StopDissolving = record {}; type AddHotKey = record { new_hot_key : opt principal }; type RemoveHotKey = record { hot_key_to_remove : opt principal }; type Operation = variant { RemoveHotKey : RemoveHotKey; StartDissolving : StartDissolving; StopDissolving : StopDissolving; AddHotKey : AddHotKey; IncreaseDissolveDelay : IncreaseDissolveDelay }; type Configure = record { operation : opt Operation }; type AccountIdentifier = record { hash : vec nat8 }; type ICPTs = record { e8s : nat64 }; type Disburse = record { to_account : opt AccountIdentifier; amount : opt ICPTs }; type Command = variant { Configure : Configure; Disburse : Disburse }; type ManageNeuron = record { id : opt NeuronId; command : opt Command }; type GovernanceError = record { error_type : int32; error_message : text }; type ManageNeuronResponse = record { command : opt variant { Error : GovernanceError; Configure : record {}; Disburse : record { transfer_block_height : nat64 } } }; service : { manage_neuron : (ManageNeuron) -> (ManageNeuronResponse) }";

/// The bundled interface description of the ledger canister.
pub const LEDGER_INTERFACE: &'static str = "type ICPTs = record { e8s : nat64 }; type AccountIdentifier = text; type BlockHeight = nat64; type Memo = nat64; type TimeStamp = record { timestamp_nanos : nat64 }; type SendArgs = record { memo : Memo; amount : ICPTs; fee : ICPTs; from_subaccount : opt vec nat8; to : AccountIdentifier; created_at_time : opt TimeStamp }; service : { send_dfx : (SendArgs) -> (BlockHeight) }";

/// Whether a canister identifier has a bundled interface description.
pub open spec fn known_canister(id: Seq<char>) -> bool {
    id == GOVERNANCE_CANISTER_ID@ || id == LEDGER_CANISTER_ID@
}

/// The bundled interface-description text of a known canister identifier.
pub open spec fn bundled_schema(id: Seq<char>) -> Seq<char> {
    if id == GOVERNANCE_CANISTER_ID@ {
        GOVERNANCE_INTERFACE@
    } else {
        LEDGER_INTERFACE@
    }
}

/// Looks up the bundled interface-description text of a canister: the two
/// known identifiers have one, every other identifier has none.
pub fn get_local_candid(canister_id: &str) -> (r: Option<String>)
    ensures
        (r is Some) == known_canister(canister_id@),
        known_canister(canister_id@) ==> (r matches Some(s) && s@ == bundled_schema(canister_id@)),
{
    if str_eq(canister_id, GOVERNANCE_CANISTER_ID) {
        Some(GOVERNANCE_INTERFACE.to_owned())
    } else if str_eq(canister_id, LEDGER_CANISTER_ID) {
        Some(LEDGER_INTERFACE.to_owned())
    } else {
        None
    }
}

/// Whether a method's type signature resolves from an interface-description
/// text: the text parses, type-checks into a service, and the service holds
/// the named method. A deterministic function of the two texts alone.
pub uninterp spec fn method_resolves(idl: Seq<char>, method: Seq<char>) -> bool;

/// Relies on candid's schema pipeline: the FromStr impl of candid::IDLProg,
/// candid::TypeEnv::new with candid::check_prog, and candid::TypeEnv::
/// get_method. Each step is a deterministic function of the texts; the
/// cause of a failure is discarded, an interface without a service yields
/// nothing.
#[verifier::external_body]
fn resolve_method(idl: &str, method_name: &str) -> (r: Option<
    (candid::TypeEnv, candid::types::Function),
>)
    ensures
        (r is Some) == method_resolves(idl@, method_name@),
{
    let ast = idl.parse::<candid::IDLProg>().ok()?;
    let mut env = candid::TypeEnv::new();
    let actor = candid::check_prog(&mut env, &ast).ok()??;
    let method = env.get_method(&actor, method_name).ok()?.clone();
    Some((env, method))
}

/// Resolves a method's type signature from an interface-description text:
/// the type environment of the checked text, with the named method's
/// signature. It yields a binding exactly when the text parses, type-checks
/// into a service, and the service holds the method; on any failure it
/// yields none, silently, and the caller falls back to untyped decoding.
pub fn get_candid_type(idl: String, method_name: &str) -> (r: Option<
    (candid::TypeEnv, candid::types::Function),
>)
    ensures
        (r is Some) == method_resolves(idl@, method_name@),
{
    resolve_method(idl.as_str(), method_name)
}

} // verus!
