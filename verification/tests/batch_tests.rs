use neuron_bundle::batch::{build_payloads, encode_manage_neuron};
use neuron_bundle::bundle::{
    assemble_artifact, bundle_entry, governance_principal, require_request_id, SignedEnvelope,
    MANAGE_NEURON_METHOD,
};
use neuron_bundle::codec::get_idl_string;
use neuron_bundle::error::BundleError;
use neuron_bundle::model::{
    AccountIdentifier, AddHotKey, Command, Configure, Disburse, Icpts, ManageNeuron, ManageOpts,
    NeuronId, Operation, StopDissolving,
};
use neuron_bundle::render::render_request;
use neuron_bundle::principal::Principal;
use neuron_bundle::schema::GOVERNANCE_CANISTER_ID;

fn empty_opts(neuron_id: u64) -> ManageOpts {
    ManageOpts {
        neuron_id,
        add_hot_key: None,
        remove_hot_key: None,
        additional_dissolve_delay_seconds: None,
        start_dissolving: false,
        stop_dissolving: false,
        disburse: false,
    }
}

fn typed_pp(bytes: &[u8]) -> String {
    get_idl_string(bytes, GOVERNANCE_CANISTER_ID, MANAGE_NEURON_METHOD, "args", "pp").unwrap()
}

#[test]
fn empty_intent_set_is_refused() {
    match build_payloads(empty_opts(5)) {
        Err(e) => assert_eq!(e.message(), "No instructions provided"),
        Ok(_) => panic!("an empty intent set must be refused"),
    }
}

#[test]
fn no_flags_means_no_signing() {
    let mut sign_calls = 0;
    let mut entries: Vec<String> = Vec::new();
    if let Ok(payloads) = build_payloads(empty_opts(9)) {
        for _payload in payloads {
            sign_calls += 1;
            entries.push(String::from("signed"));
        }
    }
    assert_eq!(sign_calls, 0);
    assert!(assemble_artifact(&entries).is_err());
}

#[test]
fn hot_key_and_stop_dissolving_make_two_payloads() {
    let principal = Principal::from_text("2vxsx-fae").unwrap();
    let mut opts = empty_opts(42);
    opts.add_hot_key = Some(principal);
    opts.stop_dissolving = true;
    let payloads = build_payloads(opts).unwrap();
    assert_eq!(payloads.len(), 2);
    let first = typed_pp(&payloads[0]);
    assert!(first.contains("AddHotKey"));
    assert!(first.contains("2vxsx-fae"));
    assert!(first.contains("42"));
    let second = typed_pp(&payloads[1]);
    assert!(second.contains("StopDissolving"));
    assert!(!second.contains("AddHotKey"));
}

#[test]
fn dissolve_delay_only_makes_one_payload() {
    let mut opts = empty_opts(7);
    opts.additional_dissolve_delay_seconds = Some(86400);
    let payloads = build_payloads(opts).unwrap();
    assert_eq!(payloads.len(), 1);
    let rendered = typed_pp(&payloads[0]);
    assert!(rendered.contains("IncreaseDissolveDelay"));
    assert!(rendered.contains("86_400"));
}

#[test]
fn emission_order_is_fixed() {
    let principal = Principal::from_text("2vxsx-fae").unwrap();
    let mut opts = empty_opts(3);
    opts.disburse = true;
    opts.start_dissolving = true;
    opts.stop_dissolving = true;
    opts.remove_hot_key = Some(principal);
    let payloads = build_payloads(opts).unwrap();
    assert_eq!(payloads.len(), 4);
    assert!(typed_pp(&payloads[0]).contains("RemoveHotKey"));
    assert!(typed_pp(&payloads[1]).contains("StopDissolving"));
    assert!(typed_pp(&payloads[2]).contains("StartDissolving"));
    assert!(typed_pp(&payloads[3]).contains("Disburse"));
}

#[test]
fn payloads_are_candid_encoded() {
    let mut opts = empty_opts(1);
    opts.disburse = true;
    let payloads = build_payloads(opts).unwrap();
    assert_eq!(&payloads[0][0..4], b"DIDL");
    let decoded = candid::IDLArgs::from_bytes(&payloads[0]);
    assert!(decoded.is_ok());
}

#[test]
fn encode_then_typed_decode_round_trips() {
    let request = ManageNeuron {
        id: NeuronId { id: 42 },
        command: Command::Configure(Configure {
            operation: Some(Operation::AddHotKey(AddHotKey {
                new_hot_key: Some(Principal::from_text("2vxsx-fae").unwrap()),
            })),
        }),
    };
    let bytes = encode_manage_neuron(&request).unwrap();
    let rendered = typed_pp(&bytes);
    assert!(rendered.contains("id = 42"));
    assert!(rendered.contains("AddHotKey"));
    assert!(rendered.contains("new_hot_key"));
    assert!(rendered.contains("2vxsx-fae"));
}

#[test]
fn request_text_is_canonical() {
    let request = ManageNeuron {
        id: NeuronId { id: 42 },
        command: Command::Configure(Configure {
            operation: Some(Operation::StopDissolving(StopDissolving {})),
        }),
    };
    assert_eq!(
        render_request(&request),
        "(record { id = opt record { id = 42 : nat64 }; command = opt variant { \
         Configure = record { operation = opt variant { StopDissolving = record {} } } } })"
    );
}

#[test]
fn disburse_with_fields_encodes() {
    let request = ManageNeuron {
        id: NeuronId { id: 1 },
        command: Command::Disburse(Disburse {
            to_account: Some(AccountIdentifier { hash: vec![1, 2, 255] }),
            amount: Some(Icpts { e8s: 100_000_000 }),
        }),
    };
    let text = render_request(&request);
    assert!(text.contains("to_account = opt record { hash = vec { 1 : nat8; 2 : nat8; 255 : nat8 } }"));
    assert!(text.contains("amount = opt record { e8s = 100000000 : nat64 }"));
    let bytes = encode_manage_neuron(&request).unwrap();
    let rendered = typed_pp(&bytes);
    assert!(rendered.contains("Disburse"));
    assert!(rendered.contains("100_000_000"));
}

#[test]
fn envelope_with_id_yields_it() {
    let envelope = SignedEnvelope {
        buffer: String::from("{}"),
        request_id: Some(String::from("abc123")),
    };
    assert_eq!(require_request_id(&envelope).unwrap(), "abc123");
}

#[test]
fn envelope_without_id_is_a_fault() {
    let envelope = SignedEnvelope { buffer: String::from("{}"), request_id: None };
    match require_request_id(&envelope) {
        Err(e) => assert_eq!(e.message(), "No request id for transfer call found"),
        Ok(_) => panic!("a missing request id must be a fault"),
    }
}

#[test]
fn bundle_entry_merges_verbatim() {
    let entry = bundle_entry("{\"a\":1}", "{\"b\":2}");
    assert_eq!(entry, "{ \"ingress\": {\"a\":1}, \"request_status\": {\"b\":2}}");
}

#[test]
fn artifact_joins_entries() {
    let entries = vec![String::from("{ \"x\": 1}"), String::from("{ \"y\": 2}")];
    let artifact = assemble_artifact(&entries).unwrap();
    assert_eq!(artifact, "[{ \"x\": 1},{ \"y\": 2}]");
}

#[test]
fn artifact_of_one_entry_has_no_comma() {
    let entries = vec![String::from("{}")];
    assert_eq!(assemble_artifact(&entries).unwrap(), "[{}]");
}

#[test]
fn governance_target_resolves() {
    let principal = governance_principal().unwrap();
    assert_eq!(principal.as_text(), GOVERNANCE_CANISTER_ID);
}

#[test]
fn bad_principal_text_is_rejected() {
    assert!(Principal::from_text("not-a-principal").is_none());
    assert!(Principal::from_text("").is_none());
}

#[test]
fn full_batch_drives_to_artifact() {
    let mut opts = empty_opts(42);
    opts.stop_dissolving = true;
    opts.disburse = true;
    let payloads = build_payloads(opts).unwrap();
    let mut sign_calls = 0;
    let mut entries: Vec<String> = Vec::new();
    for payload in &payloads {
        sign_calls += 1;
        let envelope = SignedEnvelope {
            buffer: format!("{{\"content\":\"{}\"}}", payload.len()),
            request_id: Some(String::from("deadbeef")),
        };
        let request_id = require_request_id(&envelope).unwrap();
        let status = format!("{{\"poll\":\"{}\"}}", request_id);
        entries.push(bundle_entry(&envelope.buffer, &status));
    }
    assert_eq!(sign_calls, 2);
    let artifact = assemble_artifact(&entries).unwrap();
    assert!(artifact.starts_with("[{ \"ingress\": "));
    assert!(artifact.ends_with("}]"));
    assert_eq!(artifact.matches("\"request_status\"").count(), 2);
}
