use neuron_bundle::codec::{get_idl_string, hex_encode};
use neuron_bundle::schema::{
    get_candid_type, get_local_candid, GOVERNANCE_CANISTER_ID, GOVERNANCE_INTERFACE,
    LEDGER_CANISTER_ID,
};
use neuron_bundle::text::{join_with_commas, str_eq, u64_dec};

fn sample_bytes() -> Vec<u8> {
    let args: candid::IDLArgs = "(42 : nat64, \"hello\")".parse().unwrap();
    args.to_bytes().unwrap()
}

#[test]
fn raw_mode_is_hexadecimal() {
    let bytes = [0u8, 171u8, 16u8, 255u8];
    let out = get_idl_string(&bytes, "anything", "m", "args", "raw").unwrap();
    assert_eq!(out, "00ab10ff");
}

#[test]
fn raw_mode_is_schema_independent() {
    let bytes = sample_bytes();
    let with_schema =
        get_idl_string(&bytes, GOVERNANCE_CANISTER_ID, "manage_neuron", "args", "raw").unwrap();
    let without_schema = get_idl_string(&bytes, "aaaaa-aa", "manage_neuron", "rets", "raw").unwrap();
    assert_eq!(with_schema, without_schema);
    assert_eq!(with_schema, hex_encode(&bytes));
}

#[test]
fn unknown_canister_falls_back_to_untyped() {
    let bytes = sample_bytes();
    let rendered = get_idl_string(&bytes, "aaaaa-aa", "some_method", "args", "idl").unwrap();
    assert!(rendered.contains("42"));
    assert!(rendered.contains("hello"));
    let pretty = get_idl_string(&bytes, "aaaaa-aa", "some_method", "args", "pp").unwrap();
    assert!(pretty.contains("42"));
}

#[test]
fn malformed_bytes_are_a_decode_error() {
    let bytes = [1u8, 2u8, 3u8];
    assert!(get_idl_string(&bytes, "aaaaa-aa", "m", "args", "idl").is_err());
    assert!(get_idl_string(&bytes, GOVERNANCE_CANISTER_ID, "manage_neuron", "args", "pp").is_err());
}

#[test]
fn invalid_output_type_is_a_user_error() {
    let bytes = sample_bytes();
    match get_idl_string(&bytes, "aaaaa-aa", "m", "args", "json") {
        Err(e) => assert_eq!(e.message(), "Invalid output type: json"),
        Ok(_) => panic!("an unknown output mode must be refused"),
    }
}

#[test]
fn known_canisters_have_bundled_schemas() {
    assert!(get_local_candid(GOVERNANCE_CANISTER_ID).is_some());
    assert!(get_local_candid(LEDGER_CANISTER_ID).is_some());
    assert!(get_local_candid("aaaaa-aa").is_none());
    let text = get_local_candid(GOVERNANCE_CANISTER_ID).unwrap();
    assert!(text.contains("manage_neuron"));
}

#[test]
fn governance_schema_resolves_manage_neuron() {
    let schema = String::from(GOVERNANCE_INTERFACE);
    assert!(get_candid_type(schema, "manage_neuron").is_some());
    let schema = String::from(GOVERNANCE_INTERFACE);
    assert!(get_candid_type(schema, "no_such_method").is_none());
    assert!(get_candid_type(String::from("not a schema"), "manage_neuron").is_none());
}

#[test]
fn ledger_schema_resolves_its_method() {
    let schema = get_local_candid(LEDGER_CANISTER_ID).unwrap();
    assert!(get_candid_type(schema, "send_dfx").is_some());
}

#[test]
fn typed_decode_restores_field_names() {
    let args: candid::IDLArgs = "(record { id = opt record { id = 5 : nat64 }; command = null })"
        .parse()
        .unwrap();
    let bytes = args.to_bytes().unwrap();
    let typed =
        get_idl_string(&bytes, GOVERNANCE_CANISTER_ID, "manage_neuron", "args", "pp").unwrap();
    assert!(typed.contains("id"));
    let untyped = get_idl_string(&bytes, "aaaaa-aa", "manage_neuron", "args", "pp").unwrap();
    assert_ne!(typed, untyped);
}

#[test]
fn typed_idl_mode_decodes_on_known_canister() {
    let args: candid::IDLArgs = "(record { id = opt record { id = 9 : nat64 }; command = null })"
        .parse()
        .unwrap();
    let bytes = args.to_bytes().unwrap();
    let compact =
        get_idl_string(&bytes, GOVERNANCE_CANISTER_ID, "manage_neuron", "args", "idl").unwrap();
    assert!(compact.contains("9"));
    let unresolved =
        get_idl_string(&bytes, GOVERNANCE_CANISTER_ID, "no_such_method", "args", "idl").unwrap();
    assert!(unresolved.contains("9"));
}

#[test]
fn rets_part_selects_return_types() {
    let args: candid::IDLArgs = "(record { command = null })".parse().unwrap();
    let bytes = args.to_bytes().unwrap();
    let rendered =
        get_idl_string(&bytes, GOVERNANCE_CANISTER_ID, "manage_neuron", "rets", "pp").unwrap();
    assert!(rendered.contains("command"));
}

#[test]
fn decimal_rendering_is_exact() {
    assert_eq!(u64_dec(0), "0");
    assert_eq!(u64_dec(7), "7");
    assert_eq!(u64_dec(86400), "86400");
    assert_eq!(u64_dec(u64::MAX), "18446744073709551615");
}

#[test]
fn hex_rendering_is_exact() {
    assert_eq!(hex_encode(&[]), "");
    assert_eq!(hex_encode(&[0]), "00");
    assert_eq!(hex_encode(&[255, 1]), "ff01");
}

#[test]
fn string_equality_is_by_contents() {
    assert!(str_eq("abc", "abc"));
    assert!(!str_eq("abc", "abd"));
    assert!(!str_eq("abc", "ab"));
    assert!(str_eq("", ""));
}

#[test]
fn joining_is_exact() {
    let none: Vec<String> = Vec::new();
    assert_eq!(join_with_commas(&none), "");
    let one = vec![String::from("a")];
    assert_eq!(join_with_commas(&one), "a");
    let three = vec![String::from("a"), String::from("b"), String::from("c")];
    assert_eq!(join_with_commas(&three), "a,b,c");
}
