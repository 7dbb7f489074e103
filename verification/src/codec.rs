use vstd::prelude::*;
use vstd::string::StringExecFns;

use crate::candid_api::candid_error_text;
use crate::error::BundleError;
use crate::schema::{
    bundled_schema, get_candid_type, get_local_candid, known_canister, method_resolves,
};
use crate::text::str_eq;

verus! {

broadcast use vstd::string::group_string_axioms;

/// The single hexadecimal digit for a value below sixteen, lower case.
pub open spec fn hex_digit(d: int) -> Seq<char> {
    if d == 0 {
        "0"@
    } else if d == 1 {
        "1"@
    } else if d == 2 {
        "2"@
    } else if d == 3 {
        "3"@
    } else if d == 4 {
        "4"@
    } else if d == 5 {
        "5"@
    } else if d == 6 {
        "6"@
    } else if d == 7 {
        "7"@
    } else if d == 8 {
        "8"@
    } else if d == 9 {
        "9"@
    } else if d == 10 {
        "a"@
    } else if d == 11 {
        "b"@
    } else if d == 12 {
        "c"@
    } else if d == 13 {
        "d"@
    } else if d == 14 {
        "e"@
    } else {
        "f"@
    }
}

/// One byte as two hexadecimal digits, high digit first.
pub open spec fn hex_byte(b: u8) -> Seq<char> {
    hex_digit(b as int / 16) + hex_digit(b as int % 16)
}

/// A byte sequence as its hexadecimal rendering, two digits per byte.
pub open spec fn hex_of(bs: Seq<u8>) -> Seq<char>
    decreases bs.len(),
{
    if bs.len() == 0 {
        Seq::empty()
    } else {
        hex_of(bs.drop_last()) + hex_byte(bs.last())
    }
}

fn hex_digit_str(d: u8) -> (r: &'static str)
    requires
        d < 16,
    ensures
        r@ == hex_digit(d as int),
{
    match d {
        0 => "0",
        1 => "1",
        2 => "2",
        3 => "3",
        4 => "4",
        5 => "5",
        6 => "6",
        7 => "7",
        8 => "8",
        9 => "9",
        10 => "a",
        11 => "b",
        12 => "c",
        13 => "d",
        14 => "e",
        _ => "f",
    }
}

/// Renders a byte sequence in hexadecimal, two lower-case digits per byte.
pub fn hex_encode(bs: &[u8]) -> (r: String)
    ensures
        r@ == hex_of(bs@),
{
    let mut out = String::new();
    let mut i: usize = 0;
    while i < bs.len()
        invariant
            0 <= i <= bs@.len(),
            out@ == hex_of(bs@.take(i as int)),
        decreases bs@.len() - i,
    {
        let b = bs[i];
        out.append(hex_digit_str(b / 16));
        out.append(hex_digit_str(b % 16));
        proof {
            let t = bs@.take(i + 1 as int);
            assert(t.drop_last() =~= bs@.take(i as int));
            assert(t.last() == bs@[i as int]);
        }
        i += 1;
    }
    proof {
        assert(bs@.take(bs@.len() as int) =~= bs@);
    }
    out
}

/// What the self-describing (untyped) decode of a binary value renders in
/// debug style: the text, or nothing where the bytes are malformed.
pub uninterp spec fn untyped_debug_of(b: Seq<u8>) -> Option<Seq<char>>;

/// What the self-describing (untyped) decode of a binary value renders in
/// display style: the text, or nothing where the bytes are malformed.
pub uninterp spec fn untyped_display_of(b: Seq<u8>) -> Option<Seq<char>>;

/// What the schema-typed decode of a binary value renders in debug style,
/// given the interface-description text, the method name, and whether the
/// argument (rather than the return) types are selected: the text, or
/// nothing where the schema does not resolve or the bytes are malformed for
/// the selected types.
pub uninterp spec fn typed_debug_of(
    idl: Seq<char>,
    method: Seq<char>,
    use_args: bool,
    b: Seq<u8>,
) -> Option<Seq<char>>;

/// The display-style twin of `typed_debug_of`.
pub uninterp spec fn typed_display_of(
    idl: Seq<char>,
    method: Seq<char>,
    use_args: bool,
    b: Seq<u8>,
) -> Option<Seq<char>>;

/// Whether a rendering outcome is exactly the named expected one: success
/// iff the name renders, and then the same text.
pub open spec fn pinned_to(r: Result<String, BundleError>, expected: Option<Seq<char>>) -> bool {
    &&& (r is Ok) == (expected is Some)
    &&& (r matches Ok(s) ==> s@ == expected.unwrap())
}

/// Relies on candid::IDLArgs::from_bytes and the debug rendering of the
/// decoded arguments: both depend on the bytes alone.
#[verifier::external_body]
fn decode_untyped_debug(blob: &[u8]) -> (r: Result<String, candid::Error>)
    ensures
        (r is Ok) == (untyped_debug_of(blob@) is Some),
        r matches Ok(s) ==> s@ == untyped_debug_of(blob@).unwrap(),
{
    match candid::IDLArgs::from_bytes(blob) {
        Ok(args) => Ok(format!("{:?}", args)),
        Err(e) => Err(e),
    }
}

/// Relies on candid::IDLArgs::from_bytes and the display rendering of the
/// decoded arguments: both depend on the bytes alone.
#[verifier::external_body]
fn decode_untyped_display(blob: &[u8]) -> (r: Result<String, candid::Error>)
    ensures
        (r is Ok) == (untyped_display_of(blob@) is Some),
        r matches Ok(s) ==> s@ == untyped_display_of(blob@).unwrap(),
{
    match candid::IDLArgs::from_bytes(blob) {
        Ok(args) => Ok(format!("{}", args)),
        Err(e) => Err(e),
    }
}

/// Relies on candid's schema pipeline (the FromStr impl of candid::IDLProg,
/// candid::check_prog, candid::TypeEnv::get_method) followed by
/// candid::IDLArgs::from_bytes_with_types over the method's argument or
/// return types, and the debug rendering of the decoded arguments: all
/// deterministic functions of the texts and the bytes. (candid 0.8 recurses
/// per nesting level of a value, without a depth bound: absurdly nested
/// values can exhaust the stack.)
#[verifier::external_body]
fn decode_with_schema_debug(blob: &[u8], idl: &str, method_name: &str, use_args: bool) -> (r:
    Result<String, candid::Error>)
    ensures
        (r is Ok) == (typed_debug_of(idl@, method_name@, use_args, blob@) is Some),
        r matches Ok(s) ==> s@ == typed_debug_of(idl@, method_name@, use_args, blob@).unwrap(),
{
    let ast: candid::IDLProg = idl.parse()?;
    let mut env = candid::TypeEnv::new();
    let actor = candid::check_prog(&mut env, &ast)?
        .ok_or_else(|| candid::Error::msg("no service in interface"))?;
    let func = env.get_method(&actor, method_name)?.clone();
    let tys = if use_args { &func.args } else { &func.rets };
    let args = candid::IDLArgs::from_bytes_with_types(blob, &env, tys)?;
    Ok(format!("{:?}", args))
}

/// The display-rendering twin of `decode_with_schema_debug`, relying on the
/// same candid pipeline.
#[verifier::external_body]
fn decode_with_schema_display(blob: &[u8], idl: &str, method_name: &str, use_args: bool) -> (r:
    Result<String, candid::Error>)
    ensures
        (r is Ok) == (typed_display_of(idl@, method_name@, use_args, blob@) is Some),
        r matches Ok(s) ==> s@ == typed_display_of(idl@, method_name@, use_args, blob@).unwrap(),
{
    let ast: candid::IDLProg = idl.parse()?;
    let mut env = candid::TypeEnv::new();
    let actor = candid::check_prog(&mut env, &ast)?
        .ok_or_else(|| candid::Error::msg("no service in interface"))?;
    let func = env.get_method(&actor, method_name)?.clone();
    let tys = if use_args { &func.args } else { &func.rets };
    let args = candid::IDLArgs::from_bytes_with_types(blob, &env, tys)?;
    Ok(format!("{}", args))
}

/// Renders a binary value under an optional interface-description text.
/// With none, or with one from which the method does not resolve, the
/// self-describing decode decides; with a resolving one, the schema-typed
/// decode does, over the argument or return types as `part` selects.
fn render_decoded(
    blob: &[u8],
    schema: Option<&String>,
    method_name: &str,
    part: &str,
    pretty: bool,
) -> (r: Result<String, BundleError>)
    ensures
        (match schema {
            None => true,
            Some(t) => !method_resolves(t@, method_name@),
        }) ==> pinned_to(
            r,
            if pretty {
                untyped_display_of(blob@)
            } else {
                untyped_debug_of(blob@)
            },
        ),
        (match schema {
            None => true,
            Some(t) => method_resolves(t@, method_name@) ==> pinned_to(
                r,
                if pretty {
                    typed_display_of(t@, method_name@, part@ == "args"@, blob@)
                } else {
                    typed_debug_of(t@, method_name@, part@ == "args"@, blob@)
                },
            ),
        }),
        r matches Err(e) ==> e is Decode,
{
    let decoded = match schema {
        None => {
            if pretty {
                decode_untyped_display(blob)
            } else {
                decode_untyped_debug(blob)
            }
        },
        Some(t) => {
            match get_candid_type(t.clone(), method_name) {
                None => {
                    if pretty {
                        decode_untyped_display(blob)
                    } else {
                        decode_untyped_debug(blob)
                    }
                },
                Some(_) => {
                    let use_args = str_eq(part, "args");
                    if pretty {
                        decode_with_schema_display(blob, t.as_str(), method_name, use_args)
                    } else {
                        decode_with_schema_debug(blob, t.as_str(), method_name, use_args)
                    }
                },
            }
        },
    };
    match decoded {
        Ok(s) => Ok(s),
        Err(e) => Err(BundleError::Decode(candid_error_text(&e))),
    }
}

/// Renders a binary value for display. `raw` renders the bytes in
/// hexadecimal, whatever the canister; `idl` and `pp` decode them, under the
/// canister's bundled schema where the method's signature resolves, untyped
/// otherwise; any other mode is refused as a user error. A canister without
/// a bundled schema never fails resolution: its values decode untyped.
pub fn get_idl_string(
    blob: &[u8],
    canister_id: &str,
    method_name: &str,
    part: &str,
    output_type: &str,
) -> (r: Result<String, BundleError>)
    ensures
        output_type@ == "raw"@ ==> (r matches Ok(s) && s@ == hex_of(blob@)),
        output_type@ != "raw"@ && output_type@ != "idl"@ && output_type@ != "pp"@ ==> (r matches
            Err(e) && e is InvalidOutputType && error_is_invalid_output(e, output_type@)),
        output_type@ == "idl"@ && !known_canister(canister_id@) ==> pinned_to(
            r,
            untyped_debug_of(blob@),
        ),
        output_type@ == "pp"@ && output_type@ != "idl"@ && !known_canister(canister_id@)
            ==> pinned_to(r, untyped_display_of(blob@)),
        output_type@ == "idl"@ && known_canister(canister_id@) && !method_resolves(
            bundled_schema(canister_id@),
            method_name@,
        ) ==> pinned_to(r, untyped_debug_of(blob@)),
        output_type@ == "pp"@ && output_type@ != "idl"@ && known_canister(canister_id@)
            && !method_resolves(bundled_schema(canister_id@), method_name@) ==> pinned_to(
            r,
            untyped_display_of(blob@),
        ),
        output_type@ == "idl"@ && known_canister(canister_id@) && method_resolves(
            bundled_schema(canister_id@),
            method_name@,
        ) ==> pinned_to(
            r,
            typed_debug_of(bundled_schema(canister_id@), method_name@, part@ == "args"@, blob@),
        ),
        output_type@ == "pp"@ && output_type@ != "idl"@ && known_canister(canister_id@)
            && method_resolves(bundled_schema(canister_id@), method_name@) ==> pinned_to(
            r,
            typed_display_of(bundled_schema(canister_id@), method_name@, part@ == "args"@, blob@),
        ),
        output_type@ != "raw"@ && r is Err ==> (r matches Err(e) && (e is Decode
            || e is InvalidOutputType)),
{
    proof {
        reveal_strlit("raw");
        reveal_strlit("idl");
        reveal_strlit("pp");
        assert("raw"@[0] == 'r' && "idl"@[0] == 'i' && "pp"@[0] == 'p');
        assert("raw"@ != "idl"@);
        assert("raw"@ != "pp"@);
        assert("idl"@ != "pp"@);
    }
    if str_eq(output_type, "raw") {
        return Ok(hex_encode(blob));
    }
    let is_idl = str_eq(output_type, "idl");
    let is_pp = str_eq(output_type, "pp");
    if !is_idl && !is_pp {
        return Err(BundleError::InvalidOutputType(output_type.to_owned()));
    }
    let schema = get_local_candid(canister_id);
    render_decoded(blob, schema.as_ref(), method_name, part, is_pp)
}

/// Whether an error reports the given rejected output mode.
pub open spec fn error_is_invalid_output(e: BundleError, mode: Seq<char>) -> bool {
    match e {
        BundleError::InvalidOutputType(v) => v@ == mode,
        _ => false,
    }
}

} // verus!
