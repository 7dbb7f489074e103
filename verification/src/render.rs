use vstd::prelude::*;
use vstd::string::StringExecFns;

use crate::model::{
    AccountIdentifier, Command, Configure, Disburse, Icpts, ManageNeuron, Operation,
};
use crate::principal::Principal;
use crate::text::{dec_of, u64_dec};

verus! {

/// An optional principal, as a candid argument value.
pub open spec fn opt_principal_text(p: Option<Principal>) -> Seq<char> {
    match p {
        Some(pr) => "opt principal \""@ + pr@ + "\""@,
        None => "null"@,
    }
}

/// The byte items of a candid `vec nat8` value, separated by semicolons.
pub open spec fn byte_items_text(b: Seq<u8>) -> Seq<char>
    decreases b.len(),
{
    if b.len() == 0 {
        Seq::empty()
    } else if b.len() == 1 {
        dec_of(b[0] as nat) + " : nat8"@
    } else {
        byte_items_text(b.drop_last()) + "; "@ + dec_of(b.last() as nat) + " : nat8"@
    }
}

/// A byte sequence, as a candid `vec nat8` value.
pub open spec fn bytes_text(b: Seq<u8>) -> Seq<char> {
    if b.len() == 0 {
        "vec {}"@
    } else {
        "vec { "@ + byte_items_text(b) + " }"@
    }
}

/// An optional destination account, as a candid argument value.
pub open spec fn opt_account_text(a: Option<AccountIdentifier>) -> Seq<char> {
    match a {
        Some(acc) => "opt record { hash = "@ + bytes_text(acc.hash@) + " }"@,
        None => "null"@,
    }
}

/// An optional token amount, as a candid argument value.
pub open spec fn opt_amount_text(a: Option<Icpts>) -> Seq<char> {
    match a {
        Some(am) => "opt record { e8s = "@ + dec_of(am.e8s as nat) + " : nat64 }"@,
        None => "null"@,
    }
}

/// A configuration change, as a candid variant member.
pub open spec fn operation_text(op: Operation) -> Seq<char> {
    match op {
        Operation::RemoveHotKey(r) => "RemoveHotKey = record { hot_key_to_remove = "@
            + opt_principal_text(r.hot_key_to_remove) + " }"@,
        Operation::StartDissolving(_) => "StartDissolving = record {}"@,
        Operation::StopDissolving(_) => "StopDissolving = record {}"@,
        Operation::AddHotKey(a) => "AddHotKey = record { new_hot_key = "@ + opt_principal_text(
            a.new_hot_key,
        ) + " }"@,
        Operation::IncreaseDissolveDelay(i) => {
            "IncreaseDissolveDelay = record { additional_dissolve_delay_seconds = "@ + dec_of(
                i.additional_dissolve_delay_seconds as nat,
            ) + " : nat32 }"@
        },
    }
}

/// An optional configuration change, as a candid argument value.
pub open spec fn opt_operation_text(op: Option<Operation>) -> Seq<char> {
    match op {
        Some(o) => "opt variant { "@ + operation_text(o) + " }"@,
        None => "null"@,
    }
}

/// A command, as a candid variant member.
pub open spec fn command_text(c: Command) -> Seq<char> {
    match c {
        Command::Configure(cf) => "Configure = record { operation = "@ + opt_operation_text(
            cf.operation,
        ) + " }"@,
        Command::Disburse(d) => "Disburse = record { to_account = "@ + opt_account_text(
            d.to_account,
        ) + "; amount = "@ + opt_amount_text(d.amount) + " }"@,
    }
}

/// A whole request, as the candid textual argument of `manage_neuron`.
pub open spec fn request_text(m: ManageNeuron) -> Seq<char> {
    "(record { id = opt record { id = "@ + dec_of(m.id.id as nat)
        + " : nat64 }; command = opt variant { "@ + command_text(m.command) + " } })"@
}

fn render_opt_principal(p: &Option<Principal>) -> (r: String)
    ensures
        r@ == opt_principal_text(*p),
{
    match p {
        Some(pr) => {
            let mut s = "opt principal \"".to_owned();
            s.append(pr.as_text());
            s.append("\"");
            s
        },
        None => "null".to_owned(),
    }
}

fn render_bytes(b: &Vec<u8>) -> (r: String)
    ensures
        r@ == bytes_text(b@),
{
    if b.len() == 0 {
        return "vec {}".to_owned();
    }
    let mut s = "vec { ".to_owned();
    let mut i: usize = 0;
    while i < b.len()
        invariant
            0 < b@.len(),
            0 <= i <= b@.len(),
            s@ == "vec { "@ + byte_items_text(b@.take(i as int)),
        decreases b@.len() - i,
    {
        if i > 0 {
            s.append("; ");
        }
        let mut d = u64_dec(b[i] as u64);
        s.append(d.as_str());
        s.append(" : nat8");
        proof {
            let t = b@.take(i + 1 as int);
            assert(t.drop_last() =~= b@.take(i as int));
            assert(t.last() == b@[i as int]);
        }
        i += 1;
    }
    s.append(" }");
    proof {
        assert(b@.take(b@.len() as int) =~= b@);
    }
    s
}

fn render_opt_account(a: &Option<AccountIdentifier>) -> (r: String)
    ensures
        r@ == opt_account_text(*a),
{
    match a {
        Some(acc) => {
            let mut s = "opt record { hash = ".to_owned();
            let body = render_bytes(&acc.hash);
            s.append(body.as_str());
            s.append(" }");
            s
        },
        None => "null".to_owned(),
    }
}

fn render_opt_amount(a: &Option<Icpts>) -> (r: String)
    ensures
        r@ == opt_amount_text(*a),
{
    match a {
        Some(am) => {
            let mut s = "opt record { e8s = ".to_owned();
            let d = u64_dec(am.e8s);
            s.append(d.as_str());
            s.append(" : nat64 }");
            s
        },
        None => "null".to_owned(),
    }
}

fn render_operation(op: &Operation) -> (r: String)
    ensures
        r@ == operation_text(*op),
{
    match op {
        Operation::RemoveHotKey(rm) => {
            let mut s = "RemoveHotKey = record { hot_key_to_remove = ".to_owned();
            let p = render_opt_principal(&rm.hot_key_to_remove);
            s.append(p.as_str());
            s.append(" }");
            s
        },
        Operation::StartDissolving(_) => "StartDissolving = record {}".to_owned(),
        Operation::StopDissolving(_) => "StopDissolving = record {}".to_owned(),
        Operation::AddHotKey(a) => {
            let mut s = "AddHotKey = record { new_hot_key = ".to_owned();
            let p = render_opt_principal(&a.new_hot_key);
            s.append(p.as_str());
            s.append(" }");
            s
        },
        Operation::IncreaseDissolveDelay(i) => {
            let mut s =
                "IncreaseDissolveDelay = record { additional_dissolve_delay_seconds = ".to_owned();
            let d = u64_dec(i.additional_dissolve_delay_seconds as u64);
            s.append(d.as_str());
            s.append(" : nat32 }");
            s
        },
    }
}

fn render_command(c: &Command) -> (r: String)
    ensures
        r@ == command_text(*c),
{
    match c {
        Command::Configure(cf) => {
            let mut s = "Configure = record { operation = ".to_owned();
            match &cf.operation {
                Some(op) => {
                    s.append("opt variant { ");
                    let o = render_operation(op);
                    s.append(o.as_str());
                    s.append(" }");
                },
                None => {
                    s.append("null");
                },
            }
            s.append(" }");
            s
        },
        Command::Disburse(d) => {
            let mut s = "Disburse = record { to_account = ".to_owned();
            let acc = render_opt_account(&d.to_account);
            s.append(acc.as_str());
            s.append("; amount = ");
            let am = render_opt_amount(&d.amount);
            s.append(am.as_str());
            s.append(" }");
            s
        },
    }
}

/// Renders a request as the candid textual argument of `manage_neuron`.
pub fn render_request(m: &ManageNeuron) -> (r: String)
    ensures
        r@ == request_text(*m),
{
    let mut s = "(record { id = opt record { id = ".to_owned();
    let d = u64_dec(m.id.id);
    s.append(d.as_str());
    s.append(" : nat64 }; command = opt variant { ");
    let c = render_command(&m.command);
    s.append(c.as_str());
    s.append(" } })");
    s
}

} // verus!
