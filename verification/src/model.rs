use vstd::prelude::*;

use crate::principal::Principal;

verus! {

/// Adds the given number of seconds to a neuron's dissolve delay.
pub struct IncreaseDissolveDelay {
    pub additional_dissolve_delay_seconds: u32,
}

/// The 64-bit identifier of the neuron a request addresses.
pub struct NeuronId {
    pub id: u64,
}

/// Starts dissolving the neuron.
pub struct StartDissolving {}

/// Stops dissolving the neuron.
pub struct StopDissolving {}

/// Removes a hot key from the neuron.
pub struct RemoveHotKey {
    pub hot_key_to_remove: Option<Principal>,
}

/// Registers a hot key on the neuron.
pub struct AddHotKey {
    pub new_hot_key: Option<Principal>,
}

/// The closed set of configuration changes a request can carry.
pub enum Operation {
    RemoveHotKey(RemoveHotKey),
    StartDissolving(StartDissolving),
    StopDissolving(StopDissolving),
    AddHotKey(AddHotKey),
    IncreaseDissolveDelay(IncreaseDissolveDelay),
}

/// Wraps one configuration change.
pub struct Configure {
    pub operation: Option<Operation>,
}

/// A ledger account, as the hash the ledger derives for it.
pub struct AccountIdentifier {
    pub hash: Vec<u8>,
}

/// An amount of tokens, counted in hundred-millionths.
pub struct Icpts {
    pub e8s: u64,
}

/// Disburses the staked amount, by default whole and to the controller.
pub struct Disburse {
    pub to_account: Option<AccountIdentifier>,
    pub amount: Option<Icpts>,
}

/// The two top-level request shapes the governance canister accepts.
pub enum Command {
    Configure(Configure),
    Disburse(Disburse),
}

/// One request record, as serialized to the wire before signing.
pub struct ManageNeuron {
    pub id: NeuronId,
    pub command: Command,
}

/// The full set of independently toggleable intents, with the neuron
/// identifier every produced request carries.
pub struct ManageOpts {
    pub neuron_id: u64,
    pub add_hot_key: Option<Principal>,
    pub remove_hot_key: Option<Principal>,
    pub additional_dissolve_delay_seconds: Option<u32>,
    pub start_dissolving: bool,
    pub stop_dissolving: bool,
    pub disburse: bool,
}

pub open spec fn configure_request(id: u64, op: Operation) -> ManageNeuron {
    ManageNeuron {
        id: NeuronId { id },
        command: Command::Configure(Configure { operation: Some(op) }),
    }
}

/// How many intents of the set are active.
pub open spec fn active_count(o: ManageOpts) -> nat {
    (if o.add_hot_key is Some {
        1 as nat
    } else {
        0
    }) + (if o.remove_hot_key is Some {
        1 as nat
    } else {
        0
    }) + (if o.stop_dissolving {
        1 as nat
    } else {
        0
    }) + (if o.start_dissolving {
        1 as nat
    } else {
        0
    }) + (if o.additional_dissolve_delay_seconds is Some {
        1 as nat
    } else {
        0
    }) + (if o.disburse {
        1 as nat
    } else {
        0
    })
}

/// The requests an intent set produces: one per active intent, in the fixed
/// emission order (add hot key, remove hot key, stop dissolving, start
/// dissolving, increase dissolve delay, disburse).
pub open spec fn requests_spec(o: ManageOpts) -> Seq<ManageNeuron> {
    (if o.add_hot_key is Some {
        seq![
            configure_request(
                o.neuron_id,
                Operation::AddHotKey(AddHotKey { new_hot_key: o.add_hot_key }),
            ),
        ]
    } else {
        Seq::empty()
    }) + (if o.remove_hot_key is Some {
        seq![
            configure_request(
                o.neuron_id,
                Operation::RemoveHotKey(RemoveHotKey { hot_key_to_remove: o.remove_hot_key }),
            ),
        ]
    } else {
        Seq::empty()
    }) + (if o.stop_dissolving {
        seq![configure_request(o.neuron_id, Operation::StopDissolving(StopDissolving {}))]
    } else {
        Seq::empty()
    }) + (if o.start_dissolving {
        seq![configure_request(o.neuron_id, Operation::StartDissolving(StartDissolving {}))]
    } else {
        Seq::empty()
    }) + (match o.additional_dissolve_delay_seconds {
        Some(s) => seq![
            configure_request(
                o.neuron_id,
                Operation::IncreaseDissolveDelay(
                    IncreaseDissolveDelay { additional_dissolve_delay_seconds: s },
                ),
            ),
        ],
        None => Seq::empty(),
    }) + (if o.disburse {
        seq![
            ManageNeuron {
                id: NeuronId { id: o.neuron_id },
                command: Command::Disburse(Disburse { to_account: None, amount: None }),
            },
        ]
    } else {
        Seq::empty()
    })
}

/// Builds the request batch of an intent set: one request per active intent,
/// in the fixed emission order, each carrying the caller's neuron identifier.
pub fn build_requests(opts: ManageOpts) -> (r: Vec<ManageNeuron>)
    ensures
        r@ == requests_spec(opts),
        r@.len() == active_count(opts),
{
    let ManageOpts {
        neuron_id,
        add_hot_key,
        remove_hot_key,
        additional_dissolve_delay_seconds,
        start_dissolving,
        stop_dissolving,
        disburse,
    } = opts;
    let mut msgs: Vec<ManageNeuron> = Vec::new();
    if let Some(p) = add_hot_key {
        msgs.push(ManageNeuron {
            id: NeuronId { id: neuron_id },
            command: Command::Configure(Configure {
                operation: Some(Operation::AddHotKey(AddHotKey { new_hot_key: Some(p) })),
            }),
        });
    }
    if let Some(p) = remove_hot_key {
        msgs.push(ManageNeuron {
            id: NeuronId { id: neuron_id },
            command: Command::Configure(Configure {
                operation: Some(Operation::RemoveHotKey(RemoveHotKey { hot_key_to_remove: Some(p) })),
            }),
        });
    }
    if stop_dissolving {
        msgs.push(ManageNeuron {
            id: NeuronId { id: neuron_id },
            command: Command::Configure(Configure {
                operation: Some(Operation::StopDissolving(StopDissolving {})),
            }),
        });
    }
    if start_dissolving {
        msgs.push(ManageNeuron {
            id: NeuronId { id: neuron_id },
            command: Command::Configure(Configure {
                operation: Some(Operation::StartDissolving(StartDissolving {})),
            }),
        });
    }
    if let Some(s) = additional_dissolve_delay_seconds {
        msgs.push(ManageNeuron {
            id: NeuronId { id: neuron_id },
            command: Command::Configure(Configure {
                operation: Some(Operation::IncreaseDissolveDelay(IncreaseDissolveDelay {
                    additional_dissolve_delay_seconds: s,
                })),
            }),
        });
    }
    if disburse {
        msgs.push(ManageNeuron {
            id: NeuronId { id: neuron_id },
            command: Command::Disburse(Disburse { to_account: None, amount: None }),
        });
    }
    proof {
        assert(msgs@ =~= requests_spec(opts));
    }
    msgs
}

/// The place of a request's kind in the fixed emission order.
pub open spec fn emission_rank(m: ManageNeuron) -> int {
    match m.command {
        Command::Configure(c) => match c.operation {
            Some(Operation::AddHotKey(_)) => 0,
            Some(Operation::RemoveHotKey(_)) => 1,
            Some(Operation::StopDissolving(_)) => 2,
            Some(Operation::StartDissolving(_)) => 3,
            Some(Operation::IncreaseDissolveDelay(_)) => 4,
            None => 6,
        },
        Command::Disburse(_) => 5,
    }
}

/// The batch holds exactly one request per active intent; every request
/// carries the caller's neuron identifier; and the requests stand in the
/// fixed emission order, whatever order the intents were supplied in.
#[verifier::rlimit(100)]
pub proof fn lemma_requests_shape(o: ManageOpts)
    ensures
        requests_spec(o).len() == active_count(o),
        forall|i: int|
            0 <= i < requests_spec(o).len() ==> (#[trigger] requests_spec(o)[i]).id == (NeuronId {
                id: o.neuron_id,
            }),
        forall|i: int, j: int|
            0 <= i < j < requests_spec(o).len() ==> emission_rank(#[trigger] requests_spec(o)[i])
                < emission_rank(#[trigger] requests_spec(o)[j]),
{
    let s = requests_spec(o);
    assert forall|i: int| 0 <= i < s.len() implies (#[trigger] s[i]).id == (NeuronId {
        id: o.neuron_id,
    }) && emission_rank(s[i]) == rank_at(o, i) by {
        reveal(rank_at);
    }
    assert forall|i: int, j: int| 0 <= i < j < s.len() implies emission_rank(#[trigger] s[i])
        < emission_rank(#[trigger] s[j]) by {
        lemma_rank_at_strict(o, i, j);
    }
}

/// The emission rank of the request at a given position of the batch.
#[verifier::opaque]
spec fn rank_at(o: ManageOpts, i: int) -> int {
    let n0: int = if o.add_hot_key is Some {
        1
    } else {
        0
    };
    let n1: int = n0 + (if o.remove_hot_key is Some {
        1int
    } else {
        0
    });
    let n2: int = n1 + (if o.stop_dissolving {
        1int
    } else {
        0
    });
    let n3: int = n2 + (if o.start_dissolving {
        1int
    } else {
        0
    });
    let n4: int = n3 + (if o.additional_dissolve_delay_seconds is Some {
        1int
    } else {
        0
    });
    if i < n0 {
        0
    } else if i < n1 {
        1
    } else if i < n2 {
        2
    } else if i < n3 {
        3
    } else if i < n4 {
        4
    } else {
        5
    }
}

proof fn lemma_rank_at_strict(o: ManageOpts, i: int, j: int)
    requires
        0 <= i < j < active_count(o),
    ensures
        rank_at(o, i) < rank_at(o, j),
{
    reveal(rank_at);
}

} // verus!
