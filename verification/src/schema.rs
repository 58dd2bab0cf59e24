use vstd::prelude::*;
use crate::error::{ContractKind, DecodeFailure};

verus! {

/// What a field of a record means, which decides how it is rendered.
#[derive(Clone, Copy, Debug, PartialEq, Eq, Structural)]
pub enum FieldKind {
    /// Raw address bytes, rendered as a checksummed base-58 text.
    Address,
    /// An amount, carried as a variable-length integer.
    Amount,
    /// Arbitrary bytes, rendered in hexadecimal.
    Blob,
    /// Free text, which must be valid UTF-8.
    Text,
    /// A flag.
    Bool,
    /// A plain integer or the number of an enumeration.
    Integer,
    /// A record inside the record.
    NestedRecord,
    /// Any number of records inside the record, in order.
    RepeatedRecord,
    /// Any number of key and value pairs.
    Mapping,
}

/// One line of a record layout.
#[derive(Clone, Copy, Debug)]
pub struct FieldSpec {
    /// The field's number on the wire.
    pub number: u32,
    pub name: &'static str,
    pub kind: FieldKind,
    /// Whether an empty value stands for an absent one.
    pub optional: bool,
}

/// Whether fields of this kind are carried as a variable-length integer;
/// the others are carried as a length-delimited run of bytes.
pub open spec fn is_scalar(kind: FieldKind) -> bool {
    kind == FieldKind::Amount || kind == FieldKind::Bool || kind == FieldKind::Integer
}

/// The contract kind that a type tag names, if the table holds one.
pub open spec fn kind_of_tag(tag: i32) -> Option<ContractKind> {
    if tag == 1 {
        Some(ContractKind::Transfer)
    } else if tag == 2 {
        Some(ContractKind::TransferAsset)
    } else if tag == 4 {
        Some(ContractKind::VoteWitness)
    } else if tag == 5 {
        Some(ContractKind::WitnessCreate)
    } else if tag == 11 {
        Some(ContractKind::FreezeBalance)
    } else if tag == 16 {
        Some(ContractKind::ProposalCreate)
    } else if tag == 17 {
        Some(ContractKind::ProposalApprove)
    } else if tag == 30 {
        Some(ContractKind::CreateSmartContract)
    } else if tag == 31 {
        Some(ContractKind::TriggerSmartContract)
    } else {
        None
    }
}

/// The type tag of a contract kind.
pub open spec fn tag_of_kind(kind: ContractKind) -> i32 {
    match kind {
        ContractKind::Transfer => 1,
        ContractKind::TransferAsset => 2,
        ContractKind::VoteWitness => 4,
        ContractKind::WitnessCreate => 5,
        ContractKind::FreezeBalance => 11,
        ContractKind::ProposalCreate => 16,
        ContractKind::ProposalApprove => 17,
        ContractKind::CreateSmartContract => 30,
        ContractKind::TriggerSmartContract => 31,
    }
}

/// A line of a layout whose empty value is a value like any other.
pub open spec fn plain(number: u32, name: &'static str, kind: FieldKind) -> FieldSpec {
    FieldSpec { number, name, kind, optional: false }
}

/// A line of a layout whose empty value stands for an absent one.
pub open spec fn optional(number: u32, name: &'static str, kind: FieldKind) -> FieldSpec {
    FieldSpec { number, name, kind, optional: true }
}

/// The layout of the payload of each contract kind.
pub open spec fn layout_of(kind: ContractKind) -> Seq<FieldSpec> {
    match kind {
        ContractKind::Transfer => seq![
            plain(1, "owner_address", FieldKind::Address),
            plain(2, "to_address", FieldKind::Address),
            plain(3, "amount", FieldKind::Amount),
        ],
        ContractKind::TransferAsset => seq![
            plain(1, "asset_name", FieldKind::Text),
            plain(2, "owner_address", FieldKind::Address),
            plain(3, "to_address", FieldKind::Address),
            plain(4, "amount", FieldKind::Amount),
        ],
        ContractKind::VoteWitness => seq![
            plain(1, "owner_address", FieldKind::Address),
            plain(2, "votes", FieldKind::RepeatedRecord),
            plain(3, "support", FieldKind::Bool),
        ],
        ContractKind::WitnessCreate => seq![
            plain(1, "owner_address", FieldKind::Address),
            plain(2, "url", FieldKind::Text),
        ],
        ContractKind::FreezeBalance => seq![
            plain(1, "owner_address", FieldKind::Address),
            plain(2, "frozen_balance", FieldKind::Amount),
            plain(3, "frozen_duration", FieldKind::Integer),
            plain(10, "resource", FieldKind::Integer),
            plain(15, "receiver_address", FieldKind::Address),
        ],
        ContractKind::ProposalCreate => seq![
            plain(1, "owner_address", FieldKind::Address),
            plain(2, "parameters", FieldKind::Mapping),
        ],
        ContractKind::ProposalApprove => seq![
            plain(1, "owner_address", FieldKind::Address),
            plain(2, "proposal_id", FieldKind::Integer),
            plain(3, "is_approval", FieldKind::Bool),
        ],
        ContractKind::CreateSmartContract => seq![
            plain(1, "owner_address", FieldKind::Address),
            plain(2, "new_contract", FieldKind::NestedRecord),
            plain(3, "call_token_value", FieldKind::Amount),
            plain(4, "call_token_id", FieldKind::Integer),
        ],
        ContractKind::TriggerSmartContract => seq![
            plain(1, "owner_address", FieldKind::Address),
            plain(2, "contract_address", FieldKind::Address),
            plain(3, "call_value", FieldKind::Amount),
            plain(4, "data", FieldKind::Blob),
            plain(5, "call_token_value", FieldKind::Amount),
            plain(6, "call_token_id", FieldKind::Integer),
        ],
    }
}

/// The layout of one vote of a vote contract.
pub open spec fn vote_layout() -> Seq<FieldSpec> {
    seq![plain(1, "vote_address", FieldKind::Address), plain(2, "vote_count", FieldKind::Amount)]
}

/// The layout of one pair of a mapping from integers to integers.
pub open spec fn pair_layout() -> Seq<FieldSpec> {
    seq![plain(1, "key", FieldKind::Integer), plain(2, "value", FieldKind::Amount)]
}

/// The layout of the description of a smart contract.
pub open spec fn smart_contract_layout() -> Seq<FieldSpec> {
    seq![
        plain(1, "origin_address", FieldKind::Address),
        optional(2, "contract_address", FieldKind::Address),
        optional(3, "abi", FieldKind::NestedRecord),
        plain(4, "bytecode", FieldKind::Blob),
        plain(5, "call_value", FieldKind::Amount),
        plain(6, "consume_user_resource_percent", FieldKind::Integer),
        plain(7, "name", FieldKind::Text),
        plain(8, "origin_energy_limit", FieldKind::Amount),
        optional(9, "code_hash", FieldKind::Blob),
        optional(10, "txn_id", FieldKind::Blob),
    ]
}

/// The layout of the interface of a smart contract.
pub open spec fn abi_layout() -> Seq<FieldSpec> {
    seq![plain(1, "entries", FieldKind::RepeatedRecord)]
}

/// The layout of one entry of an interface.
pub open spec fn abi_entry_layout() -> Seq<FieldSpec> {
    seq![
        plain(1, "anonymous", FieldKind::Bool),
        plain(2, "constant", FieldKind::Bool),
        plain(3, "name", FieldKind::Text),
        plain(4, "inputs", FieldKind::RepeatedRecord),
        plain(5, "outputs", FieldKind::RepeatedRecord),
        plain(6, "type", FieldKind::Integer),
        plain(7, "payable", FieldKind::Bool),
        plain(8, "state_mutability", FieldKind::Integer),
    ]
}

/// The layout of one parameter of an entry of an interface.
pub open spec fn abi_param_layout() -> Seq<FieldSpec> {
    seq![
        plain(1, "indexed", FieldKind::Bool),
        plain(2, "name", FieldKind::Text),
        plain(3, "type", FieldKind::Text),
    ]
}

fn plain_field(number: u32, name: &'static str, kind: FieldKind) -> (f: FieldSpec)
    ensures
        f == plain(number, name, kind),
{
    FieldSpec { number, name, kind, optional: false }
}

fn optional_field(number: u32, name: &'static str, kind: FieldKind) -> (f: FieldSpec)
    ensures
        f == optional(number, name, kind),
{
    FieldSpec { number, name, kind, optional: true }
}

impl ContractKind {
    /// Looks a type tag up in the table of known contract kinds.
    pub fn from_tag(tag: i32) -> (r: Result<ContractKind, DecodeFailure>)
        ensures
            r == match kind_of_tag(tag) {
                Some(kind) => Ok::<ContractKind, DecodeFailure>(kind),
                None => Err(DecodeFailure::UnsupportedContractType(tag)),
            },
    {
        match tag {
            1 => Ok(ContractKind::Transfer),
            2 => Ok(ContractKind::TransferAsset),
            4 => Ok(ContractKind::VoteWitness),
            5 => Ok(ContractKind::WitnessCreate),
            11 => Ok(ContractKind::FreezeBalance),
            16 => Ok(ContractKind::ProposalCreate),
            17 => Ok(ContractKind::ProposalApprove),
            30 => Ok(ContractKind::CreateSmartContract),
            31 => Ok(ContractKind::TriggerSmartContract),
            _ => Err(DecodeFailure::UnsupportedContractType(tag)),
        }
    }

    /// The type tag of this kind.
    pub fn tag(self) -> (tag: i32)
        ensures
            tag == tag_of_kind(self),
            kind_of_tag(tag) == Some(self),
    {
        match self {
            ContractKind::Transfer => 1,
            ContractKind::TransferAsset => 2,
            ContractKind::VoteWitness => 4,
            ContractKind::WitnessCreate => 5,
            ContractKind::FreezeBalance => 11,
            ContractKind::ProposalCreate => 16,
            ContractKind::ProposalApprove => 17,
            ContractKind::CreateSmartContract => 30,
            ContractKind::TriggerSmartContract => 31,
        }
    }

    /// The layout of the payload of this kind.
    pub fn layout(self) -> (layout: Vec<FieldSpec>)
        ensures
            layout@ == layout_of(self),
    {
        let layout = match self {
            ContractKind::Transfer => vec![
                plain_field(1, "owner_address", FieldKind::Address),
                plain_field(2, "to_address", FieldKind::Address),
                plain_field(3, "amount", FieldKind::Amount),
            ],
            ContractKind::TransferAsset => vec![
                plain_field(1, "asset_name", FieldKind::Text),
                plain_field(2, "owner_address", FieldKind::Address),
                plain_field(3, "to_address", FieldKind::Address),
                plain_field(4, "amount", FieldKind::Amount),
            ],
            ContractKind::VoteWitness => vec![
                plain_field(1, "owner_address", FieldKind::Address),
                plain_field(2, "votes", FieldKind::RepeatedRecord),
                plain_field(3, "support", FieldKind::Bool),
            ],
            ContractKind::WitnessCreate => vec![
                plain_field(1, "owner_address", FieldKind::Address),
                plain_field(2, "url", FieldKind::Text),
            ],
            ContractKind::FreezeBalance => vec![
                plain_field(1, "owner_address", FieldKind::Address),
                plain_field(2, "frozen_balance", FieldKind::Amount),
                plain_field(3, "frozen_duration", FieldKind::Integer),
                plain_field(10, "resource", FieldKind::Integer),
                plain_field(15, "receiver_address", FieldKind::Address),
            ],
            ContractKind::ProposalCreate => vec![
                plain_field(1, "owner_address", FieldKind::Address),
                plain_field(2, "parameters", FieldKind::Mapping),
            ],
            ContractKind::ProposalApprove => vec![
                plain_field(1, "owner_address", FieldKind::Address),
                plain_field(2, "proposal_id", FieldKind::Integer),
                plain_field(3, "is_approval", FieldKind::Bool),
            ],
            ContractKind::CreateSmartContract => vec![
                plain_field(1, "owner_address", FieldKind::Address),
                plain_field(2, "new_contract", FieldKind::NestedRecord),
                plain_field(3, "call_token_value", FieldKind::Amount),
                plain_field(4, "call_token_id", FieldKind::Integer),
            ],
            ContractKind::TriggerSmartContract => vec![
                plain_field(1, "owner_address", FieldKind::Address),
                plain_field(2, "contract_address", FieldKind::Address),
                plain_field(3, "call_value", FieldKind::Amount),
                plain_field(4, "data", FieldKind::Blob),
                plain_field(5, "call_token_value", FieldKind::Amount),
                plain_field(6, "call_token_id", FieldKind::Integer),
            ],
        };
        assert(layout@ =~= layout_of(self));
        layout
    }
}

/// The layout of one vote of a vote contract.
pub fn vote_fields() -> (layout: Vec<FieldSpec>)
    ensures
        layout@ == vote_layout(),
{
    let layout = vec![
        plain_field(1, "vote_address", FieldKind::Address),
        plain_field(2, "vote_count", FieldKind::Amount),
    ];
    assert(layout@ =~= vote_layout());
    layout
}

/// The layout of one pair of a mapping from integers to integers.
pub fn pair_fields() -> (layout: Vec<FieldSpec>)
    ensures
        layout@ == pair_layout(),
{
    let layout = vec![
        plain_field(1, "key", FieldKind::Integer),
        plain_field(2, "value", FieldKind::Amount),
    ];
    assert(layout@ =~= pair_layout());
    layout
}

/// The layout of the description of a smart contract.
pub fn smart_contract_fields() -> (layout: Vec<FieldSpec>)
    ensures
        layout@ == smart_contract_layout(),
{
    let layout = vec![
        plain_field(1, "origin_address", FieldKind::Address),
        optional_field(2, "contract_address", FieldKind::Address),
        optional_field(3, "abi", FieldKind::NestedRecord),
        plain_field(4, "bytecode", FieldKind::Blob),
        plain_field(5, "call_value", FieldKind::Amount),
        plain_field(6, "consume_user_resource_percent", FieldKind::Integer),
        plain_field(7, "name", FieldKind::Text),
        plain_field(8, "origin_energy_limit", FieldKind::Amount),
        optional_field(9, "code_hash", FieldKind::Blob),
        optional_field(10, "txn_id", FieldKind::Blob),
    ];
    assert(layout@ =~= smart_contract_layout());
    layout
}

/// The layout of the interface of a smart contract.
pub fn abi_fields() -> (layout: Vec<FieldSpec>)
    ensures
        layout@ == abi_layout(),
{
    let layout = vec![plain_field(1, "entries", FieldKind::RepeatedRecord)];
    assert(layout@ =~= abi_layout());
    layout
}

/// The layout of one entry of an interface.
pub fn abi_entry_fields() -> (layout: Vec<FieldSpec>)
    ensures
        layout@ == abi_entry_layout(),
{
    let layout = vec![
        plain_field(1, "anonymous", FieldKind::Bool),
        plain_field(2, "constant", FieldKind::Bool),
        plain_field(3, "name", FieldKind::Text),
        plain_field(4, "inputs", FieldKind::RepeatedRecord),
        plain_field(5, "outputs", FieldKind::RepeatedRecord),
        plain_field(6, "type", FieldKind::Integer),
        plain_field(7, "payable", FieldKind::Bool),
        plain_field(8, "state_mutability", FieldKind::Integer),
    ];
    assert(layout@ =~= abi_entry_layout());
    layout
}

/// The layout of one parameter of an entry of an interface.
pub fn abi_param_fields() -> (layout: Vec<FieldSpec>)
    ensures
        layout@ == abi_param_layout(),
{
    let layout = vec![
        plain_field(1, "indexed", FieldKind::Bool),
        plain_field(2, "name", FieldKind::Text),
        plain_field(3, "type", FieldKind::Text),
    ];
    assert(layout@ =~= abi_param_layout());
    layout
}

/// Looks up the layout of the payload that a type tag announces.
pub fn layout_of_tag(tag: i32) -> (r: Result<Vec<FieldSpec>, DecodeFailure>)
    ensures
        match kind_of_tag(tag) {
            Some(kind) => r is Ok && r->Ok_0@ == layout_of(kind),
            None => r == Err::<Vec<FieldSpec>, DecodeFailure>(
                DecodeFailure::UnsupportedContractType(tag),
            ),
        },
{
    match ContractKind::from_tag(tag) {
        Ok(kind) => Ok(kind.layout()),
        Err(e) => Err(e),
    }
}

/// In the layout of a contract description, the lines whose empty value
/// stands for an absent one are the contract address, the interface, the
/// code hash and the transaction identifier.
pub proof fn lemma_optional_lines()
    ensures
        forall|j: int|
            0 <= j < smart_contract_layout().len() ==> ((#[trigger] smart_contract_layout()[j]).optional
                <==> smart_contract_layout()[j].number == 2 || smart_contract_layout()[j].number
                == 3 || smart_contract_layout()[j].number == 9 || smart_contract_layout()[j].number
                == 10),
{
}

/// No layout names a field number twice.
pub proof fn lemma_layout_numbers_differ(kind: ContractKind)
    ensures
        forall|i: int, j: int|
            #![trigger layout_of(kind)[i], layout_of(kind)[j]]
            0 <= i < j < layout_of(kind).len() ==> layout_of(kind)[i].number != layout_of(
                kind,
            )[j].number,
{
}

/// Every contract kind is found again under its own tag.
pub proof fn lemma_tag_round_trip(kind: ContractKind)
    ensures
        kind_of_tag(tag_of_kind(kind)) == Some(kind),
{
}

} // verus!
