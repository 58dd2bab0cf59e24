use vstd::prelude::*;
use crate::decoder::{
    address_room, agrees, decode_freeze_balance, decode_proposal_approve, decode_proposal_create,
    decode_transfer, decode_transfer_asset, decode_trigger, decode_vote_witness,
    decode_witness_create, freeze_balance_record, proposal_approve_record,
    proposal_create_record, transfer_asset_record, transfer_record, trigger_record,
    vote_witness_record, witness_create_record,
};
use crate::error::{ContractKind, DecodeFailure};
use crate::model::{Contract, ContractView};
use crate::schema::kind_of_tag;
use crate::smart_contract::{create_smart_contract_record, decode_create_smart_contract};

verus! {

/// What surrounds a payload in a transaction: the type tag, and the
/// payload where the transaction holds one.
#[derive(Clone, Debug, PartialEq, Eq)]
pub struct Envelope {
    pub type_tag: i32,
    pub parameter: Option<Vec<u8>>,
}

/// The contract kind of a decoded contract.
pub open spec fn kind_of(contract: ContractView) -> ContractKind {
    match contract {
        ContractView::TransferContract(_) => ContractKind::Transfer,
        ContractView::TransferAssetContract(_) => ContractKind::TransferAsset,
        ContractView::WitnessCreateContract(_) => ContractKind::WitnessCreate,
        ContractView::VoteWitnessContract(_) => ContractKind::VoteWitness,
        ContractView::FreezeBalanceContract(_) => ContractKind::FreezeBalance,
        ContractView::ProposalCreateContract(_) => ContractKind::ProposalCreate,
        ContractView::ProposalApproveContract(_) => ContractKind::ProposalApprove,
        ContractView::CreateSmartContract(_) => ContractKind::CreateSmartContract,
        ContractView::TriggerSmartContract(_) => ContractKind::TriggerSmartContract,
    }
}

/// What a payload of a known kind decodes to.
pub open spec fn decoded_as(kind: ContractKind, raw: Seq<u8>) -> Result<
    ContractView,
    DecodeFailure,
> {
    match kind {
        ContractKind::Transfer => match transfer_record(raw) {
            Ok(c) => Ok(ContractView::TransferContract(c)),
            Err(e) => Err(e),
        },
        ContractKind::TransferAsset => match transfer_asset_record(raw) {
            Ok(c) => Ok(ContractView::TransferAssetContract(c)),
            Err(e) => Err(e),
        },
        ContractKind::VoteWitness => match vote_witness_record(raw) {
            Ok(c) => Ok(ContractView::VoteWitnessContract(c)),
            Err(e) => Err(e),
        },
        ContractKind::WitnessCreate => match witness_create_record(raw) {
            Ok(c) => Ok(ContractView::WitnessCreateContract(c)),
            Err(e) => Err(e),
        },
        ContractKind::FreezeBalance => match freeze_balance_record(raw) {
            Ok(c) => Ok(ContractView::FreezeBalanceContract(c)),
            Err(e) => Err(e),
        },
        ContractKind::ProposalCreate => match proposal_create_record(raw) {
            Ok(c) => Ok(ContractView::ProposalCreateContract(c)),
            Err(e) => Err(e),
        },
        ContractKind::ProposalApprove => match proposal_approve_record(raw) {
            Ok(c) => Ok(ContractView::ProposalApproveContract(c)),
            Err(e) => Err(e),
        },
        ContractKind::CreateSmartContract => match create_smart_contract_record(raw) {
            Ok(c) => Ok(ContractView::CreateSmartContract(c)),
            Err(e) => Err(e),
        },
        ContractKind::TriggerSmartContract => match trigger_record(raw) {
            Ok(c) => Ok(ContractView::TriggerSmartContract(c)),
            Err(e) => Err(e),
        },
    }
}

/// What a type tag and a payload decode to. A tag that the table does
/// not hold is an error of its own, whatever the payload.
pub open spec fn decoded(type_tag: i32, raw: Seq<u8>) -> Result<ContractView, DecodeFailure> {
    match kind_of_tag(type_tag) {
        None => Err(DecodeFailure::UnsupportedContractType(type_tag)),
        Some(kind) => decoded_as(kind, raw),
    }
}

/// What an envelope decodes to. A missing payload is reported before the
/// tag is looked at.
pub open spec fn decoded_envelope(type_tag: i32, parameter: Option<Seq<u8>>) -> Result<
    ContractView,
    DecodeFailure,
> {
    match parameter {
        None => Err(DecodeFailure::MissingParameter),
        Some(raw) => decoded(type_tag, raw),
    }
}

/// A payload that decodes gives a contract of the kind that the tag names.
pub proof fn lemma_decoded_kind(type_tag: i32, raw: Seq<u8>)
    ensures
        decoded(type_tag, raw) matches Ok(contract) ==> kind_of_tag(type_tag) == Some(
            kind_of(contract),
        ),
{
}

impl Contract {
    /// Decodes the payload of a contract of the kind that the type tag
    /// names.
    pub fn decode(type_tag: i32, raw: &[u8]) -> (r: Result<Contract, DecodeFailure>)
        requires
            raw@.len() <= address_room(),
        ensures
            agrees(r, decoded(type_tag, raw@)),
            kind_of_tag(type_tag) is None ==> r == Err::<Contract, DecodeFailure>(
                DecodeFailure::UnsupportedContractType(type_tag),
            ),
    {
        let kind = match ContractKind::from_tag(type_tag) {
            Ok(kind) => kind,
            Err(e) => {
                return Err(e);
            },
        };
        match kind {
            ContractKind::Transfer => match decode_transfer(raw) {
                Ok(c) => Ok(Contract::TransferContract(c)),
                Err(e) => Err(e),
            },
            ContractKind::TransferAsset => match decode_transfer_asset(raw) {
                Ok(c) => Ok(Contract::TransferAssetContract(c)),
                Err(e) => Err(e),
            },
            ContractKind::VoteWitness => match decode_vote_witness(raw) {
                Ok(c) => Ok(Contract::VoteWitnessContract(c)),
                Err(e) => Err(e),
            },
            ContractKind::WitnessCreate => match decode_witness_create(raw) {
                Ok(c) => Ok(Contract::WitnessCreateContract(c)),
                Err(e) => Err(e),
            },
            ContractKind::FreezeBalance => match decode_freeze_balance(raw) {
                Ok(c) => Ok(Contract::FreezeBalanceContract(c)),
                Err(e) => Err(e),
            },
            ContractKind::ProposalCreate => match decode_proposal_create(raw) {
                Ok(c) => Ok(Contract::ProposalCreateContract(c)),
                Err(e) => Err(e),
            },
            ContractKind::ProposalApprove => match decode_proposal_approve(raw) {
                Ok(c) => Ok(Contract::ProposalApproveContract(c)),
                Err(e) => Err(e),
            },
            ContractKind::CreateSmartContract => match decode_create_smart_contract(raw) {
                Ok(c) => Ok(Contract::CreateSmartContract(c)),
                Err(e) => Err(e),
            },
            ContractKind::TriggerSmartContract => match decode_trigger(raw) {
                Ok(c) => Ok(Contract::TriggerSmartContract(c)),
                Err(e) => Err(e),
            },
        }
    }

    /// Decodes the contract that an envelope holds.
    pub fn from_envelope(envelope: &Envelope) -> (r: Result<Contract, DecodeFailure>)
        requires
            envelope.parameter matches Some(raw) ==> raw@.len() <= address_room(),
        ensures
            agrees(
                r,
                decoded_envelope(
                    envelope.type_tag,
                    match envelope.parameter {
                        Some(raw) => Some(raw@),
                        None => None,
                    },
                ),
            ),
            envelope.parameter is None ==> r == Err::<Contract, DecodeFailure>(
                DecodeFailure::MissingParameter,
            ),
    {
        match &envelope.parameter {
            None => Err(DecodeFailure::MissingParameter),
            Some(raw) => Contract::decode(envelope.type_tag, raw.as_slice()),
        }
    }

    /// The kind of this contract.
    pub fn kind(&self) -> (kind: ContractKind)
        ensures
            kind == kind_of(self@),
    {
        match self {
            Contract::TransferContract(_) => ContractKind::Transfer,
            Contract::TransferAssetContract(_) => ContractKind::TransferAsset,
            Contract::WitnessCreateContract(_) => ContractKind::WitnessCreate,
            Contract::VoteWitnessContract(_) => ContractKind::VoteWitness,
            Contract::FreezeBalanceContract(_) => ContractKind::FreezeBalance,
            Contract::ProposalCreateContract(_) => ContractKind::ProposalCreate,
            Contract::ProposalApproveContract(_) => ContractKind::ProposalApprove,
            Contract::CreateSmartContract(_) => ContractKind::CreateSmartContract,
            Contract::TriggerSmartContract(_) => ContractKind::TriggerSmartContract,
        }
    }
}

} // verus!
