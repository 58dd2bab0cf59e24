use vstd::prelude::*;

verus! {

/// The view of an optional text.
pub open spec fn text_view(text: Option<String>) -> Option<Seq<char>> {
    match text {
        Some(s) => Some(s@),
        None => None,
    }
}

/// The mathematical values of a list of votes.
pub open spec fn votes_view(votes: Seq<Vote>) -> Seq<VoteView> {
    votes.map_values(|v: Vote| v@)
}

/// The mathematical values of a list of parameters.
pub open spec fn parameters_view(parameters: Seq<Parameter>) -> Seq<ParameterView> {
    parameters.map_values(|p: Parameter| p@)
}

/// The resource that a balance is frozen for.
#[derive(Clone, Copy, Debug, PartialEq, Eq, Structural)]
pub enum ResourceCode {
    Bandwidth,
    Energy,
}

/// A transfer of the chain's own currency.
#[derive(Clone, Debug, PartialEq, Eq)]
pub struct TransferContract {
    pub owner_address: String,
    pub to_address: String,
    pub amount: i64,
}

/// The mathematical value of a `TransferContract`.
pub struct TransferContractView {
    pub owner_address: Seq<char>,
    pub to_address: Seq<char>,
    pub amount: i64,
}

impl View for TransferContract {
    type V = TransferContractView;

    open spec fn view(&self) -> TransferContractView {
        TransferContractView {
            owner_address: self.owner_address@,
            to_address: self.to_address@,
            amount: self.amount,
        }
    }
}

/// A transfer of an issued asset. The asset's name is kept as it came, and
/// also read as a number where it is one: the two are filled independently.
#[derive(Clone, Debug, PartialEq, Eq)]
pub struct TransferAssetContract {
    pub owner_address: String,
    pub to_address: String,
    /// The asset's name read as a number, where it is one.
    pub token_id: Option<i32>,
    /// The asset's name as the payload holds it.
    pub token_name: Option<String>,
    pub amount: i64,
}

/// The mathematical value of a `TransferAssetContract`.
pub struct TransferAssetContractView {
    pub owner_address: Seq<char>,
    pub to_address: Seq<char>,
    pub token_id: Option<i32>,
    pub token_name: Option<Seq<char>>,
    pub amount: i64,
}

impl View for TransferAssetContract {
    type V = TransferAssetContractView;

    open spec fn view(&self) -> TransferAssetContractView {
        TransferAssetContractView {
            owner_address: self.owner_address@,
            to_address: self.to_address@,
            token_id: self.token_id,
            token_name: text_view(self.token_name),
            amount: self.amount,
        }
    }
}

/// One vote: the address voted for and the number of votes.
#[derive(Clone, Debug, PartialEq, Eq)]
pub struct Vote {
    pub vote_address: String,
    pub count: i64,
}

/// The mathematical value of a `Vote`.
pub struct VoteView {
    pub vote_address: Seq<char>,
    pub count: i64,
}

impl View for Vote {
    type V = VoteView;

    open spec fn view(&self) -> VoteView {
        VoteView {
            vote_address: self.vote_address@,
            count: self.count,
        }
    }
}

/// An application to become a witness.
#[derive(Clone, Debug, PartialEq, Eq)]
pub struct WitnessCreateContract {
    pub owner_address: String,
    pub url: String,
}

/// The mathematical value of a `WitnessCreateContract`.
pub struct WitnessCreateContractView {
    pub owner_address: Seq<char>,
    pub url: Seq<char>,
}

impl View for WitnessCreateContract {
    type V = WitnessCreateContractView;

    open spec fn view(&self) -> WitnessCreateContractView {
        WitnessCreateContractView {
            owner_address: self.owner_address@,
            url: self.url@,
        }
    }
}

/// Votes for witnesses, in the order in which the payload holds them.
#[derive(Clone, Debug, PartialEq, Eq)]
pub struct VoteWitnessContract {
    pub owner_address: String,
    pub votes: Vec<Vote>,
}

/// The mathematical value of a `VoteWitnessContract`.
pub struct VoteWitnessContractView {
    pub owner_address: Seq<char>,
    pub votes: Seq<VoteView>,
}

impl View for VoteWitnessContract {
    type V = VoteWitnessContractView;

    open spec fn view(&self) -> VoteWitnessContractView {
        VoteWitnessContractView {
            owner_address: self.owner_address@,
            votes: votes_view(self.votes@),
        }
    }
}

/// A freeze of balance for a resource.
#[derive(Clone, Debug, PartialEq, Eq)]
pub struct FreezeBalanceContract {
    pub owner_address: String,
    pub receiver_address: String,
    pub frozen_balance: i64,
    /// Read from the same field of the payload as `frozen_balance`, cut to 32 bits.
    pub frozen_duration: i32,
    pub resource: ResourceCode,
}

/// The mathematical value of a `FreezeBalanceContract`.
pub struct FreezeBalanceContractView {
    pub owner_address: Seq<char>,
    pub receiver_address: Seq<char>,
    pub frozen_balance: i64,
    pub frozen_duration: i32,
    pub resource: ResourceCode,
}

impl View for FreezeBalanceContract {
    type V = FreezeBalanceContractView;

    open spec fn view(&self) -> FreezeBalanceContractView {
        FreezeBalanceContractView {
            owner_address: self.owner_address@,
            receiver_address: self.receiver_address@,
            frozen_balance: self.frozen_balance,
            frozen_duration: self.frozen_duration,
            resource: self.resource,
        }
    }
}

/// One chain parameter of a proposal.
#[derive(Clone, Debug, PartialEq, Eq)]
pub struct Parameter {
    pub key: i32,
    pub value: i64,
}

/// The mathematical value of a `Parameter`.
pub struct ParameterView {
    pub key: i32,
    pub value: i64,
}

impl View for Parameter {
    type V = ParameterView;

    open spec fn view(&self) -> ParameterView {
        ParameterView {
            key: self.key,
            value: self.value,
        }
    }
}

/// A proposal to change chain parameters.
#[derive(Clone, Debug, PartialEq, Eq)]
pub struct ProposalCreateContract {
    pub owner_address: String,
    pub parameters: Vec<Parameter>,
}

/// The mathematical value of a `ProposalCreateContract`.
pub struct ProposalCreateContractView {
    pub owner_address: Seq<char>,
    pub parameters: Seq<ParameterView>,
}

impl View for ProposalCreateContract {
    type V = ProposalCreateContractView;

    open spec fn view(&self) -> ProposalCreateContractView {
        ProposalCreateContractView {
            owner_address: self.owner_address@,
            parameters: parameters_view(self.parameters@),
        }
    }
}

/// An approval of a proposal, or its withdrawal.
#[derive(Clone, Debug, PartialEq, Eq)]
pub struct ProposalApproveContract {
    pub owner_address: String,
    pub proposal_id: i32,
    pub is_approve: bool,
}

/// The mathematical value of a `ProposalApproveContract`.
pub struct ProposalApproveContractView {
    pub owner_address: Seq<char>,
    pub proposal_id: i32,
    pub is_approve: bool,
}

impl View for ProposalApproveContract {
    type V = ProposalApproveContractView;

    open spec fn view(&self) -> ProposalApproveContractView {
        ProposalApproveContractView {
            owner_address: self.owner_address@,
            proposal_id: self.proposal_id,
            is_approve: self.is_approve,
        }
    }
}

/// The description of a smart contract. The optional fields are absent
/// where the payload holds an empty value for them.
#[derive(Clone, Debug, PartialEq, Eq)]
pub struct SmartContract {
    pub name: String,
    pub origin_address: String,
    pub contract_address: Option<String>,
    /// The interface of the contract as JSON text.
    pub abi: Option<String>,
    /// The bytecode, in hexadecimal.
    pub code: String,
    /// Percent, 0 to 100.
    pub user_resource_percent: i32,
    pub origin_energy_limit: i64,
    pub code_hash: Option<String>,
    /// Set where a call of a smart contract created this one.
    pub txn_id: Option<String>,
}

/// The mathematical value of a `SmartContract`.
pub struct SmartContractView {
    pub name: Seq<char>,
    pub origin_address: Seq<char>,
    pub contract_address: Option<Seq<char>>,
    pub abi: Option<Seq<char>>,
    pub code: Seq<char>,
    pub user_resource_percent: i32,
    pub origin_energy_limit: i64,
    pub code_hash: Option<Seq<char>>,
    pub txn_id: Option<Seq<char>>,
}

impl View for SmartContract {
    type V = SmartContractView;

    open spec fn view(&self) -> SmartContractView {
        SmartContractView {
            name: self.name@,
            origin_address: self.origin_address@,
            contract_address: text_view(self.contract_address),
            abi: text_view(self.abi),
            code: self.code@,
            user_resource_percent: self.user_resource_percent,
            origin_energy_limit: self.origin_energy_limit,
            code_hash: text_view(self.code_hash),
            txn_id: text_view(self.txn_id),
        }
    }
}

/// The creation of a smart contract.
#[derive(Clone, Debug, PartialEq, Eq)]
pub struct CreateSmartContract {
    pub owner_address: String,
    pub new_smart_contract: SmartContract,
    pub call_value: i64,
    pub call_token_value: i64,
    pub call_token_id: i32,
}

/// The mathematical value of a `CreateSmartContract`.
pub struct CreateSmartContractView {
    pub owner_address: Seq<char>,
    pub new_smart_contract: SmartContractView,
    pub call_value: i64,
    pub call_token_value: i64,
    pub call_token_id: i32,
}

impl View for CreateSmartContract {
    type V = CreateSmartContractView;

    open spec fn view(&self) -> CreateSmartContractView {
        CreateSmartContractView {
            owner_address: self.owner_address@,
            new_smart_contract: self.new_smart_contract@,
            call_value: self.call_value,
            call_token_value: self.call_token_value,
            call_token_id: self.call_token_id,
        }
    }
}

/// A call of a smart contract.
#[derive(Clone, Debug, PartialEq, Eq)]
pub struct TriggerSmartContract {
    pub owner_address: String,
    pub contract_address: String,
    pub data: String,
    pub call_value: i64,
    pub call_token_value: i64,
    pub call_token_id: i32,
}

/// The mathematical value of a `TriggerSmartContract`.
pub struct TriggerSmartContractView {
    pub owner_address: Seq<char>,
    pub contract_address: Seq<char>,
    pub data: Seq<char>,
    pub call_value: i64,
    pub call_token_value: i64,
    pub call_token_id: i32,
}

impl View for TriggerSmartContract {
    type V = TriggerSmartContractView;

    open spec fn view(&self) -> TriggerSmartContractView {
        TriggerSmartContractView {
            owner_address: self.owner_address@,
            contract_address: self.contract_address@,
            data: self.data@,
            call_value: self.call_value,
            call_token_value: self.call_token_value,
            call_token_id: self.call_token_id,
        }
    }
}

/// A decoded contract: one variant for each kind that the decoder knows.
#[derive(Clone, Debug, PartialEq, Eq)]
pub enum Contract {
    TransferContract(TransferContract),
    TransferAssetContract(TransferAssetContract),
    WitnessCreateContract(WitnessCreateContract),
    VoteWitnessContract(VoteWitnessContract),
    FreezeBalanceContract(FreezeBalanceContract),
    ProposalCreateContract(ProposalCreateContract),
    ProposalApproveContract(ProposalApproveContract),
    CreateSmartContract(CreateSmartContract),
    TriggerSmartContract(TriggerSmartContract),
}

/// The mathematical value of a `Contract`.
pub enum ContractView {
    TransferContract(TransferContractView),
    TransferAssetContract(TransferAssetContractView),
    WitnessCreateContract(WitnessCreateContractView),
    VoteWitnessContract(VoteWitnessContractView),
    FreezeBalanceContract(FreezeBalanceContractView),
    ProposalCreateContract(ProposalCreateContractView),
    ProposalApproveContract(ProposalApproveContractView),
    CreateSmartContract(CreateSmartContractView),
    TriggerSmartContract(TriggerSmartContractView),
}

impl View for Contract {
    type V = ContractView;

    open spec fn view(&self) -> ContractView {
        match self {
            Contract::TransferContract(c) => ContractView::TransferContract(c@),
            Contract::TransferAssetContract(c) => ContractView::TransferAssetContract(c@),
            Contract::WitnessCreateContract(c) => ContractView::WitnessCreateContract(c@),
            Contract::VoteWitnessContract(c) => ContractView::VoteWitnessContract(c@),
            Contract::FreezeBalanceContract(c) => ContractView::FreezeBalanceContract(c@),
            Contract::ProposalCreateContract(c) => ContractView::ProposalCreateContract(c@),
            Contract::ProposalApproveContract(c) => ContractView::ProposalApproveContract(c@),
            Contract::CreateSmartContract(c) => ContractView::CreateSmartContract(c@),
            Contract::TriggerSmartContract(c) => ContractView::TriggerSmartContract(c@),
        }
    }
}

} // verus!
