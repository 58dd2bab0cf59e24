//! Decoding of type-tagged binary contract payloads into display-ready
//! records, and the byte codecs (hexadecimal, checksummed base-58) that the
//! records are rendered with.

pub mod abi;
pub mod address;
pub mod contract;
pub mod decoder;
pub mod error;
pub mod hex_codec;
pub mod key_material;
pub mod laws;
pub mod model;
pub mod record;
pub mod schema;
pub mod smart_contract;
pub mod text;
pub mod wire;

pub use abi::{AbiEntry, AbiParam};
pub use address::{decode_address, encode_address};
pub use contract::Envelope;
pub use decoder::max_payload_len;
pub use error::{ContractKind, DecodeFailure};
pub use hex_codec::{from_hex, to_hex};
pub use key_material::{key_lines, KeyField, KeyMaterialBundle, KeyValue};
pub use model::{
    Contract, CreateSmartContract, FreezeBalanceContract, Parameter, ProposalApproveContract,
    ProposalCreateContract, ResourceCode, SmartContract, TransferAssetContract, TransferContract,
    TriggerSmartContract, Vote, VoteWitnessContract, WitnessCreateContract,
};
pub use schema::{FieldKind, FieldSpec};
