use vstd::prelude::*;

verus! {

/// The contract kinds that the decoder knows.
#[derive(Clone, Copy, Debug, PartialEq, Eq, Structural)]
pub enum ContractKind {
    Transfer,
    TransferAsset,
    VoteWitness,
    WitnessCreate,
    FreezeBalance,
    ProposalCreate,
    ProposalApprove,
    CreateSmartContract,
    TriggerSmartContract,
}

/// Every way in which a decoding or a codec call can fail.
#[derive(Clone, Copy, Debug, PartialEq, Eq, Structural)]
pub enum DecodeFailure {
    /// The type tag names no contract kind that the schema table holds.
    UnsupportedContractType(i32),
    /// The envelope carried no payload.
    MissingParameter,
    /// The payload is not a well-formed binary record of the given kind.
    MalformedPayload(ContractKind),
    /// A text field of a record of the given kind is not valid UTF-8.
    InvalidUtf8(ContractKind),
    /// The four trailing bytes of an address are not the checksum of the rest.
    ChecksumMismatch,
    /// An address text has a character outside the base-58 alphabet.
    InvalidCharacter,
    /// A text is not an even number of hexadecimal digits.
    InvalidHex,
    /// The transport that fetches data from a node failed. No function of
    /// this library returns it: it is here for the callers that fetch.
    RpcFailure,
}

} // verus!
