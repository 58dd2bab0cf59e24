use vstd::prelude::*;
use crate::abi::{entry_record, entry_results, param_results, AbiEntryView};
use crate::contract::{decoded, decoded_as, decoded_envelope};
use crate::decoder::{
    agrees, collect, first_failure, freeze_balance_record, low_bits, narrowed, pair_results,
    resource_of, signed, transfer_asset_record, vote_results,
};
use crate::error::{ContractKind, DecodeFailure};
use crate::model::{ContractView, ResourceCode};
use crate::record::{all_bytes_of, bytes_of, record_fields, varint_of};
use crate::schema::{
    abi_entry_layout, abi_layout, kind_of_tag, layout_of, smart_contract_layout, FieldSpec,
};
use crate::smart_contract::{merged_record, merged_results, smart_contract_record};
use crate::text::i32_of_text;
use crate::wire::WireField;

verus! {

/// Whether a failure is one of the two that the payload of a kind can
/// cause, and names that kind.
pub open spec fn is_failure_of(e: DecodeFailure, kind: ContractKind) -> bool {
    e == DecodeFailure::MalformedPayload(kind) || e == DecodeFailure::InvalidUtf8(kind)
}

/// Two results that agree with the same description are the same failure,
/// or values with the same mathematical value: decoding the same bytes
/// twice gives the same.
pub proof fn lemma_decoding_is_a_function<T: View>(
    first: Result<T, DecodeFailure>,
    second: Result<T, DecodeFailure>,
    expected: Result<T::V, DecodeFailure>,
)
    requires
        agrees(first, expected),
        agrees(second, expected),
    ensures
        first is Ok <==> second is Ok,
        first is Ok ==> first->Ok_0@ == second->Ok_0@,
        first is Err ==> first->Err_0 == second->Err_0,
{
}

/// The failure that a list of results collects to is the failure of one
/// of its results.
pub proof fn lemma_collected_failure<T>(results: Seq<Result<T, DecodeFailure>>)
    ensures
        collect(results) matches Err(e) ==> exists|i: int|
            0 <= i < results.len() && #[trigger] results[i] == Err::<T, DecodeFailure>(e),
{
    if exists|i: int| first_failure(results, i) {
        let i = choose|i: int| first_failure(results, i);
        assert(results[i] == Err::<T, DecodeFailure>(results[i]->Err_0));
    }
}

/// A nested record in pieces fails as a malformed contract creation only.
proof fn lemma_merged_failure(items: Seq<Seq<u8>>, layout: Seq<FieldSpec>)
    ensures
        merged_record(items, layout) matches Err(e) ==> e == DecodeFailure::MalformedPayload(
            ContractKind::CreateSmartContract,
        ),
{
    lemma_collected_failure(merged_results(items, layout));
}

/// The parameters of an entry fail as a contract creation only.
proof fn lemma_params_failure(items: Seq<Seq<u8>>)
    ensures
        collect(param_results(items)) matches Err(e) ==> is_failure_of(
            e,
            ContractKind::CreateSmartContract,
        ),
{
    lemma_collected_failure(param_results(items));
}

/// The entries of an interface fail as a contract creation only.
proof fn lemma_entries_failure(items: Seq<Seq<u8>>)
    ensures
        collect(entry_results(items)) matches Err(e) ==> is_failure_of(
            e,
            ContractKind::CreateSmartContract,
        ),
{
    let results = entry_results(items);
    lemma_collected_failure(results);
    if let Err(e) = collect(results) {
        let i = choose|i: int|
            0 <= i < results.len() && #[trigger] results[i] == Err::<
                AbiEntryView,
                DecodeFailure,
            >(e);
        assert(results[i] == entry_record(items[i]));
        lemma_entry_failure(items[i]);
    }
}

/// An entry of an interface fails as a contract creation only.
proof fn lemma_entry_failure(raw: Seq<u8>)
    ensures
        entry_record(raw) matches Err(e) ==> is_failure_of(e, ContractKind::CreateSmartContract),
{
    if let Some(f) = record_fields(raw, abi_entry_layout()) {
        lemma_params_failure(all_bytes_of(f, 4));
        lemma_params_failure(all_bytes_of(f, 5));
    }
}

/// The fields of a contract description fail as a contract creation only.
proof fn lemma_description_failure(f: Seq<WireField>)
    ensures
        smart_contract_record(f) matches Err(e) ==> is_failure_of(
            e,
            ContractKind::CreateSmartContract,
        ),
{
    let pieces = all_bytes_of(f, 3);
    lemma_merged_failure(pieces, abi_layout());
    if let Ok(inner) = merged_record(pieces, abi_layout()) {
        lemma_entries_failure(all_bytes_of(inner, 1));
    }
}

/// Every failure of a payload of a known kind names that kind: it says
/// that the payload is malformed, or that a text of it is not UTF-8.
pub proof fn lemma_failure_names_the_kind(kind: ContractKind, raw: Seq<u8>)
    ensures
        decoded_as(kind, raw) matches Err(e) ==> is_failure_of(e, kind),
{
    match kind {
        ContractKind::VoteWitness => {
            if let Some(f) = record_fields(
                raw,
                layout_of(ContractKind::VoteWitness),
            ) {
                lemma_collected_failure(vote_results(all_bytes_of(f, 2)));
            }
        },
        ContractKind::ProposalCreate => {
            if let Some(f) = record_fields(
                raw,
                layout_of(ContractKind::ProposalCreate),
            ) {
                lemma_collected_failure(pair_results(all_bytes_of(f, 2)));
            }
        },
        ContractKind::CreateSmartContract => {
            if let Some(f) = record_fields(
                raw,
                layout_of(ContractKind::CreateSmartContract),
            ) {
                let pieces = all_bytes_of(f, 2);
                lemma_merged_failure(pieces, smart_contract_layout());
                if let Ok(inner) = merged_record(pieces, smart_contract_layout()) {
                    lemma_description_failure(inner);
                }
            }
        },
        _ => {},
    }
}

/// Every failure of decoding is the one that belongs to its cause: an
/// unknown tag is reported as unsupported with the tag, and any other
/// failure names the kind of the tag.
pub proof fn lemma_failures_of_decoding(type_tag: i32, raw: Seq<u8>)
    ensures
        decoded(type_tag, raw) matches Err(e) ==> match kind_of_tag(type_tag) {
            None => e == DecodeFailure::UnsupportedContractType(type_tag),
            Some(kind) => is_failure_of(e, kind),
        },
        kind_of_tag(type_tag) is None ==> decoded(type_tag, raw) == Err::<
            ContractView,
            DecodeFailure,
        >(DecodeFailure::UnsupportedContractType(type_tag)),
{
    if let Some(kind) = kind_of_tag(type_tag) {
        lemma_failure_names_the_kind(kind, raw);
    }
}

/// An envelope reports a missing payload exactly where it holds none.
pub proof fn lemma_missing_parameter(type_tag: i32, parameter: Option<Seq<u8>>)
    ensures
        decoded_envelope(type_tag, parameter) == Err::<ContractView, DecodeFailure>(
            DecodeFailure::MissingParameter,
        ) <==> parameter is None,
{
    if let Some(raw) = parameter {
        lemma_failures_of_decoding(type_tag, raw);
    }
}

/// A number of the wire that fits the narrower type keeps its value when
/// it is read as signed or cut to 32 bits.
pub proof fn lemma_numbers_that_fit(v: u64)
    ensures
        v <= i64::MAX ==> signed(v) == v,
        v <= i32::MAX ==> low_bits(v) == v && narrowed(signed(v)) == v,
{
}

/// Of the numbers that name a resource, zero is bandwidth and every other
/// one is energy.
pub proof fn lemma_resource_codes(code: i32)
    ensures
        resource_of(code) == ResourceCode::Bandwidth <==> code == 0,
        resource_of(code) == ResourceCode::Energy <==> code != 0,
{
}

/// A freeze that decodes names bandwidth exactly where the low 32 bits of
/// the number of its resource are zero; a payload without that number
/// names bandwidth.
pub proof fn lemma_frozen_resource(raw: Seq<u8>)
    ensures
        freeze_balance_record(raw) matches Ok(c) ==> record_fields(
            raw,
            layout_of(ContractKind::FreezeBalance),
        ) matches Some(f) && (c.resource == ResourceCode::Bandwidth <==> low_bits(varint_of(f, 10))
            == 0),
{
}

/// An asset transfer that decodes always has the asset's name, and has
/// the number exactly where the name spells one: the number never takes
/// the place of the name.
pub proof fn lemma_asset_name_is_kept(raw: Seq<u8>)
    ensures
        transfer_asset_record(raw) matches Ok(c) ==> c.token_name is Some && c.token_id
            == i32_of_text(c.token_name->Some_0),
{
}

/// In a contract description that decodes, the contract address, the code
/// hash and the transaction identifier are absent exactly where the
/// payload holds no bytes for them.
pub proof fn lemma_empty_is_absent(f: Seq<WireField>)
    ensures
        smart_contract_record(f) matches Ok(c) ==> {
            &&& c.contract_address is None <==> bytes_of(f, 2).len() == 0
            &&& c.code_hash is None <==> bytes_of(f, 9).len() == 0
            &&& c.txn_id is None <==> bytes_of(f, 10).len() == 0
            &&& all_bytes_of(f, 3).len() == 0 ==> c.abi is None
        },
{
}

} // verus!
