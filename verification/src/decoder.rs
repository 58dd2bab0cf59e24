use vstd::prelude::*;
use vstd::utf8::{decode_utf8, valid_utf8};
use crate::address::{address_text, encode_address, CHECKSUM_LEN};
use crate::error::{ContractKind, DecodeFailure};
use crate::model::{
    parameters_view, votes_view, FreezeBalanceContract, FreezeBalanceContractView, Parameter,
    ParameterView, ProposalApproveContract, ProposalApproveContractView, ProposalCreateContract,
    ProposalCreateContractView, ResourceCode, TransferAssetContract, TransferAssetContractView,
    TransferContract, TransferContractView, TriggerSmartContract, TriggerSmartContractView, Vote,
    VoteView, VoteWitnessContract, VoteWitnessContractView, WitnessCreateContract,
    WitnessCreateContractView,
};
use crate::hex_codec::{hex_text, to_hex};
use crate::record::{
    all_bytes_of, all_within, buffers_view, bytes_field, bytes_fields, bytes_of, fields_within,
    lemma_bytes_of_within, read_record, record_fields, varint_field, varint_of,
};
use crate::schema::{layout_of, pair_fields, pair_layout, vote_fields, vote_layout};
use crate::text::{i32_of_text, parse_i32};
use crate::wire::{wire_view, Field};

verus! {

/// The longest buffer that can be rendered as an address on this machine.
pub open spec fn address_room() -> nat {
    (usize::MAX / 138 - CHECKSUM_LEN) as nat
}

/// The longest payload that the decoder takes on this machine: what the
/// address encoder can render.
pub fn max_payload_len() -> (len: usize)
    ensures
        len == address_room(),
{
    usize::MAX / 138 - CHECKSUM_LEN
}

/// Whether a result is the expected one: the same failure, or a value
/// with the expected mathematical value.
pub open spec fn agrees<T: View>(r: Result<T, DecodeFailure>, expected: Result<T::V, DecodeFailure>) -> bool {
    match r {
        Ok(value) => expected == Ok::<T::V, DecodeFailure>(value@),
        Err(e) => expected == Err::<T::V, DecodeFailure>(e),
    }
}

/// Whether `i` is the first place of a list of results that holds a failure.
pub open spec fn first_failure<T>(results: Seq<Result<T, DecodeFailure>>, i: int) -> bool {
    &&& 0 <= i < results.len()
    &&& results[i] is Err
    &&& forall|j: int| 0 <= j < i ==> (#[trigger] results[j]) is Ok
}

/// The values that a list of results holds, place by place.
pub open spec fn values_of<T>(results: Seq<Result<T, DecodeFailure>>) -> Seq<T> {
    Seq::new(results.len(), |i: int| results[i]->Ok_0)
}

/// The values of a list of results, or its first failure.
pub open spec fn collect<T>(results: Seq<Result<T, DecodeFailure>>) -> Result<Seq<T>, DecodeFailure> {
    if exists|i: int| first_failure(results, i) {
        let i = choose|i: int| first_failure(results, i);
        Err(results[i]->Err_0)
    } else {
        Ok(values_of(results))
    }
}

/// A list of results with a first failure collects to that failure.
pub proof fn lemma_collect_fails<T>(results: Seq<Result<T, DecodeFailure>>, i: int)
    requires
        first_failure(results, i),
    ensures
        collect(results) == Err::<Seq<T>, DecodeFailure>(results[i]->Err_0),
{
    let k = choose|k: int| first_failure(results, k);
    if k < i {
        assert(results[k] is Ok);
    } else if i < k {
        assert(results[i] is Ok);
    }
}

/// A list of results without a failure collects to its values.
pub proof fn lemma_collect_all<T>(results: Seq<Result<T, DecodeFailure>>)
    requires
        forall|j: int| 0 <= j < results.len() ==> (#[trigger] results[j]) is Ok,
    ensures
        collect(results) == Ok::<Seq<T>, DecodeFailure>(values_of(results)),
{
}

/// The signed reading of a 64-bit integer of the wire.
pub open spec fn signed(v: u64) -> i64 {
    v as i64
}

/// The low 32 bits of an integer of the wire, read as a signed number.
pub open spec fn low_bits(v: u64) -> i32 {
    v as i32
}

/// The low 32 bits of a signed 64-bit integer, read as a signed number.
pub open spec fn narrowed(v: i64) -> i32 {
    v as i32
}

/// The resource that a number of the wire names: zero is bandwidth,
/// everything else is energy.
pub open spec fn resource_of(code: i32) -> ResourceCode {
    if code == 0 {
        ResourceCode::Bandwidth
    } else {
        ResourceCode::Energy
    }
}

/// What a transfer payload decodes to.
pub open spec fn transfer_record(raw: Seq<u8>) -> Result<TransferContractView, DecodeFailure> {
    match record_fields(raw, layout_of(ContractKind::Transfer)) {
        None => Err(DecodeFailure::MalformedPayload(ContractKind::Transfer)),
        Some(f) => Ok(
            TransferContractView {
                owner_address: address_text(bytes_of(f, 1)),
                to_address: address_text(bytes_of(f, 2)),
                amount: signed(varint_of(f, 3)),
            },
        ),
    }
}

/// What an asset transfer payload decodes to. The asset's name must be
/// valid UTF-8; the number is read from it where it spells one.
pub open spec fn transfer_asset_record(raw: Seq<u8>) -> Result<
    TransferAssetContractView,
    DecodeFailure,
> {
    match record_fields(raw, layout_of(ContractKind::TransferAsset)) {
        None => Err(DecodeFailure::MalformedPayload(ContractKind::TransferAsset)),
        Some(f) => if !valid_utf8(bytes_of(f, 1)) {
            Err(DecodeFailure::InvalidUtf8(ContractKind::TransferAsset))
        } else {
            Ok(
                TransferAssetContractView {
                    owner_address: address_text(bytes_of(f, 2)),
                    to_address: address_text(bytes_of(f, 3)),
                    token_id: i32_of_text(decode_utf8(bytes_of(f, 1))),
                    token_name: Some(decode_utf8(bytes_of(f, 1))),
                    amount: signed(varint_of(f, 4)),
                },
            )
        },
    }
}

/// What a freeze payload decodes to. The duration is read from the field
/// of the balance, cut to 32 bits.
pub open spec fn freeze_balance_record(raw: Seq<u8>) -> Result<
    FreezeBalanceContractView,
    DecodeFailure,
> {
    match record_fields(raw, layout_of(ContractKind::FreezeBalance)) {
        None => Err(DecodeFailure::MalformedPayload(ContractKind::FreezeBalance)),
        Some(f) => Ok(
            FreezeBalanceContractView {
                owner_address: address_text(bytes_of(f, 1)),
                receiver_address: address_text(bytes_of(f, 15)),
                frozen_balance: signed(varint_of(f, 2)),
                frozen_duration: narrowed(signed(varint_of(f, 2))),
                resource: resource_of(low_bits(varint_of(f, 10))),
            },
        ),
    }
}

/// What a witness application payload decodes to. The URL must be valid
/// UTF-8.
pub open spec fn witness_create_record(raw: Seq<u8>) -> Result<
    WitnessCreateContractView,
    DecodeFailure,
> {
    match record_fields(raw, layout_of(ContractKind::WitnessCreate)) {
        None => Err(DecodeFailure::MalformedPayload(ContractKind::WitnessCreate)),
        Some(f) => if !valid_utf8(bytes_of(f, 2)) {
            Err(DecodeFailure::InvalidUtf8(ContractKind::WitnessCreate))
        } else {
            Ok(
                WitnessCreateContractView {
                    owner_address: address_text(bytes_of(f, 1)),
                    url: decode_utf8(bytes_of(f, 2)),
                },
            )
        },
    }
}

/// What a proposal approval payload decodes to.
pub open spec fn proposal_approve_record(raw: Seq<u8>) -> Result<
    ProposalApproveContractView,
    DecodeFailure,
> {
    match record_fields(raw, layout_of(ContractKind::ProposalApprove)) {
        None => Err(DecodeFailure::MalformedPayload(ContractKind::ProposalApprove)),
        Some(f) => Ok(
            ProposalApproveContractView {
                owner_address: address_text(bytes_of(f, 1)),
                proposal_id: narrowed(signed(varint_of(f, 2))),
                is_approve: varint_of(f, 3) != 0,
            },
        ),
    }
}

/// What a smart contract call payload decodes to.
pub open spec fn trigger_record(raw: Seq<u8>) -> Result<TriggerSmartContractView, DecodeFailure> {
    match record_fields(raw, layout_of(ContractKind::TriggerSmartContract)) {
        None => Err(DecodeFailure::MalformedPayload(ContractKind::TriggerSmartContract)),
        Some(f) => Ok(
            TriggerSmartContractView {
                owner_address: address_text(bytes_of(f, 1)),
                contract_address: address_text(bytes_of(f, 2)),
                data: hex_text(bytes_of(f, 4)),
                call_value: signed(varint_of(f, 3)),
                call_token_value: signed(varint_of(f, 5)),
                call_token_id: narrowed(signed(varint_of(f, 6))),
            },
        ),
    }
}

/// Reads a 64-bit integer of the wire as a signed number.
pub fn to_signed(v: u64) -> (r: i64)
    ensures
        r == signed(v),
{
    #[verifier::truncate]
    (v as i64)
}

/// Cuts an integer of the wire to its low 32 bits.
pub fn to_low_bits(v: u64) -> (r: i32)
    ensures
        r == low_bits(v),
{
    #[verifier::truncate]
    (v as i32)
}

/// Cuts a signed 64-bit integer to its low 32 bits.
pub fn to_narrowed(v: i64) -> (r: i32)
    ensures
        r == narrowed(v),
{
    #[verifier::truncate]
    (v as i32)
}

/// The resource that a number of the wire names.
pub fn resource_code(code: i32) -> (r: ResourceCode)
    ensures
        r == resource_of(code),
{
    if code == 0 {
        ResourceCode::Bandwidth
    } else {
        ResourceCode::Energy
    }
}

/// The address text of the last field with the given number.
pub fn address_field(fields: &Vec<Field>, number: u32) -> (text: String)
    requires
        fields_within(wire_view(fields@), address_room()),
    ensures
        text@ == address_text(bytes_of(wire_view(fields@), number)),
{
    proof {
        lemma_bytes_of_within(wire_view(fields@), number, address_room());
    }
    let bytes = bytes_field(fields, number);
    encode_address(bytes.as_slice())
}

/// The hexadecimal text of the last field with the given number.
pub fn hex_field(fields: &Vec<Field>, number: u32) -> (text: String)
    ensures
        text@ == hex_text(bytes_of(wire_view(fields@), number)),
{
    let bytes = bytes_field(fields, number);
    to_hex(bytes.as_slice())
}

/// Decodes the payload of a transfer.
pub fn decode_transfer(raw: &[u8]) -> (r: Result<TransferContract, DecodeFailure>)
    requires
        raw@.len() <= address_room(),
    ensures
        agrees(r, transfer_record(raw@)),
{
    let layout = ContractKind::Transfer.layout();
    let fields = match read_record(raw, &layout) {
        Some(fields) => fields,
        None => {
            return Err(DecodeFailure::MalformedPayload(ContractKind::Transfer));
        },
    };
    Ok(
        TransferContract {
            owner_address: address_field(&fields, 1),
            to_address: address_field(&fields, 2),
            amount: to_signed(varint_field(&fields, 3)),
        },
    )
}

/// Decodes the payload of an asset transfer.
pub fn decode_transfer_asset(raw: &[u8]) -> (r: Result<TransferAssetContract, DecodeFailure>)
    requires
        raw@.len() <= address_room(),
    ensures
        agrees(r, transfer_asset_record(raw@)),
{
    let layout = ContractKind::TransferAsset.layout();
    let fields = match read_record(raw, &layout) {
        Some(fields) => fields,
        None => {
            return Err(DecodeFailure::MalformedPayload(ContractKind::TransferAsset));
        },
    };
    let name = match String::from_utf8(bytes_field(&fields, 1)) {
        Ok(name) => name,
        Err(_) => {
            return Err(DecodeFailure::InvalidUtf8(ContractKind::TransferAsset));
        },
    };
    let token_id = parse_i32(name.as_str());
    Ok(
        TransferAssetContract {
            owner_address: address_field(&fields, 2),
            to_address: address_field(&fields, 3),
            token_id,
            token_name: Some(name),
            amount: to_signed(varint_field(&fields, 4)),
        },
    )
}

/// Decodes the payload of a freeze of balance.
pub fn decode_freeze_balance(raw: &[u8]) -> (r: Result<FreezeBalanceContract, DecodeFailure>)
    requires
        raw@.len() <= address_room(),
    ensures
        agrees(r, freeze_balance_record(raw@)),
{
    let layout = ContractKind::FreezeBalance.layout();
    let fields = match read_record(raw, &layout) {
        Some(fields) => fields,
        None => {
            return Err(DecodeFailure::MalformedPayload(ContractKind::FreezeBalance));
        },
    };
    let balance = to_signed(varint_field(&fields, 2));
    Ok(
        FreezeBalanceContract {
            owner_address: address_field(&fields, 1),
            receiver_address: address_field(&fields, 15),
            frozen_balance: balance,
            frozen_duration: to_narrowed(balance),
            resource: resource_code(to_low_bits(varint_field(&fields, 10))),
        },
    )
}

/// Decodes the payload of a witness application.
pub fn decode_witness_create(raw: &[u8]) -> (r: Result<WitnessCreateContract, DecodeFailure>)
    requires
        raw@.len() <= address_room(),
    ensures
        agrees(r, witness_create_record(raw@)),
{
    let layout = ContractKind::WitnessCreate.layout();
    let fields = match read_record(raw, &layout) {
        Some(fields) => fields,
        None => {
            return Err(DecodeFailure::MalformedPayload(ContractKind::WitnessCreate));
        },
    };
    let url = match String::from_utf8(bytes_field(&fields, 2)) {
        Ok(url) => url,
        Err(_) => {
            return Err(DecodeFailure::InvalidUtf8(ContractKind::WitnessCreate));
        },
    };
    Ok(WitnessCreateContract { owner_address: address_field(&fields, 1), url })
}

/// Decodes the payload of a proposal approval.
pub fn decode_proposal_approve(raw: &[u8]) -> (r: Result<ProposalApproveContract, DecodeFailure>)
    requires
        raw@.len() <= address_room(),
    ensures
        agrees(r, proposal_approve_record(raw@)),
{
    let layout = ContractKind::ProposalApprove.layout();
    let fields = match read_record(raw, &layout) {
        Some(fields) => fields,
        None => {
            return Err(DecodeFailure::MalformedPayload(ContractKind::ProposalApprove));
        },
    };
    Ok(
        ProposalApproveContract {
            owner_address: address_field(&fields, 1),
            proposal_id: to_narrowed(to_signed(varint_field(&fields, 2))),
            is_approve: varint_field(&fields, 3) != 0,
        },
    )
}

/// Decodes the payload of a smart contract call.
pub fn decode_trigger(raw: &[u8]) -> (r: Result<TriggerSmartContract, DecodeFailure>)
    requires
        raw@.len() <= address_room(),
    ensures
        agrees(r, trigger_record(raw@)),
{
    let layout = ContractKind::TriggerSmartContract.layout();
    let fields = match read_record(raw, &layout) {
        Some(fields) => fields,
        None => {
            return Err(DecodeFailure::MalformedPayload(ContractKind::TriggerSmartContract));
        },
    };
    Ok(
        TriggerSmartContract {
            owner_address: address_field(&fields, 1),
            contract_address: address_field(&fields, 2),
            data: hex_field(&fields, 4),
            call_value: to_signed(varint_field(&fields, 3)),
            call_token_value: to_signed(varint_field(&fields, 5)),
            call_token_id: to_narrowed(to_signed(varint_field(&fields, 6))),
        },
    )
}

/// What one vote of a vote payload decodes to.
pub open spec fn vote_record(raw: Seq<u8>) -> Result<VoteView, DecodeFailure> {
    match record_fields(raw, vote_layout()) {
        None => Err(DecodeFailure::MalformedPayload(ContractKind::VoteWitness)),
        Some(f) => Ok(
            VoteView {
                vote_address: address_text(bytes_of(f, 1)),
                count: signed(varint_of(f, 2)),
            },
        ),
    }
}

/// What each of the votes of a vote payload decodes to.
pub open spec fn vote_results(items: Seq<Seq<u8>>) -> Seq<Result<VoteView, DecodeFailure>> {
    items.map_values(|b: Seq<u8>| vote_record(b))
}

/// What a vote payload decodes to: the votes in the order of the payload.
pub open spec fn vote_witness_record(raw: Seq<u8>) -> Result<VoteWitnessContractView, DecodeFailure> {
    match record_fields(raw, layout_of(ContractKind::VoteWitness)) {
        None => Err(DecodeFailure::MalformedPayload(ContractKind::VoteWitness)),
        Some(f) => match collect(vote_results(all_bytes_of(f, 2))) {
            Err(e) => Err(e),
            Ok(votes) => Ok(
                VoteWitnessContractView { owner_address: address_text(bytes_of(f, 1)), votes },
            ),
        },
    }
}

/// What one pair of the mapping of a proposal decodes to.
pub open spec fn pair_record(raw: Seq<u8>) -> Result<(i64, i64), DecodeFailure> {
    match record_fields(raw, pair_layout()) {
        None => Err(DecodeFailure::MalformedPayload(ContractKind::ProposalCreate)),
        Some(f) => Ok((signed(varint_of(f, 1)), signed(varint_of(f, 2)))),
    }
}

/// What each of the pairs of the mapping of a proposal decodes to.
pub open spec fn pair_results(items: Seq<Seq<u8>>) -> Seq<Result<(i64, i64), DecodeFailure>> {
    items.map_values(|b: Seq<u8>| pair_record(b))
}

/// A list of pairs after one more pair was put into it: the pair takes
/// the place of the first pair with its key, or the end of the list.
pub open spec fn put_pair(list: Seq<(i64, i64)>, pair: (i64, i64)) -> Seq<(i64, i64)>
    decreases list.len(),
{
    if list.len() == 0 {
        seq![pair]
    } else if list[0].0 == pair.0 {
        seq![pair] + list.skip(1)
    } else {
        seq![list[0]] + put_pair(list.skip(1), pair)
    }
}

/// The mapping that a list of pairs builds up, as a list: each key at the
/// place where it came first, with the value that came last.
pub open spec fn merged_pairs(pairs: Seq<(i64, i64)>) -> Seq<(i64, i64)>
    decreases pairs.len(),
{
    if pairs.len() == 0 {
        Seq::empty()
    } else {
        put_pair(merged_pairs(pairs.drop_last()), pairs.last())
    }
}

/// The parameter that a pair of the mapping stands for.
pub open spec fn parameter_of(pair: (i64, i64)) -> ParameterView {
    ParameterView { key: narrowed(pair.0), value: pair.1 }
}

/// The parameters that a list of pairs stands for.
pub open spec fn parameters_of(pairs: Seq<(i64, i64)>) -> Seq<ParameterView> {
    pairs.map_values(|p: (i64, i64)| parameter_of(p))
}

/// What a proposal payload decodes to.
pub open spec fn proposal_create_record(raw: Seq<u8>) -> Result<
    ProposalCreateContractView,
    DecodeFailure,
> {
    match record_fields(raw, layout_of(ContractKind::ProposalCreate)) {
        None => Err(DecodeFailure::MalformedPayload(ContractKind::ProposalCreate)),
        Some(f) => match collect(pair_results(all_bytes_of(f, 2))) {
            Err(e) => Err(e),
            Ok(pairs) => Ok(
                ProposalCreateContractView {
                    owner_address: address_text(bytes_of(f, 1)),
                    parameters: parameters_of(merged_pairs(pairs)),
                },
            ),
        },
    }
}

/// Decodes one vote of a vote payload.
pub fn decode_vote(raw: &[u8]) -> (r: Result<Vote, DecodeFailure>)
    requires
        raw@.len() <= address_room(),
    ensures
        agrees(r, vote_record(raw@)),
{
    let layout = vote_fields();
    let fields = match read_record(raw, &layout) {
        Some(fields) => fields,
        None => {
            return Err(DecodeFailure::MalformedPayload(ContractKind::VoteWitness));
        },
    };
    Ok(
        Vote {
            vote_address: address_field(&fields, 1),
            count: to_signed(varint_field(&fields, 2)),
        },
    )
}

/// Decodes the payload of a vote for witnesses.
#[verifier::loop_isolation(false)]
pub fn decode_vote_witness(raw: &[u8]) -> (r: Result<VoteWitnessContract, DecodeFailure>)
    requires
        raw@.len() <= address_room(),
    ensures
        agrees(r, vote_witness_record(raw@)),
{
    let layout = ContractKind::VoteWitness.layout();
    let fields = match read_record(raw, &layout) {
        Some(fields) => fields,
        None => {
            return Err(DecodeFailure::MalformedPayload(ContractKind::VoteWitness));
        },
    };
    let entries = bytes_fields(&fields, 2);
    let ghost items = buffers_view(entries@);
    let ghost results = vote_results(items);
    proof {
        lemma_bytes_of_within(wire_view(fields@), 2, address_room());
    }
    let mut votes: Vec<Vote> = Vec::new();
    let mut i: usize = 0;
    while i < entries.len()
        invariant
            i <= entries@.len(),
            items == buffers_view(entries@),
            results == vote_results(items),
            all_within(items, address_room()),
            votes@.len() == i,
            forall|k: int|
                0 <= k < i ==> (#[trigger] results[k]) is Ok && votes@[k]@ == results[k]->Ok_0,
        decreases entries@.len() - i,
    {
        assert(items[i as int] == entries@[i as int]@);
        match decode_vote(entries[i].as_slice()) {
            Ok(vote) => {
                votes.push(vote);
            },
            Err(e) => {
                proof {
                    lemma_collect_fails(results, i as int);
                }
                return Err(e);
            },
        }
        i += 1;
    }
    proof {
        lemma_collect_all(results);
        assert(votes_view(votes@) =~= values_of(results));
    }
    Ok(VoteWitnessContract { owner_address: address_field(&fields, 1), votes })
}

/// Decodes one pair of the mapping of a proposal.
pub fn decode_pair(raw: &[u8]) -> (r: Result<(i64, i64), DecodeFailure>)
    ensures
        r == pair_record(raw@),
{
    let layout = pair_fields();
    let fields = match read_record(raw, &layout) {
        Some(fields) => fields,
        None => {
            return Err(DecodeFailure::MalformedPayload(ContractKind::ProposalCreate));
        },
    };
    Ok((to_signed(varint_field(&fields, 1)), to_signed(varint_field(&fields, 2))))
}

/// Puts one more pair into a list of pairs with distinct keys.
#[verifier::loop_isolation(false)]
pub fn put(list: Vec<(i64, i64)>, key: i64, value: i64) -> (r: Vec<(i64, i64)>)
    ensures
        r@ == put_pair(list@, (key, value)),
{
    let ghost before = list@;
    let ghost pair = (key, value);
    let mut list = list;
    let mut j: usize = 0;
    assert(before.take(0) + put_pair(before.skip(0), pair) =~= put_pair(before, pair)) by {
        assert(before.skip(0) =~= before);
    }
    while j < list.len()
        invariant
            j <= list@.len(),
            list@ == before,
            pair == (key, value),
            put_pair(before, pair) == before.take(j as int) + put_pair(before.skip(j as int), pair),
        decreases list@.len() - j,
    {
        let ghost tail = before.skip(j as int);
        assert(tail[0] == before[j as int]);
        assert(tail.skip(1) =~= before.skip(j + 1));
        if list[j].0 == key {
            list.set(j, (key, value));
            assert(list@ =~= before.take(j as int) + (seq![pair] + before.skip(j + 1)));
            return list;
        }
        assert(before.take(j as int) + (seq![before[j as int]] + put_pair(
            before.skip(j + 1),
            pair,
        )) =~= before.take(j + 1) + put_pair(before.skip(j + 1), pair));
        j += 1;
    }
    assert(before.skip(j as int) =~= Seq::<(i64, i64)>::empty());
    assert(before.take(j as int) =~= before);
    list.push((key, value));
    assert(list@ =~= before + seq![pair]);
    list
}

/// Decodes the payload of a proposal.
#[verifier::loop_isolation(false)]
pub fn decode_proposal_create(raw: &[u8]) -> (r: Result<ProposalCreateContract, DecodeFailure>)
    requires
        raw@.len() <= address_room(),
    ensures
        agrees(r, proposal_create_record(raw@)),
{
    let layout = ContractKind::ProposalCreate.layout();
    let fields = match read_record(raw, &layout) {
        Some(fields) => fields,
        None => {
            return Err(DecodeFailure::MalformedPayload(ContractKind::ProposalCreate));
        },
    };
    let entries = bytes_fields(&fields, 2);
    let ghost items = buffers_view(entries@);
    let ghost results = pair_results(items);
    let mut pairs: Vec<(i64, i64)> = Vec::new();
    let mut i: usize = 0;
    while i < entries.len()
        invariant
            i <= entries@.len(),
            items == buffers_view(entries@),
            results == pair_results(items),
            pairs@.len() == i,
            forall|k: int|
                0 <= k < i ==> (#[trigger] results[k]) is Ok && pairs@[k] == results[k]->Ok_0,
        decreases entries@.len() - i,
    {
        assert(items[i as int] == entries@[i as int]@);
        match decode_pair(entries[i].as_slice()) {
            Ok(pair) => {
                pairs.push(pair);
            },
            Err(e) => {
                proof {
                    lemma_collect_fails(results, i as int);
                }
                return Err(e);
            },
        }
        i += 1;
    }
    proof {
        lemma_collect_all(results);
        assert(pairs@ =~= values_of(results));
    }
    let mut merged: Vec<(i64, i64)> = Vec::new();
    let mut i: usize = 0;
    assert(pairs@.take(0) =~= Seq::<(i64, i64)>::empty());
    while i < pairs.len()
        invariant
            i <= pairs@.len(),
            merged@ == merged_pairs(pairs@.take(i as int)),
        decreases pairs@.len() - i,
    {
        proof {
            let next = pairs@.take(i + 1);
            assert(next.drop_last() =~= pairs@.take(i as int));
            assert(next.last() == pairs@[i as int]);
        }
        merged = put(merged, pairs[i].0, pairs[i].1);
        i += 1;
    }
    assert(pairs@.take(i as int) =~= pairs@);
    let mut parameters: Vec<Parameter> = Vec::new();
    let mut i: usize = 0;
    while i < merged.len()
        invariant
            i <= merged@.len(),
            parameters@.len() == i,
            forall|k: int| 0 <= k < i ==> (#[trigger] parameters@[k])@ == parameter_of(merged@[k]),
        decreases merged@.len() - i,
    {
        parameters.push(Parameter { key: to_narrowed(merged[i].0), value: merged[i].1 });
        i += 1;
    }
    assert(parameters_view(parameters@) =~= parameters_of(merged@));
    Ok(ProposalCreateContract { owner_address: address_field(&fields, 1), parameters })
}

} // verus!
