use vstd::prelude::*;
use vstd::utf8::{decode_utf8, valid_utf8};
use crate::abi::{abi_json, decode_entries, entry_results, render_abi};
use crate::address::{address_text, encode_address};
use crate::decoder::{
    address_field, address_room, agrees, collect, lemma_collect_all, lemma_collect_fails,
    narrowed, signed, to_narrowed, to_signed, values_of,
};
use crate::error::{ContractKind, DecodeFailure};
use crate::hex_codec::{hex_text, to_hex};
use crate::model::{
    text_view, CreateSmartContract, CreateSmartContractView, SmartContract, SmartContractView,
};
use crate::record::{
    all_bytes_of, all_within, buffers_view, bytes_field, bytes_fields, bytes_of, fields_within,
    lemma_bytes_of_within, read_record, record_fields, varint_field, varint_of,
};
use crate::schema::{
    abi_fields, abi_layout, layout_of, smart_contract_fields, smart_contract_layout, FieldSpec,
};
use crate::wire::{wire_view, Field, WireField};

verus! {

/// The fields of several lists, one list behind the other.
pub open spec fn flattened(parts: Seq<Seq<WireField>>) -> Seq<WireField>
    decreases parts.len(),
{
    if parts.len() == 0 {
        Seq::empty()
    } else {
        flattened(parts.drop_last()) + parts.last()
    }
}

/// What each occurrence of a nested record splits into.
pub open spec fn merged_results(items: Seq<Seq<u8>>, layout: Seq<FieldSpec>) -> Seq<
    Result<Seq<WireField>, DecodeFailure>,
> {
    items.map_values(
        |b: Seq<u8>|
            match record_fields(b, layout) {
                Some(f) => Ok(f),
                None => Err(DecodeFailure::MalformedPayload(ContractKind::CreateSmartContract)),
            },
    )
}

/// The fields of a nested record that a payload may hold in several
/// pieces: the fields of the pieces in order. Every piece must be a
/// well-formed record of the layout.
pub open spec fn merged_record(items: Seq<Seq<u8>>, layout: Seq<FieldSpec>) -> Result<
    Seq<WireField>,
    DecodeFailure,
> {
    match collect(merged_results(items, layout)) {
        Ok(parts) => Ok(flattened(parts)),
        Err(e) => Err(e),
    }
}

/// The address text of a field in which no bytes stand for an absent value.
pub open spec fn optional_address(bytes: Seq<u8>) -> Option<Seq<char>> {
    if bytes.len() == 0 {
        None
    } else {
        Some(address_text(bytes))
    }
}

/// The hexadecimal text of a field in which no bytes stand for an absent
/// value.
pub open spec fn optional_hex(bytes: Seq<u8>) -> Option<Seq<char>> {
    if bytes.len() == 0 {
        None
    } else {
        Some(hex_text(bytes))
    }
}

/// The JSON text of the interface that a contract description holds in
/// the given pieces. There is none where it holds no piece, or where a
/// text of an entry cannot be quoted.
pub open spec fn abi_text(pieces: Seq<Seq<u8>>) -> Result<Option<Seq<char>>, DecodeFailure> {
    if pieces.len() == 0 {
        Ok(None)
    } else {
        match merged_record(pieces, abi_layout()) {
            Err(e) => Err(e),
            Ok(f) => match collect(entry_results(all_bytes_of(f, 1))) {
                Err(e) => Err(e),
                Ok(entries) => Ok(abi_json(entries)),
            },
        }
    }
}

/// What the fields of a contract description decode to. The name must be
/// valid UTF-8, which is looked at before the interface.
pub open spec fn smart_contract_record(f: Seq<WireField>) -> Result<
    SmartContractView,
    DecodeFailure,
> {
    if !valid_utf8(bytes_of(f, 7)) {
        Err(DecodeFailure::InvalidUtf8(ContractKind::CreateSmartContract))
    } else {
        match abi_text(all_bytes_of(f, 3)) {
            Err(e) => Err(e),
            Ok(abi) => Ok(
                SmartContractView {
                    name: decode_utf8(bytes_of(f, 7)),
                    origin_address: address_text(bytes_of(f, 1)),
                    contract_address: optional_address(bytes_of(f, 2)),
                    abi,
                    code: hex_text(bytes_of(f, 4)),
                    user_resource_percent: narrowed(signed(varint_of(f, 6))),
                    origin_energy_limit: signed(varint_of(f, 8)),
                    code_hash: optional_hex(bytes_of(f, 9)),
                    txn_id: optional_hex(bytes_of(f, 10)),
                },
            ),
        }
    }
}

/// What a contract creation payload decodes to. A payload without a
/// contract description is malformed. The call value is the one of the
/// description.
pub open spec fn create_smart_contract_record(raw: Seq<u8>) -> Result<
    CreateSmartContractView,
    DecodeFailure,
> {
    match record_fields(raw, layout_of(ContractKind::CreateSmartContract)) {
        None => Err(DecodeFailure::MalformedPayload(ContractKind::CreateSmartContract)),
        Some(f) => if all_bytes_of(f, 2).len() == 0 {
            Err(DecodeFailure::MalformedPayload(ContractKind::CreateSmartContract))
        } else {
            match merged_record(all_bytes_of(f, 2), smart_contract_layout()) {
                Err(e) => Err(e),
                Ok(inner) => match smart_contract_record(inner) {
                    Err(e) => Err(e),
                    Ok(new_smart_contract) => Ok(
                        CreateSmartContractView {
                            owner_address: address_text(bytes_of(f, 1)),
                            new_smart_contract,
                            call_value: signed(varint_of(inner, 5)),
                            call_token_value: signed(varint_of(f, 3)),
                            call_token_id: narrowed(signed(varint_of(f, 4))),
                        },
                    ),
                },
            }
        },
    }
}

/// Reads a nested record that a payload may hold in several pieces.
#[verifier::loop_isolation(false)]
pub fn read_merged(items: &Vec<Vec<u8>>, layout: &Vec<FieldSpec>) -> (r: Result<
    Vec<Field>,
    DecodeFailure,
>)
    requires
        all_within(buffers_view(items@), address_room()),
    ensures
        match r {
            Ok(fields) => merged_record(buffers_view(items@), layout@) == Ok::<
                Seq<WireField>,
                DecodeFailure,
            >(wire_view(fields@)) && fields_within(wire_view(fields@), address_room()),
            Err(e) => merged_record(buffers_view(items@), layout@) == Err::<
                Seq<WireField>,
                DecodeFailure,
            >(e),
        },
{
    let ghost results = merged_results(buffers_view(items@), layout@);
    let ghost parts = values_of(results);
    let mut all: Vec<Field> = Vec::new();
    let mut i: usize = 0;
    assert(wire_view(all@) =~= flattened(parts.take(0)));
    while i < items.len()
        invariant
            i <= items@.len(),
            forall|k: int| 0 <= k < i ==> (#[trigger] results[k]) is Ok,
            wire_view(all@) == flattened(parts.take(i as int)),
            fields_within(wire_view(all@), address_room()),
        decreases items@.len() - i,
    {
        assert(buffers_view(items@)[i as int] == items@[i as int]@);
        match read_record(items[i].as_slice(), layout) {
            Some(fields) => {
                let mut fields = fields;
                proof {
                    let next = parts.take(i + 1);
                    assert(next.drop_last() =~= parts.take(i as int));
                    assert(next.last() == wire_view(fields@));
                    assert(wire_view(all@ + fields@) =~= wire_view(all@) + wire_view(fields@));
                }
                all.append(&mut fields);
            },
            None => {
                proof {
                    lemma_collect_fails(results, i as int);
                }
                return Err(DecodeFailure::MalformedPayload(ContractKind::CreateSmartContract));
            },
        }
        i += 1;
    }
    proof {
        lemma_collect_all(results);
        assert(parts.take(i as int) =~= parts);
    }
    Ok(all)
}

/// The address text of the bytes of a field, or nothing for no bytes.
fn address_or_absent(bytes: &Vec<u8>) -> (r: Option<String>)
    requires
        bytes@.len() <= address_room(),
    ensures
        text_view(r) == optional_address(bytes@),
{
    if bytes.len() == 0 {
        None
    } else {
        Some(encode_address(bytes.as_slice()))
    }
}

/// The hexadecimal text of the bytes of a field, or nothing for no bytes.
fn hex_or_absent(bytes: &Vec<u8>) -> (r: Option<String>)
    ensures
        text_view(r) == optional_hex(bytes@),
{
    if bytes.len() == 0 {
        None
    } else {
        Some(to_hex(bytes.as_slice()))
    }
}

/// Decodes and renders the interface that a contract description holds in
/// the given pieces.
pub fn decode_abi(pieces: &Vec<Vec<u8>>) -> (r: Result<Option<String>, DecodeFailure>)
    requires
        all_within(buffers_view(pieces@), address_room()),
    ensures
        match r {
            Ok(text) => abi_text(buffers_view(pieces@)) == Ok::<
                Option<Seq<char>>,
                DecodeFailure,
            >(text_view(text)),
            Err(e) => abi_text(buffers_view(pieces@)) == Err::<Option<Seq<char>>, DecodeFailure>(
                e,
            ),
        },
{
    if pieces.len() == 0 {
        return Ok(None);
    }
    let layout = abi_fields();
    let fields = match read_merged(pieces, &layout) {
        Ok(fields) => fields,
        Err(e) => {
            return Err(e);
        },
    };
    let entries = match decode_entries(&bytes_fields(&fields, 1)) {
        Ok(entries) => entries,
        Err(e) => {
            return Err(e);
        },
    };
    Ok(render_abi(&entries))
}

/// Decodes the fields of a contract description.
pub fn decode_smart_contract(fields: &Vec<Field>) -> (r: Result<SmartContract, DecodeFailure>)
    requires
        fields_within(wire_view(fields@), address_room()),
    ensures
        agrees(r, smart_contract_record(wire_view(fields@))),
{
    let ghost f = wire_view(fields@);
    proof {
        lemma_bytes_of_within(f, 2, address_room());
        lemma_bytes_of_within(f, 3, address_room());
    }
    let name = match String::from_utf8(bytes_field(fields, 7)) {
        Ok(name) => name,
        Err(_) => {
            return Err(DecodeFailure::InvalidUtf8(ContractKind::CreateSmartContract));
        },
    };
    let abi = match decode_abi(&bytes_fields(fields, 3)) {
        Ok(abi) => abi,
        Err(e) => {
            return Err(e);
        },
    };
    Ok(
        SmartContract {
            name,
            origin_address: address_field(fields, 1),
            contract_address: address_or_absent(&bytes_field(fields, 2)),
            abi,
            code: to_hex(bytes_field(fields, 4).as_slice()),
            user_resource_percent: to_narrowed(to_signed(varint_field(fields, 6))),
            origin_energy_limit: to_signed(varint_field(fields, 8)),
            code_hash: hex_or_absent(&bytes_field(fields, 9)),
            txn_id: hex_or_absent(&bytes_field(fields, 10)),
        },
    )
}

/// Decodes the payload of a contract creation.
pub fn decode_create_smart_contract(raw: &[u8]) -> (r: Result<CreateSmartContract, DecodeFailure>)
    requires
        raw@.len() <= address_room(),
    ensures
        agrees(r, create_smart_contract_record(raw@)),
{
    let layout = ContractKind::CreateSmartContract.layout();
    let fields = match read_record(raw, &layout) {
        Some(fields) => fields,
        None => {
            return Err(DecodeFailure::MalformedPayload(ContractKind::CreateSmartContract));
        },
    };
    proof {
        lemma_bytes_of_within(wire_view(fields@), 2, address_room());
    }
    let pieces = bytes_fields(&fields, 2);
    if pieces.len() == 0 {
        return Err(DecodeFailure::MalformedPayload(ContractKind::CreateSmartContract));
    }
    let inner_layout = smart_contract_fields();
    let inner = match read_merged(&pieces, &inner_layout) {
        Ok(inner) => inner,
        Err(e) => {
            return Err(e);
        },
    };
    let new_smart_contract = match decode_smart_contract(&inner) {
        Ok(contract) => contract,
        Err(e) => {
            return Err(e);
        },
    };
    Ok(
        CreateSmartContract {
            owner_address: address_field(&fields, 1),
            new_smart_contract,
            call_value: to_signed(varint_field(&inner, 5)),
            call_token_value: to_signed(varint_field(&fields, 3)),
            call_token_id: to_narrowed(to_signed(varint_field(&fields, 4))),
        },
    )
}

} // verus!
