use vstd::prelude::*;
use vstd::string::StringExecFns;
use vstd::utf8::{decode_utf8, valid_utf8};
use crate::decoder::{
    collect, lemma_collect_all, lemma_collect_fails, low_bits, to_low_bits, values_of,
};
use crate::error::{ContractKind, DecodeFailure};
use crate::model::text_view;
use crate::record::{
    all_bytes_of, buffers_view, bytes_field, bytes_fields, bytes_of, read_record, record_fields,
    varint_field, varint_of,
};
use crate::schema::{abi_entry_fields, abi_entry_layout, abi_param_fields, abi_param_layout};
use crate::text::{decimal, decimal_text};

verus! {

/// One parameter of an entry of a contract's interface.
#[derive(Clone, Debug, PartialEq, Eq)]
pub struct AbiParam {
    /// Whether an event indexes this parameter.
    pub indexed: bool,
    pub name: String,
    pub param_type: String,
}

/// The mathematical value of an `AbiParam`.
pub struct AbiParamView {
    pub indexed: bool,
    pub name: Seq<char>,
    pub param_type: Seq<char>,
}

impl View for AbiParam {
    type V = AbiParamView;

    open spec fn view(&self) -> AbiParamView {
        AbiParamView { indexed: self.indexed, name: self.name@, param_type: self.param_type@ }
    }
}

/// The mathematical values of a list of parameters.
pub open spec fn params_view(params: Seq<AbiParam>) -> Seq<AbiParamView> {
    params.map_values(|p: AbiParam| p@)
}

/// One entry of a contract's interface: a function, an event, the
/// constructor or the fallback.
#[derive(Clone, Debug, PartialEq, Eq)]
pub struct AbiEntry {
    pub anonymous: bool,
    pub constant: bool,
    pub name: String,
    pub inputs: Vec<AbiParam>,
    pub outputs: Vec<AbiParam>,
    /// The number of the entry's type.
    pub entry_type: i32,
    pub payable: bool,
    /// The number of the entry's state mutability.
    pub state_mutability: i32,
}

/// The mathematical value of an `AbiEntry`.
pub struct AbiEntryView {
    pub anonymous: bool,
    pub constant: bool,
    pub name: Seq<char>,
    pub inputs: Seq<AbiParamView>,
    pub outputs: Seq<AbiParamView>,
    pub entry_type: i32,
    pub payable: bool,
    pub state_mutability: i32,
}

impl View for AbiEntry {
    type V = AbiEntryView;

    open spec fn view(&self) -> AbiEntryView {
        AbiEntryView {
            anonymous: self.anonymous,
            constant: self.constant,
            name: self.name@,
            inputs: params_view(self.inputs@),
            outputs: params_view(self.outputs@),
            entry_type: self.entry_type,
            payable: self.payable,
            state_mutability: self.state_mutability,
        }
    }
}

/// The mathematical values of a list of entries.
pub open spec fn entries_view(entries: Seq<AbiEntry>) -> Seq<AbiEntryView> {
    entries.map_values(|e: AbiEntry| e@)
}

/// The contents of a list of texts.
pub open spec fn texts_view(texts: Seq<String>) -> Seq<Seq<char>> {
    texts.map_values(|t: String| t@)
}

/// The JSON string literal of a text, where the serialiser gives one.
pub uninterp spec fn json_string(text: Seq<char>) -> Option<Seq<char>>;

/// The failure of `serde_json::to_string`, which is carried through unread.
#[verifier::external_type_specification]
#[verifier::external_body]
pub struct ExJsonError(serde_json::Error);

/// `serde_json::to_string` on a text: what it gives, a quoted and escaped
/// JSON string or a failure, depends on the text alone.
#[verifier::external_body]
fn json_quote(text: &str) -> (r: Result<String, serde_json::Error>)
    ensures
        match r {
            Ok(quoted) => json_string(text@) == Some(quoted@),
            Err(_) => json_string(text@) is None,
        },
{
    serde_json::to_string(text)
}

/// The JSON text of a flag.
pub open spec fn bool_text(flag: bool) -> Seq<char> {
    if flag {
        "true"@
    } else {
        "false"@
    }
}

/// Texts put one behind the other with a comma between them.
pub open spec fn joined(parts: Seq<Seq<char>>) -> Seq<char>
    decreases parts.len(),
{
    if parts.len() == 0 {
        Seq::empty()
    } else if parts.len() == 1 {
        parts[0]
    } else {
        joined(parts.drop_last()) + ","@ + parts.last()
    }
}

/// The JSON array of items that are JSON texts already.
pub open spec fn array_text(parts: Seq<Seq<char>>) -> Seq<char> {
    "["@ + joined(parts) + "]"@
}

/// The texts that a list of optional texts holds, place by place.
pub open spec fn present(items: Seq<Option<Seq<char>>>) -> Seq<Seq<char>> {
    Seq::new(items.len(), |i: int| items[i]->Some_0)
}

/// The JSON array of a list of items, where each of them has a JSON text.
pub open spec fn array_of(items: Seq<Option<Seq<char>>>) -> Option<Seq<char>> {
    if forall|i: int| 0 <= i < items.len() ==> (#[trigger] items[i]) is Some {
        Some(array_text(present(items)))
    } else {
        None
    }
}

/// The JSON object of a parameter whose name and type are JSON texts
/// already.
pub open spec fn param_object_text(indexed: bool, name: Seq<char>, param_type: Seq<char>) -> Seq<
    char,
> {
    "{\"indexed\":"@ + bool_text(indexed) + ",\"name\":"@ + name + ",\"type\":"@ + param_type
        + "}"@
}

/// The JSON object of a parameter, where its texts can be quoted.
pub open spec fn param_json(p: AbiParamView) -> Option<Seq<char>> {
    match (json_string(p.name), json_string(p.param_type)) {
        (Some(name), Some(param_type)) => Some(param_object_text(p.indexed, name, param_type)),
        _ => None,
    }
}

/// The JSON object of each parameter of a list.
pub open spec fn param_jsons(params: Seq<AbiParamView>) -> Seq<Option<Seq<char>>> {
    params.map_values(|p: AbiParamView| param_json(p))
}

/// The JSON object of an entry whose name and lists of parameters are
/// JSON texts already. The type and the state mutability are shown by
/// their numbers.
pub open spec fn entry_object_text(
    e: AbiEntryView,
    name: Seq<char>,
    inputs: Seq<char>,
    outputs: Seq<char>,
) -> Seq<char> {
    "{\"anonymous\":"@ + bool_text(e.anonymous) + ",\"constant\":"@ + bool_text(e.constant)
        + ",\"name\":"@ + name + ",\"inputs\":"@ + inputs + ",\"outputs\":"@ + outputs
        + ",\"type\":"@ + decimal_text(e.entry_type as int) + ",\"payable\":"@ + bool_text(
        e.payable,
    ) + ",\"state_mutability\":"@ + decimal_text(e.state_mutability as int) + "}"@
}

/// The JSON object of an entry, where its texts can be quoted.
pub open spec fn entry_json(e: AbiEntryView) -> Option<Seq<char>> {
    match (json_string(e.name), array_of(param_jsons(e.inputs)), array_of(param_jsons(e.outputs))) {
        (Some(name), Some(inputs), Some(outputs)) => Some(
            entry_object_text(e, name, inputs, outputs),
        ),
        _ => None,
    }
}

/// The JSON object of each entry of a list.
pub open spec fn entry_jsons(entries: Seq<AbiEntryView>) -> Seq<Option<Seq<char>>> {
    entries.map_values(|e: AbiEntryView| entry_json(e))
}

/// The JSON text of an interface: the array of its entries. There is none
/// where a text of an entry cannot be quoted.
pub open spec fn abi_json(entries: Seq<AbiEntryView>) -> Option<Seq<char>> {
    array_of(entry_jsons(entries))
}

/// What one parameter of an entry decodes to. Its name and its type must
/// be valid UTF-8.
pub open spec fn param_record(raw: Seq<u8>) -> Result<AbiParamView, DecodeFailure> {
    match record_fields(raw, abi_param_layout()) {
        None => Err(DecodeFailure::MalformedPayload(ContractKind::CreateSmartContract)),
        Some(f) => if !valid_utf8(bytes_of(f, 2)) || !valid_utf8(bytes_of(f, 3)) {
            Err(DecodeFailure::InvalidUtf8(ContractKind::CreateSmartContract))
        } else {
            Ok(
                AbiParamView {
                    indexed: varint_of(f, 1) != 0,
                    name: decode_utf8(bytes_of(f, 2)),
                    param_type: decode_utf8(bytes_of(f, 3)),
                },
            )
        },
    }
}

/// What each parameter of a list decodes to.
pub open spec fn param_results(items: Seq<Seq<u8>>) -> Seq<Result<AbiParamView, DecodeFailure>> {
    items.map_values(|b: Seq<u8>| param_record(b))
}

/// What one entry of an interface decodes to. Its name must be valid
/// UTF-8; the inputs are read before the outputs.
pub open spec fn entry_record(raw: Seq<u8>) -> Result<AbiEntryView, DecodeFailure> {
    match record_fields(raw, abi_entry_layout()) {
        None => Err(DecodeFailure::MalformedPayload(ContractKind::CreateSmartContract)),
        Some(f) => if !valid_utf8(bytes_of(f, 3)) {
            Err(DecodeFailure::InvalidUtf8(ContractKind::CreateSmartContract))
        } else {
            match collect(param_results(all_bytes_of(f, 4))) {
                Err(e) => Err(e),
                Ok(inputs) => match collect(param_results(all_bytes_of(f, 5))) {
                    Err(e) => Err(e),
                    Ok(outputs) => Ok(
                        AbiEntryView {
                            anonymous: varint_of(f, 1) != 0,
                            constant: varint_of(f, 2) != 0,
                            name: decode_utf8(bytes_of(f, 3)),
                            inputs,
                            outputs,
                            entry_type: low_bits(varint_of(f, 6)),
                            payable: varint_of(f, 7) != 0,
                            state_mutability: low_bits(varint_of(f, 8)),
                        },
                    ),
                },
            }
        },
    }
}

/// What each entry of a list decodes to.
pub open spec fn entry_results(items: Seq<Seq<u8>>) -> Seq<Result<AbiEntryView, DecodeFailure>> {
    items.map_values(|b: Seq<u8>| entry_record(b))
}

/// Decodes one parameter of an entry.
pub fn decode_param(raw: &[u8]) -> (r: Result<AbiParam, DecodeFailure>)
    ensures
        match r {
            Ok(p) => param_record(raw@) == Ok::<AbiParamView, DecodeFailure>(p@),
            Err(e) => param_record(raw@) == Err::<AbiParamView, DecodeFailure>(e),
        },
{
    let layout = abi_param_fields();
    let fields = match read_record(raw, &layout) {
        Some(fields) => fields,
        None => {
            return Err(DecodeFailure::MalformedPayload(ContractKind::CreateSmartContract));
        },
    };
    let name = match String::from_utf8(bytes_field(&fields, 2)) {
        Ok(name) => name,
        Err(_) => {
            return Err(DecodeFailure::InvalidUtf8(ContractKind::CreateSmartContract));
        },
    };
    let param_type = match String::from_utf8(bytes_field(&fields, 3)) {
        Ok(param_type) => param_type,
        Err(_) => {
            return Err(DecodeFailure::InvalidUtf8(ContractKind::CreateSmartContract));
        },
    };
    Ok(AbiParam { indexed: varint_field(&fields, 1) != 0, name, param_type })
}

/// Decodes the parameters of an entry, in order.
#[verifier::loop_isolation(false)]
pub fn decode_params(items: &Vec<Vec<u8>>) -> (r: Result<Vec<AbiParam>, DecodeFailure>)
    ensures
        match r {
            Ok(params) => collect(param_results(buffers_view(items@))) == Ok::<
                Seq<AbiParamView>,
                DecodeFailure,
            >(params_view(params@)),
            Err(e) => collect(param_results(buffers_view(items@))) == Err::<
                Seq<AbiParamView>,
                DecodeFailure,
            >(e),
        },
{
    let ghost results = param_results(buffers_view(items@));
    let mut params: Vec<AbiParam> = Vec::new();
    let mut i: usize = 0;
    while i < items.len()
        invariant
            i <= items@.len(),
            params@.len() == i,
            forall|k: int|
                0 <= k < i ==> (#[trigger] results[k]) is Ok && params@[k]@ == results[k]->Ok_0,
        decreases items@.len() - i,
    {
        assert(buffers_view(items@)[i as int] == items@[i as int]@);
        match decode_param(items[i].as_slice()) {
            Ok(p) => {
                params.push(p);
            },
            Err(e) => {
                proof {
                    lemma_collect_fails(results, i as int);
                }
                return Err(e);
            },
        }
        i += 1;
    }
    proof {
        lemma_collect_all(results);
        assert(params_view(params@) =~= values_of(results));
    }
    Ok(params)
}

/// Decodes one entry of an interface.
pub fn decode_entry(raw: &[u8]) -> (r: Result<AbiEntry, DecodeFailure>)
    ensures
        match r {
            Ok(entry) => entry_record(raw@) == Ok::<AbiEntryView, DecodeFailure>(entry@),
            Err(e) => entry_record(raw@) == Err::<AbiEntryView, DecodeFailure>(e),
        },
{
    let layout = abi_entry_fields();
    let fields = match read_record(raw, &layout) {
        Some(fields) => fields,
        None => {
            return Err(DecodeFailure::MalformedPayload(ContractKind::CreateSmartContract));
        },
    };
    let name = match String::from_utf8(bytes_field(&fields, 3)) {
        Ok(name) => name,
        Err(_) => {
            return Err(DecodeFailure::InvalidUtf8(ContractKind::CreateSmartContract));
        },
    };
    let inputs = match decode_params(&bytes_fields(&fields, 4)) {
        Ok(inputs) => inputs,
        Err(e) => {
            return Err(e);
        },
    };
    let outputs = match decode_params(&bytes_fields(&fields, 5)) {
        Ok(outputs) => outputs,
        Err(e) => {
            return Err(e);
        },
    };
    Ok(
        AbiEntry {
            anonymous: varint_field(&fields, 1) != 0,
            constant: varint_field(&fields, 2) != 0,
            name,
            inputs,
            outputs,
            entry_type: to_low_bits(varint_field(&fields, 6)),
            payable: varint_field(&fields, 7) != 0,
            state_mutability: to_low_bits(varint_field(&fields, 8)),
        },
    )
}

/// Decodes the entries of an interface, in order.
#[verifier::loop_isolation(false)]
pub fn decode_entries(items: &Vec<Vec<u8>>) -> (r: Result<Vec<AbiEntry>, DecodeFailure>)
    ensures
        match r {
            Ok(entries) => collect(entry_results(buffers_view(items@))) == Ok::<
                Seq<AbiEntryView>,
                DecodeFailure,
            >(entries_view(entries@)),
            Err(e) => collect(entry_results(buffers_view(items@))) == Err::<
                Seq<AbiEntryView>,
                DecodeFailure,
            >(e),
        },
{
    let ghost results = entry_results(buffers_view(items@));
    let mut entries: Vec<AbiEntry> = Vec::new();
    let mut i: usize = 0;
    while i < items.len()
        invariant
            i <= items@.len(),
            entries@.len() == i,
            forall|k: int|
                0 <= k < i ==> (#[trigger] results[k]) is Ok && entries@[k]@ == results[k]->Ok_0,
        decreases items@.len() - i,
    {
        assert(buffers_view(items@)[i as int] == items@[i as int]@);
        match decode_entry(items[i].as_slice()) {
            Ok(entry) => {
                entries.push(entry);
            },
            Err(e) => {
                proof {
                    lemma_collect_fails(results, i as int);
                }
                return Err(e);
            },
        }
        i += 1;
    }
    proof {
        lemma_collect_all(results);
        assert(entries_view(entries@) =~= values_of(results));
    }
    Ok(entries)
}

/// The JSON text of a flag.
fn bool_str(flag: bool) -> (text: &'static str)
    ensures
        text@ == bool_text(flag),
{
    if flag {
        "true"
    } else {
        "false"
    }
}

/// Renders items that are JSON texts already as a JSON array.
pub fn render_array(parts: &Vec<String>) -> (text: String)
    ensures
        text@ == array_text(texts_view(parts@)),
{
    let ghost all = texts_view(parts@);
    let mut text = String::new();
    text.append("[");
    let mut i: usize = 0;
    assert(text@ =~= "["@ + joined(all.take(0)));
    while i < parts.len()
        invariant
            i <= parts@.len(),
            all == texts_view(parts@),
            text@ == "["@ + joined(all.take(i as int)),
        decreases parts@.len() - i,
    {
        proof {
            let next = all.take(i + 1);
            assert(next.drop_last() =~= all.take(i as int));
            assert(next.last() == parts@[i as int]@);
            if i == 0 {
                assert(next[0] == parts@[0]@);
            }
        }
        if i > 0 {
            text.append(",");
        }
        text.append(parts[i].as_str());
        assert(text@ =~= "["@ + joined(all.take(i + 1)));
        i += 1;
    }
    assert(all.take(i as int) =~= all);
    text.append("]");
    text
}

/// Puts the JSON object of a parameter together from its flag and from
/// its name and type as JSON texts.
pub fn param_object(indexed: bool, name: &str, param_type: &str) -> (text: String)
    ensures
        text@ == param_object_text(indexed, name@, param_type@),
{
    let mut text = String::new();
    text.append("{\"indexed\":");
    text.append(bool_str(indexed));
    text.append(",\"name\":");
    text.append(name);
    text.append(",\"type\":");
    text.append(param_type);
    text.append("}");
    assert(text@ =~= param_object_text(indexed, name@, param_type@));
    text
}

/// Puts the JSON object of an entry together from its flags and numbers
/// and from its name and lists of parameters as JSON texts.
pub fn entry_object(e: &AbiEntry, name: &str, inputs: &str, outputs: &str) -> (text: String)
    ensures
        text@ == entry_object_text(e@, name@, inputs@, outputs@),
{
    let mut text = String::new();
    text.append("{\"anonymous\":");
    text.append(bool_str(e.anonymous));
    text.append(",\"constant\":");
    text.append(bool_str(e.constant));
    text.append(",\"name\":");
    text.append(name);
    text.append(",\"inputs\":");
    text.append(inputs);
    text.append(",\"outputs\":");
    text.append(outputs);
    text.append(",\"type\":");
    text.append(decimal(e.entry_type).as_str());
    text.append(",\"payable\":");
    text.append(bool_str(e.payable));
    text.append(",\"state_mutability\":");
    text.append(decimal(e.state_mutability).as_str());
    text.append("}");
    assert(text@ =~= entry_object_text(e@, name@, inputs@, outputs@));
    text
}

/// Renders a parameter as a JSON object.
pub fn render_param(p: &AbiParam) -> (r: Option<String>)
    ensures
        text_view(r) == param_json(p@),
{
    let name = match json_quote(p.name.as_str()) {
        Ok(name) => name,
        Err(_) => {
            return None;
        },
    };
    let param_type = match json_quote(p.param_type.as_str()) {
        Ok(param_type) => param_type,
        Err(_) => {
            return None;
        },
    };
    Some(param_object(p.indexed, name.as_str(), param_type.as_str()))
}

/// Renders a list of parameters as a JSON array.
#[verifier::loop_isolation(false)]
pub fn render_params(params: &Vec<AbiParam>) -> (r: Option<String>)
    ensures
        text_view(r) == array_of(param_jsons(params_view(params@))),
{
    let ghost items = param_jsons(params_view(params@));
    let mut parts: Vec<String> = Vec::new();
    let mut i: usize = 0;
    while i < params.len()
        invariant
            i <= params@.len(),
            parts@.len() == i,
            forall|k: int|
                0 <= k < i ==> (#[trigger] items[k]) is Some && parts@[k]@ == items[k]->Some_0,
        decreases params@.len() - i,
    {
        assert(items[i as int] == param_json(params@[i as int]@));
        match render_param(&params[i]) {
            Some(text) => {
                parts.push(text);
            },
            None => {
                return None;
            },
        }
        i += 1;
    }
    assert(texts_view(parts@) =~= present(items));
    Some(render_array(&parts))
}

/// Renders an entry as a JSON object.
pub fn render_entry(e: &AbiEntry) -> (r: Option<String>)
    ensures
        text_view(r) == entry_json(e@),
{
    let name = match json_quote(e.name.as_str()) {
        Ok(name) => name,
        Err(_) => {
            return None;
        },
    };
    let inputs = match render_params(&e.inputs) {
        Some(inputs) => inputs,
        None => {
            return None;
        },
    };
    let outputs = match render_params(&e.outputs) {
        Some(outputs) => outputs,
        None => {
            return None;
        },
    };
    Some(entry_object(e, name.as_str(), inputs.as_str(), outputs.as_str()))
}

/// Renders an interface as JSON text: the array of its entries.
#[verifier::loop_isolation(false)]
pub fn render_abi(entries: &Vec<AbiEntry>) -> (r: Option<String>)
    ensures
        text_view(r) == abi_json(entries_view(entries@)),
{
    let ghost items = entry_jsons(entries_view(entries@));
    let mut parts: Vec<String> = Vec::new();
    let mut i: usize = 0;
    while i < entries.len()
        invariant
            i <= entries@.len(),
            parts@.len() == i,
            forall|k: int|
                0 <= k < i ==> (#[trigger] items[k]) is Some && parts@[k]@ == items[k]->Some_0,
        decreases entries@.len() - i,
    {
        assert(items[i as int] == entry_json(entries@[i as int]@));
        match render_entry(&entries[i]) {
            Some(text) => {
                parts.push(text);
            },
            None => {
                return None;
            },
        }
        i += 1;
    }
    assert(texts_view(parts@) =~= present(items));
    Some(render_array(&parts))
}

} // verus!
