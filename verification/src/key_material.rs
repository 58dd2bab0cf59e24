use vstd::prelude::*;
use vstd::slice::slice_to_vec;
use vstd::string::StringExecFns;
use crate::address::{address_text, encode_address};
use crate::decoder::address_room;
use crate::hex_codec::{hex_text, to_hex};

verus! {

/// What a field of a key bundle holds: bytes as they came, or their
/// hexadecimal text.
#[derive(Clone, Debug, PartialEq, Eq)]
pub enum KeyValue {
    Raw(Vec<u8>),
    Hex(String),
}

/// The mathematical value of a `KeyValue`.
pub enum KeyValueView {
    Raw(Seq<u8>),
    Hex(Seq<char>),
}

impl View for KeyValue {
    type V = KeyValueView;

    open spec fn view(&self) -> KeyValueView {
        match self {
            KeyValue::Raw(bytes) => KeyValueView::Raw(bytes@),
            KeyValue::Hex(text) => KeyValueView::Hex(text@),
        }
    }
}

/// One named field of a key bundle.
#[derive(Clone, Debug, PartialEq, Eq)]
pub struct KeyField {
    pub name: String,
    pub value: KeyValue,
}

/// The mathematical value of a `KeyField`.
pub struct KeyFieldView {
    pub name: Seq<char>,
    pub value: KeyValueView,
}

impl View for KeyField {
    type V = KeyFieldView;

    open spec fn view(&self) -> KeyFieldView {
        KeyFieldView { name: self.name@, value: self.value@ }
    }
}

/// The named fields of a derived key and address bundle, in the order in
/// which they came.
#[derive(Clone, Debug, PartialEq, Eq)]
pub struct KeyMaterialBundle {
    pub fields: Vec<KeyField>,
}

impl View for KeyMaterialBundle {
    type V = Seq<KeyFieldView>;

    open spec fn view(&self) -> Seq<KeyFieldView> {
        self.fields@.map_values(|f: KeyField| f@)
    }
}

/// Whether a name is one of the key components that are shown in
/// hexadecimal: `sk`, `ask`, `nsk`, `ovk`, `ak`, `nk`, `ivk`, `d`, `pkD`.
pub open spec fn is_key_component(name: Seq<char>) -> bool {
    ||| name == "sk"@
    ||| name == "ask"@
    ||| name == "nsk"@
    ||| name == "ovk"@
    ||| name == "ak"@
    ||| name == "nk"@
    ||| name == "ivk"@
    ||| name == "d"@
    ||| name == "pkD"@
}

/// A field after formatting: the bytes of a key component become their
/// hexadecimal text, and every other field stays as it is.
pub open spec fn formatted_field(field: KeyFieldView) -> KeyFieldView {
    match field.value {
        KeyValueView::Raw(bytes) => if is_key_component(field.name) {
            KeyFieldView { name: field.name, value: KeyValueView::Hex(hex_text(bytes)) }
        } else {
            field
        },
        KeyValueView::Hex(_) => field,
    }
}

/// A bundle after formatting: each field formatted, in place.
pub open spec fn formatted(bundle: Seq<KeyFieldView>) -> Seq<KeyFieldView> {
    bundle.map_values(|f: KeyFieldView| formatted_field(f))
}

/// Whether a bundle has a field of the given name.
pub open spec fn has_field(bundle: Seq<KeyFieldView>, name: Seq<char>) -> bool {
    exists|i: int| 0 <= i < bundle.len() && (#[trigger] bundle[i]).name == name
}

/// The value of the first field of the given name, if there is one.
pub open spec fn value_of(bundle: Seq<KeyFieldView>, name: Seq<char>) -> Option<KeyValueView>
    decreases bundle.len(),
{
    if bundle.len() == 0 {
        None
    } else if bundle[0].name == name {
        Some(bundle[0].value)
    } else {
        value_of(bundle.skip(1), name)
    }
}

/// Formatting neither adds nor removes a field: a bundle has a field of a
/// name after formatting exactly where it had one before.
pub proof fn lemma_format_keeps_names(bundle: Seq<KeyFieldView>, name: Seq<char>)
    ensures
        has_field(formatted(bundle), name) == has_field(bundle, name),
        formatted(bundle).len() == bundle.len(),
{
    let out = formatted(bundle);
    if has_field(bundle, name) {
        let i = choose|i: int| 0 <= i < bundle.len() && (#[trigger] bundle[i]).name == name;
        assert(out[i].name == name);
    }
    if has_field(out, name) {
        let i = choose|i: int| 0 <= i < out.len() && (#[trigger] out[i]).name == name;
        assert(bundle[i].name == name);
    }
}

/// Formatting a bundle that is formatted already changes nothing.
pub proof fn lemma_format_twice(bundle: Seq<KeyFieldView>)
    ensures
        formatted(formatted(bundle)) == formatted(bundle),
{
    assert(formatted(formatted(bundle)) =~= formatted(bundle));
}

/// Whether two texts hold the same characters.
fn same_text(a: &str, b: &str) -> (same: bool)
    ensures
        same == (a@ == b@),
{
    let left = String::from_str(a);
    let right = String::from_str(b);
    left == right
}

/// Whether a name is one of the key components that are shown in
/// hexadecimal.
pub fn is_component_name(name: &str) -> (is: bool)
    ensures
        is == is_key_component(name@),
{
    same_text(name, "sk") || same_text(name, "ask") || same_text(name, "nsk") || same_text(
        name,
        "ovk",
    ) || same_text(name, "ak") || same_text(name, "nk") || same_text(name, "ivk") || same_text(
        name,
        "d",
    ) || same_text(name, "pkD")
}

impl KeyMaterialBundle {
    /// Formats a bundle for display: the bytes of each key component
    /// become their hexadecimal text. Fields that the bundle does not
    /// have are not added, and the other fields stay as they are.
    pub fn format(&self) -> (out: KeyMaterialBundle)
        ensures
            out@ == formatted(self@),
            forall|name: Seq<char>| has_field(out@, name) == has_field(self@, name),
    {
        let mut fields: Vec<KeyField> = Vec::new();
        let mut i: usize = 0;
        while i < self.fields.len()
            invariant
                i <= self.fields@.len(),
                fields@.len() == i,
                forall|k: int|
                    0 <= k < i ==> (#[trigger] fields@[k])@ == formatted_field(self.fields@[k]@),
            decreases self.fields@.len() - i,
        {
            let field = &self.fields[i];
            let name = field.name.clone();
            let value = match &field.value {
                KeyValue::Raw(bytes) => if is_component_name(field.name.as_str()) {
                    KeyValue::Hex(to_hex(bytes.as_slice()))
                } else {
                    KeyValue::Raw(slice_to_vec(bytes.as_slice()))
                },
                KeyValue::Hex(text) => KeyValue::Hex(text.clone()),
            };
            fields.push(KeyField { name, value });
            i += 1;
        }
        let out = KeyMaterialBundle { fields };
        proof {
            assert(out@ =~= formatted(self@));
            assert forall|name: Seq<char>| has_field(out@, name) == has_field(self@, name) by {
                lemma_format_keeps_names(self@, name);
            }
        }
        out
    }

    /// The value of the first field of the given name, if there is one.
    pub fn get(&self, name: &str) -> (r: Option<&KeyValue>)
        ensures
            match r {
                Some(value) => value_of(self@, name@) == Some(value@),
                None => value_of(self@, name@) is None,
            },
            r is Some <==> has_field(self@, name@),
    {
        let mut i: usize = 0;
        assert(self@.skip(0) =~= self@);
        while i < self.fields.len()
            invariant
                i <= self.fields@.len(),
                value_of(self@, name@) == value_of(self@.skip(i as int), name@),
                forall|k: int| 0 <= k < i ==> (#[trigger] self@[k]).name != name@,
            decreases self.fields@.len() - i,
        {
            let ghost rest = self@.skip(i as int);
            assert(rest[0] == self.fields@[i as int]@);
            assert(rest.skip(1) =~= self@.skip(i + 1));
            if same_text(self.fields[i].name.as_str(), name) {
                assert(self@[i as int].name == name@);
                return Some(&self.fields[i].value);
            }
            i += 1;
        }
        None
    }
}

/// The four lines that show a key pair: the address in base-58 and in
/// hexadecimal, then the public and the private key in hexadecimal.
pub open spec fn key_report(address: Seq<u8>, public: Seq<u8>, private: Seq<u8>) -> Seq<
    Seq<char>,
> {
    seq![
        "Address(Base58): "@ + address_text(address),
        "Address(hex):    "@ + hex_text(address),
        "Public:          "@ + hex_text(public),
        "Private:         "@ + hex_text(private),
    ]
}

/// A label followed by a text.
fn labelled(label: &str, text: String) -> (line: String)
    ensures
        line@ == label@ + text@,
{
    let mut line = String::from_str(label);
    line.append(text.as_str());
    line
}

/// Renders the four lines that show a key pair.
pub fn key_lines(address: &[u8], public: &[u8], private: &[u8]) -> (lines: Vec<String>)
    requires
        address@.len() <= address_room(),
    ensures
        lines@.map_values(|l: String| l@) == key_report(address@, public@, private@),
{
    let mut lines: Vec<String> = Vec::new();
    lines.push(labelled("Address(Base58): ", encode_address(address)));
    lines.push(labelled("Address(hex):    ", to_hex(address)));
    lines.push(labelled("Public:          ", to_hex(public)));
    lines.push(labelled("Private:         ", to_hex(private)));
    assert(lines@.map_values(|l: String| l@) =~= key_report(address@, public@, private@));
    lines
}

} // verus!
