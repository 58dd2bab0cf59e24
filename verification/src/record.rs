use vstd::prelude::*;
use vstd::slice::slice_to_vec;
use crate::schema::{is_scalar, FieldKind, FieldSpec};
use crate::wire::{
    lemma_parse_field_bound, parse_field, parse_fields, parse_message, wire_view, Field,
    FieldValue, WireField, WireValue,
};

verus! {

/// Whether what a field holds is carried the way its kind asks for.
pub open spec fn fits(value: WireValue, kind: FieldKind) -> bool {
    if is_scalar(kind) {
        value is Varint
    } else {
        value is Bytes
    }
}

/// Whether every field that a layout names is carried the way the layout
/// asks for. Fields that the layout does not name are free.
pub open spec fn conforms(fields: Seq<WireField>, layout: Seq<FieldSpec>) -> bool {
    forall|i: int, j: int|
        #![trigger fields[i], layout[j]]
        0 <= i < fields.len() && 0 <= j < layout.len() && fields[i].number == layout[j].number
            ==> fits(fields[i].value, layout[j].kind)
}

/// The fields of a binary record of the given layout. There are none where
/// the buffer cannot be split into fields, or where a field that the
/// layout names is carried in another way than its kind asks for.
pub open spec fn record_fields(raw: Seq<u8>, layout: Seq<FieldSpec>) -> Option<Seq<WireField>> {
    match parse_fields(raw) {
        Some(fields) => if conforms(fields, layout) {
            Some(fields)
        } else {
            None
        },
        None => None,
    }
}

/// The integer of the last field with the given number; zero where there
/// is no such field.
pub open spec fn varint_of(fields: Seq<WireField>, number: u32) -> u64
    decreases fields.len(),
{
    if fields.len() == 0 {
        0
    } else if fields.last().number == number {
        match fields.last().value {
            WireValue::Varint(v) => v,
            _ => 0,
        }
    } else {
        varint_of(fields.drop_last(), number)
    }
}

/// The bytes of the last field with the given number; none where there is
/// no such field.
pub open spec fn bytes_of(fields: Seq<WireField>, number: u32) -> Seq<u8>
    decreases fields.len(),
{
    if fields.len() == 0 {
        Seq::empty()
    } else if fields.last().number == number {
        match fields.last().value {
            WireValue::Bytes(b) => b,
            _ => Seq::empty(),
        }
    } else {
        bytes_of(fields.drop_last(), number)
    }
}

/// The bytes of every field with the given number, in order.
pub open spec fn all_bytes_of(fields: Seq<WireField>, number: u32) -> Seq<Seq<u8>>
    decreases fields.len(),
{
    if fields.len() == 0 {
        Seq::empty()
    } else {
        let before = all_bytes_of(fields.drop_last(), number);
        match fields.last().value {
            WireValue::Bytes(b) => if fields.last().number == number {
                before.push(b)
            } else {
                before
            },
            _ => before,
        }
    }
}

/// Whether no field holds more than `limit` bytes.
pub open spec fn fields_within(fields: Seq<WireField>, limit: nat) -> bool {
    forall|i: int|
        0 <= i < fields.len() ==> (#[trigger] fields[i].value matches WireValue::Bytes(b)
            ==> b.len() <= limit)
}

/// Whether no buffer of a list is longer than `limit`.
pub open spec fn all_within(buffers: Seq<Seq<u8>>, limit: nat) -> bool {
    forall|i: int| 0 <= i < buffers.len() ==> (#[trigger] buffers[i]).len() <= limit
}

/// The contents of a list of buffers.
pub open spec fn buffers_view(buffers: Seq<Vec<u8>>) -> Seq<Seq<u8>> {
    buffers.map_values(|b: Vec<u8>| b@)
}

/// No field of a record holds more bytes than the record has.
pub proof fn lemma_parse_fields_within(raw: Seq<u8>)
    ensures
        parse_fields(raw) matches Some(fields) ==> fields_within(fields, raw.len()),
    decreases raw.len(),
{
    if raw.len() > 0 {
        lemma_parse_field_bound(raw);
        if let Some((field, n)) = parse_field(raw) {
            let rest = raw.skip(n as int);
            lemma_parse_fields_within(rest);
            if let Some(tail) = parse_fields(rest) {
                let fields = seq![field] + tail;
                assert forall|i: int| 0 <= i < fields.len() implies (
                #[trigger] fields[i].value matches WireValue::Bytes(b) ==> b.len() <= raw.len()) by {
                    if i > 0 {
                        assert(fields[i] == tail[i - 1]);
                    }
                }
            }
        }
    }
}

/// The last bytes field of a list is no longer than any of its fields may be.
pub proof fn lemma_bytes_of_within(fields: Seq<WireField>, number: u32, limit: nat)
    requires
        fields_within(fields, limit),
    ensures
        bytes_of(fields, number).len() <= limit,
        all_within(all_bytes_of(fields, number), limit),
    decreases fields.len(),
{
    if fields.len() > 0 {
        let init = fields.drop_last();
        assert forall|i: int| 0 <= i < init.len() implies (
        #[trigger] init[i].value matches WireValue::Bytes(b) ==> b.len() <= limit) by {
            assert(init[i] == fields[i]);
        }
        lemma_bytes_of_within(init, number, limit);
        let last = fields[fields.len() - 1];
        assert(last.value matches WireValue::Bytes(b) ==> b.len() <= limit);
    }
}

/// Whether what a field holds is carried the way its kind asks for.
fn value_fits(value: &FieldValue, kind: FieldKind) -> (ok: bool)
    ensures
        ok == fits(value@, kind),
{
    let scalar = match kind {
        FieldKind::Amount => true,
        FieldKind::Bool => true,
        FieldKind::Integer => true,
        _ => false,
    };
    match value {
        FieldValue::Varint(_) => scalar,
        FieldValue::Bytes(_) => !scalar,
        FieldValue::Fixed => false,
    }
}

/// Whether every field that a layout names is carried the way the layout
/// asks for.
pub fn check_layout(fields: &Vec<Field>, layout: &Vec<FieldSpec>) -> (ok: bool)
    ensures
        ok == conforms(wire_view(fields@), layout@),
{
    let ghost w = wire_view(fields@);
    let mut i: usize = 0;
    while i < fields.len()
        invariant
            i <= fields@.len(),
            w == wire_view(fields@),
            forall|a: int, b: int|
                #![trigger w[a], layout@[b]]
                0 <= a < i && 0 <= b < layout@.len() && w[a].number == layout@[b].number ==> fits(
                    w[a].value,
                    layout@[b].kind,
                ),
        decreases fields@.len() - i,
    {
        let mut j: usize = 0;
        while j < layout.len()
            invariant
                i < fields@.len(),
                j <= layout@.len(),
                w == wire_view(fields@),
                forall|b: int|
                    #![trigger layout@[b]]
                    0 <= b < j && w[i as int].number == layout@[b].number ==> fits(
                        w[i as int].value,
                        layout@[b].kind,
                    ),
            decreases layout@.len() - j,
        {
            assert(w[i as int] == fields@[i as int]@);
            if fields[i].number == layout[j].number && !value_fits(&fields[i].value, layout[j].kind) {
                assert(!fits(w[i as int].value, layout@[j as int].kind));
                return false;
            }
            j += 1;
        }
        i += 1;
    }
    true
}

/// Splits a binary record into its fields and holds them to a layout.
pub fn read_record(raw: &[u8], layout: &Vec<FieldSpec>) -> (r: Option<Vec<Field>>)
    ensures
        match r {
            Some(fields) => record_fields(raw@, layout@) == Some(wire_view(fields@))
                && fields_within(wire_view(fields@), raw@.len()),
            None => record_fields(raw@, layout@) is None,
        },
{
    proof {
        lemma_parse_fields_within(raw@);
    }
    match parse_message(raw) {
        Some(fields) => if check_layout(&fields, layout) {
            Some(fields)
        } else {
            None
        },
        None => None,
    }
}

/// The integer of the last field with the given number; zero where there
/// is no such field.
pub fn varint_field(fields: &Vec<Field>, number: u32) -> (v: u64)
    ensures
        v == varint_of(wire_view(fields@), number),
{
    let ghost w = wire_view(fields@);
    let mut v: u64 = 0;
    let mut i: usize = 0;
    while i < fields.len()
        invariant
            i <= fields@.len(),
            w == wire_view(fields@),
            v == varint_of(w.take(i as int), number),
        decreases fields@.len() - i,
    {
        proof {
            let next = w.take(i + 1);
            assert(next.drop_last() =~= w.take(i as int));
            assert(next.last() == fields@[i as int]@);
        }
        if fields[i].number == number {
            v = match &fields[i].value {
                FieldValue::Varint(x) => *x,
                _ => 0,
            };
        }
        i += 1;
    }
    assert(w.take(i as int) =~= w);
    v
}

/// The bytes of the last field with the given number; none where there is
/// no such field.
pub fn bytes_field(fields: &Vec<Field>, number: u32) -> (bytes: Vec<u8>)
    ensures
        bytes@ == bytes_of(wire_view(fields@), number),
{
    let ghost w = wire_view(fields@);
    let mut bytes: Vec<u8> = Vec::new();
    let mut i: usize = 0;
    while i < fields.len()
        invariant
            i <= fields@.len(),
            w == wire_view(fields@),
            bytes@ == bytes_of(w.take(i as int), number),
        decreases fields@.len() - i,
    {
        proof {
            let next = w.take(i + 1);
            assert(next.drop_last() =~= w.take(i as int));
            assert(next.last() == fields@[i as int]@);
        }
        if fields[i].number == number {
            bytes = match &fields[i].value {
                FieldValue::Bytes(b) => slice_to_vec(b.as_slice()),
                _ => Vec::new(),
            };
        }
        i += 1;
    }
    assert(w.take(i as int) =~= w);
    bytes
}

/// The bytes of every field with the given number, in order.
pub fn bytes_fields(fields: &Vec<Field>, number: u32) -> (all: Vec<Vec<u8>>)
    ensures
        buffers_view(all@) == all_bytes_of(wire_view(fields@), number),
{
    let ghost w = wire_view(fields@);
    let mut all: Vec<Vec<u8>> = Vec::new();
    let mut i: usize = 0;
    assert(buffers_view(all@) =~= Seq::empty());
    while i < fields.len()
        invariant
            i <= fields@.len(),
            w == wire_view(fields@),
            buffers_view(all@) == all_bytes_of(w.take(i as int), number),
        decreases fields@.len() - i,
    {
        proof {
            let next = w.take(i + 1);
            assert(next.drop_last() =~= w.take(i as int));
            assert(next.last() == fields@[i as int]@);
        }
        if fields[i].number == number {
            match &fields[i].value {
                FieldValue::Bytes(b) => {
                    let copy = slice_to_vec(b.as_slice());
                    assert(buffers_view(all@.push(copy)) =~= buffers_view(all@).push(copy@));
                    all.push(copy);
                },
                _ => {},
            }
        }
        i += 1;
    }
    assert(w.take(i as int) =~= w);
    all
}

} // verus!
