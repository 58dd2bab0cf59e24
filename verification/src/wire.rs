use vstd::prelude::*;
use vstd::slice::{slice_subrange, slice_to_vec};

verus! {

/// The wire type of a variable-length integer.
pub const WIRE_VARINT: u64 = 0;

/// The wire type of a fixed value of eight bytes.
pub const WIRE_FIXED64: u64 = 1;

/// The wire type of a length-delimited run of bytes.
pub const WIRE_BYTES: u64 = 2;

/// The wire type of a fixed value of four bytes.
pub const WIRE_FIXED32: u64 = 5;

/// What one field of a binary record holds, as a mathematical value.
pub enum WireValue {
    /// A variable-length integer.
    Varint(u64),
    /// A length-delimited run of bytes.
    Bytes(Seq<u8>),
    /// A fixed-width value, which no record layout here reads.
    Fixed,
}

/// One field of a binary record, as a mathematical value.
pub struct WireField {
    pub number: u32,
    pub value: WireValue,
}

/// What one field of a binary record holds.
#[derive(Debug)]
pub enum FieldValue {
    /// A variable-length integer.
    Varint(u64),
    /// A length-delimited run of bytes.
    Bytes(Vec<u8>),
    /// A fixed-width value, which no record layout here reads.
    Fixed,
}

/// One field of a binary record: its number and what it holds.
#[derive(Debug)]
pub struct Field {
    pub number: u32,
    pub value: FieldValue,
}

impl View for FieldValue {
    type V = WireValue;

    open spec fn view(&self) -> WireValue {
        match self {
            FieldValue::Varint(v) => WireValue::Varint(*v),
            FieldValue::Bytes(b) => WireValue::Bytes(b@),
            FieldValue::Fixed => WireValue::Fixed,
        }
    }
}

impl View for Field {
    type V = WireField;

    open spec fn view(&self) -> WireField {
        WireField { number: self.number, value: self.value@ }
    }
}

/// The mathematical values of a list of fields.
pub open spec fn wire_view(fields: Seq<Field>) -> Seq<WireField> {
    fields.map_values(|f: Field| f@)
}

/// How many bytes the variable-length integer at the front of a buffer
/// takes: up to and with the first byte below 128. Zero where no byte is
/// below 128.
pub open spec fn varint_width(bytes: Seq<u8>) -> nat
    decreases bytes.len(),
{
    if bytes.len() == 0 {
        0
    } else if bytes[0] < 128 {
        1
    } else {
        let tail = varint_width(bytes.skip(1));
        if tail == 0 {
            0
        } else {
            tail + 1
        }
    }
}

/// The number that the first `width` bytes spell: seven bits a byte, the
/// low bits first.
pub open spec fn varint_sum(bytes: Seq<u8>, width: nat) -> nat
    decreases width,
{
    if width == 0 || bytes.len() == 0 {
        0
    } else {
        (bytes[0] % 128) as nat + 128 * varint_sum(bytes.skip(1), (width - 1) as nat)
    }
}

/// The variable-length integer at the front of a buffer, with the number
/// of bytes it takes. There is none where the buffer ends before a byte
/// below 128, where more than ten bytes would be needed, or where the
/// number does not fit in 64 bits.
pub open spec fn varint(bytes: Seq<u8>) -> Option<(u64, nat)> {
    let width = varint_width(bytes);
    if 1 <= width <= 10 && varint_sum(bytes, width) <= u64::MAX {
        Some((varint_sum(bytes, width) as u64, width))
    } else {
        None
    }
}

/// The field at the front of a buffer, with the number of bytes it takes.
/// A field starts with a key: eight times the field's number, which is at
/// least 1, plus the wire type.
pub open spec fn parse_field(bytes: Seq<u8>) -> Option<(WireField, nat)> {
    match varint(bytes) {
        None => None,
        Some((key, n)) => {
            let number = key / 8;
            let rest = bytes.skip(n as int);
            if key > u32::MAX || number == 0 {
                None
            } else if key % 8 == WIRE_VARINT {
                match varint(rest) {
                    Some((v, m)) => Some(
                        (WireField { number: number as u32, value: WireValue::Varint(v) }, n + m),
                    ),
                    None => None,
                }
            } else if key % 8 == WIRE_FIXED64 {
                if rest.len() >= 8 {
                    Some((WireField { number: number as u32, value: WireValue::Fixed }, n + 8))
                } else {
                    None
                }
            } else if key % 8 == WIRE_BYTES {
                match varint(rest) {
                    Some((len, m)) => if m + len <= rest.len() {
                        Some(
                            (
                                WireField {
                                    number: number as u32,
                                    value: WireValue::Bytes(rest.subrange(m as int, m + len)),
                                },
                                n + m + len as nat,
                            ),
                        )
                    } else {
                        None
                    },
                    None => None,
                }
            } else if key % 8 == WIRE_FIXED32 {
                if rest.len() >= 4 {
                    Some((WireField { number: number as u32, value: WireValue::Fixed }, n + 4))
                } else {
                    None
                }
            } else {
                None
            }
        },
    }
}

/// The fields of a binary record, in the order of the buffer. There are
/// none where some field cannot be read.
pub open spec fn parse_fields(bytes: Seq<u8>) -> Option<Seq<WireField>>
    decreases bytes.len(),
{
    if bytes.len() == 0 {
        Some(Seq::empty())
    } else {
        match parse_field(bytes) {
            Some((field, n)) => if 0 < n <= bytes.len() {
                match parse_fields(bytes.skip(n as int)) {
                    Some(rest) => Some(seq![field] + rest),
                    None => None,
                }
            } else {
                None
            },
            None => None,
        }
    }
}

/// A variable-length integer ends inside the buffer it was read from.
pub proof fn lemma_varint_width_bound(bytes: Seq<u8>)
    ensures
        varint_width(bytes) <= bytes.len(),
    decreases bytes.len(),
{
    if bytes.len() > 0 && bytes[0] >= 128 {
        lemma_varint_width_bound(bytes.skip(1));
    }
}

/// A field takes at least one byte and ends inside the buffer it was read
/// from.
pub proof fn lemma_parse_field_bound(bytes: Seq<u8>)
    ensures
        parse_field(bytes) matches Some((_, n)) ==> 0 < n <= bytes.len(),
{
    lemma_varint_width_bound(bytes);
    if let Some((key, n)) = varint(bytes) {
        lemma_varint_width_bound(bytes.skip(n as int));
    }
}

/// The failure of `prost::encoding::decode_varint`, which is carried through
/// unread.
#[verifier::external_type_specification]
#[verifier::external_body]
pub struct ExProstDecodeError(prost::DecodeError);

/// `prost::encoding::decode_varint` on a byte slice. It succeeds exactly
/// where the slice starts with a variable-length integer of at most ten
/// bytes that fits in 64 bits; it then gives that integer, and the slice
/// is left at the first byte behind it.
#[verifier::external_body]
fn read_varint<'a>(bytes: &'a [u8]) -> (r: Result<(u64, &'a [u8]), prost::DecodeError>)
    ensures
        r is Ok <==> varint(bytes@) is Some,
        r matches Ok((value, rest)) ==> varint(bytes@) matches Some((v, n)) && value == v
            && rest@ == bytes@.skip(n as int),
{
    let mut rest = bytes;
    match prost::encoding::decode_varint(&mut rest) {
        Ok(value) => Ok((value, rest)),
        Err(e) => Err(e),
    }
}

/// Reads the variable-length integer at the front of a buffer, with the
/// number of bytes it takes.
pub fn take_varint(bytes: &[u8]) -> (r: Option<(u64, usize)>)
    ensures
        match r {
            Some((v, n)) => varint(bytes@) == Some((v, n as nat)) && 1 <= n <= 10 && n
                <= bytes@.len(),
            None => varint(bytes@) is None,
        },
{
    proof {
        lemma_varint_width_bound(bytes@);
    }
    match read_varint(bytes) {
        Ok((value, rest)) => {
            let n = bytes.len() - rest.len();
            Some((value, n))
        },
        Err(_) => None,
    }
}

/// Reads the field at the front of a buffer, with the number of bytes it
/// takes.
pub fn take_field(bytes: &[u8]) -> (r: Option<(Field, usize)>)
    ensures
        match r {
            Some((f, n)) => parse_field(bytes@) == Some((f@, n as nat)) && 0 < n <= bytes@.len(),
            None => parse_field(bytes@) is None,
        },
{
    let (key, n) = match take_varint(bytes) {
        Some(pair) => pair,
        None => {
            return None;
        },
    };
    if key > u32::MAX as u64 || key / 8 == 0 {
        return None;
    }
    let number = (key / 8) as u32;
    let wire = key % 8;
    let rest = slice_subrange(bytes, n, bytes.len());
    assert(rest@ == bytes@.skip(n as int));
    if wire == WIRE_VARINT {
        match take_varint(rest) {
            Some((v, m)) => Some((Field { number, value: FieldValue::Varint(v) }, n + m)),
            None => None,
        }
    } else if wire == WIRE_FIXED64 {
        if rest.len() >= 8 {
            Some((Field { number, value: FieldValue::Fixed }, n + 8))
        } else {
            None
        }
    } else if wire == WIRE_BYTES {
        match take_varint(rest) {
            Some((len, m)) => {
                if len > (rest.len() - m) as u64 {
                    return None;
                }
                let len = len as usize;
                let body = slice_to_vec(slice_subrange(rest, m, m + len));
                Some((Field { number, value: FieldValue::Bytes(body) }, n + m + len))
            },
            None => None,
        }
    } else if wire == WIRE_FIXED32 {
        if rest.len() >= 4 {
            Some((Field { number, value: FieldValue::Fixed }, n + 4))
        } else {
            None
        }
    } else {
        None
    }
}

/// Splits a binary record into its fields.
pub fn parse_message(raw: &[u8]) -> (r: Option<Vec<Field>>)
    ensures
        match r {
            Some(fields) => parse_fields(raw@) == Some(wire_view(fields@)),
            None => parse_fields(raw@) is None,
        },
{
    let mut fields: Vec<Field> = Vec::new();
    let mut pos: usize = 0;
    assert(raw@.skip(0) =~= raw@);
    assert(wire_view(fields@) =~= Seq::empty());
    while pos < raw.len()
        invariant
            pos <= raw@.len(),
            parse_fields(raw@) == match parse_fields(raw@.skip(pos as int)) {
                Some(rest) => Some(wire_view(fields@) + rest),
                None => None,
            },
        decreases raw@.len() - pos,
    {
        let rest = slice_subrange(raw, pos, raw.len());
        assert(rest@ == raw@.skip(pos as int));
        match take_field(rest) {
            Some((field, n)) => {
                proof {
                    assert(rest@.skip(n as int) =~= raw@.skip(pos + n));
                    let before = wire_view(fields@);
                    let after = wire_view(fields@.push(field));
                    assert(after =~= before + seq![field@]);
                    if let Some(tail) = parse_fields(rest@.skip(n as int)) {
                        assert((before + seq![field@]) + tail =~= before + (seq![field@] + tail));
                    }
                }
                fields.push(field);
                pos = pos + n;
            },
            None => {
                return None;
            },
        }
    }
    assert(raw@.skip(pos as int) =~= Seq::<u8>::empty());
    assert(wire_view(fields@) + Seq::<WireField>::empty() =~= wire_view(fields@));
    Some(fields)
}

} // verus!
