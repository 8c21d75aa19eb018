//! The writer and the reader of the wire format.

use vstd::prelude::*;
use crate::wire::{
    field_bytes, fields_bytes, le_bytes16, le_bytes32, parse_field, parse_fields, parse_varint,
    varint, varint_bound, Fault, Field, Kind,
};
use crate::wire_proofs::{
    lemma_parse_field_sound, lemma_parse_varint_range, lemma_varint_bounds,
};

verus! {

/// Appends the shortest variable-length form of `value` to `out`.
pub(crate) fn write_varint(out: &mut Vec<u8>, value: u64)
    ensures
        final(out)@ == old(out)@ + varint(value as nat),
{
    let ghost before = out@;
    let mut v: u64 = value;
    while v >= 128
        invariant
            out@ + varint(v as nat) == before + varint(value as nat),
        decreases v,
    {
        let ghost grown = out@.push((v % 128 + 128) as u8);
        assert(grown + varint((v / 128) as nat) =~= out@ + varint(v as nat));
        out.push((v % 128) as u8 + 128);
        v = v / 128;
    }
    assert(out@.push(v as u8) =~= out@ + varint(v as nat));
    out.push(v as u8);
}

/// Appends the bytes of `field` to `out`.
pub(crate) fn write_field(out: &mut Vec<u8>, field: Field)
    requires
        field.valid(),
    ensures
        final(out)@ == old(out)@ + field_bytes(field),
{
    let ghost before = out@;
    match field.kind {
        Kind::U8 | Kind::Flag | Kind::Variant(_) => {
            out.push(field.value as u8);
            assert(out@ =~= before + field_bytes(field));
        },
        Kind::Bits16 => {
            let v: u64 = field.value;
            out.push((v % 256) as u8);
            out.push((v / 256 % 256) as u8);
            assert(out@ =~= before + le_bytes16(v as nat));
        },
        Kind::Bits32 => {
            let v: u64 = field.value;
            out.push((v % 256) as u8);
            out.push((v / 256 % 256) as u8);
            out.push((v / 65536 % 256) as u8);
            out.push((v / 16777216 % 256) as u8);
            assert(out@ =~= before + le_bytes32(v as nat));
        },
        _ => {
            write_varint(out, field.value);
        },
    }
}

/// The bytes of a run of valid fields.
pub(crate) fn write_fields(fields: &Vec<Field>) -> (bytes: Vec<u8>)
    requires
        forall|i: int| 0 <= i < fields@.len() ==> (#[trigger] fields@[i]).valid(),
    ensures
        bytes@ == fields_bytes(fields@),
{
    let mut bytes: Vec<u8> = Vec::new();
    let mut i: usize = 0;
    assert(fields@.skip(0) =~= fields@);
    while i < fields.len()
        invariant
            i <= fields.len(),
            forall|k: int| 0 <= k < fields@.len() ==> (#[trigger] fields@[k]).valid(),
            bytes@ + fields_bytes(fields@.skip(i as int)) == fields_bytes(fields@),
        decreases fields.len() - i,
    {
        let ghost before = bytes@;
        let ghost here = fields@.skip(i as int);
        assert(here[0] == fields@[i as int]);
        assert(here.skip(1) =~= fields@.skip(i + 1));
        write_field(&mut bytes, fields[i]);
        assert(bytes@ + fields_bytes(fields@.skip(i + 1)) =~= before + fields_bytes(here));
        i = i + 1;
    }
    assert(bytes@ + fields_bytes(fields@.skip(i as int)) =~= bytes@);
    bytes
}

/// Reads a variable-length number of at most `width` bytes at position `at`
/// and returns it with the position behind it.
pub(crate) fn read_varint(bytes: &[u8], at: usize, width: usize, top: u8) -> (r: Result<
    (u64, usize),
    Fault,
>)
    requires
        at <= bytes@.len(),
        varint_bound(width as nat, top as nat) <= 0x1_0000_0000_0000_0000,
    ensures
        match parse_varint(bytes@.skip(at as int), width as nat, top as nat) {
            Ok((v, n)) => r is Ok && r->Ok_0.0 == v && r->Ok_0.1 == at + n && at + n
                <= bytes@.len(),
            Err(fault) => r is Err && r->Err_0 == fault,
        },
    decreases width,
{
    let ghost s = bytes@.skip(at as int);
    proof {
        lemma_parse_varint_range(s, width as nat, top as nat);
    }
    if width == 0 {
        return Err(Fault::BadVarint);
    }
    if at >= bytes.len() {
        return Err(Fault::UnexpectedEnd);
    }
    let b: u8 = bytes[at];
    assert(s[0] == b);
    if b < 128 {
        if width == 1 && b > top {
            Err(Fault::BadVarint)
        } else {
            Ok((b as u64, at + 1))
        }
    } else {
        assert(s.skip(1) =~= bytes@.skip(at + 1));
        proof {
            lemma_parse_varint_range(s.skip(1), (width - 1) as nat, top as nat);
        }
        match read_varint(bytes, at + 1, width - 1, top) {
            Ok((v, next)) => {
                assert(width >= 2);
                Ok(((b - 128) as u64 + 128 * v, next))
            },
            Err(fault) => Err(fault),
        }
    }
}

/// Reads a field of kind `kind` at position `at` and returns it with the
/// position behind it.
pub(crate) fn read_field(bytes: &[u8], at: usize, kind: Kind) -> (r: Result<(Field, usize), Fault>)
    requires
        at <= bytes@.len(),
    ensures
        match parse_field(bytes@.skip(at as int), kind) {
            Ok((field, n)) => r is Ok && r->Ok_0.0 == field && r->Ok_0.1 == at + n && at + n
                <= bytes@.len(),
            Err(fault) => r is Err && r->Err_0 == fault,
        },
{
    let ghost s = bytes@.skip(at as int);
    proof {
        lemma_varint_bounds();
        lemma_parse_field_sound(s, kind);
    }
    match kind {
        Kind::U8 => {
            if at >= bytes.len() {
                return Err(Fault::UnexpectedEnd);
            }
            assert(s[0] == bytes@[at as int]);
            Ok((Field { kind, value: bytes[at] as u64 }, at + 1))
        },
        Kind::Flag => {
            if at >= bytes.len() {
                return Err(Fault::UnexpectedEnd);
            }
            assert(s[0] == bytes@[at as int]);
            if bytes[at] > 1 {
                return Err(Fault::BadFlag);
            }
            Ok((Field { kind, value: bytes[at] as u64 }, at + 1))
        },
        Kind::Bits32 => {
            if bytes.len() - at < 4 {
                return Err(Fault::UnexpectedEnd);
            }
            assert(s[0] == bytes@[at as int]);
            assert(s[1] == bytes@[at + 1]);
            assert(s[2] == bytes@[at + 2]);
            assert(s[3] == bytes@[at + 3]);
            let value: u64 = bytes[at] as u64 + 256 * (bytes[at + 1] as u64) + 65536 * (bytes[at
                + 2] as u64) + 16777216 * (bytes[at + 3] as u64);
            Ok((Field { kind, value }, at + 4))
        },
        Kind::Variant(count) => {
            if at >= bytes.len() {
                return Err(Fault::UnexpectedEnd);
            }
            assert(s[0] == bytes@[at as int]);
            if bytes[at] as u32 >= count {
                return Err(Fault::UnknownVariant);
            }
            Ok((Field { kind, value: bytes[at] as u64 }, at + 1))
        },
        Kind::Bits16 => {
            if bytes.len() - at < 2 {
                return Err(Fault::UnexpectedEnd);
            }
            assert(s[0] == bytes@[at as int]);
            assert(s[1] == bytes@[at + 1]);
            let value: u64 = bytes[at] as u64 + 256 * (bytes[at + 1] as u64);
            Ok((Field { kind, value }, at + 2))
        },
        Kind::U16 => match read_varint(bytes, at, 3, 3) {
            Ok((v, next)) => Ok((Field { kind, value: v }, next)),
            Err(fault) => Err(fault),
        },
        Kind::U32 => match read_varint(bytes, at, 5, 15) {
            Ok((v, next)) => Ok((Field { kind, value: v }, next)),
            Err(fault) => Err(fault),
        },
        Kind::U64 => match read_varint(bytes, at, 10, 1) {
            Ok((v, next)) => Ok((Field { kind, value: v }, next)),
            Err(fault) => Err(fault),
        },
    }
}

/// Reads the fields of kinds `kinds[from..]` at position `at`, appends them
/// to `out` and returns the position behind them. After a fault `out` holds
/// the fields that were read before it.
pub(crate) fn read_fields_from(
    bytes: &[u8],
    at: usize,
    kinds: &Vec<Kind>,
    from: usize,
    out: &mut Vec<Field>,
) -> (r: Result<usize, Fault>)
    requires
        at <= bytes@.len(),
        from <= kinds@.len(),
    ensures
        match parse_fields(bytes@.skip(at as int), kinds@.skip(from as int)) {
            Ok((fields, n)) => {
                &&& r is Ok
                &&& r->Ok_0 == at + n
                &&& at + n <= bytes@.len()
                &&& final(out)@ == old(out)@ + fields
            },
            Err(fault) => r is Err && r->Err_0 == fault,
        },
    decreases kinds@.len() - from,
{
    let ghost s = bytes@.skip(at as int);
    let ghost todo = kinds@.skip(from as int);
    let ghost before = out@;
    if from >= kinds.len() {
        assert(out@ =~= before + Seq::<Field>::empty());
        return Ok(at);
    }
    assert(todo[0] == kinds@[from as int]);
    assert(todo.skip(1) =~= kinds@.skip(from + 1));
    match read_field(bytes, at, kinds[from]) {
        Err(fault) => Err(fault),
        Ok((first, next)) => {
            assert(s.skip(next - at) =~= bytes@.skip(next as int));
            out.push(first);
            match read_fields_from(bytes, next, kinds, from + 1, out) {
                Err(fault) => Err(fault),
                Ok(end) => {
                    let ghost others = parse_fields(bytes@.skip(next as int), todo.skip(1))->Ok_0.0;
                    assert(out@ =~= before + (seq![first] + others));
                    Ok(end)
                },
            }
        },
    }
}

/// Reads a run of fields of the given kinds at position `at` and returns it
/// with the position behind it.
pub(crate) fn read_fields(bytes: &[u8], at: usize, kinds: &Vec<Kind>) -> (r: Result<
    (Vec<Field>, usize),
    Fault,
>)
    requires
        at <= bytes@.len(),
    ensures
        match parse_fields(bytes@.skip(at as int), kinds@) {
            Ok((fields, n)) => r is Ok && r->Ok_0.0@ == fields && r->Ok_0.1 == at + n && at + n
                <= bytes@.len(),
            Err(fault) => r is Err && r->Err_0 == fault,
        },
{
    let mut fields: Vec<Field> = Vec::new();
    assert(kinds@.skip(0) =~= kinds@);
    match read_fields_from(bytes, at, kinds, 0, &mut fields) {
        Ok(end) => {
            assert(fields@ =~= parse_fields(bytes@.skip(at as int), kinds@)->Ok_0.0);
            Ok((fields, end))
        },
        Err(fault) => Err(fault),
    }
}

} // verus!
