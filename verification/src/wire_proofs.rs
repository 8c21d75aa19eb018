//! Facts about the wire format: what a reader returns is valid and within
//! bounds, and reading undoes writing.

use vstd::prelude::*;
use crate::wire::{
    conforms, field_bytes, fields_bytes, kinds_of, max_total_width, max_width_upto, parse_field,
    parse_fields, parse_varint, varint, varint_bound, Field, Kind,
};

verus! {

/// The three pairs of limits in use bound the 16-bit, 32-bit and 64-bit
/// numbers exactly.
pub proof fn lemma_varint_bounds()
    ensures
        varint_bound(3, 3) == 0x1_0000,
        varint_bound(5, 15) == 0x1_0000_0000,
        varint_bound(10, 1) == 0x1_0000_0000_0000_0000,
{
    assert(varint_bound(1, 3) == 4);
    assert(varint_bound(2, 3) == 128 * 4);
    assert(varint_bound(3, 3) == 128 * 512);
    assert(varint_bound(1, 15) == 16);
    assert(varint_bound(2, 15) == 0x800);
    assert(varint_bound(3, 15) == 0x4_0000);
    assert(varint_bound(4, 15) == 0x200_0000);
    assert(varint_bound(5, 15) == 0x1_0000_0000);
    assert(varint_bound(1, 1) == 2);
    assert(varint_bound(2, 1) == 0x100);
    assert(varint_bound(3, 1) == 0x8000);
    assert(varint_bound(4, 1) == 0x40_0000);
    assert(varint_bound(5, 1) == 0x2000_0000);
    assert(varint_bound(6, 1) == 0x10_0000_0000);
    assert(varint_bound(7, 1) == 0x800_0000_0000);
    assert(varint_bound(8, 1) == 0x4_0000_0000_0000);
    assert(varint_bound(9, 1) == 0x200_0000_0000_0000);
    assert(varint_bound(10, 1) == 0x1_0000_0000_0000_0000);
}

/// A number that a reader accepts is below the bound of its limits, and it
/// took at least one and at most `width` of the bytes that were there.
pub proof fn lemma_parse_varint_range(s: Seq<u8>, width: nat, top: nat)
    ensures
        parse_varint(s, width, top) is Ok ==> {
            let (v, n) = parse_varint(s, width, top)->Ok_0;
            &&& v < varint_bound(width, top)
            &&& 1 <= n <= width
            &&& n <= s.len()
        },
    decreases width,
{
    if width > 0 && s.len() > 0 && s[0] >= 128 {
        lemma_parse_varint_range(s.skip(1), (width - 1) as nat, top);
        if parse_varint(s, width, top) is Ok {
            assert(width >= 2);
        }
    } else if width > 1 {
        lemma_varint_bound_positive((width - 1) as nat, top);
    }
}

/// The bound of any limits is at least one.
pub proof fn lemma_varint_bound_positive(width: nat, top: nat)
    ensures
        varint_bound(width, top) >= 1,
    decreases width,
{
    if width > 1 {
        lemma_varint_bound_positive((width - 1) as nat, top);
    }
}

/// The shortest form of a number below the bound of some limits is at most
/// `width` bytes long.
pub proof fn lemma_varint_len(v: nat, width: nat, top: nat)
    requires
        width >= 1,
        top < 128,
        v < varint_bound(width, top),
    ensures
        1 <= varint(v).len() <= width,
    decreases v,
{
    if v >= 128 {
        lemma_varint_len(v / 128, (width - 1) as nat, top);
    }
}

/// A reader gets back the number whose shortest form it is given, whatever
/// follows that form.
pub proof fn lemma_parse_inverts_varint(v: nat, width: nat, top: nat, rest: Seq<u8>)
    requires
        width >= 1,
        top < 128,
        v < varint_bound(width, top),
    ensures
        parse_varint(varint(v) + rest, width, top) == Ok::<(nat, nat), crate::wire::Fault>(
            (v, varint(v).len()),
        ),
    decreases v,
{
    let s = varint(v) + rest;
    if v >= 128 {
        lemma_parse_inverts_varint(v / 128, (width - 1) as nat, top, rest);
        assert(s.skip(1) =~= varint(v / 128) + rest);
        assert(s[0] == (v % 128 + 128) as u8);
    } else {
        assert(s[0] == v as u8);
    }
}

/// A field that a reader accepts has the kind asked for and a value of that
/// kind, and it took at least one byte, no more than the kind's width, of
/// the bytes that were there.
pub proof fn lemma_parse_field_sound(s: Seq<u8>, kind: Kind)
    ensures
        parse_field(s, kind) is Ok ==> {
            let (f, n) = parse_field(s, kind)->Ok_0;
            &&& f.kind == kind
            &&& f.valid()
            &&& 1 <= n <= kind.max_width()
            &&& n <= s.len()
        },
{
    lemma_varint_bounds();
    match kind {
        Kind::U16 => lemma_parse_varint_range(s, 3, 3),
        Kind::U32 => lemma_parse_varint_range(s, 5, 15),
        Kind::U64 => lemma_parse_varint_range(s, 10, 1),
        _ => {},
    }
}

/// The bytes of a run of one field are the bytes of that field.
pub proof fn lemma_fields_bytes_one(f: Field)
    ensures
        fields_bytes(seq![f]) == field_bytes(f),
{
    assert(seq![f].skip(1) =~= Seq::<Field>::empty());
    assert(fields_bytes(seq![f].skip(1)) =~= Seq::<u8>::empty());
    assert(fields_bytes(seq![f]) =~= field_bytes(f));
}

/// A valid field takes at least one byte and no more than its kind's width.
pub proof fn lemma_field_width(f: Field)
    requires
        f.valid(),
    ensures
        1 <= field_bytes(f).len() <= f.kind.max_width(),
{
    lemma_varint_bounds();
    match f.kind {
        Kind::U16 => lemma_varint_len(f.value as nat, 3, 3),
        Kind::U32 => lemma_varint_len(f.value as nat, 5, 15),
        Kind::U64 => lemma_varint_len(f.value as nat, 10, 1),
        _ => {},
    }
}

/// A reader gets back the field whose bytes it is given, whatever follows
/// them.
pub proof fn lemma_parse_inverts_field(f: Field, rest: Seq<u8>)
    requires
        f.valid(),
    ensures
        parse_field(field_bytes(f) + rest, f.kind) == Ok::<(Field, nat), crate::wire::Fault>(
            (f, field_bytes(f).len()),
        ),
{
    lemma_varint_bounds();
    let s = field_bytes(f) + rest;
    let v = f.value as nat;
    match f.kind {
        Kind::U8 | Kind::Flag | Kind::Variant(_) => {
            assert(s[0] == f.value as u8);
        },
        Kind::Bits16 => {
            assert(s[0] == (v % 256) as u8);
            assert(s[1] == (v / 256 % 256) as u8);
        },
        Kind::Bits32 => {
            assert(s[0] == (v % 256) as u8);
            assert(s[1] == (v / 256 % 256) as u8);
            assert(s[2] == (v / 65536 % 256) as u8);
            assert(s[3] == (v / 16777216 % 256) as u8);
            assert(v % 256 + 256 * (v / 256 % 256) + 65536 * (v / 65536 % 256) + 16777216 * (v
                / 16777216 % 256) == v) by {
                lemma_four_bytes(v);
            }
        },
        Kind::U16 => lemma_parse_inverts_varint(v, 3, 3, rest),
        Kind::U32 => lemma_parse_inverts_varint(v, 5, 15, rest),
        Kind::U64 => lemma_parse_inverts_varint(v, 10, 1, rest),
    }
}

/// A number below 2^32 is the sum of its four bytes, each at its place.
pub proof fn lemma_four_bytes(v: nat)
    requires
        v < 0x1_0000_0000,
    ensures
        v % 256 + 256 * (v / 256 % 256) + 65536 * (v / 65536 % 256) + 16777216 * (v / 16777216
            % 256) == v,
{
    let a = v / 256;
    let b = a / 256;
    let c = b / 256;
    assert(v == 256 * a + v % 256);
    assert(a == 256 * b + a % 256);
    assert(b == 256 * c + b % 256);
    assert(c < 256);
    assert(v / 65536 == b);
    assert(v / 16777216 == c);
}

/// A run of fields that a reader accepts conforms to the kinds asked for,
/// and it took no more bytes than were there.
pub proof fn lemma_parse_fields_sound(s: Seq<u8>, kinds: Seq<Kind>)
    ensures
        parse_fields(s, kinds) is Ok ==> {
            let (fields, n) = parse_fields(s, kinds)->Ok_0;
            &&& conforms(fields, kinds)
            &&& n <= s.len()
        },
    decreases kinds.len(),
{
    if kinds.len() > 0 && parse_fields(s, kinds) is Ok {
        lemma_parse_field_sound(s, kinds[0]);
        let (first, n) = parse_field(s, kinds[0])->Ok_0;
        lemma_parse_fields_sound(s.skip(n as int), kinds.skip(1));
        let (others, m) = parse_fields(s.skip(n as int), kinds.skip(1))->Ok_0;
        let fields = seq![first] + others;
        assert forall|i: int| 0 <= i < fields.len() implies (#[trigger] fields[i]).kind
            == kinds[i] && fields[i].valid() by {
            if i > 0 {
                assert(fields[i] == others[i - 1]);
                assert(kinds[i] == kinds.skip(1)[i - 1]);
            }
        }
    }
}

/// The bytes of two runs of fields, one after the other, are the bytes of
/// the runs joined.
pub proof fn lemma_fields_bytes_concat(a: Seq<Field>, b: Seq<Field>)
    ensures
        fields_bytes(a + b) == fields_bytes(a) + fields_bytes(b),
    decreases a.len(),
{
    if a.len() == 0 {
        assert(a + b =~= b);
        assert(fields_bytes(a) + fields_bytes(b) =~= fields_bytes(b));
    } else {
        lemma_fields_bytes_concat(a.skip(1), b);
        assert((a + b).skip(1) =~= a.skip(1) + b);
        assert((a + b)[0] == a[0]);
        assert(fields_bytes(a + b) =~= fields_bytes(a) + fields_bytes(b));
    }
}

/// The first `n` largest widths of a run of kinds depend on its first `n`
/// kinds only.
pub proof fn lemma_max_width_upto_prefix(a: Seq<Kind>, b: Seq<Kind>, n: nat)
    requires
        n <= a.len(),
        n <= b.len(),
        forall|i: int| 0 <= i < n ==> a[i] == b[i],
    ensures
        max_width_upto(a, n) == max_width_upto(b, n),
    decreases n,
{
    if n > 0 {
        lemma_max_width_upto_prefix(a, b, (n - 1) as nat);
    }
}

/// A run of valid fields takes no more bytes than the widths of its kinds
/// add up to.
pub proof fn lemma_fields_width(fields: Seq<Field>)
    requires
        forall|i: int| 0 <= i < fields.len() ==> (#[trigger] fields[i]).valid(),
    ensures
        fields_bytes(fields).len() <= max_total_width(kinds_of(fields)),
    decreases fields.len(),
{
    if fields.len() > 0 {
        let front = fields.drop_last();
        let last = fields.last();
        assert(fields =~= front + seq![last]);
        lemma_fields_bytes_concat(front, seq![last]);
        lemma_fields_bytes_one(last);
        lemma_field_width(last);
        lemma_fields_width(front);
        lemma_max_width_upto_prefix(kinds_of(fields), kinds_of(front), front.len());
    }
}

/// A reader that is told the kinds of a run of valid fields gets back the
/// run whose bytes it is given, whatever follows them.
pub proof fn lemma_parse_inverts_fields(fields: Seq<Field>, rest: Seq<u8>)
    requires
        forall|i: int| 0 <= i < fields.len() ==> (#[trigger] fields[i]).valid(),
    ensures
        parse_fields(fields_bytes(fields) + rest, kinds_of(fields)) == Ok::<
            (Seq<Field>, nat),
            crate::wire::Fault,
        >((fields, fields_bytes(fields).len())),
    decreases fields.len(),
{
    let s = fields_bytes(fields) + rest;
    let kinds = kinds_of(fields);
    if fields.len() == 0 {
        assert(fields =~= Seq::<Field>::empty());
    } else {
        let first = fields[0];
        let tail = fields.skip(1);
        let head_bytes = field_bytes(first);
        assert forall|i: int| 0 <= i < tail.len() implies (#[trigger] tail[i]).valid() by {
            assert(tail[i] == fields[i + 1]);
        }
        assert(s =~= head_bytes + (fields_bytes(tail) + rest));
        lemma_parse_inverts_field(first, fields_bytes(tail) + rest);
        lemma_parse_inverts_fields(tail, rest);
        assert(s.skip(head_bytes.len() as int) =~= fields_bytes(tail) + rest);
        assert(kinds.skip(1) =~= kinds_of(tail));
        assert(kinds[0] == first.kind);
        assert(seq![first] + tail =~= fields);
    }
}

} // verus!
