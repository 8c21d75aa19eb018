//! The primitive encodings of the wire format.
//!
//! A message travels as a run of fields. A field is an unsigned number of
//! one of eight kinds, and the kind fixes its bytes:
//!
//! | kind         | bytes                                                     |
//! |--------------|-----------------------------------------------------------|
//! | `U8`         | the byte itself                                           |
//! | `Flag`       | one byte, `0` or `1`                                      |
//! | `Variant(n)` | one byte, the index; a reader accepts only one below `n`  |
//! | `Bits16`     | 2 bytes, least significant first                          |
//! | `Bits32`     | 4 bytes, least significant first                          |
//! | `U16`        | variable length, 1 to 3 bytes                             |
//! | `U32`        | variable length, 1 to 5 bytes                             |
//! | `U64`        | variable length, 1 to 10 bytes                            |
//!
//! The first five kinds have a fixed width. A variable-length number is cut
//! into groups of seven bits, least significant group first; every byte but
//! the last has its top bit set. A writer always produces the shortest
//! form. A reader also accepts padded forms, as long as the number of bytes
//! and the last byte stay within what the kind allows.
//!
//! [`fields_bytes`] says what a run of fields looks like on the wire and
//! [`parse_fields`] what a reader makes of a run of bytes;
//! [`lemma_parse_inverts_fields`](crate::wire_proofs::lemma_parse_inverts_fields)
//! shows that reading undoes writing.

use vstd::prelude::*;

verus! {

/// The kind of a field.
#[derive(Clone, Copy, Debug, PartialEq, Eq, Structural)]
pub enum Kind {
    /// One byte.
    U8,
    /// A truth value in one byte.
    Flag,
    /// A 16-bit number of variable length.
    U16,
    /// A 32-bit number of variable length.
    U32,
    /// A 64-bit number of variable length.
    U64,
    /// Sixteen bits in two bytes.
    Bits16,
    /// Thirty-two bits in four bytes.
    Bits32,
    /// The index of an enum variant in one byte, below the given count.
    Variant(u32),
}

/// A field: a kind and a value that the kind admits.
#[derive(Clone, Copy, Debug, PartialEq, Eq, Structural)]
pub struct Field {
    pub kind: Kind,
    pub value: u64,
}

/// Why a run of bytes is no run of fields.
#[derive(Clone, Copy, Debug, PartialEq, Eq, Structural)]
pub enum Fault {
    /// The bytes end inside a field.
    UnexpectedEnd,
    /// A variable-length number is longer or larger than its kind allows.
    BadVarint,
    /// The byte of a truth value is neither `0` nor `1`.
    BadFlag,
    /// The index of an enum variant is not below the count of variants.
    UnknownVariant,
}

impl Kind {
    /// Whether `value` is a value of this kind.
    pub open spec fn admits(self, value: u64) -> bool {
        match self {
            Kind::U8 => value <= 0xff,
            Kind::Flag => value <= 1,
            Kind::U16 => value <= 0xffff,
            Kind::U32 => value <= 0xffff_ffff,
            Kind::U64 => true,
            Kind::Bits16 => value <= 0xffff,
            Kind::Bits32 => value <= 0xffff_ffff,
            Kind::Variant(count) => value < count && value <= 0xff,
        }
    }

    /// The largest number of bytes that a field of this kind takes.
    pub open spec fn max_width(self) -> nat {
        match self {
            Kind::U8 => 1,
            Kind::Flag => 1,
            Kind::U16 => 3,
            Kind::U32 => 5,
            Kind::U64 => 10,
            Kind::Bits16 => 2,
            Kind::Bits32 => 4,
            Kind::Variant(_) => 1,
        }
    }

    /// For a kind of variable length: the largest number of bytes and the
    /// largest value of the last of that many bytes.
    pub open spec fn varint_limits(self) -> (nat, nat) {
        match self {
            Kind::U16 => (3, 3),
            Kind::U64 => (10, 1),
            _ => (5, 15),
        }
    }
}

impl Field {
    /// Whether the value is one that the kind admits.
    pub open spec fn valid(self) -> bool {
        self.kind.admits(self.value)
    }
}

/// The shortest variable-length form of `v`.
pub open spec fn varint(v: nat) -> Seq<u8>
    decreases v,
{
    if v < 128 {
        seq![v as u8]
    } else {
        seq![(v % 128 + 128) as u8] + varint(v / 128)
    }
}

/// The two bytes of a 16-bit pattern, least significant first.
pub open spec fn le_bytes16(v: nat) -> Seq<u8> {
    seq![(v % 256) as u8, (v / 256 % 256) as u8]
}

/// The four bytes of a 32-bit pattern, least significant first.
pub open spec fn le_bytes32(v: nat) -> Seq<u8> {
    seq![
        (v % 256) as u8,
        (v / 256 % 256) as u8,
        (v / 65536 % 256) as u8,
        (v / 16777216 % 256) as u8,
    ]
}

/// The bytes of one field.
pub open spec fn field_bytes(f: Field) -> Seq<u8> {
    match f.kind {
        Kind::U8 | Kind::Flag | Kind::Variant(_) => seq![f.value as u8],
        Kind::Bits16 => le_bytes16(f.value as nat),
        Kind::Bits32 => le_bytes32(f.value as nat),
        _ => varint(f.value as nat),
    }
}

/// The bytes of a run of fields: those of each field, one after the other.
pub open spec fn fields_bytes(fields: Seq<Field>) -> Seq<u8>
    decreases fields.len(),
{
    if fields.len() == 0 {
        Seq::empty()
    } else {
        field_bytes(fields[0]) + fields_bytes(fields.skip(1))
    }
}

/// The kinds of a run of fields.
pub open spec fn kinds_of(fields: Seq<Field>) -> Seq<Kind> {
    Seq::new(fields.len(), |i: int| fields[i].kind)
}

/// The sum of the largest widths of the first `n` of a run of kinds.
pub open spec fn max_width_upto(kinds: Seq<Kind>, n: nat) -> nat
    decreases n,
{
    if n == 0 {
        0
    } else {
        max_width_upto(kinds, (n - 1) as nat) + kinds[n - 1].max_width()
    }
}

/// The sum of the largest widths of a run of kinds.
pub open spec fn max_total_width(kinds: Seq<Kind>) -> nat {
    max_width_upto(kinds, kinds.len())
}

/// One more than the largest number that `width` bytes can carry when the
/// last of them is at most `top`.
pub open spec fn varint_bound(width: nat, top: nat) -> nat
    decreases width,
{
    if width <= 1 {
        top + 1
    } else {
        128 * varint_bound((width - 1) as nat, top)
    }
}

/// What a reader makes of a variable-length number at the start of `s`: the
/// number and how many bytes it took. At most `width` bytes are read, and
/// the last of `width` bytes must not exceed `top`.
pub open spec fn parse_varint(s: Seq<u8>, width: nat, top: nat) -> Result<(nat, nat), Fault>
    decreases width,
{
    if width == 0 {
        Err(Fault::BadVarint)
    } else if s.len() == 0 {
        Err(Fault::UnexpectedEnd)
    } else if s[0] < 128 {
        if width == 1 && s[0] > top {
            Err(Fault::BadVarint)
        } else {
            Ok((s[0] as nat, 1))
        }
    } else {
        match parse_varint(s.skip(1), (width - 1) as nat, top) {
            Ok((v, n)) => Ok(((s[0] - 128 + 128 * v) as nat, n + 1)),
            Err(fault) => Err(fault),
        }
    }
}

/// What a reader makes of a field of kind `kind` at the start of `s`: the
/// field and how many bytes it took.
pub open spec fn parse_field(s: Seq<u8>, kind: Kind) -> Result<(Field, nat), Fault> {
    match kind {
        Kind::U8 => if s.len() == 0 {
            Err(Fault::UnexpectedEnd)
        } else {
            Ok((Field { kind, value: s[0] as u64 }, 1))
        },
        Kind::Flag => if s.len() == 0 {
            Err(Fault::UnexpectedEnd)
        } else if s[0] > 1 {
            Err(Fault::BadFlag)
        } else {
            Ok((Field { kind, value: s[0] as u64 }, 1))
        },
        Kind::Bits32 => if s.len() < 4 {
            Err(Fault::UnexpectedEnd)
        } else {
            Ok(
                (
                    Field {
                        kind,
                        value: (s[0] + 256 * s[1] + 65536 * s[2] + 16777216 * s[3]) as u64,
                    },
                    4,
                ),
            )
        },
        Kind::Variant(count) => if s.len() == 0 {
            Err(Fault::UnexpectedEnd)
        } else if s[0] >= count {
            Err(Fault::UnknownVariant)
        } else {
            Ok((Field { kind, value: s[0] as u64 }, 1))
        },
        Kind::Bits16 => if s.len() < 2 {
            Err(Fault::UnexpectedEnd)
        } else {
            Ok((Field { kind, value: (s[0] + 256 * s[1]) as u64 }, 2))
        },
        _ => match parse_varint(s, kind.varint_limits().0, kind.varint_limits().1) {
            Ok((v, n)) => Ok((Field { kind, value: v as u64 }, n)),
            Err(fault) => Err(fault),
        },
    }
}

/// What a reader makes of a run of fields of the given kinds at the start of
/// `s`: the fields and how many bytes they took. The first field that fails
/// decides the fault.
pub open spec fn parse_fields(s: Seq<u8>, kinds: Seq<Kind>) -> Result<(Seq<Field>, nat), Fault>
    decreases kinds.len(),
{
    if kinds.len() == 0 {
        Ok((Seq::empty(), 0))
    } else {
        match parse_field(s, kinds[0]) {
            Err(fault) => Err(fault),
            Ok((first, n)) => match parse_fields(s.skip(n as int), kinds.skip(1)) {
                Err(fault) => Err(fault),
                Ok((others, m)) => Ok((seq![first] + others, n + m)),
            },
        }
    }
}

/// Whether `fields` is a run of valid fields of the given kinds.
pub open spec fn conforms(fields: Seq<Field>, kinds: Seq<Kind>) -> bool {
    &&& fields.len() == kinds.len()
    &&& forall|i: int| 0 <= i < fields.len() ==> (#[trigger] fields[i]).kind == kinds[i]
    &&& forall|i: int| 0 <= i < fields.len() ==> (#[trigger] fields[i]).valid()
}

} // verus!
