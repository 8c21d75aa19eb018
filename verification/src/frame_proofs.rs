//! Facts about the layout of messages: decoding undoes encoding, and no
//! message is longer than the longest frame.

use vstd::prelude::*;
use crate::frame::{
    decoding, encoding, head_fields, head_layout, head_width, longest_encoding, message_fields,
    message_of, payload_fields, payload_layout, payload_of, payload_tag,
};
use crate::protocol::{Message, Payload};
use crate::wire::{conforms, fields_bytes, kinds_of, max_total_width, max_width_upto, Fault};
use crate::wire_proofs::{
    lemma_fields_bytes_concat, lemma_fields_bytes_one, lemma_fields_width,
    lemma_parse_inverts_fields,
};

verus! {

/// The fields of a payload are valid fields of the kinds that the layout of
/// its variant names, and the payload can be put together again from them.
pub proof fn lemma_payload_layout(payload: Payload)
    ensures
        payload_tag(payload) < 21,
        conforms(payload_fields(payload), payload_layout(payload_tag(payload) as u64)),
        kinds_of(payload_fields(payload)) == payload_layout(payload_tag(payload) as u64),
        payload_of(payload_tag(payload) as u64, payload_fields(payload)) == payload,
{
    let fields = payload_fields(payload);
    let layout = payload_layout(payload_tag(payload) as u64);
    assert(fields.len() == layout.len());
    assert forall|i: int| 0 <= i < fields.len() implies (#[trigger] fields[i]).kind == layout[i]
        && fields[i].valid() by {}
    assert(kinds_of(fields) =~= layout);
}

/// The opening fields of a message are valid fields of the kinds of the
/// head layout.
pub proof fn lemma_head_layout(message: Message)
    ensures
        conforms(head_fields(message), head_layout()),
        kinds_of(head_fields(message)) == head_layout(),
{
    lemma_payload_layout(message.payload);
    let fields = head_fields(message);
    assert forall|i: int| 0 <= i < fields.len() implies (#[trigger] fields[i]).kind
        == head_layout()[i] && fields[i].valid() by {}
    assert(kinds_of(fields) =~= head_layout());
}

/// Decoding undoes encoding: the bytes of a message, alone or followed by
/// anything, decode to that message.
pub proof fn lemma_decoding_inverts_encoding(message: Message, rest: Seq<u8>)
    ensures
        decoding(encoding(message)) == Ok::<Message, Fault>(message),
        decoding(encoding(message) + rest) == Ok::<Message, Fault>(message),
{
    lemma_decoding_inverts_encoding_before(message, rest);
    lemma_decoding_inverts_encoding_before(message, Seq::empty());
    assert(encoding(message) + Seq::<u8>::empty() =~= encoding(message));
}

/// The bytes of a message, followed by `rest`, decode to that message.
proof fn lemma_decoding_inverts_encoding_before(message: Message, rest: Seq<u8>)
    ensures
        decoding(encoding(message) + rest) == Ok::<Message, Fault>(message),
{
    let head = head_fields(message);
    let body = payload_fields(message.payload);
    let s = encoding(message) + rest;
    lemma_head_layout(message);
    lemma_payload_layout(message.payload);
    lemma_fields_bytes_concat(head, body);
    assert(s =~= fields_bytes(head) + (fields_bytes(body) + rest));
    lemma_parse_inverts_fields(head, fields_bytes(body) + rest);
    lemma_parse_inverts_fields(body, rest);
    assert(s.skip(fields_bytes(head).len() as int) =~= fields_bytes(body) + rest);
    assert(head[3].value == payload_tag(message.payload));
    assert(message_of(head, body) == message);
}

/// The widths of the kinds of every payload layout add up to at most 61.
pub proof fn lemma_layout_widths(tag: u64)
    ensures
        max_total_width(payload_layout(tag)) <= 61,
{
    if tag == 0 {
        assert(max_width_upto(payload_layout(0), 2) <= 61) by {
            reveal_with_fuel(max_width_upto, 3);
        }
    }     else if tag == 5 {
        assert(max_width_upto(payload_layout(5), 9) <= 61) by {
            reveal_with_fuel(max_width_upto, 10);
        }
    }     else if tag == 6 {
        assert(max_width_upto(payload_layout(6), 2) <= 61) by {
            reveal_with_fuel(max_width_upto, 3);
        }
    }     else if tag == 7 {
        assert(max_width_upto(payload_layout(7), 2) <= 61) by {
            reveal_with_fuel(max_width_upto, 3);
        }
    }     else if tag == 8 {
        assert(max_width_upto(payload_layout(8), 15) <= 61) by {
            reveal_with_fuel(max_width_upto, 16);
        }
    }     else if tag == 9 {
        assert(max_width_upto(payload_layout(9), 3) <= 61) by {
            reveal_with_fuel(max_width_upto, 4);
        }
    }     else if tag == 11 {
        assert(max_width_upto(payload_layout(11), 9) <= 61) by {
            reveal_with_fuel(max_width_upto, 10);
        }
    }     else if tag == 13 {
        assert(max_width_upto(payload_layout(13), 11) <= 61) by {
            reveal_with_fuel(max_width_upto, 12);
        }
    }     else if tag == 14 {
        assert(max_width_upto(payload_layout(14), 6) <= 61) by {
            reveal_with_fuel(max_width_upto, 7);
        }
    }     else if tag == 16 {
        assert(max_width_upto(payload_layout(16), 6) <= 61) by {
            reveal_with_fuel(max_width_upto, 7);
        }
    }     else if tag == 17 {
        assert(max_width_upto(payload_layout(17), 15) <= 61) by {
            reveal_with_fuel(max_width_upto, 16);
        }
    }     else if tag == 18 {
        assert(max_width_upto(payload_layout(18), 1) <= 61) by {
            reveal_with_fuel(max_width_upto, 2);
        }
    }     else if tag == 19 {
        assert(max_width_upto(payload_layout(19), 2) <= 61) by {
            reveal_with_fuel(max_width_upto, 3);
        }
    }
}

/// The header and the index of the payload variant take nine bytes in
/// every message: the length of an encoding depends on the payload alone.
pub proof fn lemma_head_is_nine_bytes(message: Message)
    ensures
        fields_bytes(head_fields(message)).len() == head_width(),
        encoding(message).len() == head_width() + fields_bytes(
            payload_fields(message.payload),
        ).len(),
{
    let head = head_fields(message);
    let (a, b, c, d) = (head[0], head[1], head[2], head[3]);
    assert(head =~= seq![a] + (seq![b] + (seq![c] + seq![d])));
    lemma_fields_bytes_concat(seq![a], seq![b] + (seq![c] + seq![d]));
    lemma_fields_bytes_concat(seq![b], seq![c] + seq![d]);
    lemma_fields_bytes_concat(seq![c], seq![d]);
    lemma_fields_bytes_one(a);
    lemma_fields_bytes_one(b);
    lemma_fields_bytes_one(c);
    lemma_fields_bytes_one(d);
    lemma_fields_bytes_concat(head, payload_fields(message.payload));
}

/// Two messages with the same payload have encodings of the same length,
/// whatever their headers hold.
pub proof fn lemma_length_depends_on_payload(a: Message, b: Message)
    requires
        a.payload == b.payload,
    ensures
        encoding(a).len() == encoding(b).len(),
        encoding(a).len() >= head_width(),
{
    lemma_head_is_nine_bytes(a);
    lemma_head_is_nine_bytes(b);
}

/// No message takes more than 70 bytes.
pub proof fn lemma_encoding_fits(message: Message)
    ensures
        head_width() <= encoding(message).len() <= longest_encoding(),
{
    lemma_head_is_nine_bytes(message);
    lemma_payload_layout(message.payload);
    lemma_layout_widths(payload_tag(message.payload) as u64);
    lemma_fields_width(payload_fields(message.payload));
}

} // verus!
