//! The mathematical model of a message and of its wire image, and the laws
//! that tie the two together.

use crate::big_endian::{
    lemma_u16_bytes_of_value, lemma_u16_value_of_bytes, lemma_u32_bytes_of_value,
    lemma_u32_value_of_bytes, u16_be_bytes, u16_be_value, u32_be_bytes, u32_be_value,
};
use crate::layout::{
    IDENT_OFFSET, IDENT_WIDTH, LENGTH_OFFSET, LENGTH_WIDTH, MESSAGE_LENGTH, NAME_OFFSET,
    NAME_WIDTH, SPARE_OFFSET, SPARE_WIDTH, STATE_OFFSET, UNUSED_OFFSET, UNUSED_WIDTH,
};
use vstd::prelude::*;

verus! {

/// What a message holds, as host values: the mathematical model of a
/// [`ByteMessage`](crate::message::ByteMessage).
///
/// The two reserved fields are part of the model, because they travel on the
/// wire like the others; each is read as a 16-bit big-endian number.
#[verifier::ext_equal]
pub struct MessageView {
    pub length: u32,
    pub ident: u16,
    pub spare: u16,
    pub name: Seq<u8>,
    pub unused: u16,
    pub state: u8,
}

impl MessageView {
    /// The name has exactly its five bytes.
    pub open spec fn wf(self) -> bool {
        self.name.len() == NAME_WIDTH
    }

    /// The contents of a newly made message: `length` holds the size of the
    /// wire image, everything else is zero.
    pub open spec fn fresh() -> MessageView {
        MessageView {
            length: MESSAGE_LENGTH as u32,
            ident: 0,
            spare: 0,
            name: seq![0u8, 0u8, 0u8, 0u8, 0u8],
            unused: 0,
            state: 0,
        }
    }
}

/// The wire image of a record: the fields in order with nothing between
/// them, the integers most significant byte first, the name as it is.
pub open spec fn wire_of(v: MessageView) -> Seq<u8> {
    u32_be_bytes(v.length) + u16_be_bytes(v.ident) + u16_be_bytes(v.spare) + v.name + u16_be_bytes(
        v.unused,
    ) + seq![v.state]
}

/// The record that sixteen wire bytes denote: each field is read at its
/// offset. Nothing is checked, so the reserved fields come out as they are.
pub open spec fn record_of(b: Seq<u8>) -> MessageView {
    MessageView {
        length: u32_be_value(b.subrange(LENGTH_OFFSET as int, LENGTH_OFFSET + LENGTH_WIDTH)),
        ident: u16_be_value(b.subrange(IDENT_OFFSET as int, IDENT_OFFSET + IDENT_WIDTH)),
        spare: u16_be_value(b.subrange(SPARE_OFFSET as int, SPARE_OFFSET + SPARE_WIDTH)),
        name: b.subrange(NAME_OFFSET as int, NAME_OFFSET + NAME_WIDTH),
        unused: u16_be_value(b.subrange(UNUSED_OFFSET as int, UNUSED_OFFSET + UNUSED_WIDTH)),
        state: b[STATE_OFFSET as int],
    }
}

/// The wire image of a well-formed record is sixteen bytes long, whatever
/// the fields hold.
pub proof fn lemma_wire_length(v: MessageView)
    requires
        v.wf(),
    ensures
        wire_of(v).len() == MESSAGE_LENGTH,
{
}

/// In the wire image of a well-formed record every field stands at its
/// offset in the table, over its full width.
pub proof fn lemma_wire_layout(v: MessageView)
    requires
        v.wf(),
    ensures
        wire_of(v).subrange(LENGTH_OFFSET as int, LENGTH_OFFSET + LENGTH_WIDTH) == u32_be_bytes(
            v.length,
        ),
        wire_of(v).subrange(IDENT_OFFSET as int, IDENT_OFFSET + IDENT_WIDTH) == u16_be_bytes(
            v.ident,
        ),
        wire_of(v).subrange(SPARE_OFFSET as int, SPARE_OFFSET + SPARE_WIDTH) == u16_be_bytes(
            v.spare,
        ),
        wire_of(v).subrange(NAME_OFFSET as int, NAME_OFFSET + NAME_WIDTH) == v.name,
        wire_of(v).subrange(UNUSED_OFFSET as int, UNUSED_OFFSET + UNUSED_WIDTH) == u16_be_bytes(
            v.unused,
        ),
        wire_of(v)[STATE_OFFSET as int] == v.state,
{
}

/// Decoding the wire image of a well-formed record gives the record back,
/// field by field, the reserved ones included.
pub proof fn lemma_record_of_wire(v: MessageView)
    requires
        v.wf(),
    ensures
        record_of(wire_of(v)) == v,
{
    lemma_wire_layout(v);
    lemma_u32_value_of_bytes(v.length);
    lemma_u16_value_of_bytes(v.ident);
    lemma_u16_value_of_bytes(v.spare);
    lemma_u16_value_of_bytes(v.unused);
}

/// Encoding the record that sixteen bytes denote gives the same sixteen
/// bytes back: the format loses nothing and has one image per record.
pub proof fn lemma_wire_of_record(b: Seq<u8>)
    requires
        b.len() == MESSAGE_LENGTH,
    ensures
        record_of(b).wf(),
        wire_of(record_of(b)) == b,
{
    lemma_u32_bytes_of_value(b.subrange(LENGTH_OFFSET as int, LENGTH_OFFSET + LENGTH_WIDTH));
    lemma_u16_bytes_of_value(b.subrange(IDENT_OFFSET as int, IDENT_OFFSET + IDENT_WIDTH));
    lemma_u16_bytes_of_value(b.subrange(SPARE_OFFSET as int, SPARE_OFFSET + SPARE_WIDTH));
    lemma_u16_bytes_of_value(b.subrange(UNUSED_OFFSET as int, UNUSED_OFFSET + UNUSED_WIDTH));
    assert(wire_of(record_of(b)) =~= b);
}

} // verus!
