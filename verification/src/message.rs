//! The message record and its conversion to and from sixteen wire bytes.

use crate::big_endian::{
    lemma_u16_bytes_of_value, lemma_u16_value_of_bytes, lemma_u32_bytes_of_value,
    lemma_u32_value_of_bytes, u16_be_value, u16_from_be_bytes, u16_to_be_bytes, u32_be_value,
    u32_from_be_bytes, u32_to_be_bytes,
};
use crate::layout::{
    IDENT_OFFSET, IDENT_WIDTH, LENGTH_OFFSET, LENGTH_WIDTH, MESSAGE_LENGTH, NAME_OFFSET,
    NAME_WIDTH, SPARE_OFFSET, SPARE_WIDTH, STATE_OFFSET, UNUSED_OFFSET, UNUSED_WIDTH,
};
use crate::wire::{lemma_record_of_wire, record_of, wire_of, MessageView};
use vstd::prelude::*;

verus! {

/// Why a buffer could not be decoded.
#[derive(Clone, Copy, Debug, PartialEq, Eq)]
pub enum DecodeError {
    /// The buffer does not have the size of a wire image.
    LengthMismatch {
        /// The size of a wire image.
        expected: usize,
        /// The size of the buffer that was handed in.
        actual: usize,
    },
}

/// What decoding a buffer of `len` bytes answers: the size alone decides.
pub open spec fn decode_outcome(len: nat) -> Result<(), DecodeError> {
    if len == MESSAGE_LENGTH {
        Ok(())
    } else {
        Err(DecodeError::LengthMismatch { expected: MESSAGE_LENGTH, actual: len as usize })
    }
}

/// A message with a fixed layout, held as it travels: every integer field is
/// stored in network byte order, and the accessors convert on the way in and
/// out.
#[derive(Clone, Copy, Debug, PartialEq, Eq)]
pub struct ByteMessage {
    length: [u8; LENGTH_WIDTH],
    ident: [u8; IDENT_WIDTH],
    spare: [u8; SPARE_WIDTH],
    name: [u8; NAME_WIDTH],
    unused: [u8; UNUSED_WIDTH],
    state: u8,
}

impl View for ByteMessage {
    type V = MessageView;

    closed spec fn view(&self) -> MessageView {
        MessageView {
            length: u32_be_value(self.length@),
            ident: u16_be_value(self.ident@),
            spare: u16_be_value(self.spare@),
            name: self.name@,
            unused: u16_be_value(self.unused@),
            state: self.state,
        }
    }
}

/// Copies the `N` bytes of a field out of a wire image, from offset `at` on.
fn read_field<const N: usize>(wire: &[u8; MESSAGE_LENGTH], at: usize) -> (field: [u8; N])
    requires
        at + N <= MESSAGE_LENGTH,
    ensures
        field@ == wire@.subrange(at as int, at + N),
{
    let mut field: [u8; N] = [0u8; N];
    let mut i: usize = 0;
    while i < N
        invariant
            i <= N,
            at + N <= MESSAGE_LENGTH,
            forall|j: int| 0 <= j < i ==> field@[j] == wire@[at + j],
        decreases N - i,
    {
        field[i] = wire[at + i];
        i += 1;
    }
    assert(field@ =~= wire@.subrange(at as int, at + N));
    field
}

/// Copies the `N` bytes of a field into a wire image, from offset `at` on,
/// and leaves the bytes around them as they were.
fn write_field<const N: usize>(wire: &mut [u8; MESSAGE_LENGTH], at: usize, field: &[u8; N])
    requires
        at + N <= MESSAGE_LENGTH,
    ensures
        final(wire)@ == old(wire)@.subrange(0, at as int) + field@ + old(wire)@.subrange(
            at + N,
            MESSAGE_LENGTH as int,
        ),
{
    let mut i: usize = 0;
    while i < N
        invariant
            i <= N,
            at + N <= MESSAGE_LENGTH,
            forall|j: int| 0 <= j < at ==> wire@[j] == old(wire)@[j],
            forall|j: int| 0 <= j < i ==> wire@[at + j] == field@[j],
            forall|j: int| at + i <= j < MESSAGE_LENGTH ==> wire@[j] == old(wire)@[j],
        decreases N - i,
    {
        wire[at + i] = field[i];
        i += 1;
    }
    assert(wire@ =~= old(wire)@.subrange(0, at as int) + field@ + old(wire)@.subrange(
        at + N,
        MESSAGE_LENGTH as int,
    ));
}

impl ByteMessage {
    /// Size in bytes of a message on the wire.
    pub const MESSAGE_LENGTH: usize = MESSAGE_LENGTH;

    /// Whatever a message holds, its name has five bytes, and decoding its
    /// wire image gives its contents back.
    pub proof fn lemma_round_trip(&self)
        ensures
            self@.wf(),
            record_of(wire_of(self@)) == self@,
    {
        lemma_record_of_wire(self@);
    }

    /// Makes a message whose `length` is the size of the wire image and whose
    /// other fields, the reserved ones included, are zero.
    pub fn new() -> (message: Self)
        ensures
            message@ == MessageView::fresh(),
    {
        let message = ByteMessage {
            length: u32_to_be_bytes(MESSAGE_LENGTH as u32),
            ident: [0u8; IDENT_WIDTH],
            spare: [0u8; SPARE_WIDTH],
            name: [0u8; NAME_WIDTH],
            unused: [0u8; UNUSED_WIDTH],
            state: 0,
        };
        proof {
            lemma_u32_value_of_bytes(MESSAGE_LENGTH as u32);
            assert(message.name@ =~= MessageView::fresh().name);
        }
        message
    }

    /// Decodes a wire image into this message.
    ///
    /// A buffer of any size but sixteen bytes is refused, and the message
    /// then stays as it was. Otherwise every field is overwritten with the
    /// bytes at its offset, as they are: the reserved fields are not
    /// inspected and keep whatever the buffer carries.
    pub fn from_bytes(&mut self, array: &[u8]) -> (outcome: Result<(), DecodeError>)
        ensures
            outcome == decode_outcome(array@.len()),
            outcome is Ok ==> final(self)@ == record_of(array@),
            outcome is Err ==> *final(self) == *old(self),
    {
        if array.len() != MESSAGE_LENGTH {
            return Err(
                DecodeError::LengthMismatch { expected: MESSAGE_LENGTH, actual: array.len() },
            );
        }
        let wire = Self::array_of_byte_message(array);
        self.length = read_field(&wire, LENGTH_OFFSET);
        self.ident = read_field(&wire, IDENT_OFFSET);
        self.spare = read_field(&wire, SPARE_OFFSET);
        self.name = read_field(&wire, NAME_OFFSET);
        self.unused = read_field(&wire, UNUSED_OFFSET);
        self.state = wire[STATE_OFFSET];
        Ok(())
    }

    /// Encodes this message as its sixteen wire bytes. This cannot fail.
    pub fn to_bytes(&self) -> (bytes: [u8; MESSAGE_LENGTH])
        ensures
            bytes@.len() == MESSAGE_LENGTH,
            bytes@ == wire_of(self@),
    {
        let mut bytes: [u8; MESSAGE_LENGTH] = [0u8; MESSAGE_LENGTH];
        write_field(&mut bytes, LENGTH_OFFSET, &self.length);
        write_field(&mut bytes, IDENT_OFFSET, &self.ident);
        write_field(&mut bytes, SPARE_OFFSET, &self.spare);
        write_field(&mut bytes, NAME_OFFSET, &self.name);
        write_field(&mut bytes, UNUSED_OFFSET, &self.unused);
        bytes[STATE_OFFSET] = self.state;
        proof {
            lemma_u32_bytes_of_value(self.length@);
            lemma_u16_bytes_of_value(self.ident@);
            lemma_u16_bytes_of_value(self.spare@);
            lemma_u16_bytes_of_value(self.unused@);
            assert(bytes@ =~= wire_of(self@));
        }
        bytes
    }

    /// Copies a slice of sixteen bytes into an array of that size.
    fn array_of_byte_message(array: &[u8]) -> (fixed: [u8; MESSAGE_LENGTH])
        requires
            array@.len() == MESSAGE_LENGTH,
        ensures
            fixed@ == array@,
    {
        let mut fixed: [u8; MESSAGE_LENGTH] = [0u8; MESSAGE_LENGTH];
        let mut i: usize = 0;
        while i < MESSAGE_LENGTH
            invariant
                i <= MESSAGE_LENGTH,
                array@.len() == MESSAGE_LENGTH,
                forall|j: int| 0 <= j < i ==> fixed@[j] == array@[j],
            decreases MESSAGE_LENGTH - i,
        {
            fixed[i] = array[i];
            i += 1;
        }
        assert(fixed@ =~= array@);
        fixed
    }

    /// Stores `length`, converted to network byte order.
    pub fn set_length(&mut self, length: u32)
        ensures
            final(self)@ == (MessageView { length: length, ..old(self)@ }),
    {
        self.length = u32_to_be_bytes(length);
        proof {
            lemma_u32_value_of_bytes(length);
        }
    }

    /// The stored length, converted back to a host value.
    pub fn get_length(&self) -> (length: u32)
        ensures
            length == self@.length,
    {
        u32_from_be_bytes(&self.length)
    }

    /// Stores `ident`, converted to network byte order.
    pub fn set_ident(&mut self, ident: u16)
        ensures
            final(self)@ == (MessageView { ident: ident, ..old(self)@ }),
    {
        self.ident = u16_to_be_bytes(ident);
        proof {
            lemma_u16_value_of_bytes(ident);
        }
    }

    /// The stored identifier, converted back to a host value.
    pub fn get_ident(&self) -> (ident: u16)
        ensures
            ident == self@.ident,
    {
        u16_from_be_bytes(&self.ident)
    }

    /// Stores the five bytes of `name` as they are.
    pub fn set_name(&mut self, name: [u8; NAME_WIDTH])
        ensures
            final(self)@ == (MessageView { name: name@, ..old(self)@ }),
    {
        self.name = name;
    }

    /// A copy of the five stored name bytes.
    pub fn get_name(&self) -> (name: [u8; NAME_WIDTH])
        ensures
            name@ == self@.name,
    {
        self.name
    }

    /// Stores `state`. A single byte has no byte order to convert.
    pub fn set_state(&mut self, state: u8)
        ensures
            final(self)@ == (MessageView { state: state, ..old(self)@ }),
    {
        self.state = state;
    }

    /// The stored state byte.
    pub fn get_state(&self) -> (state: u8)
        ensures
            state == self@.state,
    {
        self.state
    }
}

impl Default for ByteMessage {
    /// The same message as [`ByteMessage::new`] makes.
    fn default() -> (message: Self)
        ensures
            message@ == MessageView::fresh(),
    {
        ByteMessage::new()
    }
}

} // verus!
