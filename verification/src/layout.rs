//! The offset table of the wire format: the width of every field, and where
//! each one starts.

use vstd::prelude::*;

verus! {

/// Width in bytes of the `length` field.
pub const LENGTH_WIDTH: usize = 4;

/// Width in bytes of the `ident` field.
pub const IDENT_WIDTH: usize = 2;

/// Width in bytes of the reserved `spare` field.
pub const SPARE_WIDTH: usize = 2;

/// Width in bytes of the `name` field.
pub const NAME_WIDTH: usize = 5;

/// Width in bytes of the reserved `unused` field.
pub const UNUSED_WIDTH: usize = 2;

/// Width in bytes of the `state` field.
pub const STATE_WIDTH: usize = 1;

/// Offset of the first byte of `length`.
pub const LENGTH_OFFSET: usize = 0;

/// Offset of the first byte of `ident`.
pub const IDENT_OFFSET: usize = LENGTH_OFFSET + LENGTH_WIDTH;

/// Offset of the first byte of `spare`.
pub const SPARE_OFFSET: usize = IDENT_OFFSET + IDENT_WIDTH;

/// Offset of the first byte of `name`.
pub const NAME_OFFSET: usize = SPARE_OFFSET + SPARE_WIDTH;

/// Offset of the first byte of `unused`.
pub const UNUSED_OFFSET: usize = NAME_OFFSET + NAME_WIDTH;

/// Offset of the `state` byte.
pub const STATE_OFFSET: usize = UNUSED_OFFSET + UNUSED_WIDTH;

/// Size in bytes of a message on the wire: the fields laid end to end, with
/// no padding between them.
pub const MESSAGE_LENGTH: usize = STATE_OFFSET + STATE_WIDTH;

/// The fields tile the wire image: it is sixteen bytes long.
pub proof fn lemma_message_length()
    ensures
        MESSAGE_LENGTH == 16,
        MESSAGE_LENGTH == LENGTH_WIDTH + IDENT_WIDTH + SPARE_WIDTH + NAME_WIDTH + UNUSED_WIDTH
            + STATE_WIDTH,
{
}

} // verus!
