//! A fixed-layout, sixteen-byte network message: the record, its big-endian
//! wire image, and the conversion between the two.

pub mod big_endian;
pub mod layout;
pub mod message;
pub mod wire;

pub use crate::layout::MESSAGE_LENGTH;
pub use crate::message::{ByteMessage, DecodeError};
pub use crate::wire::MessageView;
