//! Decoder for replay files stored in the "Relic Chunky" container format.
//!
//! Every decoder reads from an immutable byte buffer at a cursor position and
//! either returns the decoded value with the advanced cursor or a
//! [`DecodeError`] that names the offset at which decoding stopped. Each
//! decoder is proved equal to a spec function over `Seq<u8>` that states the
//! binary grammar directly.
pub mod error;
pub mod bytes;
pub mod item;
pub mod player;
pub mod header;
pub mod data;
pub mod chunk;
pub mod chunky;
pub mod command;
pub mod laws;

pub use error::DecodeError;
