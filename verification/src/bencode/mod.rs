//! BEncode codec: the serialization format of .torrent files and tracker
//! responses.
pub mod decoder;
pub mod encoder;
pub mod error;
pub mod fields;
pub mod laws;
pub mod value;

pub use decoder::{decode, decode_prefix};
pub use encoder::{encode, encode_into};
pub use error::{BencodeError, DecodeFailure};
pub use value::{BValue, Bencoded};
