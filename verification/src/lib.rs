//! Backend of a text-encoding utility: guess the character encoding of a byte
//! buffer, and strictly decode a byte buffer to UTF-8 text under a named
//! encoding. Writing the decoded text to disk is plain I/O and lives with the
//! front-end, outside this library.

mod convert;
mod detect;

pub use convert::convert_to_utf8;
pub use convert::decode_of;
pub use convert::label_resolves;
pub use convert::lemma_unknown_message_carries_label;
pub use convert::strict_decode_result;
pub use convert::ConvError;
pub use detect::detect_encoding;
pub use detect::guessed_encoding;
