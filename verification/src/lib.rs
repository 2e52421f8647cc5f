//! The unified error-handling layer of an embedded document-oriented
//! database built atop a key-value storage engine.  Failures of the engine,
//! the binary document codec, the human-readable configuration format,
//! filesystem I/O, text decoding and the internal locking are collapsed into
//! one tagged [`Error`] value that callers can match on, render and
//! propagate uniformly.
mod error;
mod foreign;

pub use crate::error::category;
pub use crate::error::labeled;
pub use crate::error::rendered;
pub use crate::error::text_pinned;
pub use crate::error::LedbError;
pub use crate::error::Result;
pub use crate::error::ResultWrap;
pub use crate::foreign::ron_error_text;
pub use crate::foreign::utf8_error_text;
