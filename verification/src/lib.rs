//! Validation helpers for two kinds of user-supplied text: identifiers that
//! must be GUIDs, and paths that must name a directory.
//!
//! Both helpers answer with `Ok(())` or with a message that quotes the
//! offending input. Their contracts are stated over the views of the strings
//! involved, so a caller can tell from the contract alone which inputs pass
//! and which message each failure carries.

pub mod encoding;
pub mod grammar;
pub mod guid;
pub mod message;
pub mod path;

pub use guid::is_valid_guid;
pub use path::{is_valid_path, PathStatus};
