//! Standard note construction and verified decoding of note stubs from word arrays.
//!
//! `factory` builds notes from the two standard ownership kinds; `stub` recovers a
//! note stub from its word layout and checks both of its commitments; `objects` holds
//! what this crate relies on from the object library.

pub mod error;
pub mod factory;
pub mod objects;
pub mod stub;
pub mod word;

pub use error::NoteError;
pub use factory::{create_note, note_from_script, Note, Script};
pub use stub::{notes_try_from_elements, NoteMetadata, NoteStub, NoteVault};
pub use word::Word;
