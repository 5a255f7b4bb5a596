use vstd::prelude::*;
use miden_objects::AccountError;
use miden_objects::NoteError as ObjectsError;
use crate::word::Word;

verus! {

/// Errors of note construction and of stub decoding.
#[derive(Debug)]
pub enum NoteError {
    /// The note script could not be parsed or compiled.
    ScriptCompilation(ObjectsError),
    /// The object library refused to assemble the note or its vault.
    NoteConstruction(ObjectsError),
    /// A field element does not name a valid account.
    InvalidAccountId(AccountError),
    /// The word array is too short; carries its actual length.
    InvalidStubLength(usize),
    /// The vault contents do not hash to the stored vault commitment.
    InconsistentVaultCommitment { expected: Word, found: Word },
    /// The assembled stub does not hash to the stored top-level hash.
    InconsistentStubCommitment { expected: Word, found: Word },
}

} // verus!
