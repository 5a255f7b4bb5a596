use vstd::prelude::*;
use miden_objects::accounts::AccountId;
use miden_objects::assembly::{Assembler, ProgramAst};
use miden_objects::assets::Asset;
use miden_objects::notes::Note as ObjectsNote;
use miden_objects::notes::{NoteAssets, NoteId, NoteScript};
use miden_objects::NoteError as ObjectsError;
use miden_objects::{AccountError, Digest, Felt, StarkField};
use crate::factory::script_source;
use crate::word::{Word, FIELD_MODULUS};

verus! {

/// A parsed note program of the assembler.
#[verifier::external_type_specification]
#[verifier::external_body]
pub struct ExProgramAst(ProgramAst);

/// The assembler that compiles note programs.
#[verifier::external_type_specification]
#[verifier::external_body]
pub struct ExAssembler(Assembler);

/// A compiled note script of the object library.
#[verifier::external_type_specification]
#[verifier::external_body]
pub struct ExNoteScript(NoteScript);

/// The object library's note error, carried inside this crate's errors.
#[verifier::external_type_specification]
#[verifier::external_body]
pub struct ExObjectsError(ObjectsError);

/// An account id of the object library.
#[verifier::external_type_specification]
#[verifier::external_body]
pub struct ExAccountId(AccountId);

/// The object library's account error.
#[verifier::external_type_specification]
#[verifier::external_body]
pub struct ExAccountError(AccountError);

/// A note as the object library assembles it.
#[verifier::external_type_specification]
#[verifier::external_body]
pub struct ExNote(ObjectsNote);

/// How many bits of `x` are set.
pub open spec fn count_ones(x: nat) -> nat
    decreases x,
{
    if x == 0 {
        0
    } else {
        x % 2 + count_ones(x / 2)
    }
}

/// Least number of set bits in an account id.
pub const MIN_ACCOUNT_ONES: u32 = 5;

/// Whether the object library accepts a `u64`, read as a field element, as an account id:
/// the element's canonical value has at least five bits set.
pub open spec fn account_id_accepts(v: u64) -> bool {
    count_ones((v % FIELD_MODULUS) as nat) >= MIN_ACCOUNT_ONES
}

/// Whether the object library accepts these words as the assets of a note vault.
pub uninterp spec fn vault_accepts(words: Seq<Word>) -> bool;

/// The commitment that the object library computes over the assets of a vault.
pub uninterp spec fn vault_commitment_of(words: Seq<Word>) -> Word;

/// The note id that the object library derives from a recipient and a vault commitment.
pub uninterp spec fn note_id_of(recipient: Word, vault_hash: Word) -> Word;

/// Whether the assembler parses and compiles the program text.
pub uninterp spec fn compiles(assembler: Assembler, source: Seq<char>) -> bool;

/// The root of the code that the assembler compiles the program text to.
pub uninterp spec fn compiled_root(assembler: Assembler, source: Seq<char>) -> Word;

/// The root of a compiled note script.
pub uninterp spec fn script_root_of(script: NoteScript) -> Word;

/// The recipient that the object library derives from a serial number, a script root and
/// the note inputs.
pub uninterp spec fn recipient_of(serial_num: Word, script_root: Word, inputs: Seq<u64>) -> Word;

/// The recipient that an assembled note holds.
pub uninterp spec fn recipient_in(note: ObjectsNote) -> Word;

/// Relies on `AccountId::try_from(Felt)`: `Felt::new` reduces the value modulo the field,
/// and the id is accepted when the canonical value has at least five bits set.
#[verifier::external_body]
pub(crate) fn account_id_from_element(v: u64) -> (r: Result<AccountId, AccountError>)
    ensures
        r is Ok <==> account_id_accepts(v),
{
    AccountId::try_from(Felt::new(v))
}

/// Relies on `Asset::try_from(Word)`, `NoteAssets::new` and `NoteAssets::commitment`:
/// whether the words form a vault, and its commitment, depend on the words alone; the
/// commitment's elements are canonical (`as_int`).
#[verifier::external_body]
pub(crate) fn vault_commitment(words: &Vec<Word>) -> (r: Result<Word, ObjectsError>)
    ensures
        r is Ok <==> vault_accepts(words@),
        r is Ok ==> r->Ok_0 == vault_commitment_of(words@) && r->Ok_0.wf(),
{
    let mut assets: Vec<Asset> = Vec::new();
    for w in words.iter() {
        let felts = [Felt::new(w.e0), Felt::new(w.e1), Felt::new(w.e2), Felt::new(w.e3)];
        assets.push(Asset::try_from(felts).map_err(ObjectsError::InvalidAssetData)?);
    }
    let e: [Felt; 4] = NoteAssets::new(&assets)?.commitment().into();
    Ok(Word { e0: e[0].as_int(), e1: e[1].as_int(), e2: e[2].as_int(), e3: e[3].as_int() })
}

/// Relies on `NoteId::new`: a hash of the recipient and the vault commitment, with
/// canonical elements.
#[verifier::external_body]
pub(crate) fn note_id(recipient: Word, vault_hash: Word) -> (r: Word)
    ensures
        r == note_id_of(recipient, vault_hash),
        r.wf(),
{
    let r = recipient;
    let v = vault_hash;
    let r = Digest::new([Felt::new(r.e0), Felt::new(r.e1), Felt::new(r.e2), Felt::new(r.e3)]);
    let v = Digest::new([Felt::new(v.e0), Felt::new(v.e1), Felt::new(v.e2), Felt::new(v.e3)]);
    let e: [Felt; 4] = NoteId::new(r, v).inner().into();
    Word { e0: e[0].as_int(), e1: e[1].as_int(), e2: e[2].as_int(), e3: e[3].as_int() }
}

/// Relies on `ProgramAst::parse` and `NoteScript::new`: parses the program text and
/// compiles it with the assembler; a parse error is reported as a compilation error. Only
/// the two standard note scripts are handed to the parser.
#[verifier::external_body]
pub(crate) fn compile_note_script(source: &str, assembler: &Assembler) -> (r: Result<
    NoteScript,
    ObjectsError,
>)
    requires
        source@ == script_source("p2id"@) || source@ == script_source("p2idr"@),
    ensures
        r is Ok <==> compiles(*assembler, source@),
        r is Ok ==> script_root_of(r->Ok_0) == compiled_root(*assembler, source@),
{
    let program =
        ProgramAst::parse(source).map_err(|e| ObjectsError::ScriptCompilationError(e.into()))?;
    NoteScript::new(program, assembler).map(|(script, _)| script)
}

/// Relies on `NoteScript::hash`: the root of the compiled script.
#[verifier::external_body]
pub(crate) fn script_root(script: &NoteScript) -> (r: Word)
    ensures
        r == script_root_of(*script),
{
    let e: [Felt; 4] = script.hash().into();
    Word { e0: e[0].as_int(), e1: e[1].as_int(), e2: e[2].as_int(), e3: e[3].as_int() }
}

/// Relies on `Note::new`: with at most 128 inputs, assembly fails exactly where the assets
/// do not form a vault (the words turned into assets as in `vault_commitment`); the note's
/// recipient is derived from the serial number, the script's root and the inputs alone.
#[verifier::external_body]
pub(crate) fn build_note(
    script: NoteScript,
    inputs: &Vec<u64>,
    assets: &Vec<Word>,
    serial_num: Word,
    sender: AccountId,
    tag: u64,
) -> (r: Result<ObjectsNote, ObjectsError>)
    requires
        inputs@.len() <= 128,
    ensures
        r is Ok <==> vault_accepts(assets@),
        r is Ok ==> recipient_in(r->Ok_0) == recipient_of(
            serial_num,
            script_root_of(script),
            inputs@,
        ),
{
    let inputs: Vec<Felt> = inputs.iter().map(|v| Felt::new(*v)).collect();
    let mut items: Vec<Asset> = Vec::new();
    for w in assets.iter() {
        let felts = [Felt::new(w.e0), Felt::new(w.e1), Felt::new(w.e2), Felt::new(w.e3)];
        items.push(Asset::try_from(felts).map_err(ObjectsError::InvalidAssetData)?);
    }
    let s = serial_num;
    let serial = [Felt::new(s.e0), Felt::new(s.e1), Felt::new(s.e2), Felt::new(s.e3)];
    ObjectsNote::new(script, &inputs, &items, serial, sender, Felt::new(tag))
}

/// Relies on `Note::recipient`: the recipient the note holds, with canonical elements.
#[verifier::external_body]
pub(crate) fn note_recipient(note: &ObjectsNote) -> (r: Word)
    ensures
        r == recipient_in(*note),
        r.wf(),
{
    let e: [Felt; 4] = note.recipient().into();
    Word { e0: e[0].as_int(), e1: e[1].as_int(), e2: e[2].as_int(), e3: e[3].as_int() }
}

} // verus!
