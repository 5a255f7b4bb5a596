use vstd::prelude::*;
use vstd::string::*;
use miden_objects::assembly::Assembler;
use miden_objects::notes::NoteScript;
use miden_objects::notes::Note as ObjectsNote;
use crate::error::NoteError;
use crate::objects::{
    account_id_accepts, account_id_from_element, build_note, compile_note_script, compiled_root,
    compiles, note_id, note_id_of, note_recipient, recipient_of, script_root, script_root_of, vault_accepts,
    vault_commitment, vault_commitment_of,
};
use crate::stub::{
    metadata_of_word, metadata_word, stub_check, vault_region, NoteMetadata, NoteVault,
    StubCheck,
};
use crate::word::Word;

verus! {

/// The standard ownership kinds a note can be created with.
#[derive(Clone, Copy, Debug, PartialEq, Eq, Structural)]
pub enum Script {
    /// Pay to an account id.
    P2ID { target: u64 },
    /// Pay to an account id; the sender may reclaim the assets after the recall height.
    P2IDR { target: u64, recall_height: u32 },
}

/// The account that a note of this kind pays to.
pub open spec fn script_target(s: Script) -> u64 {
    match s {
        Script::P2ID { target } => target,
        Script::P2IDR { target, .. } => target,
    }
}

/// The library routine that implements the kind.
pub open spec fn script_routine(s: Script) -> Seq<char> {
    match s {
        Script::P2ID { .. } => "p2id"@,
        Script::P2IDR { .. } => "p2idr"@,
    }
}

/// The static inputs of the kind, in the routine's parameter order.
pub open spec fn script_inputs(s: Script) -> Seq<u64> {
    match s {
        Script::P2ID { target } => seq![target],
        Script::P2IDR { target, recall_height } => seq![target, recall_height as u64],
    }
}

/// Text of a note script before the routine name.
pub const SCRIPT_PREFIX: &'static str = "use.miden::note_scripts::basic\n\nbegin\n    exec.basic::";

/// Text of a note script after the routine name.
pub const SCRIPT_SUFFIX: &'static str = "\nend\n";

/// The note script that runs the given routine.
pub open spec fn script_source(routine: Seq<char>) -> Seq<char> {
    SCRIPT_PREFIX@ + routine + SCRIPT_SUFFIX@
}

impl Script {
    /// The account that a note of this kind pays to.
    pub fn target(&self) -> (r: u64)
        ensures
            r == script_target(*self),
    {
        match self {
            Script::P2ID { target } => *target,
            Script::P2IDR { target, .. } => *target,
        }
    }

    /// The name of the library routine that implements the kind.
    pub fn routine_name(&self) -> (r: &'static str)
        ensures
            r@ == script_routine(*self),
    {
        match self {
            Script::P2ID { .. } => "p2id",
            Script::P2IDR { .. } => "p2idr",
        }
    }

    /// The static inputs handed to the note script.
    pub fn static_inputs(&self) -> (r: Vec<u64>)
        ensures
            r@ == script_inputs(*self),
    {
        let mut r: Vec<u64> = Vec::new();
        match self {
            Script::P2ID { target } => {
                r.push(*target);
            },
            Script::P2IDR { target, recall_height } => {
                r.push(*target);
                r.push(*recall_height as u64);
            },
        }
        proof {
            assert(r@ =~= script_inputs(*self));
        }
        r
    }

    /// The source text of the note script for the kind.
    pub fn source(&self) -> (r: String)
        ensures
            r@ == script_source(script_routine(*self)),
    {
        String::from_str(SCRIPT_PREFIX).concat(self.routine_name()).concat(SCRIPT_SUFFIX)
    }
}

/// A note built from a standard script.
pub struct Note {
    pub script: Script,
    pub script_source: String,
    pub script_root: Word,
    pub inputs: Vec<u64>,
    pub vault: NoteVault,
    pub serial_num: Word,
    pub metadata: NoteMetadata,
    pub recipient: Word,
    pub inner: ObjectsNote,
}

impl Note {
    /// The metadata counts the vault's assets, names a valid sender, and the vault holds
    /// accepted assets under their commitment.
    pub open spec fn wf(&self) -> bool {
        &&& self.metadata.num_assets == self.vault.assets@.len()
        &&& account_id_accepts(self.metadata.sender)
        &&& vault_accepts(self.vault.assets@)
        &&& self.vault.hash == vault_commitment_of(self.vault.assets@)
    }
}

/// The tag of a note: the given one, or zero when none is given.
pub open spec fn default_tag(tag: Option<u64>) -> u64 {
    match tag {
        Some(t) => t,
        None => 0,
    }
}

/// What building a note from a compiled script returns, for each input.
pub open spec fn note_result(
    script: Script,
    assets: Seq<Word>,
    sender: u64,
    tag: Option<u64>,
    serial_num: Word,
    root: Word,
    r: Result<Note, NoteError>,
) -> bool {
    let ids_ok = account_id_accepts(script_target(script)) && account_id_accepts(sender);
    match r {
        Ok(n) => {
            &&& ids_ok
            &&& vault_accepts(assets)
            &&& n.script == script
            &&& n.script_source@ == script_source(script_routine(script))
            &&& n.script_root == root
            &&& n.inputs@ == script_inputs(script)
            &&& n.recipient == recipient_of(serial_num, root, script_inputs(script))
            &&& n.vault.assets@ == assets
            &&& n.serial_num == serial_num
            &&& n.metadata == (NoteMetadata {
                sender,
                tag: default_tag(tag),
                num_assets: assets.len() as u64,
            })
            &&& n.wf()
        },
        Err(NoteError::InvalidAccountId(_)) => !ids_ok,
        Err(NoteError::NoteConstruction(_)) => ids_ok && !vault_accepts(assets),
        Err(_) => false,
    }
}

/// Builds a note of the given kind around an already compiled script; the note records the
/// kind's script source and the compiled script's root.
pub fn note_from_script(
    script: Script,
    compiled: NoteScript,
    assets: Vec<Word>,
    sender: u64,
    tag: Option<u64>,
    serial_num: Word,
) -> (r: Result<Note, NoteError>)
    ensures
        note_result(script, assets@, sender, tag, serial_num, script_root_of(compiled), r),
{
    if let Err(e) = account_id_from_element(script.target()) {
        return Err(NoteError::InvalidAccountId(e));
    }
    let sender_id = match account_id_from_element(sender) {
        Ok(id) => id,
        Err(e) => return Err(NoteError::InvalidAccountId(e)),
    };
    let vault_hash = match vault_commitment(&assets) {
        Ok(h) => h,
        Err(e) => return Err(NoteError::NoteConstruction(e)),
    };
    let tag_value: u64 = match tag {
        Some(t) => t,
        None => 0,
    };
    let inputs = script.static_inputs();
    let root = script_root(&compiled);
    let inner = match build_note(compiled, &inputs, &assets, serial_num, sender_id, tag_value) {
        Ok(n) => n,
        Err(e) => return Err(NoteError::NoteConstruction(e)),
    };
    let recipient = note_recipient(&inner);
    let metadata = NoteMetadata { sender, tag: tag_value, num_assets: assets.len() as u64 };
    Ok(
        Note {
            script,
            script_source: script.source(),
            script_root: root,
            inputs,
            vault: NoteVault { assets, hash: vault_hash },
            serial_num,
            metadata,
            recipient,
            inner,
        },
    )
}

/// What creating a note returns, for each input: a compilation error exactly where the
/// assembler cannot compile the kind's script, else the note built around the compiled root.
pub open spec fn create_result(
    script: Script,
    assets: Seq<Word>,
    sender: u64,
    tag: Option<u64>,
    serial_num: Word,
    assembler: Assembler,
    r: Result<Note, NoteError>,
) -> bool {
    let source = script_source(script_routine(script));
    &&& (r matches Err(NoteError::ScriptCompilation(_))) <==> !compiles(assembler, source)
    &&& compiles(assembler, source) ==> note_result(
        script,
        assets,
        sender,
        tag,
        serial_num,
        compiled_root(assembler, source),
        r,
    )
}

/// Creates a note of a standard kind: compiles the kind's script with the assembler and
/// assembles the note. Compilation fails exactly where the assembler cannot compile the
/// kind's script; otherwise the result is that of `note_from_script` on the compiled script.
pub fn create_note(
    script: Script,
    assets: Vec<Word>,
    sender: u64,
    tag: Option<u64>,
    serial_num: Word,
    assembler: &Assembler,
) -> (r: Result<Note, NoteError>)
    ensures
        create_result(script, assets@, sender, tag, serial_num, *assembler, r),
{
    let source = script.source();
    let compiled = match compile_note_script(source.as_str(), assembler) {
        Ok(s) => s,
        Err(e) => return Err(NoteError::ScriptCompilation(e)),
    };
    note_from_script(script, compiled, assets, sender, tag, serial_num)
}

/// The fields of two notes that hold plain values agree.
pub open spec fn same_note(a: Note, b: Note) -> bool {
    &&& a.script == b.script
    &&& a.script_source@ == b.script_source@
    &&& a.script_root == b.script_root
    &&& a.inputs@ == b.inputs@
    &&& a.vault.assets@ == b.vault.assets@
    &&& a.vault.hash == b.vault.hash
    &&& a.serial_num == b.serial_num
    &&& a.metadata == b.metadata
    &&& a.recipient == b.recipient
}

/// Building a note is determined by its inputs, and a missing tag counts as a zero tag:
/// two results for the same kind, assets, sender, serial number and script root, whose
/// tags resolve to the same value, both succeed with the same note or both fail alike.
pub proof fn lemma_note_result_determined(
    script: Script,
    assets: Seq<Word>,
    sender: u64,
    tag1: Option<u64>,
    tag2: Option<u64>,
    serial_num: Word,
    root: Word,
    r1: Result<Note, NoteError>,
    r2: Result<Note, NoteError>,
)
    requires
        default_tag(tag1) == default_tag(tag2),
        note_result(script, assets, sender, tag1, serial_num, root, r1),
        note_result(script, assets, sender, tag2, serial_num, root, r2),
    ensures
        r1 is Ok <==> r2 is Ok,
        (r1 matches Err(NoteError::InvalidAccountId(_))) <==> (r2 matches Err(
            NoteError::InvalidAccountId(_),
        )),
        (r1 matches Err(NoteError::NoteConstruction(_))) <==> (r2 matches Err(
            NoteError::NoteConstruction(_),
        )),
        r1 is Ok ==> same_note(r1->Ok_0, r2->Ok_0),
{
}

/// Creating a note is determined by its inputs and the assembler, and a missing tag counts
/// as a zero tag: both calls fail to compile, or both give the same note, or both fail alike.
pub proof fn lemma_create_note_determined(
    script: Script,
    assets: Seq<Word>,
    sender: u64,
    tag1: Option<u64>,
    tag2: Option<u64>,
    serial_num: Word,
    assembler: Assembler,
    r1: Result<Note, NoteError>,
    r2: Result<Note, NoteError>,
)
    requires
        default_tag(tag1) == default_tag(tag2),
        create_result(script, assets, sender, tag1, serial_num, assembler, r1),
        create_result(script, assets, sender, tag2, serial_num, assembler, r2),
    ensures
        (r1 matches Err(NoteError::ScriptCompilation(_))) <==> (r2 matches Err(
            NoteError::ScriptCompilation(_),
        )),
        r1 is Ok <==> r2 is Ok,
        (r1 matches Err(NoteError::InvalidAccountId(_))) <==> (r2 matches Err(
            NoteError::InvalidAccountId(_),
        )),
        (r1 matches Err(NoteError::NoteConstruction(_))) <==> (r2 matches Err(
            NoteError::NoteConstruction(_),
        )),
        r1 is Ok ==> same_note(r1->Ok_0, r2->Ok_0),
{
    let source = script_source(script_routine(script));
    if compiles(assembler, source) {
        lemma_note_result_determined(
            script,
            assets,
            sender,
            tag1,
            tag2,
            serial_num,
            compiled_root(assembler, source),
            r1,
            r2,
        );
    }
}

/// The word layout of a note's stub: top-level hash, metadata, recipient, vault
/// commitment, then the vault's assets.
pub open spec fn stub_layout(note: Note) -> Seq<Word> {
    seq![
        note_id_of(note.recipient, note.vault.hash),
        metadata_word(note.metadata),
        note.recipient,
        note.vault.hash,
    ] + note.vault.assets@
}

impl Note {
    /// Serializes the note's stub fields into the word layout.
    pub fn stub_elements(&self) -> (r: Vec<Word>)
        ensures
            r@ == stub_layout(*self),
    {
        let mut r: Vec<Word> = Vec::new();
        r.push(note_id(self.recipient, self.vault.hash));
        r.push(self.metadata.to_word());
        r.push(self.recipient);
        r.push(self.vault.hash);
        let mut i: usize = 0;
        while i < self.vault.assets.len()
            invariant
                i <= self.vault.assets@.len(),
                r@ == seq![
                    note_id_of(self.recipient, self.vault.hash),
                    metadata_word(self.metadata),
                    self.recipient,
                    self.vault.hash,
                ] + self.vault.assets@.subrange(0, i as int),
            decreases self.vault.assets@.len() - i,
        {
            r.push(self.vault.assets[i]);
            i = i + 1;
            proof {
                assert(r@ =~= seq![
                    note_id_of(self.recipient, self.vault.hash),
                    metadata_word(self.metadata),
                    self.recipient,
                    self.vault.hash,
                ] + self.vault.assets@.subrange(0, i as int));
            }
        }
        proof {
            assert(self.vault.assets@.subrange(0, i as int) =~= self.vault.assets@);
        }
        r
    }
}

/// Decoding the stub layout of a well-formed note accepts it and gives back the note's
/// recipient, vault and metadata, under the note's own stub hash.
pub proof fn lemma_stub_round_trip(note: Note)
    requires
        note.wf(),
    ensures
        stub_check(stub_layout(note)) == StubCheck::Accepted,
        stub_layout(note)[2] == note.recipient,
        vault_region(stub_layout(note)) == note.vault.assets@,
        stub_layout(note)[3] == note.vault.hash,
        metadata_of_word(stub_layout(note)[1]) == note.metadata,
        note_id_of(stub_layout(note)[2], stub_layout(note)[3]) == note_id_of(
            note.recipient,
            note.vault.hash,
        ),
{
    let ws = stub_layout(note);
    assert(ws[1] == metadata_word(note.metadata));
    assert(vault_region(ws) =~= note.vault.assets@);
}

} // verus!
