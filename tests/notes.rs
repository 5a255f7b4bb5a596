use miden_notes::factory::SCRIPT_PREFIX;
use miden_notes::stub::{STUB_HEAD_SIZE, WORDS_PER_ASSET};
use miden_notes::{
    create_note, note_from_script, notes_try_from_elements, Note, NoteError, NoteMetadata,
    Script, Word,
};
use miden_objects::assembly::{Assembler, ProgramAst};
use miden_objects::notes::NoteScript;
use miden_objects::StarkField;

const FAUCET_A: u64 = 0b1010011100 << 54;
const FAUCET_B: u64 = 0b1010011101 << 54;
const SENDER: u64 = 0b0110011011u64 << 54;
const TARGET: u64 = 0b0001101110 << 54;
const FEW_ONES: u64 = 0b1100000110 << 54;

fn w(e0: u64, e1: u64, e2: u64, e3: u64) -> Word {
    Word { e0, e1, e2, e3 }
}

fn fungible(faucet: u64, amount: u64) -> Word {
    w(amount, 0, 0, faucet)
}

fn compiled_script() -> NoteScript {
    let program = ProgramAst::parse("begin push.1 drop end").unwrap();
    NoteScript::new(program, &Assembler::default()).unwrap().0
}

fn build(script: Script, assets: Vec<Word>, tag: Option<u64>) -> Result<Note, NoteError> {
    note_from_script(script, compiled_script(), assets, SENDER, tag, w(1, 2, 3, 4))
}

fn two_asset_note() -> Note {
    let assets = vec![fungible(FAUCET_A, 100), fungible(FAUCET_B, 7)];
    build(Script::P2ID { target: TARGET }, assets, Some(42)).unwrap()
}

#[test]
fn layout_constants() {
    assert_eq!(STUB_HEAD_SIZE, 4);
    assert_eq!(WORDS_PER_ASSET, 1);
}

#[test]
fn empty_array_is_too_short() {
    let r = notes_try_from_elements(&[]);
    assert!(matches!(r, Err(NoteError::InvalidStubLength(0))));
}

#[test]
fn array_below_head_is_too_short() {
    let ws = vec![Word::zero(); 3];
    let r = notes_try_from_elements(&ws);
    assert!(matches!(r, Err(NoteError::InvalidStubLength(3))));
}

#[test]
fn invalid_metadata_sender_is_rejected() {
    let ws = vec![Word::zero(), w(0, FEW_ONES, 1, 0), Word::zero(), Word::zero()];
    let r = notes_try_from_elements(&ws);
    assert!(matches!(r, Err(NoteError::InvalidAccountId(_))));
}

#[test]
fn array_short_of_vault_is_too_short() {
    let ws = vec![Word::zero(), w(0, SENDER, 2, 0), Word::zero(), Word::zero(), Word::zero()];
    let r = notes_try_from_elements(&ws);
    assert!(matches!(r, Err(NoteError::InvalidStubLength(5))));
}

#[test]
fn empty_vault_is_rejected_by_object_library() {
    let ws = vec![Word::zero(), w(0, SENDER, 0, 0), Word::zero(), Word::zero()];
    let r = notes_try_from_elements(&ws);
    assert!(matches!(r, Err(NoteError::NoteConstruction(_))));
}

#[test]
fn stub_round_trip() {
    let note = two_asset_note();
    let ws = note.stub_elements();
    assert_eq!(ws.len(), 6);
    let stub = notes_try_from_elements(&ws).unwrap();
    assert_eq!(stub.recipient, note.recipient);
    assert_eq!(stub.vault.assets, note.vault.assets);
    assert_eq!(stub.vault.hash, note.vault.hash);
    assert_eq!(stub.metadata, note.metadata);
    assert_eq!(stub.hash(), ws[0]);
    assert_ne!(stub.hash(), note.recipient);
    assert_ne!(note.vault.hash, note.vault.assets[0]);
}

#[test]
fn truncated_layouts_are_too_short() {
    let ws = two_asset_note().stub_elements();
    for k in 0..ws.len() {
        let r = notes_try_from_elements(&ws[..k]);
        match r {
            Err(NoteError::InvalidStubLength(n)) => assert_eq!(n, k),
            _ => panic!("truncation to {} words was not rejected for its length", k),
        }
    }
}

#[test]
fn tampered_vault_is_detected() {
    let mut ws = two_asset_note().stub_elements();
    let stored = ws[3];
    ws[5] = fungible(FAUCET_B, 8);
    match notes_try_from_elements(&ws) {
        Err(NoteError::InconsistentVaultCommitment { expected, found }) => {
            assert_eq!(expected, stored);
            assert_ne!(found, stored);
        },
        _ => panic!("tampered vault was not detected"),
    }
}

#[test]
fn tampered_head_hash_is_detected() {
    let mut ws = two_asset_note().stub_elements();
    let original = ws[0];
    let forged = w(9, 9, 9, 9);
    ws[0] = forged;
    match notes_try_from_elements(&ws) {
        Err(NoteError::InconsistentStubCommitment { expected, found }) => {
            assert_eq!(expected, forged);
            assert_eq!(found, original);
        },
        _ => panic!("tampered head hash was not detected"),
    }
}

#[test]
fn pay_to_id_kind_and_inputs() {
    let note = build(Script::P2ID { target: TARGET }, vec![fungible(FAUCET_A, 1)], None).unwrap();
    assert_eq!(note.script, Script::P2ID { target: TARGET });
    assert_eq!(note.inputs, vec![TARGET]);
    assert_eq!(note.script_source, Script::P2ID { target: TARGET }.source());
    assert!(note.script_source.ends_with("exec.basic::p2id\nend\n"));
}

#[test]
fn pay_to_id_with_recall_kind_and_inputs() {
    let script = Script::P2IDR { target: TARGET, recall_height: 12 };
    let note = build(script, vec![fungible(FAUCET_A, 1)], None).unwrap();
    assert_eq!(note.script, script);
    assert_eq!(note.inputs, vec![TARGET, 12]);
}

#[test]
fn script_sources_name_their_routine() {
    let p2id = Script::P2ID { target: TARGET }.source();
    let p2idr = Script::P2IDR { target: TARGET, recall_height: 3 }.source();
    assert_eq!(p2id, "use.miden::note_scripts::basic\n\nbegin\n    exec.basic::p2id\nend\n");
    assert_eq!(p2idr, "use.miden::note_scripts::basic\n\nbegin\n    exec.basic::p2idr\nend\n");
    assert!(p2id.starts_with(SCRIPT_PREFIX));
    assert_eq!(Script::P2ID { target: 5 }.routine_name(), "p2id");
    assert_eq!(Script::P2IDR { target: 5, recall_height: 1 }.static_inputs(), vec![5, 1]);
}

#[test]
fn missing_tag_defaults_to_zero() {
    let note = build(Script::P2ID { target: TARGET }, vec![fungible(FAUCET_A, 1)], None).unwrap();
    assert_eq!(note.metadata.tag, 0);
    assert_eq!(note.metadata.sender, SENDER);
    assert_eq!(note.metadata.num_assets, 1);
}

#[test]
fn given_tag_is_kept() {
    let note = two_asset_note();
    assert_eq!(note.metadata, NoteMetadata { sender: SENDER, tag: 42, num_assets: 2 });
    assert_eq!(note.serial_num, w(1, 2, 3, 4));
}

#[test]
fn invalid_target_is_rejected() {
    let r = build(Script::P2ID { target: FEW_ONES }, vec![fungible(FAUCET_A, 1)], None);
    assert!(matches!(r, Err(NoteError::InvalidAccountId(_))));
}

#[test]
fn invalid_sender_is_rejected() {
    let r = note_from_script(
        Script::P2ID { target: TARGET },
        compiled_script(),
        vec![fungible(FAUCET_A, 1)],
        FEW_ONES,
        None,
        Word::zero(),
    );
    assert!(matches!(r, Err(NoteError::InvalidAccountId(_))));
}

#[test]
fn duplicate_assets_are_rejected() {
    let assets = vec![fungible(FAUCET_A, 1), fungible(FAUCET_A, 2)];
    let r = build(Script::P2ID { target: TARGET }, assets, None);
    assert!(matches!(r, Err(NoteError::NoteConstruction(_))));
}

#[test]
fn empty_assets_are_rejected() {
    let r = build(Script::P2ID { target: TARGET }, vec![], None);
    assert!(matches!(r, Err(NoteError::NoteConstruction(_))));
}

#[test]
fn unknown_library_fails_compilation() {
    let r = create_note(
        Script::P2ID { target: TARGET },
        vec![fungible(FAUCET_A, 1)],
        SENDER,
        None,
        Word::zero(),
        &Assembler::default(),
    );
    assert!(matches!(r, Err(NoteError::ScriptCompilation(_))));
}

#[test]
fn metadata_word_round_trip() {
    let m = NoteMetadata { sender: SENDER, tag: 3, num_assets: 2 };
    let word = m.to_word();
    assert_eq!(word, w(3, SENDER, 2, 0));
    assert_eq!(NoteMetadata::try_from_word(word).unwrap(), m);
}

fn word_of(e: [miden_objects::Felt; 4]) -> Word {
    w(e[0].as_int(), e[1].as_int(), e[2].as_int(), e[3].as_int())
}

#[test]
fn note_records_script_root_and_recipient() {
    let note = two_asset_note();
    assert_eq!(note.script_root, word_of(compiled_script().hash().into()));
    assert_eq!(note.recipient, word_of(note.inner.recipient().into()));
    assert_ne!(note.recipient, note.script_root);
}

#[test]
fn missing_tag_and_zero_tag_give_the_same_note() {
    let a = build(Script::P2ID { target: TARGET }, vec![fungible(FAUCET_A, 1)], None).unwrap();
    let b = build(Script::P2ID { target: TARGET }, vec![fungible(FAUCET_A, 1)], Some(0)).unwrap();
    assert_eq!(a.metadata, b.metadata);
    assert_eq!(a.recipient, b.recipient);
    assert_eq!(a.script_root, b.script_root);
    assert_eq!(a.vault.hash, b.vault.hash);
    assert_eq!(a.inner, b.inner);
}

#[test]
fn account_ids_need_five_set_bits() {
    let five = build(Script::P2ID { target: 0b11111 }, vec![fungible(FAUCET_A, 1)], None);
    assert!(five.is_ok());
    let four = build(Script::P2ID { target: 0b1111 }, vec![fungible(FAUCET_A, 1)], None);
    assert!(matches!(four, Err(NoteError::InvalidAccountId(_))));
    let reduced = build(
        Script::P2ID { target: 0xFFFF_FFFF_0000_0001 + 0b11111 },
        vec![fungible(FAUCET_A, 1)],
        None,
    );
    assert!(reduced.is_ok());
}
