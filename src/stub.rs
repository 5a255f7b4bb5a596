use vstd::prelude::*;
use crate::error::NoteError;
use crate::objects::{
    account_id_accepts, account_id_from_element, note_id, note_id_of, vault_accepts,
    vault_commitment, vault_commitment_of,
};
use crate::word::{words_wf, Word};

verus! {

/// Word index of the top-level stub hash.
pub const STUB_HASH_OFFSET: usize = 0;

/// Word index of the packed note metadata.
pub const STUB_METADATA_OFFSET: usize = 1;

/// Word index of the note recipient.
pub const STUB_RECIPIENT_OFFSET: usize = 2;

/// Word index of the vault commitment.
pub const STUB_VAULT_HASH_OFFSET: usize = 3;

/// Word index at which the vault contents start.
pub const STUB_ASSETS_OFFSET: usize = 4;

/// Number of words in the fixed head of the layout.
pub const STUB_HEAD_SIZE: usize = 4;

/// Number of words that one asset occupies in the vault region.
pub const WORDS_PER_ASSET: usize = 1;

/// Sender, tag and number of assets of a note.
#[derive(Clone, Copy, Debug, PartialEq, Eq, Structural)]
pub struct NoteMetadata {
    pub sender: u64,
    pub tag: u64,
    pub num_assets: u64,
}

/// The packed form of metadata: `[tag, sender, num_assets, 0]`.
pub open spec fn metadata_word(m: NoteMetadata) -> Word {
    Word { e0: m.tag, e1: m.sender, e2: m.num_assets, e3: 0 }
}

/// The metadata that a packed word holds.
pub open spec fn metadata_of_word(w: Word) -> NoteMetadata {
    NoteMetadata { sender: w.e1, tag: w.e0, num_assets: w.e2 }
}

impl NoteMetadata {
    /// Packs the metadata into one word.
    pub fn to_word(&self) -> (r: Word)
        ensures
            r == metadata_word(*self),
    {
        Word { e0: self.tag, e1: self.sender, e2: self.num_assets, e3: 0 }
    }

    /// Unpacks metadata from a word; fails when the sender element is no account id.
    pub fn try_from_word(w: Word) -> (r: Result<NoteMetadata, NoteError>)
        ensures
            r is Ok <==> account_id_accepts(w.e1),
            r is Ok ==> r->Ok_0 == metadata_of_word(w),
            r is Err ==> r->Err_0 is InvalidAccountId,
    {
        match account_id_from_element(w.e1) {
            Ok(_) => Ok(NoteMetadata { sender: w.e1, tag: w.e0, num_assets: w.e2 }),
            Err(e) => Err(NoteError::InvalidAccountId(e)),
        }
    }
}

/// The assets of a note, one word each, with their commitment.
pub struct NoteVault {
    pub assets: Vec<Word>,
    pub hash: Word,
}

/// A verified summary of a note: recipient, vault and metadata.
pub struct NoteStub {
    pub recipient: Word,
    pub vault: NoteVault,
    pub metadata: NoteMetadata,
}

impl NoteStub {
    /// The commitment to the stub: the note id of its recipient and vault commitment.
    pub fn hash(&self) -> (r: Word)
        ensures
            r == note_id_of(self.recipient, self.vault.hash),
    {
        note_id(self.recipient, self.vault.hash)
    }
}

/// Where decoding a word array stops, check by check.
pub enum StubCheck {
    ShortHead,
    BadMetadata,
    ShortVault,
    BadVault,
    VaultMismatch,
    StubMismatch,
    Accepted,
}

/// The words of the vault region, as sized by the metadata word.
pub open spec fn vault_region(ws: Seq<Word>) -> Seq<Word> {
    ws.subrange(STUB_ASSETS_OFFSET as int, STUB_ASSETS_OFFSET + ws[1].e2 * WORDS_PER_ASSET)
}

/// The first check that a word array fails, or `Accepted`.
pub open spec fn stub_check(ws: Seq<Word>) -> StubCheck {
    if ws.len() < STUB_HEAD_SIZE {
        StubCheck::ShortHead
    } else if !account_id_accepts(ws[1].e1) {
        StubCheck::BadMetadata
    } else if ws.len() < STUB_ASSETS_OFFSET + ws[1].e2 * WORDS_PER_ASSET {
        StubCheck::ShortVault
    } else if !vault_accepts(vault_region(ws)) {
        StubCheck::BadVault
    } else if vault_commitment_of(vault_region(ws)) != ws[3] {
        StubCheck::VaultMismatch
    } else if note_id_of(ws[2], ws[3]) != ws[0] {
        StubCheck::StubMismatch
    } else {
        StubCheck::Accepted
    }
}

/// Decodes a note stub from its word layout, checking both commitments.
pub fn notes_try_from_elements(elements: &[Word]) -> (r: Result<NoteStub, NoteError>)
    requires
        words_wf(elements@),
    ensures
        match stub_check(elements@) {
            StubCheck::ShortHead | StubCheck::ShortVault => r matches Err(
                NoteError::InvalidStubLength(n),
            ) && n == elements@.len(),
            StubCheck::BadMetadata => r matches Err(NoteError::InvalidAccountId(_)),
            StubCheck::BadVault => r matches Err(NoteError::NoteConstruction(_)),
            StubCheck::VaultMismatch => r matches Err(
                NoteError::InconsistentVaultCommitment { expected, found },
            ) && expected == elements@[3] && found == vault_commitment_of(vault_region(elements@)),
            StubCheck::StubMismatch => r matches Err(
                NoteError::InconsistentStubCommitment { expected, found },
            ) && expected == elements@[0] && found == note_id_of(elements@[2], elements@[3]),
            StubCheck::Accepted => r matches Ok(stub) && stub.recipient == elements@[2]
                && stub.vault.assets@ == vault_region(elements@) && stub.vault.hash
                == elements@[3] && stub.metadata == metadata_of_word(elements@[1]),
        },
{
    let len = elements.len();
    if len < STUB_HEAD_SIZE {
        return Err(NoteError::InvalidStubLength(len));
    }
    let hash = elements[STUB_HASH_OFFSET];
    let metadata = match NoteMetadata::try_from_word(elements[STUB_METADATA_OFFSET]) {
        Ok(m) => m,
        Err(e) => return Err(e),
    };
    let recipient = elements[STUB_RECIPIENT_OFFSET];
    let vault_hash = elements[STUB_VAULT_HASH_OFFSET];
    let n = metadata.num_assets;
    if ((len - STUB_ASSETS_OFFSET) as u64) < n {
        return Err(NoteError::InvalidStubLength(len));
    }
    let end: usize = STUB_ASSETS_OFFSET + (n as usize) * WORDS_PER_ASSET;
    let mut assets: Vec<Word> = Vec::new();
    let mut i: usize = STUB_ASSETS_OFFSET;
    while i < end
        invariant
            STUB_ASSETS_OFFSET <= i <= end <= elements@.len(),
            assets@ == elements@.subrange(STUB_ASSETS_OFFSET as int, i as int),
        decreases end - i,
    {
        assets.push(elements[i]);
        i = i + 1;
        proof {
            assert(assets@ =~= elements@.subrange(STUB_ASSETS_OFFSET as int, i as int));
        }
    }
    proof {
        assert(assets@ =~= vault_region(elements@));
    }
    let found = match vault_commitment(&assets) {
        Ok(h) => h,
        Err(e) => return Err(NoteError::NoteConstruction(e)),
    };
    if found != vault_hash {
        return Err(NoteError::InconsistentVaultCommitment { expected: vault_hash, found });
    }
    let stub = NoteStub { recipient, vault: NoteVault { assets, hash: found }, metadata };
    let stub_hash = stub.hash();
    if stub_hash != hash {
        return Err(NoteError::InconsistentStubCommitment { expected: hash, found: stub_hash });
    }
    Ok(stub)
}

/// A word array cut below the fixed head is rejected for its length; so is an array
/// with a valid metadata word cut anywhere short of the vault region's end.
pub proof fn lemma_truncation_rejected(ws: Seq<Word>, k: int)
    requires
        0 <= k <= ws.len(),
        k < STUB_HEAD_SIZE || (STUB_HEAD_SIZE <= k < STUB_ASSETS_OFFSET + ws[1].e2
            * WORDS_PER_ASSET && account_id_accepts(ws[1].e1)),
    ensures
        k < STUB_HEAD_SIZE ==> stub_check(ws.subrange(0, k)) == StubCheck::ShortHead,
        k >= STUB_HEAD_SIZE ==> stub_check(ws.subrange(0, k)) == StubCheck::ShortVault,
{
    let t = ws.subrange(0, k);
    if k >= STUB_HEAD_SIZE {
        assert(t[1] == ws[1]);
    }
}

/// Changing a word of the vault region of an accepted array, in a way that changes the
/// vault's commitment, never yields a stub; where the changed region still forms a vault,
/// the vault commitment check is what fails.
pub proof fn lemma_vault_tamper_detected(ws: Seq<Word>, i: int, w: Word)
    requires
        stub_check(ws) == StubCheck::Accepted,
        STUB_ASSETS_OFFSET <= i < STUB_ASSETS_OFFSET + ws[1].e2 * WORDS_PER_ASSET,
        vault_commitment_of(vault_region(ws.update(i, w))) != vault_commitment_of(
            vault_region(ws),
        ),
    ensures
        stub_check(ws.update(i, w)) != StubCheck::Accepted,
        vault_accepts(vault_region(ws.update(i, w))) ==> stub_check(ws.update(i, w))
            == StubCheck::VaultMismatch,
{
    let t = ws.update(i, w);
    assert(t[1] == ws[1]);
    assert(t[3] == ws[3]);
}

/// Replacing the top-level hash of an accepted array by any other word is caught by the
/// stub commitment check.
pub proof fn lemma_head_tamper_detected(ws: Seq<Word>, w: Word)
    requires
        stub_check(ws) == StubCheck::Accepted,
        w != ws[0],
    ensures
        stub_check(ws.update(0, w)) == StubCheck::StubMismatch,
{
    let t = ws.update(0, w);
    assert(t[1] == ws[1]);
    assert(t[2] == ws[2]);
    assert(t[3] == ws[3]);
    assert(vault_region(t) =~= vault_region(ws));
}

} // verus!
