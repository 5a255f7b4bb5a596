use vstd::prelude::*;

verus! {

/// The modulus of the field: 2^64 - 2^32 + 1.
pub const FIELD_MODULUS: u64 = 0xFFFF_FFFF_0000_0001;

/// Whether a `u64` is the canonical value of a field element.
pub open spec fn is_canonical(v: u64) -> bool {
    v < FIELD_MODULUS
}

/// A group of four field elements, each held as its `u64` value.
#[derive(Clone, Copy, Debug, PartialEq, Eq, Structural)]
pub struct Word {
    pub e0: u64,
    pub e1: u64,
    pub e2: u64,
    pub e3: u64,
}

impl Word {
    /// Each element holds the canonical value of a field element.
    pub open spec fn wf(self) -> bool {
        is_canonical(self.e0) && is_canonical(self.e1) && is_canonical(self.e2) && is_canonical(
            self.e3,
        )
    }

    /// The word whose four elements are all zero.
    pub fn zero() -> (r: Word)
        ensures
            r == (Word { e0: 0, e1: 0, e2: 0, e3: 0 }),
            r.wf(),
    {
        Word { e0: 0, e1: 0, e2: 0, e3: 0 }
    }
}

/// Every word of the sequence is well formed.
pub open spec fn words_wf(ws: Seq<Word>) -> bool {
    forall|i: int| 0 <= i < ws.len() ==> #[trigger] ws[i].wf()
}

} // verus!
