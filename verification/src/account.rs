use vstd::prelude::*;
use crate::identity::Identity;

verus! {

/// Bytes that one stored tip account occupies: an 8-byte tag, two identities
/// and the 8-byte total.
pub const TIP_ACCOUNT_SPACE: usize = 8 + 32 + 32 + 8;

/// The record kept for one tipper: who tips, whom, and how much so far.
///
/// `tipper` and `creator` are written when the record is created and never
/// again; `total_tips` only grows.
#[derive(Clone, Copy, Debug, PartialEq, Eq)]
pub struct TipAccount {
    pub tipper: Identity,
    pub creator: Identity,
    pub total_tips: u64,
}

impl TipAccount {
    /// The record as it stands right after creation.
    pub open spec fn fresh(tipper: Identity, creator: Identity) -> TipAccount {
        TipAccount { tipper, creator, total_tips: 0 }
    }

    /// This record with `amount` more tipped.
    pub open spec fn credited(self, amount: u64) -> TipAccount
        recommends
            self.total_tips + amount <= u64::MAX,
    {
        TipAccount { total_tips: (self.total_tips + amount) as u64, ..self }
    }
}

} // verus!
