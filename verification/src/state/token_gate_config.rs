use vstd::prelude::*;
use crate::address::Pubkey;

verus! {

/// The eligibility rule of one gated event: which asset a holder must own,
/// and how much of it at least.
#[derive(Clone, Copy, Debug)]
pub struct TokenGateConfig {
    pub event: Pubkey,
    pub required_token_mint: Pubkey,
    pub minimum_balance: u64,
    pub created_at: i64,
    pub bump: u8,
}

impl TokenGateConfig {
    /// Bytes of storage for one rule: an 8-byte tag and the fixed-size fields.
    pub const SPACE: usize = 8 + 32 + 32 + 8 + 8 + 1;

    pub open spec fn meets(&self, balance: u64) -> bool {
        balance >= self.minimum_balance
    }
}

} // verus!
