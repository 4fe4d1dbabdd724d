use vstd::prelude::*;
use crate::address::Pubkey;
use crate::errors::CalendarFiError;
use crate::state::token_gate_config::TokenGateConfig;

verus! {

/// A holding of one asset: who owns it, which asset, and how much.
#[derive(Clone, Copy, Debug)]
pub struct TokenAccount {
    pub owner: Pubkey,
    pub mint: Pubkey,
    pub amount: u64,
}

/// A user, the holding they show, and the rule it is held against.
#[derive(Clone, Copy, Debug)]
pub struct VerifyTokenOwnership {
    pub user: Pubkey,
    pub token_account: TokenAccount,
    pub token_gate_config: TokenGateConfig,
}

impl VerifyTokenOwnership {
    /// The holding is the user's own and of the asset that the rule names.
    pub open spec fn spec_constraints(self) -> Result<(), CalendarFiError> {
        if self.token_account.owner == self.user && self.token_account.mint
            == self.token_gate_config.required_token_mint {
            Ok(())
        } else {
            Err(CalendarFiError::TokenVerificationFailed)
        }
    }

    /// Refuses a holding of another owner or another asset before any
    /// balance is compared.
    pub fn constraints(&self) -> (checked: Result<(), CalendarFiError>)
        ensures
            checked == self.spec_constraints(),
    {
        if self.token_account.owner == self.user && self.token_account.mint
            == self.token_gate_config.required_token_mint {
            Ok(())
        } else {
            Err(CalendarFiError::TokenVerificationFailed)
        }
    }
}

/// Eligibility is all or nothing: the balance meets the minimum or the
/// holder is refused.
pub open spec fn spec_handler(ctx: VerifyTokenOwnership) -> Result<bool, CalendarFiError> {
    if ctx.token_account.amount >= ctx.token_gate_config.minimum_balance {
        Ok(true)
    } else {
        Err(CalendarFiError::InsufficientTokenBalance)
    }
}

/// Compares the holding's balance with the rule's minimum. Changes nothing.
pub fn handler(ctx: &VerifyTokenOwnership) -> (verdict: Result<bool, CalendarFiError>)
    ensures
        verdict == spec_handler(*ctx),
{
    if ctx.token_account.amount >= ctx.token_gate_config.minimum_balance {
        Ok(true)
    } else {
        Err(CalendarFiError::InsufficientTokenBalance)
    }
}

} // verus!
