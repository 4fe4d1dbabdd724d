use vstd::prelude::*;
use crate::address::{payment_address, payment_seeds, program_address, Pubkey};

verus! {

/// A payment of tokens that waits for its time.
#[derive(Clone, Copy, Debug)]
pub struct Payment {
    pub payer: Pubkey,
    pub recipient: Pubkey,
    pub amount: u64,
    pub scheduled_time: i64,
    pub executed: bool,
    pub bump: u8,
}

#[derive(Clone, Copy, Debug, PartialEq, Eq, Structural)]
pub enum PaymentError {
    AlreadyExecuted,
    NotYetScheduled,
    Unauthorized,
}

impl PaymentError {
    pub open spec fn spec_message(self) -> Seq<char> {
        match self {
            PaymentError::AlreadyExecuted => "Payment has already been executed"@,
            PaymentError::NotYetScheduled => "Scheduled time has not yet passed"@,
            PaymentError::Unauthorized => "Unauthorized to perform this action"@,
        }
    }

    pub fn message(&self) -> (text: &'static str)
        ensures
            text@ == self.spec_message(),
    {
        match self {
            PaymentError::AlreadyExecuted => "Payment has already been executed",
            PaymentError::NotYetScheduled => "Scheduled time has not yet passed",
            PaymentError::Unauthorized => "Unauthorized to perform this action",
        }
    }
}

/// Why a payment was not executed: a guard refused it, or the ordered
/// transfer failed.
#[derive(Clone, Copy, Debug, PartialEq, Eq, Structural)]
pub enum ExecutePaymentError {
    Refused(PaymentError),
    TransferFailed,
}

/// Who sets a payment up, and the address at which it will be kept, with
/// its bump seed.
#[derive(Clone, Copy, Debug)]
pub struct InitializePayment {
    pub payer: Pubkey,
    pub payment_key: Pubkey,
    pub bump: u8,
}

impl InitializePayment {
    /// The address of the payer's payment under `program_id` is the one
    /// held here.
    pub open spec fn located(self, program_id: Pubkey) -> bool {
        program_address(payment_seeds(self.payer@), program_id@) == Some((self.payment_key@, self.bump))
    }

    /// Finds where the payment of `payer` is to be kept. `None` where the
    /// derivation yields no address.
    pub fn locate(payer: Pubkey, program_id: &Pubkey) -> (found: Option<InitializePayment>)
        ensures
            match found {
                Some(ctx) => ctx.payer == payer && ctx.located(*program_id),
                None => program_address(payment_seeds(payer@), program_id@) is None,
            },
    {
        match payment_address(&payer, program_id) {
            Some((payment_key, bump)) => Some(InitializePayment { payer, payment_key, bump }),
            None => None,
        }
    }
}

/// Who signs for the transfer, the payment, and the two token holdings
/// the tokens move between.
#[derive(Clone, Copy, Debug)]
pub struct ExecutePayment {
    pub payer: Pubkey,
    pub payment: Payment,
    pub from_token_account: Pubkey,
    pub to_token_account: Pubkey,
}

#[derive(Clone, Copy, Debug)]
pub struct CancelPayment {
    pub payer: Pubkey,
    pub payment: Payment,
}

/// An order to move `amount` tokens between two holdings on the word of
/// `authority`.
#[derive(Clone, Copy, Debug)]
pub struct TokenTransfer {
    pub from: Pubkey,
    pub to: Pubkey,
    pub authority: Pubkey,
    pub amount: u64,
}

/// Initialize a scheduled payment.
pub fn initialize_payment(ctx: &InitializePayment, amount: u64, scheduled_time: i64, recipient: Pubkey) -> (payment:
    Payment)
    ensures
        payment == (Payment {
            payer: ctx.payer,
            recipient,
            amount,
            scheduled_time,
            executed: false,
            bump: ctx.bump,
        }),
{
    Payment { payer: ctx.payer, recipient, amount, scheduled_time, executed: false, bump: ctx.bump }
}

/// The transfer that executing the payment at `now` asks for, or why it is
/// refused: first a payment already executed, then one whose time has not
/// come.
pub open spec fn spec_execute_payment(ctx: ExecutePayment, now: i64) -> Result<TokenTransfer, PaymentError> {
    if ctx.payment.executed {
        Err(PaymentError::AlreadyExecuted)
    } else if now < ctx.payment.scheduled_time {
        Err(PaymentError::NotYetScheduled)
    } else {
        Ok(
            TokenTransfer {
                from: ctx.from_token_account,
                to: ctx.to_token_account,
                authority: ctx.payer,
                amount: ctx.payment.amount,
            },
        )
    }
}

/// Execute a scheduled payment: check the guards, have `transfer` move the
/// tokens, and mark the payment executed if and only if they moved.
pub fn execute_payment<F: FnOnce(TokenTransfer) -> bool>(ctx: &mut ExecutePayment, now: i64, transfer: F) -> (done:
    Result<(), ExecutePaymentError>)
    requires
        forall|order: TokenTransfer|
            spec_execute_payment(*old(ctx), now) == Ok::<TokenTransfer, PaymentError>(order)
                ==> call_requires(transfer, (order,)),
    ensures
        final(ctx).payer == old(ctx).payer,
        final(ctx).from_token_account == old(ctx).from_token_account,
        final(ctx).to_token_account == old(ctx).to_token_account,
        match spec_execute_payment(*old(ctx), now) {
            Err(error) => {
                &&& done == Err::<(), ExecutePaymentError>(ExecutePaymentError::Refused(error))
                &&& final(ctx).payment == old(ctx).payment
            },
            Ok(order) => exists|succeeded: bool|
                {
                    &&& call_ensures(transfer, (order,), succeeded)
                    &&& final(ctx).payment == (Payment { executed: succeeded, ..old(ctx).payment })
                    &&& done == if succeeded {
                        Ok::<(), ExecutePaymentError>(())
                    } else {
                        Err::<(), ExecutePaymentError>(ExecutePaymentError::TransferFailed)
                    }
                },
        },
{
    if ctx.payment.executed {
        return Err(ExecutePaymentError::Refused(PaymentError::AlreadyExecuted));
    }
    if !(now >= ctx.payment.scheduled_time) {
        return Err(ExecutePaymentError::Refused(PaymentError::NotYetScheduled));
    }
    let order = TokenTransfer {
        from: ctx.from_token_account,
        to: ctx.to_token_account,
        authority: ctx.payer,
        amount: ctx.payment.amount,
    };
    assert(spec_execute_payment(*old(ctx), now) matches Ok(spec_order) && spec_order == order);
    let succeeded = transfer(order);
    if succeeded {
        ctx.payment.executed = true;
        Ok(())
    } else {
        Err(ExecutePaymentError::TransferFailed)
    }
}

/// The payment after a cancellation, or why it is refused: first a caller
/// who is not the payer, then a payment already executed.
pub open spec fn spec_cancel_payment(ctx: CancelPayment) -> Result<Payment, PaymentError> {
    if ctx.payer != ctx.payment.payer {
        Err(PaymentError::Unauthorized)
    } else if ctx.payment.executed {
        Err(PaymentError::AlreadyExecuted)
    } else {
        Ok(Payment { executed: true, ..ctx.payment })
    }
}

/// Cancel a scheduled payment. A cancelled payment is marked as an executed
/// one is, and nothing is transferred.
pub fn cancel_payment(ctx: &mut CancelPayment) -> (cancelled: Result<(), PaymentError>)
    ensures
        final(ctx).payer == old(ctx).payer,
        match spec_cancel_payment(*old(ctx)) {
            Ok(payment) => cancelled is Ok && final(ctx).payment == payment,
            Err(error) => cancelled == Err::<(), PaymentError>(error) && *final(ctx) == *old(ctx),
        },
{
    if !(ctx.payer == ctx.payment.payer) {
        return Err(PaymentError::Unauthorized);
    }
    if ctx.payment.executed {
        return Err(PaymentError::AlreadyExecuted);
    }
    ctx.payment.executed = true;
    Ok(())
}

/// An executed payment is final: it is neither executed nor cancelled
/// again, whoever asks and whenever, and a cancellation that goes through
/// leaves the payment marked executed.
pub proof fn lemma_executed_payment_is_final(execution: ExecutePayment, now: i64, cancellation: CancelPayment)
    ensures
        execution.payment.executed ==> spec_execute_payment(execution, now) == Err::<
            TokenTransfer,
            PaymentError,
        >(PaymentError::AlreadyExecuted),
        cancellation.payment.executed ==> spec_cancel_payment(cancellation) is Err,
        spec_cancel_payment(cancellation) matches Ok(payment) ==> payment.executed,
{
}

} // verus!
