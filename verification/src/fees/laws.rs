//! What holds of the fees as a whole.
use crate::fees::charge::{
    fee_withdrawal, refund_amount, settlement, LiquidityInfoView, WithdrawStep,
};
use crate::primitives::Balance;
use vstd::prelude::*;

verus! {

/// No funds are lost or made: what was withdrawn is what is paid for storage, what is paid for
/// execution, and what went back.
pub proof fn law_settlement_conserves_funds(info: LiquidityInfoView, refunded: Balance)
    ensures
        settlement(info, refunded) matches Ok(paid) ==> paid.storage_fee + paid.execution_fee
            + refunded == info.withdrawn,
{
}

/// A settlement fails exactly when more went back than was withdrawn.
pub proof fn law_settlement_fails_on_excess_refund(info: LiquidityInfoView, refunded: Balance)
    ensures
        settlement(info, refunded) is Err <==> refunded > info.withdrawn,
{
}

/// If the refund that is asked for is made, the settlement succeeds and the payer has paid the
/// corrected fee, or the withdrawn one if that is less.
pub proof fn law_full_refund_charges_corrected_fee(
    info: LiquidityInfoView,
    corrected_fee: Balance,
)
    ensures
        settlement(info, refund_amount(info.withdrawn, corrected_fee)) matches Ok(paid)
            && paid.storage_fee + paid.execution_fee == if corrected_fee <= info.withdrawn {
            corrected_fee
        } else {
            info.withdrawn
        },
{
}

/// If the refund fails, the settlement still succeeds and the whole withdrawn fee is paid.
pub proof fn law_failed_refund_charges_all(info: LiquidityInfoView)
    ensures
        settlement(info, 0) matches Ok(paid) && paid.storage_fee + paid.execution_fee
            == info.withdrawn,
{
}

/// Storage is paid first: execution gets a share only once the storage fee is paid in full.
pub proof fn law_storage_is_paid_first(info: LiquidityInfoView, refunded: Balance)
    ensures
        settlement(info, refunded) matches Ok(paid) ==> paid.storage_fee <= info.storage_fee && (
        paid.execution_fee > 0 ==> paid.storage_fee == info.storage_fee),
{
}

/// Nothing is withdrawn without a fee, and never anything but the fee itself, the account being
/// kept alive; the reasons name the tip exactly when there is one.
pub proof fn law_withdrawal_is_the_fee<'a, AccountId>(
    who: &'a AccountId,
    fee: Balance,
    tip: Balance,
)
    ensures
        fee_withdrawal(who, fee, tip) is NoFee <==> fee == 0,
        fee_withdrawal(who, fee, tip) matches WithdrawStep::Withdraw(request) ==> request.amount
            == fee && request.who == who && request.existence is KeepAlive
            && request.reasons.transaction_payment && (request.reasons.tip <==> tip != 0),
{
}

/// The refund that is asked for never exceeds what was withdrawn.
pub proof fn law_refund_within_withdrawn(withdrawn: Balance, corrected_fee: Balance)
    ensures
        refund_amount(withdrawn, corrected_fee) <= withdrawn,
        withdrawn >= corrected_fee ==> withdrawn - refund_amount(withdrawn, corrected_fee)
            == corrected_fee,
{
}

} // verus!
