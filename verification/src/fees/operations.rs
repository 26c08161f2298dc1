//! What each operation on fees does, said of any call of it: `call_ensures` holds of a call's
//! arguments and what it returned.
use crate::fees::charge::{
    refunded, settlement, CorrectStep, DomainTransactionByteFee, ExistenceRequirement,
    InvalidTransaction, LiquidityInfo, LiquidityInfoView, OnChargeDomainTransaction, PaidFees,
    PendingSettlement, TransactionValidityError, WithdrawStep,
};
use crate::fees::imbalance::{NegativeImbalance, PositiveImbalance, SameOrOther};
use crate::primitives::Balance;
use vstd::prelude::*;

verus! {

/// A settlement after a refund of some amount succeeds exactly when no more came back than was
/// withdrawn. Then what is paid for storage, what is paid for execution and what came back make up
/// what was withdrawn, and execution gets a share only beyond the storage fee.
pub proof fn law_settling_a_refund<E>(
    pending: PendingSettlement,
    imbalance: PositiveImbalance,
    paid: Result<PaidFees, TransactionValidityError>,
)
    requires
        call_ensures(
            PendingSettlement::settle::<E>,
            (pending, Ok::<PositiveImbalance, E>(imbalance)),
            paid,
        ),
    ensures
        paid is Ok <==> imbalance@ <= pending@.withdrawn,
        paid matches Err(error) ==> error == TransactionValidityError::Invalid(
            InvalidTransaction::Payment,
        ),
        paid matches Ok(fees) ==> {
            &&& fees.storage_fee + fees.execution_fee + imbalance@ == pending@.withdrawn
            &&& fees.storage_fee <= pending@.storage_fee
            &&& fees.execution_fee > 0 ==> fees.storage_fee == pending@.storage_fee
        },
{
}

/// A settlement after a refund that failed always succeeds, and the whole of what was withdrawn is
/// paid, for storage first.
pub proof fn law_settling_a_failed_refund<E>(
    pending: PendingSettlement,
    error: E,
    paid: Result<PaidFees, TransactionValidityError>,
)
    requires
        call_ensures(
            PendingSettlement::settle::<E>,
            (pending, Err::<PositiveImbalance, E>(error)),
            paid,
        ),
    ensures
        paid matches Ok(fees) && {
            &&& fees.storage_fee + fees.execution_fee == pending@.withdrawn
            &&& fees.storage_fee <= pending@.storage_fee
            &&& fees.execution_fee > 0 ==> fees.storage_fee == pending@.storage_fee
        },
{
}

/// Every refund can be settled, of any amount and failed or not, and the more of it comes back the
/// less is paid: two settlements of the same fee differ by as much as their refunds do.
pub proof fn law_refunds_lower_what_is_paid<E>(
    pending: PendingSettlement,
    less: PositiveImbalance,
    more: PositiveImbalance,
    paid_less: Result<PaidFees, TransactionValidityError>,
    paid_more: Result<PaidFees, TransactionValidityError>,
)
    requires
        less@ <= more@ <= pending@.withdrawn,
        call_ensures(
            PendingSettlement::settle::<E>,
            (pending, Ok::<PositiveImbalance, E>(less)),
            paid_more,
        ),
        call_ensures(
            PendingSettlement::settle::<E>,
            (pending, Ok::<PositiveImbalance, E>(more)),
            paid_less,
        ),
    ensures
        call_requires(
            PendingSettlement::settle::<E>,
            (pending, Ok::<PositiveImbalance, E>(more)),
        ),
        paid_more is Ok,
        paid_less is Ok,
        (paid_more->Ok_0.storage_fee + paid_more->Ok_0.execution_fee) - (
        paid_less->Ok_0.storage_fee + paid_less->Ok_0.execution_fee) == more@ - less@,
        paid_less->Ok_0.storage_fee <= paid_more->Ok_0.storage_fee,
        paid_less->Ok_0.execution_fee <= paid_more->Ok_0.execution_fee,
{
}

/// What a refund counts for: the amount of its imbalance, or nothing if it failed.
pub proof fn law_refund_counts_in_full<E>(
    info: LiquidityInfoView,
    imbalance: PositiveImbalance,
    error: E,
)
    ensures
        refunded(Ok::<PositiveImbalance, E>(imbalance)) == imbalance@,
        refunded(Err::<PositiveImbalance, E>(error)) == 0,
        settlement(info, refunded(Ok::<PositiveImbalance, E>(imbalance))) matches Ok(fees)
            ==> fees.storage_fee + fees.execution_fee + imbalance@ == info.withdrawn,
        settlement(info, refunded(Err::<PositiveImbalance, E>(error))) matches Ok(fees)
            && fees.storage_fee + fees.execution_fee == info.withdrawn,
{
}

/// Without a fee nothing is withdrawn; else exactly the fee is, from the one who pays it and
/// without ending the account, and the tip is among the reasons if there is one.
pub proof fn law_withdrawing_a_fee<'a, AccountId>(
    who: &'a AccountId,
    fee: Balance,
    tip: Balance,
    step: WithdrawStep<'a, AccountId>,
)
    requires
        call_ensures(
            OnChargeDomainTransaction::withdraw_fee::<AccountId>,
            (who, fee, tip),
            step,
        ),
    ensures
        fee == 0 ==> step is NoFee,
        fee > 0 ==> (step matches WithdrawStep::Withdraw(request) && {
            &&& request.who == who
            &&& request.amount == fee
            &&& request.existence == ExistenceRequirement::KeepAlive
            &&& request.reasons.transaction_payment
            &&& request.reasons.tip <==> tip > 0
        }),
{
}

/// A withdrawal that was made is passed on as it is, and one that failed makes the transaction
/// invalid for want of payment.
pub proof fn law_withdrawn_fee_is_passed_on<E>(
    withdrawn: NegativeImbalance,
    error: E,
    made: Result<NegativeImbalance, TransactionValidityError>,
    failed: Result<NegativeImbalance, TransactionValidityError>,
)
    requires
        call_ensures(
            OnChargeDomainTransaction::fee_withdrawn::<E>,
            (Ok::<NegativeImbalance, E>(withdrawn),),
            made,
        ),
        call_ensures(
            OnChargeDomainTransaction::fee_withdrawn::<E>,
            (Err::<NegativeImbalance, E>(error),),
            failed,
        ),
    ensures
        made matches Ok(imbalance) && imbalance@ == withdrawn@,
        failed matches Err(reason) && reason == TransactionValidityError::Invalid(
            InvalidTransaction::Payment,
        ),
{
}

/// Storage is paid by the byte, out of all that was withdrawn. The only sizes that are left out
/// are those whose fee is no amount.
pub proof fn law_storage_is_paid_by_the_byte(
    imbalance: NegativeImbalance,
    byte_fee: DomainTransactionByteFee,
    encoded_size: usize,
    info: LiquidityInfo,
)
    requires
        byte_fee.per_byte * encoded_size <= Balance::MAX,
        call_ensures(
            OnChargeDomainTransaction::separate_storage_fee,
            (imbalance, byte_fee, encoded_size),
            info,
        ),
    ensures
        call_requires(
            OnChargeDomainTransaction::separate_storage_fee,
            (imbalance, byte_fee, encoded_size),
        ),
        info@.storage_fee == byte_fee.per_byte * encoded_size,
        info@.withdrawn == imbalance@,
{
}

/// The fee for so many bytes is that for one byte, as often as there are bytes, if that is an
/// amount.
pub proof fn law_byte_fee(
    byte_fee: DomainTransactionByteFee,
    encoded_size: usize,
    one: Balance,
    all: Option<Balance>,
)
    requires
        call_ensures(DomainTransactionByteFee::get, (&byte_fee,), one),
        call_ensures(DomainTransactionByteFee::storage_fee, (&byte_fee, encoded_size), all),
    ensures
        one == byte_fee.per_byte,
        match all {
            Some(fee) => fee == one * encoded_size,
            None => one * encoded_size > Balance::MAX,
        },
{
}

/// What a liquidity info shows is what it holds.
pub proof fn law_liquidity_info_shows(info: LiquidityInfo, storage_fee: Balance, withdrawn: Balance)
    requires
        call_ensures(LiquidityInfo::storage_fee, (&info,), storage_fee),
        call_ensures(LiquidityInfo::withdrawn, (&info,), withdrawn),
    ensures
        storage_fee == info@.storage_fee,
        withdrawn == info@.withdrawn,
{
}

/// Where no fee was withdrawn there is nothing to correct; else the one who paid is to get back
/// what was withdrawn beyond the corrected fee, and the whole fee is left to settle.
pub proof fn law_correcting_a_fee<'a, AccountId>(
    who: &'a AccountId,
    corrected_fee: Balance,
    info: LiquidityInfo,
    none: CorrectStep<'a, AccountId>,
    step: CorrectStep<'a, AccountId>,
)
    requires
        call_ensures(
            OnChargeDomainTransaction::correct_and_deposit_fee::<AccountId>,
            (who, corrected_fee, None::<LiquidityInfo>),
            none,
        ),
        call_ensures(
            OnChargeDomainTransaction::correct_and_deposit_fee::<AccountId>,
            (who, corrected_fee, Some(info)),
            step,
        ),
    ensures
        none is NothingWithdrawn,
        step matches CorrectStep::Refund(request, pending) && {
            &&& request.who == who
            &&& info@.withdrawn <= corrected_fee ==> request.amount == 0
            &&& info@.withdrawn >= corrected_fee ==> request.amount + corrected_fee
                == info@.withdrawn
            &&& pending@.withdrawn == info@.withdrawn
            &&& pending@.storage_fee == info@.storage_fee
        },
{
}

/// From the withdrawal to the end: if the refund that is asked for is made, the payer has paid the
/// smaller of the withdrawn and the corrected fee, of which storage gets its price by the byte as
/// far as that reaches, and execution the rest.
pub proof fn law_charging_a_transaction<'a, AccountId, E>(
    who: &'a AccountId,
    withdrawn: NegativeImbalance,
    byte_fee: DomainTransactionByteFee,
    encoded_size: usize,
    corrected_fee: Balance,
    info: LiquidityInfo,
    step: CorrectStep<'a, AccountId>,
    refund: PositiveImbalance,
    paid: Result<PaidFees, TransactionValidityError>,
)
    requires
        byte_fee.per_byte * encoded_size <= Balance::MAX,
        call_ensures(
            OnChargeDomainTransaction::separate_storage_fee,
            (withdrawn, byte_fee, encoded_size),
            info,
        ),
        call_ensures(
            OnChargeDomainTransaction::correct_and_deposit_fee::<AccountId>,
            (who, corrected_fee, Some(info)),
            step,
        ),
        step matches CorrectStep::Refund(request, pending) && refund@ == request.amount
            && call_ensures(
            PendingSettlement::settle::<E>,
            (pending, Ok::<PositiveImbalance, E>(refund)),
            paid,
        ),
    ensures
        ({
            let charged = if corrected_fee <= withdrawn@ {
                corrected_fee
            } else {
                withdrawn@
            };
            &&& paid is Ok
            &&& paid->Ok_0.storage_fee + paid->Ok_0.execution_fee == charged
            &&& charged >= byte_fee.per_byte * encoded_size ==> paid->Ok_0.storage_fee
                == byte_fee.per_byte * encoded_size
            &&& charged <= byte_fee.per_byte * encoded_size ==> paid->Ok_0.execution_fee == 0
        }),
{
}

/// An imbalance is of the amount that it was made with.
pub proof fn law_imbalances_hold_their_amount(
    amount: Balance,
    positive: PositiveImbalance,
    positive_amount: Balance,
    no_positive: PositiveImbalance,
    negative: NegativeImbalance,
    negative_amount: Balance,
    no_negative: NegativeImbalance,
)
    requires
        call_ensures(PositiveImbalance::new, (amount,), positive),
        call_ensures(PositiveImbalance::peek, (&positive,), positive_amount),
        call_ensures(PositiveImbalance::zero, (), no_positive),
        call_ensures(NegativeImbalance::new, (amount,), negative),
        call_ensures(NegativeImbalance::peek, (&negative,), negative_amount),
        call_ensures(NegativeImbalance::zero, (), no_negative),
    ensures
        positive@ == amount,
        positive_amount == amount,
        no_positive@ == 0,
        negative@ == amount,
        negative_amount == amount,
        no_negative@ == 0,
{
}

/// What is left of a withdrawal set off against a deposit is their difference: on the side of the
/// withdrawal, where nothing counts as zero, exactly if the deposit is not the larger one.
pub proof fn law_offset_is_the_difference(
    withdrawn: NegativeImbalance,
    deposited: PositiveImbalance,
    left: SameOrOther<NegativeImbalance, PositiveImbalance>,
    item: Result<NegativeImbalance, PositiveImbalance>,
)
    requires
        call_ensures(NegativeImbalance::offset, (withdrawn, deposited), left),
        call_ensures(SameOrOther::<NegativeImbalance, PositiveImbalance>::same, (left,), item),
    ensures
        left is Neither <==> withdrawn@ == deposited@,
        match item {
            Ok(rest) => rest@ + deposited@ == withdrawn@,
            Err(excess) => excess@ > 0 && withdrawn@ + excess@ == deposited@,
        },
{
}

/// The two parts of an imbalance make up the whole, and the second holds something only if the
/// first holds all that it may.
pub proof fn law_parts_make_up_the_whole(
    whole: NegativeImbalance,
    amount: Balance,
    parts: (NegativeImbalance, NegativeImbalance),
)
    requires
        call_ensures(NegativeImbalance::split, (whole, amount), parts),
    ensures
        parts.0@ + parts.1@ == whole@,
        parts.0@ <= amount,
        parts.1@ > 0 ==> parts.0@ == amount,
{
}

} // verus!
