use subspace_node::fees::charge::{
    CorrectStep, DomainTransactionByteFee, ExistenceRequirement, InvalidTransaction, LiquidityInfo,
    OnChargeDomainTransaction, PaidFees, PendingSettlement, TransactionValidityError,
    WithdrawReasons, WithdrawStep,
};
use subspace_node::fees::imbalance::{NegativeImbalance, PositiveImbalance, SameOrOther};
use subspace_node::primitives::Balance;

const PAYMENT: TransactionValidityError =
    TransactionValidityError::Invalid(InvalidTransaction::Payment);

fn info(withdrawn: Balance, per_byte: Balance, size: usize) -> LiquidityInfo {
    OnChargeDomainTransaction::separate_storage_fee(
        NegativeImbalance::new(withdrawn),
        DomainTransactionByteFee { per_byte },
        size,
    )
}

fn refund(corrected: Balance, info: LiquidityInfo) -> (Balance, PendingSettlement) {
    match OnChargeDomainTransaction::correct_and_deposit_fee(&7u8, corrected, Some(info)) {
        CorrectStep::Refund(request, pending) => {
            assert_eq!(*request.who, 7);
            (request.amount, pending)
        }
        CorrectStep::NothingWithdrawn => panic!("a fee was withdrawn"),
    }
}

fn refunded(amount: Balance) -> Result<PositiveImbalance, ()> {
    Ok(PositiveImbalance::new(amount))
}

#[test]
fn byte_fee_is_what_the_block_fees_give() {
    assert_eq!(DomainTransactionByteFee { per_byte: 3 }.get(), 3);
}

#[test]
fn storage_fee_has_to_be_an_amount() {
    assert_eq!(DomainTransactionByteFee { per_byte: 3 }.storage_fee(7), Some(21));
    assert_eq!(DomainTransactionByteFee { per_byte: Balance::MAX }.storage_fee(1), Some(Balance::MAX));
    assert_eq!(DomainTransactionByteFee { per_byte: Balance::MAX }.storage_fee(2), None);
    assert_eq!(DomainTransactionByteFee { per_byte: Balance::MAX }.storage_fee(0), Some(0));
}

#[test]
fn zero_fee_withdraws_nothing() {
    assert!(matches!(
        OnChargeDomainTransaction::withdraw_fee(&7u8, 0, 5),
        WithdrawStep::NoFee
    ));
}

#[test]
fn fee_without_tip_is_a_transaction_payment() {
    match OnChargeDomainTransaction::withdraw_fee(&7u8, 100, 0) {
        WithdrawStep::Withdraw(request) => {
            assert_eq!(*request.who, 7);
            assert_eq!(request.amount, 100);
            assert_eq!(
                request.reasons,
                WithdrawReasons { transaction_payment: true, tip: false }
            );
            assert_eq!(request.existence, ExistenceRequirement::KeepAlive);
        }
        WithdrawStep::NoFee => panic!("there is a fee"),
    }
}

#[test]
fn fee_with_tip_names_both_reasons() {
    match OnChargeDomainTransaction::withdraw_fee(&7u8, 100, 1) {
        WithdrawStep::Withdraw(request) => {
            assert_eq!(
                request.reasons,
                WithdrawReasons { transaction_payment: true, tip: true }
            );
            assert_eq!(request.amount, 100);
        }
        WithdrawStep::NoFee => panic!("there is a fee"),
    }
}

#[test]
fn failed_withdrawal_is_a_payment_error() {
    let result: Result<NegativeImbalance, &str> = Err("too poor");
    assert_eq!(
        OnChargeDomainTransaction::fee_withdrawn(result).unwrap_err(),
        PAYMENT
    );
    let result: Result<NegativeImbalance, &str> = Ok(NegativeImbalance::new(5));
    assert_eq!(OnChargeDomainTransaction::fee_withdrawn(result).unwrap().peek(), 5);
}

#[test]
fn storage_fee_is_paid_by_the_byte() {
    let info = info(100, 3, 7);
    assert_eq!(info.storage_fee(), 21);
    assert_eq!(info.withdrawn(), 100);
}

#[test]
fn overpaid_fee_is_refunded_and_the_rest_split() {
    let (amount, pending) = refund(60, info(100, 3, 7));
    assert_eq!(amount, 40);
    assert_eq!(
        pending.settle(refunded(40)),
        Ok(PaidFees { storage_fee: 21, execution_fee: 39 })
    );
}

#[test]
fn underestimated_fee_is_not_refunded() {
    let (amount, pending) = refund(150, info(100, 3, 7));
    assert_eq!(amount, 0);
    assert_eq!(
        pending.settle(refunded(0)),
        Ok(PaidFees { storage_fee: 21, execution_fee: 79 })
    );
}

#[test]
fn failed_refund_keeps_the_whole_fee() {
    let (amount, pending) = refund(60, info(100, 3, 7));
    assert_eq!(amount, 40);
    let failed: Result<PositiveImbalance, &str> = Err("account is dead");
    assert_eq!(
        pending.settle(failed),
        Ok(PaidFees { storage_fee: 21, execution_fee: 79 })
    );
}

#[test]
fn storage_is_paid_before_execution() {
    let (amount, pending) = refund(10, info(100, 3, 7));
    assert_eq!(amount, 90);
    assert_eq!(
        pending.settle(refunded(90)),
        Ok(PaidFees { storage_fee: 10, execution_fee: 0 })
    );
}

#[test]
fn full_refund_leaves_nothing() {
    let (amount, pending) = refund(0, info(100, 3, 7));
    assert_eq!(amount, 100);
    assert_eq!(
        pending.settle(refunded(100)),
        Ok(PaidFees { storage_fee: 0, execution_fee: 0 })
    );
}

#[test]
fn excess_refund_is_a_payment_error() {
    let (_, pending) = refund(0, info(100, 3, 7));
    assert_eq!(pending.settle(refunded(101)), Err(PAYMENT));
}

#[test]
fn funds_are_conserved() {
    for back in [0, 1, 50, 99, 100] {
        let (_, pending) = refund(0, info(100, 2, 30));
        let paid = pending.settle(refunded(back)).unwrap();
        assert_eq!(paid.storage_fee + paid.execution_fee + back, 100);
    }
}

#[test]
fn nothing_is_corrected_without_a_withdrawal() {
    assert!(matches!(
        OnChargeDomainTransaction::correct_and_deposit_fee(&7u8, 60, None),
        CorrectStep::NothingWithdrawn
    ));
}

#[test]
fn imbalances_offset_each_other() {
    match NegativeImbalance::new(5).offset(PositiveImbalance::new(3)) {
        SameOrOther::Same(left) => assert_eq!(left.peek(), 2),
        _ => panic!("the larger one is left"),
    }
    match NegativeImbalance::new(3).offset(PositiveImbalance::new(5)) {
        SameOrOther::Other(left) => assert_eq!(left.peek(), 2),
        _ => panic!("the larger one is left"),
    }
    let even = NegativeImbalance::new(3).offset(PositiveImbalance::new(3));
    assert!(matches!(even, SameOrOther::Neither));
    assert_eq!(even.same().unwrap().peek(), 0);
}

#[test]
fn imbalances_split_up_to_an_amount() {
    let (first, second) = NegativeImbalance::new(5).split(3);
    assert_eq!((first.peek(), second.peek()), (3, 2));
    let (first, second) = NegativeImbalance::new(5).split(8);
    assert_eq!((first.peek(), second.peek()), (5, 0));
    assert_eq!(NegativeImbalance::zero().peek(), 0);
    assert_eq!(PositiveImbalance::zero().peek(), 0);
}
