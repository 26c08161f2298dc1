//! Charging a transaction for its fees.
use crate::fees::imbalance::{NegativeImbalance, PositiveImbalance};
use crate::primitives::Balance;
use vstd::prelude::*;

verus! {

/// The fee that a domain transaction pays for each byte it takes in a block.
#[derive(Debug, Clone, Copy)]
pub struct DomainTransactionByteFee {
    /// The fee as the block fees give it.
    pub per_byte: Balance,
}

impl DomainTransactionByteFee {
    /// The fee for one byte.
    pub fn get(&self) -> (fee: Balance)
        ensures
            fee == self.per_byte,
    {
        self.per_byte
    }

    /// The fee for so many bytes, if it is an amount at all.
    pub fn storage_fee(&self, encoded_size: usize) -> (fee: Option<Balance>)
        ensures
            fee is Some == (self.per_byte * encoded_size <= Balance::MAX),
            fee matches Some(amount) ==> amount == self.per_byte * encoded_size,
    {
        self.get().checked_mul(encoded_size as Balance)
    }
}

/// Why funds are moved out of an account.
#[derive(Debug, Clone, Copy, PartialEq, Eq, Structural)]
pub struct WithdrawReasons {
    /// In order to pay for transaction costs.
    pub transaction_payment: bool,
    /// In order to tip for transaction inclusion.
    pub tip: bool,
}

/// Whether a withdrawal may end the account.
#[derive(Debug, Clone, Copy, PartialEq, Eq, Structural)]
pub enum ExistenceRequirement {
    /// The account must stay alive.
    KeepAlive,
    /// The account may die.
    AllowDeath,
}

/// Why a transaction is invalid.
#[derive(Debug, Clone, Copy, PartialEq, Eq, Structural)]
pub enum InvalidTransaction {
    /// The fees cannot be paid.
    Payment,
}

/// Why a transaction is not taken.
#[derive(Debug, Clone, Copy, PartialEq, Eq, Structural)]
pub enum TransactionValidityError {
    /// The transaction is invalid.
    Invalid(InvalidTransaction),
}

/// A withdrawal that is asked of the balances.
#[derive(Debug)]
pub struct WithdrawRequest<'a, AccountId> {
    /// The account that pays.
    pub who: &'a AccountId,
    /// How much it pays.
    pub amount: Balance,
    /// What it pays for.
    pub reasons: WithdrawReasons,
    /// Whether the account has to outlive it.
    pub existence: ExistenceRequirement,
}

/// How the withdrawal of a fee begins.
#[derive(Debug)]
pub enum WithdrawStep<'a, AccountId> {
    /// There is no fee: nothing is withdrawn, and no liquidity info results.
    NoFee,
    /// The withdrawal has to be made.
    Withdraw(WithdrawRequest<'a, AccountId>),
}

/// What is kept of a withdrawn fee until the transaction has been executed.
#[derive(Debug)]
pub struct LiquidityInfo {
    storage_fee: Balance,
    imbalance: NegativeImbalance,
}

/// What a liquidity info says: the storage fee, and how much was withdrawn.
pub struct LiquidityInfoView {
    pub storage_fee: Balance,
    pub withdrawn: Balance,
}

impl View for LiquidityInfo {
    type V = LiquidityInfoView;

    closed spec fn view(&self) -> LiquidityInfoView {
        LiquidityInfoView { storage_fee: self.storage_fee, withdrawn: self.imbalance@ }
    }
}

impl LiquidityInfo {
    /// The part of the fee that pays for storage.
    pub fn storage_fee(&self) -> (fee: Balance)
        ensures
            fee == self@.storage_fee,
    {
        self.storage_fee
    }

    /// The whole amount that was withdrawn.
    pub fn withdrawn(&self) -> (amount: Balance)
        ensures
            amount == self@.withdrawn,
    {
        self.imbalance.peek()
    }
}

/// A deposit that is asked of the balances: back to an account that must still exist.
#[derive(Debug)]
pub struct RefundRequest<'a, AccountId> {
    /// The account that paid the fees.
    pub who: &'a AccountId,
    /// How much it gets back.
    pub amount: Balance,
}

/// How the correction of a fee begins.
#[derive(Debug)]
pub enum CorrectStep<'a, AccountId> {
    /// No fee was withdrawn: there is nothing to correct.
    NothingWithdrawn,
    /// The refund has to be made, and then the settlement.
    Refund(RefundRequest<'a, AccountId>, PendingSettlement),
}

/// A fee whose refund has been asked for.
#[derive(Debug)]
pub struct PendingSettlement {
    liquidity_info: LiquidityInfo,
}

impl View for PendingSettlement {
    type V = LiquidityInfoView;

    closed spec fn view(&self) -> LiquidityInfoView {
        self.liquidity_info@
    }
}

/// The fees of one transaction that the block takes note of.
#[derive(Debug, Clone, Copy, PartialEq, Eq, Structural)]
pub struct PaidFees {
    /// What was paid for storage.
    pub storage_fee: Balance,
    /// What was paid for execution, the tip included.
    pub execution_fee: Balance,
}

/// The amount by which `withdrawn` exceeds the corrected fee.
pub open spec fn refund_amount(withdrawn: Balance, corrected_fee: Balance) -> Balance {
    if withdrawn >= corrected_fee {
        (withdrawn - corrected_fee) as Balance
    } else {
        0
    }
}

/// How a withdrawn fee is settled once `refunded` has gone back to the payer: what is left pays
/// for storage first and for execution with the rest. More cannot go back than was withdrawn.
pub open spec fn settlement(info: LiquidityInfoView, refunded: Balance) -> Result<
    PaidFees,
    TransactionValidityError,
> {
    if refunded > info.withdrawn {
        Err(TransactionValidityError::Invalid(InvalidTransaction::Payment))
    } else {
        let paid = info.withdrawn - refunded;
        let storage = if paid <= info.storage_fee {
            paid
        } else {
            info.storage_fee as int
        };
        Ok(
            PaidFees {
                storage_fee: storage as Balance,
                execution_fee: (paid - storage) as Balance,
            },
        )
    }
}

/// What a refund came to; one that failed came to nothing.
pub open spec fn refunded<E>(refund: Result<PositiveImbalance, E>) -> Balance {
    match refund {
        Ok(imbalance) => imbalance@,
        Err(_) => 0,
    }
}

impl PendingSettlement {
    /// Settles the fee. If the refund failed, the account might have dropped below the
    /// existential balance; in that case nothing is refunded.
    pub fn settle<E>(self, refund: Result<PositiveImbalance, E>) -> (paid: Result<
        PaidFees,
        TransactionValidityError,
    >)
        ensures
            paid == settlement(self@, refunded(refund)),
    {
        let LiquidityInfo { storage_fee, imbalance } = self.liquidity_info;
        let refund_imbalance = match refund {
            Ok(refund_imbalance) => refund_imbalance,
            Err(_) => PositiveImbalance::zero(),
        };
        // Merge the imbalance caused by paying the fees and refunding parts of it again.
        match imbalance.offset(refund_imbalance).same() {
            Ok(adjusted_paid) => {
                // Split paid storage and the compute fees so that they can be distributed
                // separately.
                let (paid_storage_fee, compute_fee_and_tip) = adjusted_paid.split(storage_fee);
                Ok(
                    PaidFees {
                        storage_fee: paid_storage_fee.peek(),
                        execution_fee: compute_fee_and_tip.peek(),
                    },
                )
            },
            Err(_) => Err(TransactionValidityError::Invalid(InvalidTransaction::Payment)),
        }
    }
}

/// Charges transaction fees and distributes storage/compute fees and tip separately.
pub struct OnChargeDomainTransaction;

/// What the withdrawal of `fee`, which holds `tip`, asks of the balances.
pub open spec fn fee_withdrawal<'a, AccountId>(
    who: &'a AccountId,
    fee: Balance,
    tip: Balance,
) -> WithdrawStep<'a, AccountId> {
    if fee == 0 {
        WithdrawStep::NoFee
    } else {
        WithdrawStep::Withdraw(
            WithdrawRequest {
                who,
                amount: fee,
                reasons: WithdrawReasons { transaction_payment: true, tip: tip != 0 },
                existence: ExistenceRequirement::KeepAlive,
            },
        )
    }
}

impl OnChargeDomainTransaction {
    /// Begins the withdrawal of the fee, before the transaction is executed.
    pub fn withdraw_fee<'a, AccountId>(
        who: &'a AccountId,
        fee: Balance,
        tip: Balance,
    ) -> (step: WithdrawStep<'a, AccountId>)
        ensures
            step == fee_withdrawal(who, fee, tip),
    {
        if fee == 0 {
            return WithdrawStep::NoFee;
        }
        let reasons = if tip == 0 {
            WithdrawReasons { transaction_payment: true, tip: false }
        } else {
            WithdrawReasons { transaction_payment: true, tip: true }
        };

        WithdrawStep::Withdraw(
            WithdrawRequest {
                who,
                amount: fee,
                reasons,
                existence: ExistenceRequirement::KeepAlive,
            },
        )
    }

    /// Goes on with the withdrawal once the balances have answered.
    pub fn fee_withdrawn<E>(withdraw_result: Result<NegativeImbalance, E>) -> (imbalance: Result<
        NegativeImbalance,
        TransactionValidityError,
    >)
        ensures
            match withdraw_result {
                Ok(withdrawn) => imbalance == Ok::<NegativeImbalance, TransactionValidityError>(
                    withdrawn,
                ),
                Err(_) => imbalance == Err::<NegativeImbalance, TransactionValidityError>(
                    TransactionValidityError::Invalid(InvalidTransaction::Payment),
                ),
            },
    {
        match withdraw_result {
            Ok(withdrawn) => Ok(withdrawn),
            Err(_) => Err(TransactionValidityError::Invalid(InvalidTransaction::Payment)),
        }
    }

    /// Ends the withdrawal: separates the storage fee while the encoded size of the call is at
    /// hand to calculate it.
    pub fn separate_storage_fee(
        imbalance: NegativeImbalance,
        byte_fee: DomainTransactionByteFee,
        encoded_size: usize,
    ) -> (info: LiquidityInfo)
        requires
            byte_fee.per_byte * encoded_size <= Balance::MAX,
        ensures
            info@.storage_fee == byte_fee.per_byte * encoded_size,
            info@.withdrawn == imbalance@,
    {
        let storage_fee: Balance = byte_fee.get() * (encoded_size as Balance);

        LiquidityInfo { storage_fee, imbalance }
    }

    /// Begins the correction of the fee, after the transaction was executed.
    pub fn correct_and_deposit_fee<'a, AccountId>(
        who: &'a AccountId,
        corrected_fee: Balance,
        liquidity_info: Option<LiquidityInfo>,
    ) -> (step: CorrectStep<'a, AccountId>)
        ensures
            match liquidity_info {
                None => step is NothingWithdrawn,
                Some(info) => step matches CorrectStep::Refund(request, pending) && request == (
                RefundRequest {
                    who,
                    amount: refund_amount(info@.withdrawn, corrected_fee),
                }) && pending@ == info@,
            },
    {
        match liquidity_info {
            Some(liquidity_info) => {
                // Calculate how much refund we should return
                let refund_amount: Balance = liquidity_info.imbalance.peek().saturating_sub(
                    corrected_fee,
                );
                CorrectStep::Refund(
                    RefundRequest { who, amount: refund_amount },
                    PendingSettlement { liquidity_info },
                )
            },
            None => CorrectStep::NothingWithdrawn,
        }
    }
}

} // verus!
