use vstd::prelude::*;

verus! {

/// Every way an operation on the pool ledger can be refused.
///
/// Guard violations (an era phase invoked while its precondition is false)
/// and authorization or balance failures reject the call outright; arithmetic
/// failures (`CalculationFail`) signal that a fixed-point conversion or a
/// running total would not fit in 64 bits; `RateChangeOverLimit` is the
/// policy ceiling on how far one era may move the exchange rate. No error
/// leaves any ledger record partially mutated.
///
/// The first five variants belong to the host: they name the ways its
/// account resolution and signer checks fail before an operation here is
/// ever reached. The ledger itself never raises them.
#[derive(Clone, Copy, Debug, PartialEq, Eq)]
pub enum Errors {
    ProgramIdNotMatch,
    RemainingAccountsNotMatch,
    AdminNotMatch,
    StackNotMatch,
    MintAccountNotMatch,
    MintAuthorityNotMatch,
    FreezeAuthorityNotMatch,
    MintSupplyNotEmpty,
    AuthorityNotMatch,
    StakeManagerAlreadyExist,
    ValidatorAlreadyExist,
    ValidatorNotExist,
    StakeAccountNotExist,
    SplitAccountNotExist,
    StakeAccountLenOverLimit,
    SplitAccountLenOverLimit,
    StakeAmountTooLow,
    UnstakeAmountIsZero,
    BalanceNotEnough,
    CalculationFail,
    RateChangeOverLimit,
    EraAlreadyStarted,
    EraIntervalNotReached,
    EraNoNeedBond,
    EraNoNeedSkipBond,
    EraNoNeedUnbond,
    EraNoNeedUpdateActive,
    EraNoNeedUpdateRate,
    AmountUnmatch,
    DelegationBelowMinimum,
    UnstakeRecordNotExist,
    WithdrawTooEarly,
}

impl Errors {
    /// The name [`Self::as_str`] returns, variant by variant.
    pub open spec fn spec_as_str(&self) -> Seq<char> {
        match self {
            Errors::ProgramIdNotMatch => "ProgramIdNotMatch"@,
            Errors::RemainingAccountsNotMatch => "RemainingAccountsNotMatch"@,
            Errors::AdminNotMatch => "AdminNotMatch"@,
            Errors::StackNotMatch => "StackNotMatch"@,
            Errors::MintAccountNotMatch => "MintAccountNotMatch"@,
            Errors::MintAuthorityNotMatch => "MintAuthorityNotMatch"@,
            Errors::FreezeAuthorityNotMatch => "FreezeAuthorityNotMatch"@,
            Errors::MintSupplyNotEmpty => "MintSupplyNotEmpty"@,
            Errors::AuthorityNotMatch => "AuthorityNotMatch"@,
            Errors::StakeManagerAlreadyExist => "StakeManagerAlreadyExist"@,
            Errors::ValidatorAlreadyExist => "ValidatorAlreadyExist"@,
            Errors::ValidatorNotExist => "ValidatorNotExist"@,
            Errors::StakeAccountNotExist => "StakeAccountNotExist"@,
            Errors::SplitAccountNotExist => "SplitAccountNotExist"@,
            Errors::StakeAccountLenOverLimit => "StakeAccountLenOverLimit"@,
            Errors::SplitAccountLenOverLimit => "SplitAccountLenOverLimit"@,
            Errors::StakeAmountTooLow => "StakeAmountTooLow"@,
            Errors::UnstakeAmountIsZero => "UnstakeAmountIsZero"@,
            Errors::BalanceNotEnough => "BalanceNotEnough"@,
            Errors::CalculationFail => "CalculationFail"@,
            Errors::RateChangeOverLimit => "RateChangeOverLimit"@,
            Errors::EraAlreadyStarted => "EraAlreadyStarted"@,
            Errors::EraIntervalNotReached => "EraIntervalNotReached"@,
            Errors::EraNoNeedBond => "EraNoNeedBond"@,
            Errors::EraNoNeedSkipBond => "EraNoNeedSkipBond"@,
            Errors::EraNoNeedUnbond => "EraNoNeedUnbond"@,
            Errors::EraNoNeedUpdateActive => "EraNoNeedUpdateActive"@,
            Errors::EraNoNeedUpdateRate => "EraNoNeedUpdateRate"@,
            Errors::AmountUnmatch => "AmountUnmatch"@,
            Errors::DelegationBelowMinimum => "DelegationBelowMinimum"@,
            Errors::UnstakeRecordNotExist => "UnstakeRecordNotExist"@,
            Errors::WithdrawTooEarly => "WithdrawTooEarly"@,
        }
    }

    /// A short human-readable name, for hosts that log or surface errors.
    pub fn as_str(&self) -> (r: &'static str)
        ensures
            r@ == self.spec_as_str(),
    {
        match self {
            Errors::ProgramIdNotMatch => "ProgramIdNotMatch",
            Errors::RemainingAccountsNotMatch => "RemainingAccountsNotMatch",
            Errors::AdminNotMatch => "AdminNotMatch",
            Errors::StackNotMatch => "StackNotMatch",
            Errors::MintAccountNotMatch => "MintAccountNotMatch",
            Errors::MintAuthorityNotMatch => "MintAuthorityNotMatch",
            Errors::FreezeAuthorityNotMatch => "FreezeAuthorityNotMatch",
            Errors::MintSupplyNotEmpty => "MintSupplyNotEmpty",
            Errors::AuthorityNotMatch => "AuthorityNotMatch",
            Errors::StakeManagerAlreadyExist => "StakeManagerAlreadyExist",
            Errors::ValidatorAlreadyExist => "ValidatorAlreadyExist",
            Errors::ValidatorNotExist => "ValidatorNotExist",
            Errors::StakeAccountNotExist => "StakeAccountNotExist",
            Errors::SplitAccountNotExist => "SplitAccountNotExist",
            Errors::StakeAccountLenOverLimit => "StakeAccountLenOverLimit",
            Errors::SplitAccountLenOverLimit => "SplitAccountLenOverLimit",
            Errors::StakeAmountTooLow => "StakeAmountTooLow",
            Errors::UnstakeAmountIsZero => "UnstakeAmountIsZero",
            Errors::BalanceNotEnough => "BalanceNotEnough",
            Errors::CalculationFail => "CalculationFail",
            Errors::RateChangeOverLimit => "RateChangeOverLimit",
            Errors::EraAlreadyStarted => "EraAlreadyStarted",
            Errors::EraIntervalNotReached => "EraIntervalNotReached",
            Errors::EraNoNeedBond => "EraNoNeedBond",
            Errors::EraNoNeedSkipBond => "EraNoNeedSkipBond",
            Errors::EraNoNeedUnbond => "EraNoNeedUnbond",
            Errors::EraNoNeedUpdateActive => "EraNoNeedUpdateActive",
            Errors::EraNoNeedUpdateRate => "EraNoNeedUpdateRate",
            Errors::AmountUnmatch => "AmountUnmatch",
            Errors::DelegationBelowMinimum => "DelegationBelowMinimum",
            Errors::UnstakeRecordNotExist => "UnstakeRecordNotExist",
            Errors::WithdrawTooEarly => "WithdrawTooEarly",
        }
    }
}

} // verus!
