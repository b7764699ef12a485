//! Why the contract refuses a call.
use vstd::prelude::*;

verus! {

/// The reasons for which a call is refused; the host reverts the call with
/// the message of the reason.
#[derive(Clone, Copy, Debug, PartialEq, Eq, Structural)]
pub enum ContractError {
    /// `initialize` on a contract that already has an admin.
    AlreadyInitialised,
    /// No admin has been set yet.
    NotInitialised,
    /// The caller is not the admin.
    NotAdmin,
    /// The caller is not a relayer.
    NotRelayer,
    /// The contract is paused.
    ContractPaused,
    /// No admin transfer has been proposed.
    NoPendingAdmin,
    /// The caller is not the proposed admin.
    NotPendingAdmin,
    /// The address to revoke is not a relayer.
    AddressNotRelayer,
    /// An asset code must be 1 to 12 uppercase letters or digits.
    InvalidAssetCode,
    /// The asset to remove is not allowed.
    AssetNotInAllowlist,
    /// A deposit names an asset that is not allowed.
    AssetNotAllowed,
    /// The allowlist is full.
    AssetCapReached,
    /// A minimum deposit must be positive.
    MinDepositNotPositive,
    /// A maximum deposit must be positive.
    MaxDepositNotPositive,
    /// A retry limit must be positive.
    MaxRetriesZero,
    /// An allowlist cap must be positive.
    MaxAssetsZero,
    /// A deposit needs an anchor transaction id.
    EmptyAnchorId,
    /// The amount is below the minimum deposit.
    AmountBelowMin,
    /// The amount is above the maximum deposit.
    AmountAboveMax,
    /// A memo type must be `text`, `id`, `hash` or `return`.
    InvalidMemoType,
    /// No deposit has this id.
    TxNotFound,
    /// The deposit is not pending.
    MustBePending,
    /// The deposit is not processing.
    MustBeProcessing,
    /// A failure needs a reason.
    EmptyErrorReason,
    /// A completed deposit cannot fail.
    CannotFailCompleted,
    /// Only pending or processing deposits can fail.
    MustBePendingOrProcessing,
    /// The deposit is not in the dead-letter queue.
    DlqEntryNotFound,
    /// Only the admin or the relayer that registered the deposit may retry it.
    NotAdminOrDepositRelayer,
    /// The deposit has been retried as often as allowed.
    MaxRetriesExceeded,
    /// Only pending deposits can be cancelled.
    OnlyPendingCancellable,
    /// The settlement period ends before it starts.
    PeriodOrder,
    /// The deposit amounts do not fit in an `i128` when added up.
    AmountOverflow,
    /// The stated total is not the sum of the deposit amounts.
    TotalAmountMismatch,
    /// A deposit is settled already, or named twice.
    AlreadySettled,
    /// A deposit to settle is not completed.
    NotCompleted,
    /// No settlement has this id.
    SettlementNotFound,
    /// A deposit amount must be positive.
    AmountNotPositive,
    /// The address to grant is a relayer already.
    RelayerAlreadyGranted,
    /// There is no proposed admin transfer to cancel.
    NoPendingAdminTransfer,
    /// The key is locked already.
    LockActive,
}

/// The message that the contract panics with for each reason.
pub open spec fn error_message(e: ContractError) -> Seq<char> {
    match e {
        ContractError::AlreadyInitialised => "already initialised"@,
        ContractError::NotInitialised => "not initialised"@,
        ContractError::NotAdmin => "not admin"@,
        ContractError::NotRelayer => "not relayer"@,
        ContractError::ContractPaused => "contract paused"@,
        ContractError::NoPendingAdmin => "no pending admin"@,
        ContractError::NotPendingAdmin => "not pending admin"@,
        ContractError::AddressNotRelayer => "address is not a relayer"@,
        ContractError::InvalidAssetCode => "invalid asset code"@,
        ContractError::AssetNotInAllowlist => "asset not in allowlist"@,
        ContractError::AssetNotAllowed => "asset not allowed"@,
        ContractError::AssetCapReached => "asset cap reached"@,
        ContractError::MinDepositNotPositive => "min deposit must be positive"@,
        ContractError::MaxDepositNotPositive => "max deposit must be positive"@,
        ContractError::MaxRetriesZero => "max retries must be greater than 0"@,
        ContractError::MaxAssetsZero => "max assets must be greater than 0"@,
        ContractError::EmptyAnchorId => "anchor_transaction_id must not be empty"@,
        ContractError::AmountBelowMin => "amount below min deposit"@,
        ContractError::AmountAboveMax => "amount exceeds max deposit"@,
        ContractError::InvalidMemoType => "invalid memo_type"@,
        ContractError::TxNotFound => "tx not found"@,
        ContractError::MustBePending => "transaction must be Pending"@,
        ContractError::MustBeProcessing => "transaction must be Processing"@,
        ContractError::EmptyErrorReason => "error_reason must not be empty"@,
        ContractError::CannotFailCompleted => "cannot fail completed transaction"@,
        ContractError::MustBePendingOrProcessing => "transaction must be Pending or Processing"@,
        ContractError::DlqEntryNotFound => "dlq entry not found"@,
        ContractError::NotAdminOrDepositRelayer => "not admin or original relayer"@,
        ContractError::MaxRetriesExceeded => "max retries exceeded"@,
        ContractError::OnlyPendingCancellable => "only Pending transactions can be cancelled"@,
        ContractError::PeriodOrder => "period_start must be <= period_end"@,
        ContractError::AmountOverflow => "amount overflow"@,
        ContractError::TotalAmountMismatch => "total_amount mismatch"@,
        ContractError::AlreadySettled => "transaction already settled"@,
        ContractError::NotCompleted => "transaction not completed"@,
        ContractError::SettlementNotFound => "settlement not found"@,
        ContractError::AmountNotPositive => "amount must be greater than zero"@,
        ContractError::RelayerAlreadyGranted => "address is already a relayer"@,
        ContractError::NoPendingAdminTransfer => "no pending admin transfer"@,
        ContractError::LockActive => "idempotency lock active"@,
    }
}

impl ContractError {
    /// The message that the contract panics with.
    pub fn message(&self) -> (m: &'static str)
        ensures
            m@ == error_message(*self),
    {
        match self {
            ContractError::AlreadyInitialised => "already initialised",
            ContractError::NotInitialised => "not initialised",
            ContractError::NotAdmin => "not admin",
            ContractError::NotRelayer => "not relayer",
            ContractError::ContractPaused => "contract paused",
            ContractError::NoPendingAdmin => "no pending admin",
            ContractError::NotPendingAdmin => "not pending admin",
            ContractError::AddressNotRelayer => "address is not a relayer",
            ContractError::InvalidAssetCode => "invalid asset code",
            ContractError::AssetNotInAllowlist => "asset not in allowlist",
            ContractError::AssetNotAllowed => "asset not allowed",
            ContractError::AssetCapReached => "asset cap reached",
            ContractError::MinDepositNotPositive => "min deposit must be positive",
            ContractError::MaxDepositNotPositive => "max deposit must be positive",
            ContractError::MaxRetriesZero => "max retries must be greater than 0",
            ContractError::MaxAssetsZero => "max assets must be greater than 0",
            ContractError::EmptyAnchorId => "anchor_transaction_id must not be empty",
            ContractError::AmountBelowMin => "amount below min deposit",
            ContractError::AmountAboveMax => "amount exceeds max deposit",
            ContractError::InvalidMemoType => "invalid memo_type",
            ContractError::TxNotFound => "tx not found",
            ContractError::MustBePending => "transaction must be Pending",
            ContractError::MustBeProcessing => "transaction must be Processing",
            ContractError::EmptyErrorReason => "error_reason must not be empty",
            ContractError::CannotFailCompleted => "cannot fail completed transaction",
            ContractError::MustBePendingOrProcessing => "transaction must be Pending or Processing",
            ContractError::DlqEntryNotFound => "dlq entry not found",
            ContractError::NotAdminOrDepositRelayer => "not admin or original relayer",
            ContractError::MaxRetriesExceeded => "max retries exceeded",
            ContractError::OnlyPendingCancellable => "only Pending transactions can be cancelled",
            ContractError::PeriodOrder => "period_start must be <= period_end",
            ContractError::AmountOverflow => "amount overflow",
            ContractError::TotalAmountMismatch => "total_amount mismatch",
            ContractError::AlreadySettled => "transaction already settled",
            ContractError::NotCompleted => "transaction not completed",
            ContractError::SettlementNotFound => "settlement not found",
            ContractError::AmountNotPositive => "amount must be greater than zero",
            ContractError::RelayerAlreadyGranted => "address is already a relayer",
            ContractError::NoPendingAdminTransfer => "no pending admin transfer",
            ContractError::LockActive => "idempotency lock active",
        }
    }
}

} // verus!
