use vstd::prelude::*;

verus! {

/// Why an operation on one event's claim engine was rejected.
#[derive(Debug, Clone, Copy, PartialEq, Eq, Structural)]
pub enum SpotEventError {
    /// The caller lacks the role an administrative operation needs.
    Unauthorized,
    /// The principal already holds its credential.
    AlreadyMinted,
    /// Every credential the event may issue has been issued.
    LimitExceeded,
    /// The claim window has closed.
    ClaimPeriodEnded,
    /// The claim window has not opened yet, or was never set.
    ClaimPeriodNotStarted,
    /// Structurally invalid administrative input.
    InvalidParameters,
    /// A revoke named a role that the target does not hold.
    RoleNotFound,
}

/// The short symbolic code of each engine error, as shown to off-chain observers.
pub open spec fn event_error_symbol(e: SpotEventError) -> Seq<char> {
    match e {
        SpotEventError::Unauthorized => "UNAUTHORIZED"@,
        SpotEventError::AlreadyMinted => "ALREADY_MINTED"@,
        SpotEventError::LimitExceeded => "LIMIT_EXCEEDED"@,
        SpotEventError::ClaimPeriodEnded => "CLAIM_ENDED"@,
        SpotEventError::ClaimPeriodNotStarted => "CLAIM_NOT_STARTED"@,
        SpotEventError::InvalidParameters => "INVALID_PARAMS"@,
        SpotEventError::RoleNotFound => "ROLE_NOT_FOUND"@,
    }
}

impl SpotEventError {
    pub fn to_symbol(&self) -> (r: &'static str)
        ensures
            r@ == event_error_symbol(*self),
    {
        match self {
            SpotEventError::Unauthorized => "UNAUTHORIZED",
            SpotEventError::AlreadyMinted => "ALREADY_MINTED",
            SpotEventError::LimitExceeded => "LIMIT_EXCEEDED",
            SpotEventError::ClaimPeriodEnded => "CLAIM_ENDED",
            SpotEventError::ClaimPeriodNotStarted => "CLAIM_NOT_STARTED",
            SpotEventError::InvalidParameters => "INVALID_PARAMS",
            SpotEventError::RoleNotFound => "ROLE_NOT_FOUND",
        }
    }
}

/// Why an operation on the event registry was rejected.
#[derive(Debug, Clone, Copy, PartialEq, Eq, Structural)]
pub enum SpotFactoryError {
    /// The caller is not the registry's admin.
    Unauthorized,
    /// The requested plan is not one the registry offers.
    InvalidPlan,
    /// The payment is below what the plan costs.
    InsufficientPayment,
    /// The event instance could not be created.
    EventCreationFailed,
    /// Structurally invalid input.
    InvalidParameters,
    /// No event is registered under the given id.
    EventNotFound,
}

/// The short symbolic code of each registry error.
pub open spec fn factory_error_symbol(e: SpotFactoryError) -> Seq<char> {
    match e {
        SpotFactoryError::Unauthorized => "UNAUTHORIZED"@,
        SpotFactoryError::InvalidPlan => "INVALID_PLAN"@,
        SpotFactoryError::InsufficientPayment => "INSUFF_PAYMENT"@,
        SpotFactoryError::EventCreationFailed => "EVT_FAILED"@,
        SpotFactoryError::InvalidParameters => "INVALID_PARAMS"@,
        SpotFactoryError::EventNotFound => "EVT_NOT_FOUND"@,
    }
}

impl SpotFactoryError {
    pub fn to_symbol(&self) -> (r: &'static str)
        ensures
            r@ == factory_error_symbol(*self),
    {
        match self {
            SpotFactoryError::Unauthorized => "UNAUTHORIZED",
            SpotFactoryError::InvalidPlan => "INVALID_PLAN",
            SpotFactoryError::InsufficientPayment => "INSUFF_PAYMENT",
            SpotFactoryError::EventCreationFailed => "EVT_FAILED",
            SpotFactoryError::InvalidParameters => "INVALID_PARAMS",
            SpotFactoryError::EventNotFound => "EVT_NOT_FOUND",
        }
    }
}

} // verus!
