//! Why an operation was refused.

use vstd::prelude::*;

verus! {

/// The reason an operation failed. A failed operation changes nothing.
#[derive(Clone, Copy, Debug, PartialEq, Eq, Structural)]
pub enum ContractError {
    /// A tier with this key already exists.
    DuplicateTier,
    /// No tier has this key.
    TierNotFound,
    /// The tier is closed for sales.
    TierInactive,
    /// The tier has fewer tickets left than were asked for.
    CapacityExceeded,
    /// A price is not positive, a capacity is zero, or a pair of bounds is
    /// out of order.
    InvalidParameters,
    /// The caller is not who the operation is reserved for.
    Unauthorized,
    /// Two lists that belong together differ in length.
    LengthMismatch,
    /// The contract has been set up before.
    AlreadyInitialized,
    /// A counter has reached its last number.
    CounterExhausted,
    /// No ticket has this token number.
    TicketNotFound,
    /// The ticket has been refunded before.
    TicketInvalid,
    /// The time for refunds is over.
    RefundWindowClosed,
    /// The factory does not create events for the moment.
    FactoryPaused,
    /// The event does not belong to the organizer it is taken from.
    EventNotOwned,
}

impl ContractError {
    /// The number that stands for this reason in a contract error.
    pub open spec fn spec_code(self) -> u32 {
        match self {
            ContractError::DuplicateTier => 1,
            ContractError::TierNotFound => 2,
            ContractError::TierInactive => 3,
            ContractError::CapacityExceeded => 4,
            ContractError::InvalidParameters => 5,
            ContractError::Unauthorized => 6,
            ContractError::LengthMismatch => 7,
            ContractError::AlreadyInitialized => 8,
            ContractError::CounterExhausted => 9,
            ContractError::TicketNotFound => 10,
            ContractError::TicketInvalid => 11,
            ContractError::RefundWindowClosed => 12,
            ContractError::FactoryPaused => 13,
            ContractError::EventNotOwned => 14,
        }
    }

    /// The number that stands for this reason: stable, and different for
    /// every reason.
    pub fn code(&self) -> (code: u32)
        ensures
            code == self.spec_code(),
            1 <= code <= 14,
    {
        match self {
            ContractError::DuplicateTier => 1,
            ContractError::TierNotFound => 2,
            ContractError::TierInactive => 3,
            ContractError::CapacityExceeded => 4,
            ContractError::InvalidParameters => 5,
            ContractError::Unauthorized => 6,
            ContractError::LengthMismatch => 7,
            ContractError::AlreadyInitialized => 8,
            ContractError::CounterExhausted => 9,
            ContractError::TicketNotFound => 10,
            ContractError::TicketInvalid => 11,
            ContractError::RefundWindowClosed => 12,
            ContractError::FactoryPaused => 13,
            ContractError::EventNotOwned => 14,
        }
    }

    /// The words that report this reason.
    pub fn reason(&self) -> (text: &'static str)
        ensures
            text@ == self.spec_reason(),
    {
        match self {
            ContractError::DuplicateTier => "Tier already exists",
            ContractError::TierNotFound => "Tier not found",
            ContractError::TierInactive => "Tier is not active",
            ContractError::CapacityExceeded => "Exceeds tier max supply",
            ContractError::InvalidParameters => "Invalid parameters",
            ContractError::Unauthorized => "Not the ticket owner",
            ContractError::LengthMismatch => "Length mismatch",
            ContractError::AlreadyInitialized => "already initialized",
            ContractError::CounterExhausted => "Counter exhausted",
            ContractError::TicketNotFound => "Ticket not found",
            ContractError::TicketInvalid => "Ticket already invalidated",
            ContractError::RefundWindowClosed => "Refund window closed",
            ContractError::FactoryPaused => "factory is paused",
            ContractError::EventNotOwned => "event not owned by 'from' address",
        }
    }

    /// The words that report this reason, as a sequence of characters.
    pub open spec fn spec_reason(self) -> Seq<char> {
        match self {
            ContractError::DuplicateTier => "Tier already exists"@,
            ContractError::TierNotFound => "Tier not found"@,
            ContractError::TierInactive => "Tier is not active"@,
            ContractError::CapacityExceeded => "Exceeds tier max supply"@,
            ContractError::InvalidParameters => "Invalid parameters"@,
            ContractError::Unauthorized => "Not the ticket owner"@,
            ContractError::LengthMismatch => "Length mismatch"@,
            ContractError::AlreadyInitialized => "already initialized"@,
            ContractError::CounterExhausted => "Counter exhausted"@,
            ContractError::TicketNotFound => "Ticket not found"@,
            ContractError::TicketInvalid => "Ticket already invalidated"@,
            ContractError::RefundWindowClosed => "Refund window closed"@,
            ContractError::FactoryPaused => "factory is paused"@,
            ContractError::EventNotOwned => "event not owned by 'from' address"@,
        }
    }
}

/// Different reasons have different numbers.
pub proof fn lemma_codes_distinct(left: ContractError, right: ContractError)
    requires
        left.spec_code() == right.spec_code(),
    ensures
        left == right,
{
}

} // verus!
