use crate::error::Validation;
use crate::model::{close_validation, initialize_validation, update_validation};
use crate::party::Requester;
use crate::slot::Slot;
use vstd::prelude::*;

verus! {

/// The allocation service as one transaction sees it.
#[derive(Clone, Copy, Debug, PartialEq, Eq)]
pub struct AllocationService {
    /// The credit that the service locks in a slot for the storage of one
    /// record.
    pub fee: u64,
}

/// The accounts that `initialize` works on.
#[derive(Clone, Copy, Debug, PartialEq, Eq)]
pub struct InitializeCompressedBlink {
    /// The party that asks for the record and pays for its storage.
    pub payer: Requester,
    /// The slot in which the record is to be created.
    pub compressed_blink: Slot,
    /// The service that allocates the storage.
    pub system_program: AllocationService,
}

/// The accounts that `close` works on.
#[derive(Clone, Copy, Debug, PartialEq, Eq)]
pub struct CloseCompressedBlink {
    /// The party that asks for the record to be destroyed and receives the
    /// credit that was locked in its slot.
    pub payer: Requester,
    /// The slot that holds the record.
    pub compressed_blink: Slot,
}

/// The accounts that `increment`, `decrement` and `set` work on.
#[derive(Clone, Copy, Debug, PartialEq, Eq)]
pub struct Update {
    /// The slot that holds the record.
    pub compressed_blink: Slot,
}

impl InitializeCompressedBlink {
    /// What validating these accounts finds.
    pub open spec fn validation(self) -> Validation {
        initialize_validation(self.payer@, self.compressed_blink@)
    }

    /// Validates the accounts: the slot must be empty and the party must have
    /// authorized the transaction.
    pub fn validate(&self) -> (found: Validation)
        ensures
            found == self.validation(),
    {
        if self.compressed_blink.is_present() {
            Validation::ShapeMismatch
        } else if !self.payer.authorized {
            Validation::Unauthorized
        } else {
            Validation::Valid
        }
    }
}

impl CloseCompressedBlink {
    /// What validating these accounts finds.
    pub open spec fn validation(self) -> Validation {
        close_validation(self.payer@, self.compressed_blink@)
    }

    /// Validates the accounts: the slot must hold a record, and the party must
    /// have authorized the transaction and be the one that funded the slot.
    pub fn validate(&self) -> (found: Validation)
        ensures
            found == self.validation(),
    {
        match &self.compressed_blink {
            Slot::Absent => Validation::ShapeMismatch,
            Slot::Present { requester, .. } => {
                if self.payer.authorized && self.payer.key.same_party(requester) {
                    Validation::Valid
                } else {
                    Validation::Unauthorized
                }
            },
        }
    }
}

impl Update {
    /// What validating these accounts finds.
    pub open spec fn validation(self) -> Validation {
        update_validation(self.compressed_blink@)
    }

    /// Validates the accounts: the slot must hold a record.
    pub fn validate(&self) -> (found: Validation)
        ensures
            found == self.validation(),
    {
        if self.compressed_blink.is_present() {
            Validation::Valid
        } else {
            Validation::ShapeMismatch
        }
    }
}

} // verus!
