//! What can go wrong when a record is read from or written to a buffer.

use vstd::prelude::*;

verus! {

/// The record types that have a wire layout.
#[derive(Clone, Copy, Debug, PartialEq, Eq, Structural)]
pub enum Record {
    /// A wire address.
    Address,
    /// A security association identifier.
    UserSaId,
    /// An SPI allocation range.
    UserSpiInfo,
}

/// The fields that hold a record of their own.
#[derive(Clone, Copy, Debug, PartialEq, Eq, Structural)]
pub enum NestedField {
    /// The destination address of a security association identifier.
    Daddr,
    /// The identifier inside an SPI allocation range.
    Id,
}

/// Why a buffer could not be read as a record.
#[derive(Clone, Copy, Debug, PartialEq, Eq, Structural)]
pub enum DecodeError {
    /// The buffer holds `found` bytes and `record` takes `needed`.
    InsufficientBuffer { record: Record, needed: usize, found: usize },
    /// The record nested in `field` could not be read, because the bytes
    /// given to `record` were `found` and not `needed`.
    MalformedNestedField { field: NestedField, record: Record, needed: usize, found: usize },
}

impl DecodeError {
    /// The record whose bytes were too few.
    pub open spec fn spec_record(self) -> Record {
        match self {
            DecodeError::InsufficientBuffer { record, .. } => record,
            DecodeError::MalformedNestedField { record, .. } => record,
        }
    }

    /// The number of bytes that record takes.
    pub open spec fn spec_needed(self) -> usize {
        match self {
            DecodeError::InsufficientBuffer { needed, .. } => needed,
            DecodeError::MalformedNestedField { needed, .. } => needed,
        }
    }

    /// The number of bytes it was given.
    pub open spec fn spec_found(self) -> usize {
        match self {
            DecodeError::InsufficientBuffer { found, .. } => found,
            DecodeError::MalformedNestedField { found, .. } => found,
        }
    }

    /// This failure as seen from the record that holds `field`: the cause
    /// stays, and `field` is named as the place where it happened.
    pub open spec fn spec_in_field(self, field: NestedField) -> DecodeError {
        DecodeError::MalformedNestedField {
            field,
            record: self.spec_record(),
            needed: self.spec_needed(),
            found: self.spec_found(),
        }
    }

    /// Reports this failure from the record that holds `field`.
    pub fn in_field(self, field: NestedField) -> (e: DecodeError)
        ensures
            e == self.spec_in_field(field),
    {
        match self {
            DecodeError::InsufficientBuffer { record, needed, found } => {
                DecodeError::MalformedNestedField { field, record, needed, found }
            },
            DecodeError::MalformedNestedField { field: _, record, needed, found } => {
                DecodeError::MalformedNestedField { field, record, needed, found }
            },
        }
    }
}

/// Why a record could not be written to a buffer.
#[derive(Clone, Copy, Debug, PartialEq, Eq, Structural)]
pub enum EncodeError {
    /// The buffer holds `found` bytes and `record` takes `needed`.
    SizeMismatch { record: Record, needed: usize, found: usize },
}

} // verus!
