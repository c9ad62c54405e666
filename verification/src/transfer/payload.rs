//! Payloads that are written within a limit and read to their end.

use crate::transfer::delta::MAX_CORE_TRANSFER_BYTES;
use crate::transfer::fault::CoreTransferError;
use vstd::prelude::*;

verus! {

/// Why bytes were not taken.
#[derive(Clone, Copy, Debug, PartialEq, Eq, Structural)]
pub enum TransferWriteFailure {
    /// There would be more bytes than allowed.
    BudgetExceeded { actual: usize },
    /// There was no memory for them.
    Allocation { requested: usize },
}

/// Takes bytes up to a limit.
#[derive(Debug, PartialEq, Eq)]
pub struct BoundedTransferWriter {
    pub bytes: Vec<u8>,
    pub limit: usize,
    pub failure: Option<TransferWriteFailure>,
}

/// Why `added` bytes are not taken behind `before` bytes, if they are not; `reserved` says whether
/// there was memory for them.
pub open spec fn write_failure(before: nat, added: nat, limit: usize, reserved: bool) -> Option<
    TransferWriteFailure,
> {
    if before + added > usize::MAX {
        Some(TransferWriteFailure::BudgetExceeded { actual: usize::MAX })
    } else if before + added > limit {
        Some(TransferWriteFailure::BudgetExceeded { actual: (before + added) as usize })
    } else if !reserved {
        Some(TransferWriteFailure::Allocation { requested: (before + added) as usize })
    } else {
        None
    }
}

/// What a writer took, once a payload was written or was not; a failure of the writer says more
/// than the one that it led to.
pub open spec fn taken(writer: BoundedTransferWriter, written: Result<(), String>) -> Result<
    Vec<u8>,
    CoreTransferError,
> {
    match (written, writer.failure) {
        (Ok(()), _) => Ok(writer.bytes),
        (Err(_), Some(TransferWriteFailure::BudgetExceeded { actual })) => Err(
            CoreTransferError::BudgetExceeded { actual, limit: writer.limit },
        ),
        (Err(_), Some(TransferWriteFailure::Allocation { requested })) => Err(
            CoreTransferError::Allocation { requested },
        ),
        (Err(reason), None) => Err(CoreTransferError::Codec(reason)),
    }
}

impl BoundedTransferWriter {
    /// Whether no more was taken than allowed.
    pub open spec fn within(&self) -> bool {
        self.bytes@.len() <= self.limit
    }

    /// Nothing, up to a limit.
    pub fn new(limit: usize) -> (result: Self)
        ensures
            result.bytes@ == Seq::<u8>::empty(),
            result.limit == limit,
            result.failure is None,
            result.within(),
    {
        BoundedTransferWriter { bytes: Vec::new(), limit, failure: None }
    }

    /// Takes bytes, or none of them; `reserved` says whether there was memory for them.
    pub fn write(&mut self, data: &[u8], reserved: bool) -> (result: Result<
        usize,
        TransferWriteFailure,
    >)
        ensures
            final(self).limit == old(self).limit,
            old(self).within() ==> final(self).within(),
            match write_failure(old(self).bytes@.len(), data@.len(), old(self).limit, reserved) {
                Some(failure) => result == Err::<usize, TransferWriteFailure>(failure)
                    && final(self).bytes@ == old(self).bytes@ && final(self).failure == Some(
                    failure,
                ),
                None => result == Ok::<usize, TransferWriteFailure>(data@.len() as usize)
                    && final(self).bytes@ == old(self).bytes@ + data@ && final(self).failure
                    == old(self).failure,
            },
    {
        let actual: usize = match self.bytes.len().checked_add(data.len()) {
            Some(actual) => actual,
            None => {
                let failure = TransferWriteFailure::BudgetExceeded { actual: usize::MAX };
                self.failure = Some(failure);
                return Err(failure);
            },
        };
        if actual > self.limit {
            let failure = TransferWriteFailure::BudgetExceeded { actual };
            self.failure = Some(failure);
            return Err(failure);
        }
        if !reserved {
            let failure = TransferWriteFailure::Allocation { requested: actual };
            self.failure = Some(failure);
            return Err(failure);
        }
        self.bytes.extend_from_slice(data);
        assert(self.bytes@ =~= old(self).bytes@ + data@);
        Ok(data.len())
    }

    /// What was taken, once a payload was written or was not; a failure of this writer says more
    /// than the one that it led to.
    pub fn finish(self, written: Result<(), String>) -> (result: Result<
        Vec<u8>,
        CoreTransferError,
    >)
        ensures
            result == taken(self, written),
    {
        match written {
            Ok(()) => Ok(self.bytes),
            Err(reason) => match self.failure {
                Some(TransferWriteFailure::BudgetExceeded { actual }) => Err(
                    CoreTransferError::BudgetExceeded { actual, limit: self.limit },
                ),
                Some(TransferWriteFailure::Allocation { requested }) => Err(
                    CoreTransferError::Allocation { requested },
                ),
                None => Err(CoreTransferError::Codec(reason)),
            },
        }
    }
}

/// Checks that a payload is not too long to be read.
pub fn check_payload_len(length: usize) -> (result: Result<(), CoreTransferError>)
    ensures
        result == if length > 536_870_912 {
            Err::<(), CoreTransferError>(
                CoreTransferError::BudgetExceeded { actual: length, limit: 536_870_912 },
            )
        } else {
            Ok(())
        },
{
    if length > MAX_CORE_TRANSFER_BYTES {
        return Err(
            CoreTransferError::BudgetExceeded { actual: length, limit: MAX_CORE_TRANSFER_BYTES },
        );
    }
    Ok(())
}

/// What was read of a payload, if it was read to its end; `parsed` holds the value and how many
/// bytes remained, or why nothing was read.
pub fn finish_payload<T>(parsed: Result<(T, usize), String>) -> (result: Result<
    T,
    CoreTransferError,
>)
    ensures
        match parsed {
            Err(reason) => result == Err::<T, CoreTransferError>(CoreTransferError::Codec(reason)),
            Ok((value, remaining)) => result == if remaining == 0 {
                Ok::<T, CoreTransferError>(value)
            } else {
                Err(CoreTransferError::TrailingBytes { remaining })
            },
        },
{
    match parsed {
        Err(reason) => Err(CoreTransferError::Codec(reason)),
        Ok((value, remaining)) => {
            if remaining != 0 {
                return Err(CoreTransferError::TrailingBytes { remaining });
            }
            Ok(value)
        },
    }
}

} // verus!
