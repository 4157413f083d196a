//! Typed syscall errors and the decoding of raw return codes.
//!
//! Every syscall answers with a single integer code; load syscalls also write
//! the "actual available length" into a caller-supplied slot. The three-way
//! split below (success / truncation-with-size-hint / structural absence) is
//! the error contract that every loader builds on.

use vstd::prelude::*;

verus! {

/// Syscall errors.
#[derive(Eq, PartialEq, Structural, Debug, Clone, Copy)]
pub enum SysError {
    /// Index out of bound.
    IndexOutOfBound,
    /// The requested field or item is missing for the target.
    ItemMissing,
    /// The buffer is too small; carries the actual length of the data.
    /// This is a retry signal, not a failure: the host reports exactly how
    /// much space a full read needs.
    LengthNotEnough(usize),
    /// Data encoding error.
    Encoding,
    /// A wait call failed. Its wire value is 5.
    WaitFailure,
    /// Invalid file descriptor. Its wire value is 6.
    InvalidFd,
    /// Reading from or writing to a file descriptor failed because the other
    /// end is closed. Its wire value is 7.
    OtherEndClosed,
    /// The maximum number of spawned VMs has been reached. Its wire value is 8.
    MaxVmsSpawned,
    /// The maximum number of file descriptors has been reached. Its wire
    /// value is 9.
    MaxFdsCreated,
    /// Type-id validation error.
    TypeIdError,
    /// Any other syscall error number.
    Unknown(u64),
}

/// The typed meaning of a nonzero raw return code of a load syscall: codes 1
/// and 2 are the two structural-absence errors, everything else is passed
/// through unchanged.
pub open spec fn spec_error_of_code(errno: u64) -> SysError {
    if errno == 1 {
        SysError::IndexOutOfBound
    } else if errno == 2 {
        SysError::ItemMissing
    } else {
        SysError::Unknown(errno)
    }
}

/// What a load syscall's answer means, as a function of the raw return code,
/// the requested length and the reported actual length:
/// code 0 with everything available is success; code 0 with more data than
/// requested is a truncation carrying the exact total size; any nonzero code
/// is an error per [`spec_error_of_code`].
pub open spec fn spec_syscall_result(errno: u64, load_len: nat, actual_data_len: nat) -> Result<
    usize,
    SysError,
> {
    if errno == 0 {
        if actual_data_len > load_len {
            Err(SysError::LengthNotEnough(actual_data_len as usize))
        } else {
            Ok(actual_data_len as usize)
        }
    } else {
        Err(spec_error_of_code(errno))
    }
}

impl SysError {
    /// Decode the answer of a load syscall.
    pub fn build_syscall_result(errno: u64, load_len: usize, actual_data_len: usize) -> (r: Result<
        usize,
        SysError,
    >)
        ensures
            r == spec_syscall_result(errno, load_len as nat, actual_data_len as nat),
    {
        match errno {
            0 => {
                if actual_data_len > load_len {
                    return Err(SysError::LengthNotEnough(actual_data_len));
                }
                Ok(actual_data_len)
            },
            1 => Err(SysError::IndexOutOfBound),
            2 => Err(SysError::ItemMissing),
            _ => Err(SysError::Unknown(errno)),
        }
    }
}

} // verus!
