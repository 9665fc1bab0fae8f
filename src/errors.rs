//! Error taxonomy, and its mapping from the driver's raw result codes.

use vstd::prelude::*;

verus! {

/// Raw result code: the host ran out of memory.
pub const RESULT_OUT_OF_HOST_MEMORY: i32 = -1;

/// Raw result code: the device ran out of memory.
pub const RESULT_OUT_OF_DEVICE_MEMORY: i32 = -2;

/// Raw result code: initialization of an object failed.
pub const RESULT_INITIALIZATION_FAILED: i32 = -3;

/// Raw result code: the logical device has been lost.
pub const RESULT_DEVICE_LOST: i32 = -4;

/// Raw result code: an unknown error.
pub const RESULT_UNKNOWN: i32 = -13;

/// Ran out of memory on one side.
#[derive(Clone, Copy, Debug, PartialEq, Eq, Structural)]
pub enum OutOfMemoryError {
    OutOfDeviceMemory,
    OutOfHostMemory,
}

pub open spec fn is_out_of_memory_code(code: i32) -> bool {
    code == RESULT_OUT_OF_DEVICE_MEMORY || code == RESULT_OUT_OF_HOST_MEMORY
}

impl OutOfMemoryError {
    /// The error for a raw out-of-memory result code.
    pub fn from_result_code(code: i32) -> (r: Self)
        requires
            is_out_of_memory_code(code),
        ensures
            r.result_code() == code,
    {
        if code == RESULT_OUT_OF_DEVICE_MEMORY {
            OutOfMemoryError::OutOfDeviceMemory
        } else {
            OutOfMemoryError::OutOfHostMemory
        }
    }

    pub open spec fn result_code(&self) -> i32 {
        match self {
            OutOfMemoryError::OutOfDeviceMemory => RESULT_OUT_OF_DEVICE_MEMORY,
            OutOfMemoryError::OutOfHostMemory => RESULT_OUT_OF_HOST_MEMORY,
        }
    }

    /// The raw result code that this error stands for.
    pub fn to_result_code(&self) -> (r: i32)
        ensures
            r == self.result_code(),
            is_out_of_memory_code(r),
    {
        match self {
            OutOfMemoryError::OutOfDeviceMemory => RESULT_OUT_OF_DEVICE_MEMORY,
            OutOfMemoryError::OutOfHostMemory => RESULT_OUT_OF_HOST_MEMORY,
        }
    }

    /// Message of the error.
    pub fn message(&self) -> (r: &'static str)
        ensures
            r@ == (match self {
                OutOfMemoryError::OutOfDeviceMemory => "Out of device memory"@,
                OutOfMemoryError::OutOfHostMemory => "Out of host memory"@,
            }),
    {
        match self {
            OutOfMemoryError::OutOfDeviceMemory => "Out of device memory",
            OutOfMemoryError::OutOfHostMemory => "Out of host memory",
        }
    }
}

/// The device was lost: every later call on it is undefined, and the only
/// recovery is to initialize again from scratch.
#[derive(Clone, Copy, Debug, PartialEq, Eq, Structural)]
pub struct DeviceIsLost;

/// Why a submission to a queue failed.
#[derive(Clone, Copy, Debug, PartialEq, Eq, Structural)]
pub enum QueueSubmitError {
    OutOfMemory(OutOfMemoryError),
    DeviceIsLost(DeviceIsLost),
}

pub open spec fn is_submit_error_code(code: i32) -> bool {
    is_out_of_memory_code(code) || code == RESULT_DEVICE_LOST
}

impl QueueSubmitError {
    /// The error for a raw result code that a submission or a fence wait
    /// can return.
    pub fn from_result_code(code: i32) -> (r: Self)
        requires
            is_submit_error_code(code),
        ensures
            r.result_code() == code,
    {
        if code == RESULT_DEVICE_LOST {
            QueueSubmitError::DeviceIsLost(DeviceIsLost)
        } else {
            QueueSubmitError::OutOfMemory(OutOfMemoryError::from_result_code(code))
        }
    }

    pub open spec fn result_code(&self) -> i32 {
        match self {
            QueueSubmitError::OutOfMemory(e) => e.result_code(),
            QueueSubmitError::DeviceIsLost(_) => RESULT_DEVICE_LOST,
        }
    }
}

/// Why memory could not be allocated and bound.
#[derive(Clone, Copy, Debug, PartialEq, Eq, Structural)]
pub enum AllocationError {
    OutOfMemory(OutOfMemoryError),
    /// No memory type satisfies even the required properties: a bug in the
    /// caller's requirements, never a transient condition.
    NoCompatibleMemoryType,
    /// The resources together need more than one allocation may hold.
    TooLarge,
}

/// Errors of the core, as a caller sees them.
#[derive(Clone, Copy, Debug, PartialEq, Eq, Structural)]
pub enum DeviceError {
    OutOfMemory(OutOfMemoryError),
    NoCompatibleMemoryType,
    NoCompatibleAdapter,
    DeviceLost,
    /// A result code that the core does not recognize, kept as it came.
    Unknown(i32),
}

impl DeviceError {
    /// Maps any raw error code: out-of-memory and device-lost codes to their
    /// variants, everything else to `Unknown`.
    pub fn from_result_code(code: i32) -> (r: Self)
        ensures
            r == Self::from_code_spec(code),
    {
        if code == RESULT_OUT_OF_DEVICE_MEMORY || code == RESULT_OUT_OF_HOST_MEMORY {
            DeviceError::OutOfMemory(OutOfMemoryError::from_result_code(code))
        } else if code == RESULT_DEVICE_LOST {
            DeviceError::DeviceLost
        } else {
            DeviceError::Unknown(code)
        }
    }

    /// The error of a failed allocation.
    pub fn from_allocation_error(e: AllocationError) -> (r: Self)
        ensures
            r == (match e {
                AllocationError::OutOfMemory(m) => DeviceError::OutOfMemory(m),
                AllocationError::NoCompatibleMemoryType => DeviceError::NoCompatibleMemoryType,
                AllocationError::TooLarge => DeviceError::OutOfMemory(
                    OutOfMemoryError::OutOfDeviceMemory,
                ),
            }),
    {
        match e {
            AllocationError::OutOfMemory(m) => DeviceError::OutOfMemory(m),
            AllocationError::NoCompatibleMemoryType => DeviceError::NoCompatibleMemoryType,
            AllocationError::TooLarge => DeviceError::OutOfMemory(
                OutOfMemoryError::OutOfDeviceMemory,
            ),
        }
    }

    /// The error of a failed submission.
    pub fn from_submit_error(e: QueueSubmitError) -> (r: Self)
        ensures
            r == (match e {
                QueueSubmitError::OutOfMemory(m) => DeviceError::OutOfMemory(m),
                QueueSubmitError::DeviceIsLost(_) => DeviceError::DeviceLost,
            }),
    {
        match e {
            QueueSubmitError::OutOfMemory(m) => DeviceError::OutOfMemory(m),
            QueueSubmitError::DeviceIsLost(_) => DeviceError::DeviceLost,
        }
    }
}

impl DeviceError {
    /// Out-of-memory and device-lost codes to their variants, everything
    /// else to `Unknown`.
    pub open spec fn from_code_spec(code: i32) -> DeviceError {
        if code == RESULT_OUT_OF_DEVICE_MEMORY {
            DeviceError::OutOfMemory(OutOfMemoryError::OutOfDeviceMemory)
        } else if code == RESULT_OUT_OF_HOST_MEMORY {
            DeviceError::OutOfMemory(OutOfMemoryError::OutOfHostMemory)
        } else if code == RESULT_DEVICE_LOST {
            DeviceError::DeviceLost
        } else {
            DeviceError::Unknown(code)
        }
    }
}

} // verus!
