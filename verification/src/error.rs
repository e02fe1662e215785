use vstd::prelude::*;

verus! {

/// Why an operation on the particle buffer was refused or failed.
///
/// None of these is retried: each is handed to the caller as it is.
#[derive(Clone, Copy, Debug, PartialEq, Eq, Structural)]
pub enum BufferError {
    /// The number of populated slots would no longer fit in 32 bits.
    SizeOverflow,
    /// An earlier wait for the device failed, so the contents can no longer be trusted.
    Poisoned,
    /// The handles given to the manager do not all belong to one device.
    DeviceMismatch,
    /// The compute pipeline has no descriptor set layout that the buffer can be bound to.
    NoBindingLayout,
    /// The device could not provide the memory asked for.
    Allocation,
    /// A copy could not be prepared, recorded or submitted.
    Transfer,
    /// The wait for a submitted copy failed.
    FenceWait,
    /// The binding that refers to the backing allocation could not be built.
    Binding,
}

/// How running a recorded copy ended when it did not succeed.
#[derive(Clone, Copy, Debug, PartialEq, Eq, Structural)]
pub enum SubmitFailure {
    /// The device never took the work.
    NotSubmitted,
    /// The work was submitted and the wait for it failed.
    WaitFailed,
}

/// The step at which a piece of device work stopped.
#[derive(Clone, Copy, Debug, PartialEq, Eq, Structural)]
pub enum DeviceFailure {
    /// Memory for a buffer was not to be had.
    Allocation,
    /// The copy did not go through.
    Copy(SubmitFailure),
    /// The binding could not be built against the new allocation.
    Binding,
}

impl DeviceFailure {
    /// The error that the caller is given for this failure.
    pub open spec fn spec_error(self) -> BufferError {
        match self {
            DeviceFailure::Allocation => BufferError::Allocation,
            DeviceFailure::Copy(SubmitFailure::NotSubmitted) => BufferError::Transfer,
            DeviceFailure::Copy(SubmitFailure::WaitFailed) => BufferError::FenceWait,
            DeviceFailure::Binding => BufferError::Binding,
        }
    }

    /// Whether the failure leaves the contents of the buffer in doubt: only a wait that
    /// failed does, because only then was work on the buffer under way.
    pub open spec fn spec_loses_contents(self) -> bool {
        self == DeviceFailure::Copy(SubmitFailure::WaitFailed)
    }

    pub fn error(self) -> (e: BufferError)
        ensures
            e == self.spec_error(),
    {
        match self {
            DeviceFailure::Allocation => BufferError::Allocation,
            DeviceFailure::Copy(SubmitFailure::NotSubmitted) => BufferError::Transfer,
            DeviceFailure::Copy(SubmitFailure::WaitFailed) => BufferError::FenceWait,
            DeviceFailure::Binding => BufferError::Binding,
        }
    }

    pub fn loses_contents(self) -> (lost: bool)
        ensures
            lost == self.spec_loses_contents(),
    {
        match self {
            DeviceFailure::Copy(SubmitFailure::WaitFailed) => true,
            _ => false,
        }
    }
}

} // verus!
