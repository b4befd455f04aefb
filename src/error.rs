use vstd::prelude::*;

verus! {

/// The system call that a provisioning step makes.
#[derive(Clone, Copy, Debug, PartialEq, Eq, Structural)]
pub enum SysOp {
    /// Opening the virtual-interface control device.
    OpenControl,
    /// Switching the control descriptor to non-blocking mode.
    SetNonBlocking,
    /// The interface-creation control request.
    CreateDevice,
    /// Assigning the IPv4 address and prefix length.
    AssignIpv4,
    /// Bringing the interface up.
    BringUp,
}

/// Why an interface could not be provisioned.
#[derive(Clone, Copy, Debug, PartialEq, Eq, Structural)]
pub enum IfaceError {
    /// The requested name holds a nul byte (invalid input).
    NameContainsNul,
    /// The requested name does not fit the kernel's name buffer (invalid input).
    NameTooLong,
    /// The kernel returned a device name that is not UTF-8 (invalid data).
    NameNotUtf8,
    /// A system call failed with the given OS error code.
    Os { op: SysOp, code: i32 },
}

/// The broad class of an interface error.
#[derive(Clone, Copy, Debug, PartialEq, Eq, Structural)]
pub enum ErrorClass {
    InvalidInput,
    InvalidData,
    Io,
}

impl IfaceError {
    /// Classifies the error: bad names are invalid input, an undecodable
    /// kernel name is invalid data, and failed system calls are I/O errors.
    pub fn class(&self) -> (r: ErrorClass)
        ensures
            r == (match *self {
                IfaceError::NameContainsNul | IfaceError::NameTooLong => ErrorClass::InvalidInput,
                IfaceError::NameNotUtf8 => ErrorClass::InvalidData,
                IfaceError::Os { .. } => ErrorClass::Io,
            }),
    {
        match *self {
            IfaceError::NameContainsNul | IfaceError::NameTooLong => ErrorClass::InvalidInput,
            IfaceError::NameNotUtf8 => ErrorClass::InvalidData,
            IfaceError::Os { .. } => ErrorClass::Io,
        }
    }
}

} // verus!
