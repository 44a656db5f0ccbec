//! The two failure kinds of the command surface. Every failure carries the
//! underlying system error description; nothing is retried or recovered.

use vstd::prelude::*;

verus! {

/// A command's failure: either the filesystem read failed, or the windowing
/// subsystem rejected a property change.
#[derive(Debug, PartialEq, Eq)]
pub enum ErrorKind {
    /// A file could not be opened or fully read.
    IoError(String),
    /// The windowing subsystem rejected an operation on the window.
    WindowOpError(String),
}

impl ErrorKind {
    /// The underlying error description this failure carries.
    pub open spec fn message_spec(&self) -> Seq<char> {
        match self {
            ErrorKind::IoError(m) => m@,
            ErrorKind::WindowOpError(m) => m@,
        }
    }

    pub fn message(&self) -> (r: &str)
        ensures
            r@ == self.message_spec(),
    {
        match self {
            ErrorKind::IoError(m) => m.as_str(),
            ErrorKind::WindowOpError(m) => m.as_str(),
        }
    }

    pub fn is_io_error(&self) -> (r: bool)
        ensures
            r == (self is IoError),
    {
        match self {
            ErrorKind::IoError(_) => true,
            ErrorKind::WindowOpError(_) => false,
        }
    }

    pub fn is_window_op_error(&self) -> (r: bool)
        ensures
            r == (self is WindowOpError),
    {
        match self {
            ErrorKind::IoError(_) => false,
            ErrorKind::WindowOpError(_) => true,
        }
    }
}

} // verus!
