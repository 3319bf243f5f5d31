use vstd::prelude::*;

verus! {

/// Why one fragment of a read could not be served.
#[derive(Clone, Copy, PartialEq, Eq, Structural, Debug)]
pub enum FaultKind {
    /// A page-table entry on the walk had its present bit clear.
    NotPresent,
    /// The physical memory could not serve the bytes asked for.
    Connector,
}

/// A fragment of a read that did not come through: its byte offset in the
/// caller's buffer, its length and its cause.
#[derive(Clone, Copy, PartialEq, Eq, Structural, Debug)]
pub struct ReadFailure {
    pub offset: usize,
    pub len: usize,
    pub cause: FaultKind,
}

/// The error kinds of the library.
#[derive(Clone, Copy, PartialEq, Eq, Structural, Debug)]
pub enum Error {
    /// No kernel could be found in the image.
    Initialization,
    /// The physical memory could not serve a read.
    Connector,
    /// An architecture that the operation does not support.
    InvalidArchitecture,
    /// A value does not fit in the target width.
    OutOfBounds,
    /// A page-table entry on the walk had its present bit clear.
    NotPresent,
    /// A read came through only in part; this is its first failed fragment.
    Partial(ReadFailure),
    /// The module asked for is not in the list.
    ModuleInfo,
    /// A string in guest memory could not be decoded.
    Encoding,
    /// Any other failure.
    Other,
}

impl FaultKind {
    /// The error of the same kind as this fault.
    pub open spec fn to_error(self) -> Error {
        match self {
            FaultKind::NotPresent => Error::NotPresent,
            FaultKind::Connector => Error::Connector,
        }
    }
}

} // verus!
