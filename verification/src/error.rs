//! Error taxonomy: the engine's numeric status codes classified into
//! structured values, plus the errors raised before any engine call.

use vstd::prelude::*;

verus! {

/// The classes of non-success status codes an engine call can return.
#[derive(Clone, Copy, Debug, PartialEq, Eq, Structural)]
pub enum HyperscanErrorCode {
    /// a parameter passed to the call was invalid
    Invalid,
    /// a memory allocation failed
    NoMemory,
    /// the match callback asked the scan to stop
    ScanTerminated,
    /// the pattern compiler rejected an expression
    CompilerError,
    /// the database was built for a different engine version
    DbVersionError,
    /// the database was built for a different platform
    DbPlatformError,
    /// the database mode does not fit the call
    DbModeError,
    /// a parameter was not correctly aligned
    BadAlign,
    /// the allocator returned an unusable address
    BadAlloc,
    /// the workspace is already in use by another scan
    ScratchInUse,
    /// the current machine lacks a required instruction set
    ArchError,
    /// a provided buffer was too small
    InsufficientSpace,
    /// any status code this library does not classify further
    Unknown,
}

/// A structured error of this library.
#[derive(Debug)]
pub enum Error {
    /// An expression holds an interior NUL byte at the given position, so it
    /// can never be handed to the engine; raised before any compilation work.
    Nul(usize),
    /// Pattern compilation was rejected: a diagnostic message and the index
    /// of the offending expression (`-1` when no single expression is at fault).
    HyperscanCompile(String, i32),
    /// Any other non-success status: its class and the raw status code.
    Hyperscan(HyperscanErrorCode, i32),
}

/// The classification applied to a raw status code.
pub open spec fn code_class(code: int) -> HyperscanErrorCode {
    if code == -1 {
        HyperscanErrorCode::Invalid
    } else if code == -2 {
        HyperscanErrorCode::NoMemory
    } else if code == -3 {
        HyperscanErrorCode::ScanTerminated
    } else if code == -4 {
        HyperscanErrorCode::CompilerError
    } else if code == -5 {
        HyperscanErrorCode::DbVersionError
    } else if code == -6 {
        HyperscanErrorCode::DbPlatformError
    } else if code == -7 {
        HyperscanErrorCode::DbModeError
    } else if code == -8 {
        HyperscanErrorCode::BadAlign
    } else if code == -9 {
        HyperscanErrorCode::BadAlloc
    } else if code == -10 {
        HyperscanErrorCode::ScratchInUse
    } else if code == -11 {
        HyperscanErrorCode::ArchError
    } else if code == -12 {
        HyperscanErrorCode::InsufficientSpace
    } else {
        HyperscanErrorCode::Unknown
    }
}

/// Classifies a raw status code.
pub fn classify_code(code: i32) -> (c: HyperscanErrorCode)
    ensures
        c == code_class(code as int),
{
    if code == -1 {
        HyperscanErrorCode::Invalid
    } else if code == -2 {
        HyperscanErrorCode::NoMemory
    } else if code == -3 {
        HyperscanErrorCode::ScanTerminated
    } else if code == -4 {
        HyperscanErrorCode::CompilerError
    } else if code == -5 {
        HyperscanErrorCode::DbVersionError
    } else if code == -6 {
        HyperscanErrorCode::DbPlatformError
    } else if code == -7 {
        HyperscanErrorCode::DbModeError
    } else if code == -8 {
        HyperscanErrorCode::BadAlign
    } else if code == -9 {
        HyperscanErrorCode::BadAlloc
    } else if code == -10 {
        HyperscanErrorCode::ScratchInUse
    } else if code == -11 {
        HyperscanErrorCode::ArchError
    } else if code == -12 {
        HyperscanErrorCode::InsufficientSpace
    } else {
        HyperscanErrorCode::Unknown
    }
}

/// Raw status values that an engine call hands back, turned into a `Result`:
/// zero means success, everything else is classified and wrapped.
pub trait AsResult: Sized {
    /// The numeric value of this status.
    spec fn status(self) -> int;

    /// Turns the status into `Ok(())` exactly when it is zero.
    fn ok(self) -> (r: Result<(), Error>)
        ensures
            self.status() == 0 <==> r matches Ok(_),
            self.status() != 0 ==> (r matches Err(e)
                && e matches Error::Hyperscan(class, raw)
                && raw as int == self.status()
                && class == code_class(self.status())),
    ;
}

impl AsResult for i32 {
    open spec fn status(self) -> int {
        self as int
    }

    fn ok(self) -> (r: Result<(), Error>) {
        if self == 0 {
            Ok(())
        } else {
            Err(Error::Hyperscan(classify_code(self), self))
        }
    }
}

} // verus!
