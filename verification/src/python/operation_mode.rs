//! What a handle on a message may do.
use vstd::prelude::*;

verus! {

#[derive(Copy, Clone, PartialEq, Eq, Structural, Debug)]
pub enum OperationMode {
    CreateOnly,
    ReadSync,
    ReadAsync,
    WriteSync,
    WriteAsync,
}

/// The use of a handle for what its mode does not allow.
#[derive(Copy, Clone, PartialEq, Eq, Structural, Debug)]
pub enum PermissionError {
    /// It may not read.
    WriteOnly,
    /// It may not write.
    ReadOnly,
}

impl PermissionError {
    pub fn message(self) -> (text: &'static str)
        ensures
            text@ == (match self {
                PermissionError::WriteOnly => "Shared memory was opened as write-only"@,
                PermissionError::ReadOnly => "Shared memory was opened as read-only"@,
            }),
    {
        match self {
            PermissionError::WriteOnly => "Shared memory was opened as write-only",
            PermissionError::ReadOnly => "Shared memory was opened as read-only",
        }
    }
}

impl OperationMode {
    pub open spec fn reads(self) -> bool {
        self is ReadSync || self is ReadAsync
    }

    pub open spec fn writes(self) -> bool {
        self is WriteSync || self is WriteAsync
    }

    pub fn can_read(self) -> (allowed: bool)
        ensures
            allowed == self.reads(),
    {
        matches!(self, OperationMode::ReadSync | OperationMode::ReadAsync)
    }

    pub fn can_write(self) -> (allowed: bool)
        ensures
            allowed == self.writes(),
    {
        matches!(self, OperationMode::WriteSync | OperationMode::WriteAsync)
    }

    /// Whether a handle with this mode may read, and what to report if not.
    pub fn read_permission(self) -> (permission: Result<(), PermissionError>)
        ensures
            permission == (if self.reads() {
                Ok(())
            } else {
                Err(PermissionError::WriteOnly)
            }),
    {
        if self.can_read() {
            Ok(())
        } else {
            Err(PermissionError::WriteOnly)
        }
    }

    /// Whether a handle with this mode may write, and what to report if not.
    pub fn write_permission(self) -> (permission: Result<(), PermissionError>)
        ensures
            permission == (if self.writes() {
                Ok(())
            } else {
                Err(PermissionError::ReadOnly)
            }),
    {
        if self.can_write() {
            Ok(())
        } else {
            Err(PermissionError::ReadOnly)
        }
    }

    /// Goes on only with a mode that may read. For the others there is
    /// [`read_permission`](Self::read_permission).
    pub fn check_read_permission(self)
        requires
            self.reads(),
    {
    }

    /// Goes on only with a mode that may write. For the others there is
    /// [`write_permission`](Self::write_permission).
    pub fn check_write_permission(self)
        requires
            self.writes(),
    {
    }
}

} // verus!
