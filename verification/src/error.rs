use vstd::prelude::*;

verus! {

/// The distinguishable ways a console operation can fail.
///
/// The adapter never aborts: every operation reports its failure as one of
/// these values.
#[derive(Clone, Copy, Debug, PartialEq, Eq, Structural)]
pub enum ConsoleError {
    /// A query or a write was requested before any screen buffer was created.
    Uninitialized,
    /// The operating system handed back a null or invalid handle when a
    /// screen buffer was requested.
    BufferCreationFailed,
    /// An operating-system console call reported failure.
    OsCallFailed,
    /// The bytes handed across the host boundary are not valid UTF-8.
    InvalidUtf8,
    /// The buffer's column or row count does not fit the eight-bit
    /// representation of [`crate::Size`].
    SizeOutOfRange,
}

} // verus!
