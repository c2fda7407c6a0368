use vstd::prelude::*;

use crate::encode::encode_utf16;
use crate::encode::utf16_encode;
use crate::error::ConsoleError;
use crate::geometry::Coord;

verus! {

/// True of a raw handle value the operating system could have handed back
/// for a successfully created screen buffer: neither the null handle nor
/// the all-ones "invalid handle" value.
pub open spec fn is_valid_raw_handle(raw: u64) -> bool {
    raw != 0 && raw != u64::MAX
}

/// An order to the unverified shell: submit these UTF-16 code units to the
/// screen buffer `handle`, starting at `origin`.
pub struct WriteCommand {
    pub handle: u64,
    pub origin: Coord,
    pub units: Vec<u16>,
}

/// The console adapter's one piece of state: the raw handle of the screen
/// buffer created last, if any.
///
/// The adapter starts with no buffer; a creation call installs one,
/// replacing any earlier handle; no operation ever removes it again.
pub struct ConsoleAdapter {
    buffer: Option<u64>,
}

/// What the adapter answers when asked for the buffer to operate on: the
/// handle installed last, or the uninitialized error when no buffer was
/// ever created.
pub open spec fn spec_active_handle(a: ConsoleAdapter) -> Result<u64, ConsoleError> {
    match a.handle_state() {
        Some(h) => Ok(h),
        None => Err(ConsoleError::Uninitialized),
    }
}

impl ConsoleAdapter {
    /// The raw handle currently installed, if any.
    pub closed spec fn handle_state(&self) -> Option<u64> {
        self.buffer
    }

    /// True once a screen buffer has been created.
    pub open spec fn is_initialized(&self) -> bool {
        self.handle_state() is Some
    }

    /// A fresh adapter, before any screen buffer exists.
    pub fn new() -> (r: ConsoleAdapter)
        ensures
            r.handle_state() is None,
    {
        ConsoleAdapter { buffer: None }
    }

    /// Installs the raw handle that a "create screen buffer" call handed
    /// back.
    ///
    /// A usable handle replaces whatever buffer was installed before and
    /// the call succeeds; the null or invalid handle is rejected with
    /// [`ConsoleError::BufferCreationFailed`] and the state is left as it
    /// was.
    pub fn install_buffer(&mut self, raw: u64) -> (r: Result<(), ConsoleError>)
        ensures
            is_valid_raw_handle(raw) ==> r == Ok::<(), ConsoleError>(())
                && final(self).handle_state() == Some(raw),
            !is_valid_raw_handle(raw) ==> r == Err::<(), ConsoleError>(
                ConsoleError::BufferCreationFailed,
            ) && final(self).handle_state() == old(self).handle_state(),
    {
        if raw != 0 && raw != u64::MAX {
            self.buffer = Some(raw);
            Ok(())
        } else {
            Err(ConsoleError::BufferCreationFailed)
        }
    }

    /// The screen buffer a query or a write must address: the handle
    /// installed last, or [`ConsoleError::Uninitialized`] when no buffer
    /// was ever created.
    pub fn active_handle(&self) -> (r: Result<u64, ConsoleError>)
        ensures
            r == spec_active_handle(*self),
    {
        match self.buffer {
            Some(h) => Ok(h),
            None => Err(ConsoleError::Uninitialized),
        }
    }

    /// Prepares a write of `text` to the installed screen buffer.
    ///
    /// When a buffer is installed, the command addresses it, starts at the
    /// origin (the write cursor is always reset to column 0, row 0), and
    /// carries exactly the UTF-16 code units of `text`; before any buffer
    /// exists the write is rejected with [`ConsoleError::Uninitialized`].
    pub fn prepare_write(&self, text: &str) -> (r: Result<WriteCommand, ConsoleError>)
        ensures
            self.is_initialized() ==> (r matches Ok(cmd)
                && Some(cmd.handle) == self.handle_state()
                && cmd.origin == (Coord { x: 0i16, y: 0i16 })
                && cmd.units@ == utf16_encode(text@)),
            !self.is_initialized() ==> r == Err::<WriteCommand, ConsoleError>(
                ConsoleError::Uninitialized,
            ),
    {
        match self.buffer {
            Some(h) => Ok(
                WriteCommand { handle: h, origin: Coord { x: 0, y: 0 }, units: encode_utf16(text) },
            ),
            None => Err(ConsoleError::Uninitialized),
        }
    }
}

/// Echoes a written text back to the caller.
///
/// The write operation answers with the original text span, never with the
/// code-unit count the native call reports; a failed submission is
/// reported as [`ConsoleError::OsCallFailed`].
pub fn echo_write_outcome<'a>(text: &'a str, submitted: bool) -> (r: Result<&'a str, ConsoleError>)
    ensures
        submitted ==> r == Ok::<&'a str, ConsoleError>(text),
        !submitted ==> r == Err::<&'a str, ConsoleError>(ConsoleError::OsCallFailed),
{
    if submitted {
        Ok(text)
    } else {
        Err(ConsoleError::OsCallFailed)
    }
}

/// A query made after a buffer was installed addresses exactly the buffer
/// installed last, never one installed earlier: whatever the adapter held
/// before, after installing `raw` its active handle is `raw`.
pub proof fn lemma_query_follows_install(post: ConsoleAdapter, raw: u64)
    requires
        post.handle_state() == Some(raw),
    ensures
        spec_active_handle(post) == Ok::<u64, ConsoleError>(raw),
{
}

/// Before any screen buffer has been created, the geometry query and the
/// write operation both answer with the defined uninitialized error.
pub proof fn lemma_uninitialized_is_reported(a: ConsoleAdapter)
    requires
        a.handle_state() is None,
    ensures
        spec_active_handle(a) == Err::<u64, ConsoleError>(ConsoleError::Uninitialized),
        !a.is_initialized(),
{
}

} // verus!
