//! The cooperative shutdown handshake.
//!
//! A single shared boolean-style signal: default off, set exactly once by
//! the external input-watching collaborator upon a termination keypress,
//! read by every worker on every loop iteration. There is no reset path —
//! the signalled state is terminal.

use vstd::prelude::*;

verus! {

/// The shared shutdown signal.
pub struct ShutdownCoordinator {
    pub flag: bool,
}

impl ShutdownCoordinator {
    /// A fresh coordinator: not signalled.
    pub fn new() -> (r: Self)
        ensures
            !r.flag,
    {
        ShutdownCoordinator { flag: false }
    }

    /// Non-blocking read of the signal, safe to call from every worker on
    /// every iteration.
    pub fn read(&self) -> (r: bool)
        ensures
            r == self.flag,
    {
        self.flag
    }

    /// Raises the signal. Idempotent: the flag ends up set whatever it held
    /// before, and no operation ever clears it again.
    pub fn signal(&mut self)
        ensures
            final(self).flag,
    {
        self.flag = true;
    }
}

/// A key press as the shutdown decision sees it: the escape key, a plain
/// character, or anything else.
#[derive(Clone, Copy, PartialEq, Eq, Structural, Debug)]
pub enum Key {
    Escape,
    Char(char),
    Other,
}

/// Whether a key press requests shutdown: the escape key, or the character
/// `c` with the control modifier held alone.
pub open spec fn exit_key_spec(key: Key, ctrl_only: bool) -> bool {
    key == Key::Escape || (key == Key::Char('c') && ctrl_only)
}

/// The keypress decision of the input-watching collaborator: every key but
/// Escape and Ctrl-C is discarded.
pub fn is_exit_key(key: Key, ctrl_only: bool) -> (r: bool)
    ensures
        r == exit_key_spec(key, ctrl_only),
{
    match key {
        Key::Escape => true,
        Key::Char(c) => c == 'c' && ctrl_only,
        Key::Other => false,
    }
}

} // verus!
