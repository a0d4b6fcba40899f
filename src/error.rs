use vstd::prelude::*;

verus! {

/// What can go wrong while setting up or using a hotkey hook.
#[derive(Debug, Clone, Copy, PartialEq, Eq, Structural)]
pub enum Error {
    /// The key already has a callback; the registry is left as it was.
    AlreadyRegistered,
    /// The key has no callback; the registry is left as it was.
    NotRegistered,
    /// The operating system refused to install the keyboard hook.
    WindowsHook,
    /// A worker thread stopped before answering, or a channel to it broke.
    ThreadStopped,
    /// Retrieving the next message of the hook thread's queue failed.
    MessageLoop,
}

/// The description of each error.
pub open spec fn error_message(e: Error) -> Seq<char> {
    match e {
        Error::AlreadyRegistered => "the hotkey is already registered"@,
        Error::NotRegistered => "the hotkey is not registered"@,
        Error::WindowsHook => "the keyboard hook could not be installed"@,
        Error::ThreadStopped => "a hook thread stopped unexpectedly"@,
        Error::MessageLoop => "the hook thread's message loop failed"@,
    }
}

impl Error {
    /// A short description of the error.
    pub fn message(&self) -> (r: String)
        ensures
            r@ == error_message(*self),
    {
        match self {
            Error::AlreadyRegistered => String::from_str("the hotkey is already registered"),
            Error::NotRegistered => String::from_str("the hotkey is not registered"),
            Error::WindowsHook => String::from_str("the keyboard hook could not be installed"),
            Error::ThreadStopped => String::from_str("a hook thread stopped unexpectedly"),
            Error::MessageLoop => String::from_str("the hook thread's message loop failed"),
        }
    }
}

/// The result of the hook's operations.
pub type Result<T> = core::result::Result<T, Error>;

} // verus!
