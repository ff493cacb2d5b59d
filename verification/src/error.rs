//! The ways in which a workflow of the keychain can fail.

use vstd::prelude::*;

verus! {

/// Why a workflow did not go on as asked.
#[derive(Clone, Copy, Debug, PartialEq, Eq, Structural)]
pub enum KeychainError {
    /// A line that names no entry of the menu it answers. The menu is shown
    /// again; nothing is aborted.
    UserInputError,
    /// A path that names no variant, or none that the operation can use.
    UnknownAlgorithm,
    /// A file or folder could not be read, written or made.
    ResourceError,
    /// The primitive failed, or handed back material of the wrong size.
    PrimitiveFailure,
    /// The user interrupted a prompt, or the input ended.
    InterruptSignal,
}

} // verus!
