//! What the window reports of the user.

use vstd::prelude::*;

verus! {

/// A path in the file system, as the standard library holds it.
#[verifier::external_type_specification]
#[verifier::external_body]
pub struct ExPathBuf(std::path::PathBuf);

/// An error of input or output, as the standard library holds it.
#[verifier::external_type_specification]
#[verifier::external_body]
pub struct ExIoError(std::io::Error);

/// Takes what the user does in the window.
pub struct Controller {}

impl Controller {
    /// Called when the user has picked the cartridge file at `path`.  It
    /// does nothing with the path and cannot fail.
    pub fn load_rom(&self, path: std::path::PathBuf) -> (taken: Result<(), std::io::Error>)
        ensures
            taken is Ok,
    {
        Ok(())
    }
}

} // verus!
