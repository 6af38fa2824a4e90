//! The operating system a build runs on. Several rules differ between macOS and Windows (key
//! names, paths, paste keys), so the functions that depend on it take it as an argument.

use vstd::prelude::*;

verus! {

#[derive(Debug, Clone, Copy, PartialEq, Eq, Structural)]
pub enum Platform {
    MacOs,
    Windows,
    /// Any other system. It follows macOS where the rules single out Windows, and Windows
    /// where they single out macOS.
    Other,
}

impl Platform {
    pub open spec fn spec_is_macos(self) -> bool {
        self is MacOs
    }

    pub open spec fn spec_is_windows(self) -> bool {
        self is Windows
    }

    #[verifier::when_used_as_spec(spec_is_macos)]
    pub fn is_macos(self) -> (r: bool)
        ensures
            r == self.spec_is_macos(),
    {
        matches!(self, Platform::MacOs)
    }

    #[verifier::when_used_as_spec(spec_is_windows)]
    pub fn is_windows(self) -> (r: bool)
        ensures
            r == self.spec_is_windows(),
    {
        matches!(self, Platform::Windows)
    }
}

} // verus!
