//! The operating systems that plugins run on.

use vstd::prelude::*;

verus! {

/// An operating system.
#[derive(Clone, Copy, Debug, PartialEq, Eq, Structural)]
pub enum Platform {
    Windows,
    Mac,
    Linux,
}

impl Platform {
    /// What manifests call the operating system.
    pub open spec fn label(self) -> Seq<char> {
        match self {
            Platform::Windows => "windows"@,
            Platform::Mac => "mac"@,
            Platform::Linux => "linux"@,
        }
    }

    /// What manifests call the operating system.
    pub fn name(self) -> (name: &'static str)
        ensures
            name@ == self.label(),
    {
        match self {
            Platform::Windows => "windows",
            Platform::Mac => "mac",
            Platform::Linux => "linux",
        }
    }
}

/// Manifests call Windows `windows`, macOS `mac` and Linux `linux`.
pub proof fn law_labels(platform: Platform)
    ensures
        platform is Windows <==> platform.label() == "windows"@,
        platform is Mac <==> platform.label() == "mac"@,
        platform is Linux <==> platform.label() == "linux"@,
{
    reveal_strlit("windows");
    reveal_strlit("mac");
    reveal_strlit("linux");
    assert("windows"@.len() == 7);
    assert("mac"@.len() == 3);
    assert("linux"@.len() == 5);
}

} // verus!
