//! Why a plugin could not be started or stopped.

use crate::platform::Platform;
use vstd::prelude::*;
use vstd::string::*;

verus! {

/// A reason why a plugin could not be started or stopped.
#[derive(Debug, PartialEq, Eq)]
pub enum PluginError {
    /// The plugin has no code for the operating system.
    UnsupportedPlatform(Platform),
    /// Node.js is not installed, or too old.
    NodeRequired,
    /// Wine is not installed.
    WineRequired,
    /// No instance of the plugin is running.
    NoInstance(String),
}

impl PluginError {
    /// What to tell the user.
    pub open spec fn text(self) -> Seq<char> {
        match self {
            PluginError::UnsupportedPlatform(platform) => "unsupported on platform "@
                + platform.label(),
            PluginError::NodeRequired => "Node.js version 20.0.0 or higher is required"@,
            PluginError::WineRequired => "failed to detect an installation of Wine"@,
            PluginError::NoInstance(plugin) => "instance of plugin "@ + plugin@ + " not found"@,
        }
    }

    /// What to tell the user.
    pub fn message(&self) -> (message: String)
        ensures
            message@ == self.text(),
    {
        match self {
            PluginError::UnsupportedPlatform(platform) => "unsupported on platform ".to_owned().concat(
                platform.name(),
            ),
            PluginError::NodeRequired => "Node.js version 20.0.0 or higher is required".to_owned(),
            PluginError::WineRequired => "failed to detect an installation of Wine".to_owned(),
            PluginError::NoInstance(plugin) => "instance of plugin ".to_owned().concat(
                plugin.as_str(),
            ).concat(" not found"),
        }
    }
}

/// Each message says what is wrong: it names the operating system or the plugin
/// that it is about, in the place where a reader expects it.
pub proof fn law_messages(error: PluginError)
    ensures
        error == PluginError::UnsupportedPlatform(Platform::Windows) ==> error.text()
            == "unsupported on platform "@ + "windows"@,
        error == PluginError::UnsupportedPlatform(Platform::Mac) ==> error.text()
            == "unsupported on platform "@ + "mac"@,
        error == PluginError::UnsupportedPlatform(Platform::Linux) ==> error.text()
            == "unsupported on platform "@ + "linux"@,
        error is NodeRequired ==> error.text() == "Node.js version 20.0.0 or higher is required"@,
        error is WineRequired ==> error.text() == "failed to detect an installation of Wine"@,
        error matches PluginError::NoInstance(plugin) ==> error.text() == "instance of plugin "@
            + plugin@ + " not found"@,
{
}

} // verus!
