//! Platform-specific choice of the file-browser launcher command.

use vstd::prelude::*;

verus! {

/// The target platforms the shell builds for. The host selects exactly one
/// variant at build time.
#[derive(Clone, Copy, Debug, PartialEq, Eq, Structural)]
pub enum Platform {
    Windows,
    MacOs,
    Linux,
}

/// The command that reveals a path in each platform's file browser.
pub open spec fn spec_launcher_command(p: Platform) -> Seq<char> {
    match p {
        Platform::Windows => "explorer"@,
        Platform::MacOs => "open"@,
        Platform::Linux => "xdg-open"@,
    }
}

/// Picks the file-browser launcher for the given platform.
pub fn launcher_command(p: Platform) -> (r: &'static str)
    ensures
        r@ == spec_launcher_command(p),
{
    match p {
        Platform::Windows => "explorer",
        Platform::MacOs => "open",
        Platform::Linux => "xdg-open",
    }
}

} // verus!
