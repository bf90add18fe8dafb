use vstd::prelude::*;

verus! {

/// The operating-system family a resolution is made for. The application
/// distinguishes Windows (registry lookup, portable installs),
/// macOS (single-instance placeholder under the local data directory) and
/// every other platform (XDG-style lookup).
#[derive(Clone, Copy, Debug, PartialEq, Eq, Structural)]
pub enum Platform {
    Windows,
    MacOs,
    Linux,
}

} // verus!
