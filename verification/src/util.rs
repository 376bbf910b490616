//! Platform helpers: the operating-system gate, the platform-conventional
//! game-path formulas, and a small path-to-string conversion.

use vstd::prelude::*;
use vstd::string::StringExecFns;

verus! {

/// The operating systems the installer recognises. Every other identifier
/// is `Unsupported` and rejected before any side effect takes place.
#[derive(Clone, Copy, PartialEq, Eq, Structural, Debug)]
pub enum Os {
    Linux,
    MacOs,
    Windows,
    Unsupported,
}

/// Which `Os` a platform identifier string denotes.
pub open spec fn spec_os_from_ident(s: Seq<char>) -> Os {
    if s == "linux"@ {
        Os::Linux
    } else if s == "macos"@ {
        Os::MacOs
    } else if s == "windows"@ {
        Os::Windows
    } else {
        Os::Unsupported
    }
}

impl Os {
    /// Classifies a platform identifier as reported by the runtime
    /// (for example `"linux"`, `"macos"`, `"windows"`).
    pub fn from_ident(ident: &str) -> (r: Os)
        ensures
            r == spec_os_from_ident(ident@),
    {
        let id = ident.to_owned();
        if id == "linux".to_owned() {
            Os::Linux
        } else if id == "macos".to_owned() {
            Os::MacOs
        } else if id == "windows".to_owned() {
            Os::Windows
        } else {
            Os::Unsupported
        }
    }
}

/// The platform-conventional game install location, as a function of the
/// operating system and the user's home directory. `None` when the
/// operating system is not recognised.
pub open spec fn spec_default_game_path(os: Os, home: Seq<char>) -> Option<Seq<char>> {
    match os {
        Os::Linux => Some(home + "/.steam/steam/steamapps/common/WarBrokers"@),
        Os::MacOs => Some(home + "/Library/Application Support/Steam/steamapps/common/WarBrokers"@),
        Os::Windows => Some("C:\\Program Files (x86)\\Steam\\steamapps\\common\\WarBrokers"@),
        Os::Unsupported => None,
    }
}

/// Computes the candidate default game path for `os`, given the user's
/// home directory. Whether the candidate actually exists on disk is the
/// caller's own filesystem check; this function is pure.
pub fn default_game_path_candidate(os: Os, home: &str) -> (r: Option<String>)
    ensures
        (match spec_default_game_path(os, home@) {
            None => r is None,
            Some(p) => r matches Some(s) && s@ == p,
        }),
{
    match os {
        Os::Linux => {
            let mut path = home.to_owned();
            path.append("/.steam/steam/steamapps/common/WarBrokers");
            Some(path)
        },
        Os::MacOs => {
            let mut path = home.to_owned();
            path.append("/Library/Application Support/Steam/steamapps/common/WarBrokers");
            Some(path)
        },
        Os::Windows => Some("C:\\Program Files (x86)\\Steam\\steamapps\\common\\WarBrokers".to_owned()),
        Os::Unsupported => None,
    }
}

/// Converts an optional borrowed path string into an optional owned one,
/// preserving the characters exactly.
pub fn buf2str(input: Option<&str>) -> (r: Option<String>)
    ensures
        (match input {
            None => r is None,
            Some(s) => r matches Some(o) && o@ == s@,
        }),
{
    match input {
        None => None,
        Some(s) => Some(s.to_owned()),
    }
}

} // verus!
