//! The target resolver: from the reported CPU architecture and OS name to
//! the canonical platform string ("target triple").
use vstd::prelude::*;
use vstd::string::StringExecFns;
use crate::text::{concat3, str_eq};

verus! {

/// Why no platform string exists for an architecture and OS.
#[derive(Debug, Clone, PartialEq, Eq)]
pub enum TargetError {
    /// The architecture is not one that artifacts are published for.
    UnsupportedArchitecture { arch: String, os: String },
    /// The architecture is known, but not together with this OS.
    UnsupportedOs { arch: String, os: String },
}

/// Whether `os` names Apple's desktop OS, under either of its reported names.
pub open spec fn is_apple(os: Seq<char>) -> bool {
    os == "darwin"@ || os == "macos"@
}

/// The table of supported (architecture, OS) pairs.
pub open spec fn triple_of(arch: Seq<char>, os: Seq<char>) -> Option<Seq<char>> {
    if arch == "x86_64"@ {
        if os == "linux"@ {
            Some("x86_64-unknown-linux-gnu"@)
        } else if is_apple(os) {
            Some("x86_64-apple-darwin"@)
        } else if os == "windows"@ {
            Some("x86_64-pc-windows-msvc"@)
        } else {
            None
        }
    } else if arch == "aarch64"@ {
        if os == "linux"@ {
            Some("aarch64-unknown-linux-gnu"@)
        } else if is_apple(os) {
            Some("aarch64-apple-darwin"@)
        } else {
            None
        }
    } else {
        None
    }
}

/// Whether the architecture appears in the table at all.
pub open spec fn known_arch(arch: Seq<char>) -> bool {
    arch == "x86_64"@ || arch == "aarch64"@
}

/// Whether `e` is the error for an (architecture, OS) pair missing from the
/// table: it says which part is unsupported and names both values.
pub open spec fn is_target_error(arch: Seq<char>, os: Seq<char>, e: TargetError) -> bool {
    &&& triple_of(arch, os) is None
    &&& match e {
        TargetError::UnsupportedArchitecture { arch: a, os: o } =>
            !known_arch(arch) && a@ == arch && o@ == os,
        TargetError::UnsupportedOs { arch: a, os: o } =>
            known_arch(arch) && a@ == arch && o@ == os,
    }
}

impl TargetError {
    /// A one-line, human-readable description of the error.
    pub fn message(&self) -> (r: String)
        ensures
            r@ == match self {
                TargetError::UnsupportedArchitecture { arch, os } =>
                    "Unsupported Architecture: "@ + arch@ + " (OS: "@ + os@ + ")"@,
                TargetError::UnsupportedOs { arch, os } =>
                    "Unsupported Arch/OS: "@ + arch@ + "/"@ + os@,
            },
    {
        match self {
            TargetError::UnsupportedArchitecture { arch, os } => {
                let mut s = concat3("Unsupported Architecture: ", arch.as_str(), " (OS: ");
                s.append(os.as_str());
                s.append(")");
                s
            },
            TargetError::UnsupportedOs { arch, os } => {
                let mut s = concat3("Unsupported Arch/OS: ", arch.as_str(), "/");
                s.append(os.as_str());
                s
            },
        }
    }
}

/// Maps an architecture and OS name to the platform string that artifacts
/// are named after, or says which part is unsupported.
pub fn target_triple(arch: &str, os: &str) -> (r: Result<String, TargetError>)
    ensures
        match r {
            Ok(t) => triple_of(arch@, os@) == Some(t@),
            Err(e) => is_target_error(arch@, os@, e),
        },
        r is Ok <==> triple_of(arch@, os@) is Some,
{
    let apple = str_eq(os, "darwin") || str_eq(os, "macos");
    if str_eq(arch, "x86_64") {
        if str_eq(os, "linux") {
            Ok(String::from_str("x86_64-unknown-linux-gnu"))
        } else if apple {
            Ok(String::from_str("x86_64-apple-darwin"))
        } else if str_eq(os, "windows") {
            Ok(String::from_str("x86_64-pc-windows-msvc"))
        } else {
            Err(TargetError::UnsupportedOs { arch: String::from_str(arch), os: String::from_str(os) })
        }
    } else if str_eq(arch, "aarch64") {
        if str_eq(os, "linux") {
            Ok(String::from_str("aarch64-unknown-linux-gnu"))
        } else if apple {
            Ok(String::from_str("aarch64-apple-darwin"))
        } else {
            Err(TargetError::UnsupportedOs { arch: String::from_str(arch), os: String::from_str(os) })
        }
    } else {
        Err(
            TargetError::UnsupportedArchitecture {
                arch: String::from_str(arch),
                os: String::from_str(os),
            },
        )
    }
}

} // verus!
