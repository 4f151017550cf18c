use vstd::prelude::*;

use crate::errors::Error;

verus! {

/// The compile-time platform facts that pick a target triple: which
/// architecture, operating system and C environment the binary was built
/// for. The embedding application fills this from its own build
/// configuration.
#[derive(Clone, Copy, Debug)]
pub struct PlatformFlags {
    pub arch_x86: bool,
    pub arch_x86_64: bool,
    pub arch_arm: bool,
    pub os_linux: bool,
    pub os_macos: bool,
    pub os_windows: bool,
    pub env_gnu: bool,
    pub env_musl: bool,
    pub env_msvc: bool,
}

/// The architecture component of the triple, by priority, if any flag is set.
pub open spec fn spec_arch(f: PlatformFlags) -> Option<Seq<char>> {
    if f.arch_x86 {
        Some("i686"@)
    } else if f.arch_x86_64 {
        Some("x86_64"@)
    } else if f.arch_arm {
        Some("armv7"@)
    } else {
        None
    }
}

/// The operating-system component of the triple, if any flag is set.
pub open spec fn spec_os(f: PlatformFlags) -> Option<Seq<char>> {
    if f.os_linux {
        Some("unknown-linux"@)
    } else if f.os_macos {
        Some("apple-darwin"@)
    } else if f.os_windows {
        Some("pc-windows"@)
    } else {
        None
    }
}

/// The environment component of the triple, if any flag is set. It is not
/// consulted on macOS, whose triple has no environment part.
pub open spec fn spec_env(f: PlatformFlags) -> Option<Seq<char>> {
    if f.env_gnu {
        Some("gnu"@)
    } else if f.env_musl {
        Some("musl"@)
    } else if f.env_msvc {
        Some("msvc"@)
    } else {
        None
    }
}

/// The full target triple for the given flags, if each needed component
/// can be determined.
pub open spec fn spec_target(f: PlatformFlags) -> Option<Seq<char>> {
    match (spec_arch(f), spec_os(f)) {
        (Some(arch), Some(os)) => if f.os_macos {
            Some(arch + "-"@ + os)
        } else {
            match spec_env(f) {
                Some(env) => Some(arch + "-"@ + os + "-"@ + env),
                None => None,
            }
        },
        _ => None,
    }
}

/// Determine the target triple (e.g. `x86_64-unknown-linux-gnu` or
/// `i686-pc-windows-msvc`) from the given platform flags.
///
/// Fails with an `Update` error naming the first component (architecture,
/// then operating system, then environment) that no flag determines; the
/// environment is skipped on macOS.
pub fn get_target(flags: &PlatformFlags) -> (r: Result<String, Error>)
    ensures
        spec_arch(*flags) is None ==> (r matches Err(e) && e is Update && e.spec_message()
            == "Unable to determine target-architecture"@),
        spec_arch(*flags) is Some && spec_os(*flags) is None ==> (r matches Err(e) && e is Update
            && e.spec_message() == "Unable to determine target-os"@),
        spec_arch(*flags) is Some && spec_os(*flags) is Some && !flags.os_macos && spec_env(*flags)
            is None ==> (r matches Err(e) && e is Update && e.spec_message()
            == "Unable to determine target-environment"@),
        (r is Ok) == (spec_target(*flags) is Some),
        r matches Ok(t) ==> Some(t@) == spec_target(*flags),
{
    let arch = if flags.arch_x86 {
        "i686"
    } else if flags.arch_x86_64 {
        "x86_64"
    } else if flags.arch_arm {
        "armv7"
    } else {
        return Err(Error::Update(String::from_str("Unable to determine target-architecture")));
    };
    let os = if flags.os_linux {
        "unknown-linux"
    } else if flags.os_macos {
        "apple-darwin"
    } else if flags.os_windows {
        "pc-windows"
    } else {
        return Err(Error::Update(String::from_str("Unable to determine target-os")));
    };
    let mut triple = String::from_str(arch);
    triple.append("-");
    triple.append(os);
    if !flags.os_macos {
        let env = if flags.env_gnu {
            "gnu"
        } else if flags.env_musl {
            "musl"
        } else if flags.env_msvc {
            "msvc"
        } else {
            return Err(
                Error::Update(String::from_str("Unable to determine target-environment")),
            );
        };
        triple.append("-");
        triple.append(env);
    }
    Ok(triple)
}

} // verus!
