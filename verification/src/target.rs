use vstd::prelude::*;

use crate::text::{contains_text, same_text};

verus! {

/// The machine that `cross` itself runs on.
#[allow(non_camel_case_types)]
#[derive(Clone, Copy, PartialEq, Eq, Structural, Debug)]
pub enum Host {
    Other,

    // OSX
    X86_64AppleDarwin,

    // Linux
    X86_64UnknownLinuxGnu,
}

/// The host named by a target triple; every name but the two supported ones is `Other`.
pub open spec fn host_named(s: Seq<char>) -> Host {
    if s == "x86_64-apple-darwin"@ {
        Host::X86_64AppleDarwin
    } else if s == "x86_64-unknown-linux-gnu"@ {
        Host::X86_64UnknownLinuxGnu
    } else {
        Host::Other
    }
}

impl<'a> From<&'a str> for Host {
    fn from(s: &'a str) -> (r: Host) {
        if same_text(s, "x86_64-apple-darwin") {
            Host::X86_64AppleDarwin
        } else if same_text(s, "x86_64-unknown-linux-gnu") {
            Host::X86_64UnknownLinuxGnu
        } else {
            Host::Other
        }
    }
}

impl<'a> vstd::std_specs::convert::FromSpecImpl<&'a str> for Host {
    open spec fn obeys_from_spec() -> bool {
        true
    }

    open spec fn from_spec(s: &'a str) -> Host {
        host_named(s@)
    }
}

/// A compilation target: one of the targets that `cross` knows by name, a custom
/// target given by its triple, or `Other`, a built-in target that has no triple of its own.
#[allow(non_camel_case_types)]
#[derive(Clone, PartialEq, Eq, Debug)]
pub enum Target {
    Custom { triple: String },

    // Other built-in
    Other,
    // OSX
    I686AppleDarwin,
    X86_64AppleDarwin,
    // Android
    ArmLinuxAndroideabi,
    Armv7LinuxAndroideabi,
    Aarch64LinuxAndroid,
    I686LinuxAndroid,
    X86_64LinuxAndroid,
    // Linux
    Aarch64UnknownLinuxGnu,
    ArmUnknownLinuxGnueabi,
    ArmUnknownLinuxMusleabi,
    Armv7UnknownLinuxGnueabihf,
    Armv7UnknownLinuxMusleabihf,
    I586UnknownLinuxGnu,
    I686UnknownLinuxGnu,
    I686UnknownLinuxMusl,
    Mips64UnknownLinuxGnuabi64,
    Mips64elUnknownLinuxGnuabi64,
    MipsUnknownLinuxGnu,
    MipselUnknownLinuxGnu,
    Powerpc64UnknownLinuxGnu,
    Powerpc64leUnknownLinuxGnu,
    PowerpcUnknownLinuxGnu,
    S390xUnknownLinuxGnu,
    Sparc64UnknownLinuxGnu,
    X86_64UnknownLinuxGnu,
    X86_64UnknownLinuxMusl,
    // *BSD
    I686UnknownFreebsd,
    X86_64UnknownDragonfly,
    X86_64UnknownFreebsd,
    X86_64UnknownNetbsd,
    // Solaris / illumos
    Sparcv9SunSolaris,
    X86_64SunSolaris,
    // Windows
    X86_64PcWindowsGnu,
    I686PcWindowsGnu,
    // Emscripten
    AsmjsUnknownEmscripten,
    Wasm32UnknownEmscripten,
    // Bare metal
    Thumbv6mNoneEabi,
    Thumbv7emNoneEabi,
    Thumbv7emNoneEabihf,
    Thumbv7mNoneEabi,
}

/// The built-in target whose triple is `s`, if there is one.
pub open spec fn builtin_named(s: Seq<char>) -> Option<Target> {
    if s == "aarch64-linux-android"@ {
        Some(Target::Aarch64LinuxAndroid)
    } else if s == "aarch64-unknown-linux-gnu"@ {
        Some(Target::Aarch64UnknownLinuxGnu)
    } else if s == "arm-linux-androideabi"@ {
        Some(Target::ArmLinuxAndroideabi)
    } else if s == "arm-unknown-linux-gnueabi"@ {
        Some(Target::ArmUnknownLinuxGnueabi)
    } else if s == "arm-unknown-linux-musleabi"@ {
        Some(Target::ArmUnknownLinuxMusleabi)
    } else if s == "armv7-linux-androideabi"@ {
        Some(Target::Armv7LinuxAndroideabi)
    } else if s == "armv7-unknown-linux-gnueabihf"@ {
        Some(Target::Armv7UnknownLinuxGnueabihf)
    } else if s == "armv7-unknown-linux-musleabihf"@ {
        Some(Target::Armv7UnknownLinuxMusleabihf)
    } else if s == "asmjs-unknown-emscripten"@ {
        Some(Target::AsmjsUnknownEmscripten)
    } else if s == "i586-unknown-linux-gnu"@ {
        Some(Target::I586UnknownLinuxGnu)
    } else if s == "i686-apple-darwin"@ {
        Some(Target::I686AppleDarwin)
    } else if s == "i686-linux-android"@ {
        Some(Target::I686LinuxAndroid)
    } else if s == "i686-pc-windows-gnu"@ {
        Some(Target::I686PcWindowsGnu)
    } else if s == "i686-unknown-freebsd"@ {
        Some(Target::I686UnknownFreebsd)
    } else if s == "i686-unknown-linux-gnu"@ {
        Some(Target::I686UnknownLinuxGnu)
    } else if s == "i686-unknown-linux-musl"@ {
        Some(Target::I686UnknownLinuxMusl)
    } else if s == "mips-unknown-linux-gnu"@ {
        Some(Target::MipsUnknownLinuxGnu)
    } else if s == "mips64-unknown-linux-gnuabi64"@ {
        Some(Target::Mips64UnknownLinuxGnuabi64)
    } else if s == "mips64el-unknown-linux-gnuabi64"@ {
        Some(Target::Mips64elUnknownLinuxGnuabi64)
    } else if s == "mipsel-unknown-linux-gnu"@ {
        Some(Target::MipselUnknownLinuxGnu)
    } else if s == "powerpc-unknown-linux-gnu"@ {
        Some(Target::PowerpcUnknownLinuxGnu)
    } else if s == "powerpc64-unknown-linux-gnu"@ {
        Some(Target::Powerpc64UnknownLinuxGnu)
    } else if s == "powerpc64le-unknown-linux-gnu"@ {
        Some(Target::Powerpc64leUnknownLinuxGnu)
    } else if s == "s390x-unknown-linux-gnu"@ {
        Some(Target::S390xUnknownLinuxGnu)
    } else if s == "sparc64-unknown-linux-gnu"@ {
        Some(Target::Sparc64UnknownLinuxGnu)
    } else if s == "sparcv9-sun-solaris"@ {
        Some(Target::Sparcv9SunSolaris)
    } else if s == "thumbv6m-none-eabi"@ {
        Some(Target::Thumbv6mNoneEabi)
    } else if s == "thumbv7em-none-eabi"@ {
        Some(Target::Thumbv7emNoneEabi)
    } else if s == "thumbv7em-none-eabihf"@ {
        Some(Target::Thumbv7emNoneEabihf)
    } else if s == "thumbv7m-none-eabi"@ {
        Some(Target::Thumbv7mNoneEabi)
    } else if s == "wasm32-unknown-emscripten"@ {
        Some(Target::Wasm32UnknownEmscripten)
    } else if s == "x86_64-apple-darwin"@ {
        Some(Target::X86_64AppleDarwin)
    } else if s == "x86_64-linux-android"@ {
        Some(Target::X86_64LinuxAndroid)
    } else if s == "x86_64-pc-windows-gnu"@ {
        Some(Target::X86_64PcWindowsGnu)
    } else if s == "x86_64-sun-solaris"@ {
        Some(Target::X86_64SunSolaris)
    } else if s == "x86_64-unknown-dragonfly"@ {
        Some(Target::X86_64UnknownDragonfly)
    } else if s == "x86_64-unknown-freebsd"@ {
        Some(Target::X86_64UnknownFreebsd)
    } else if s == "x86_64-unknown-linux-gnu"@ {
        Some(Target::X86_64UnknownLinuxGnu)
    } else if s == "x86_64-unknown-linux-musl"@ {
        Some(Target::X86_64UnknownLinuxMusl)
    } else if s == "x86_64-unknown-netbsd"@ {
        Some(Target::X86_64UnknownNetbsd)
    } else {
        None
    }
}

/// `t` is the target that `Target::from` makes of the triple `s`: the built-in target
/// with that triple, or else a custom target that keeps `s`.
pub open spec fn parses_to(s: Seq<char>, t: Target) -> bool {
    match builtin_named(s) {
        Some(b) => t == b,
        None => t matches Target::Custom { triple } && triple@ == s,
    }
}

impl Target {
    /// The triple of the target; `Other` has none.
    pub open spec fn spec_triple(self) -> Seq<char> {
        match self {
            Target::Custom { triple } => triple@,
            Target::Other => Seq::empty(),
            Target::I686AppleDarwin => "i686-apple-darwin"@,
            Target::X86_64AppleDarwin => "x86_64-apple-darwin"@,
            Target::ArmLinuxAndroideabi => "arm-linux-androideabi"@,
            Target::Armv7LinuxAndroideabi => "armv7-linux-androideabi"@,
            Target::Aarch64LinuxAndroid => "aarch64-linux-android"@,
            Target::I686LinuxAndroid => "i686-linux-android"@,
            Target::X86_64LinuxAndroid => "x86_64-linux-android"@,
            Target::Aarch64UnknownLinuxGnu => "aarch64-unknown-linux-gnu"@,
            Target::ArmUnknownLinuxGnueabi => "arm-unknown-linux-gnueabi"@,
            Target::ArmUnknownLinuxMusleabi => "arm-unknown-linux-musleabi"@,
            Target::Armv7UnknownLinuxGnueabihf => "armv7-unknown-linux-gnueabihf"@,
            Target::Armv7UnknownLinuxMusleabihf => "armv7-unknown-linux-musleabihf"@,
            Target::I586UnknownLinuxGnu => "i586-unknown-linux-gnu"@,
            Target::I686UnknownLinuxGnu => "i686-unknown-linux-gnu"@,
            Target::I686UnknownLinuxMusl => "i686-unknown-linux-musl"@,
            Target::Mips64UnknownLinuxGnuabi64 => "mips64-unknown-linux-gnuabi64"@,
            Target::Mips64elUnknownLinuxGnuabi64 => "mips64el-unknown-linux-gnuabi64"@,
            Target::MipsUnknownLinuxGnu => "mips-unknown-linux-gnu"@,
            Target::MipselUnknownLinuxGnu => "mipsel-unknown-linux-gnu"@,
            Target::Powerpc64UnknownLinuxGnu => "powerpc64-unknown-linux-gnu"@,
            Target::Powerpc64leUnknownLinuxGnu => "powerpc64le-unknown-linux-gnu"@,
            Target::PowerpcUnknownLinuxGnu => "powerpc-unknown-linux-gnu"@,
            Target::S390xUnknownLinuxGnu => "s390x-unknown-linux-gnu"@,
            Target::Sparc64UnknownLinuxGnu => "sparc64-unknown-linux-gnu"@,
            Target::X86_64UnknownLinuxGnu => "x86_64-unknown-linux-gnu"@,
            Target::X86_64UnknownLinuxMusl => "x86_64-unknown-linux-musl"@,
            Target::I686UnknownFreebsd => "i686-unknown-freebsd"@,
            Target::X86_64UnknownDragonfly => "x86_64-unknown-dragonfly"@,
            Target::X86_64UnknownFreebsd => "x86_64-unknown-freebsd"@,
            Target::X86_64UnknownNetbsd => "x86_64-unknown-netbsd"@,
            Target::Sparcv9SunSolaris => "sparcv9-sun-solaris"@,
            Target::X86_64SunSolaris => "x86_64-sun-solaris"@,
            Target::X86_64PcWindowsGnu => "x86_64-pc-windows-gnu"@,
            Target::I686PcWindowsGnu => "i686-pc-windows-gnu"@,
            Target::AsmjsUnknownEmscripten => "asmjs-unknown-emscripten"@,
            Target::Wasm32UnknownEmscripten => "wasm32-unknown-emscripten"@,
            Target::Thumbv6mNoneEabi => "thumbv6m-none-eabi"@,
            Target::Thumbv7emNoneEabi => "thumbv7em-none-eabi"@,
            Target::Thumbv7emNoneEabihf => "thumbv7em-none-eabihf"@,
            Target::Thumbv7mNoneEabi => "thumbv7m-none-eabi"@,
        }
    }

    /// The four bare-metal ARM Cortex-M targets.
    pub open spec fn spec_is_bare_metal(self) -> bool {
        ||| self is Thumbv6mNoneEabi
        ||| self is Thumbv7emNoneEabi
        ||| self is Thumbv7emNoneEabihf
        ||| self is Thumbv7mNoneEabi
    }

    /// Every target but a custom one is built in.
    pub open spec fn spec_is_builtin(self) -> bool {
        !(self is Custom)
    }

    /// Bare-metal and custom targets are built with xargo.
    pub open spec fn spec_needs_xargo(self) -> bool {
        self.spec_is_bare_metal() || !self.spec_is_builtin()
    }

    pub fn is_bare_metal(&self) -> (r: bool)
        ensures
            r == self.spec_is_bare_metal(),
    {
        match *self {
            Target::Thumbv6mNoneEabi | Target::Thumbv7emNoneEabi | Target::Thumbv7emNoneEabihf
            | Target::Thumbv7mNoneEabi => true,
            _ => false,
        }
    }

    pub fn is_builtin(&self) -> (r: bool)
        ensures
            r == self.spec_is_builtin(),
    {
        match *self {
            Target::Custom { .. } => false,
            _ => true,
        }
    }

    /// The target triple, such as `x86_64-unknown-linux-gnu`.
    pub fn triple(&self) -> (r: &str)
        requires
            !(self is Other),
        ensures
            r@ == self.spec_triple(),
    {
        match self {
            Target::Custom { triple } => triple.as_str(),
            // excluded by the precondition
            Target::Other => "",
            Target::Aarch64LinuxAndroid => "aarch64-linux-android",
            Target::Aarch64UnknownLinuxGnu => "aarch64-unknown-linux-gnu",
            Target::ArmLinuxAndroideabi => "arm-linux-androideabi",
            Target::ArmUnknownLinuxGnueabi => "arm-unknown-linux-gnueabi",
            Target::ArmUnknownLinuxMusleabi => "arm-unknown-linux-musleabi",
            Target::Armv7LinuxAndroideabi => "armv7-linux-androideabi",
            Target::Armv7UnknownLinuxGnueabihf => "armv7-unknown-linux-gnueabihf",
            Target::Armv7UnknownLinuxMusleabihf => "armv7-unknown-linux-musleabihf",
            Target::AsmjsUnknownEmscripten => "asmjs-unknown-emscripten",
            Target::I586UnknownLinuxGnu => "i586-unknown-linux-gnu",
            Target::I686AppleDarwin => "i686-apple-darwin",
            Target::I686LinuxAndroid => "i686-linux-android",
            Target::I686PcWindowsGnu => "i686-pc-windows-gnu",
            Target::I686UnknownFreebsd => "i686-unknown-freebsd",
            Target::I686UnknownLinuxGnu => "i686-unknown-linux-gnu",
            Target::I686UnknownLinuxMusl => "i686-unknown-linux-musl",
            Target::Mips64UnknownLinuxGnuabi64 => "mips64-unknown-linux-gnuabi64",
            Target::Mips64elUnknownLinuxGnuabi64 => "mips64el-unknown-linux-gnuabi64",
            Target::MipsUnknownLinuxGnu => "mips-unknown-linux-gnu",
            Target::MipselUnknownLinuxGnu => "mipsel-unknown-linux-gnu",
            Target::Powerpc64UnknownLinuxGnu => "powerpc64-unknown-linux-gnu",
            Target::Powerpc64leUnknownLinuxGnu => "powerpc64le-unknown-linux-gnu",
            Target::PowerpcUnknownLinuxGnu => "powerpc-unknown-linux-gnu",
            Target::S390xUnknownLinuxGnu => "s390x-unknown-linux-gnu",
            Target::Sparc64UnknownLinuxGnu => "sparc64-unknown-linux-gnu",
            Target::Sparcv9SunSolaris => "sparcv9-sun-solaris",
            Target::Thumbv6mNoneEabi => "thumbv6m-none-eabi",
            Target::Thumbv7emNoneEabi => "thumbv7em-none-eabi",
            Target::Thumbv7emNoneEabihf => "thumbv7em-none-eabihf",
            Target::Thumbv7mNoneEabi => "thumbv7m-none-eabi",
            Target::Wasm32UnknownEmscripten => "wasm32-unknown-emscripten",
            Target::X86_64AppleDarwin => "x86_64-apple-darwin",
            Target::X86_64LinuxAndroid => "x86_64-linux-android",
            Target::X86_64PcWindowsGnu => "x86_64-pc-windows-gnu",
            Target::X86_64SunSolaris => "x86_64-sun-solaris",
            Target::X86_64UnknownDragonfly => "x86_64-unknown-dragonfly",
            Target::X86_64UnknownFreebsd => "x86_64-unknown-freebsd",
            Target::X86_64UnknownLinuxGnu => "x86_64-unknown-linux-gnu",
            Target::X86_64UnknownLinuxMusl => "x86_64-unknown-linux-musl",
            Target::X86_64UnknownNetbsd => "x86_64-unknown-netbsd",
        }
    }

    pub fn needs_xargo(&self) -> (r: bool)
        ensures
            r == self.spec_needs_xargo(),
    {
        self.is_bare_metal() || !self.is_builtin()
    }

    /// The target with the given triple: a built-in target where one has that
    /// triple, else a custom target.
    pub fn from(triple: &str) -> (r: Target)
        ensures
            parses_to(triple@, r),
    {
        if same_text(triple, "aarch64-linux-android") {
            Target::Aarch64LinuxAndroid
        } else if same_text(triple, "aarch64-unknown-linux-gnu") {
            Target::Aarch64UnknownLinuxGnu
        } else if same_text(triple, "arm-linux-androideabi") {
            Target::ArmLinuxAndroideabi
        } else if same_text(triple, "arm-unknown-linux-gnueabi") {
            Target::ArmUnknownLinuxGnueabi
        } else if same_text(triple, "arm-unknown-linux-musleabi") {
            Target::ArmUnknownLinuxMusleabi
        } else if same_text(triple, "armv7-linux-androideabi") {
            Target::Armv7LinuxAndroideabi
        } else if same_text(triple, "armv7-unknown-linux-gnueabihf") {
            Target::Armv7UnknownLinuxGnueabihf
        } else if same_text(triple, "armv7-unknown-linux-musleabihf") {
            Target::Armv7UnknownLinuxMusleabihf
        } else if same_text(triple, "asmjs-unknown-emscripten") {
            Target::AsmjsUnknownEmscripten
        } else if same_text(triple, "i586-unknown-linux-gnu") {
            Target::I586UnknownLinuxGnu
        } else if same_text(triple, "i686-apple-darwin") {
            Target::I686AppleDarwin
        } else if same_text(triple, "i686-linux-android") {
            Target::I686LinuxAndroid
        } else if same_text(triple, "i686-pc-windows-gnu") {
            Target::I686PcWindowsGnu
        } else if same_text(triple, "i686-unknown-freebsd") {
            Target::I686UnknownFreebsd
        } else if same_text(triple, "i686-unknown-linux-gnu") {
            Target::I686UnknownLinuxGnu
        } else if same_text(triple, "i686-unknown-linux-musl") {
            Target::I686UnknownLinuxMusl
        } else if same_text(triple, "mips-unknown-linux-gnu") {
            Target::MipsUnknownLinuxGnu
        } else if same_text(triple, "mips64-unknown-linux-gnuabi64") {
            Target::Mips64UnknownLinuxGnuabi64
        } else if same_text(triple, "mips64el-unknown-linux-gnuabi64") {
            Target::Mips64elUnknownLinuxGnuabi64
        } else if same_text(triple, "mipsel-unknown-linux-gnu") {
            Target::MipselUnknownLinuxGnu
        } else if same_text(triple, "powerpc-unknown-linux-gnu") {
            Target::PowerpcUnknownLinuxGnu
        } else if same_text(triple, "powerpc64-unknown-linux-gnu") {
            Target::Powerpc64UnknownLinuxGnu
        } else if same_text(triple, "powerpc64le-unknown-linux-gnu") {
            Target::Powerpc64leUnknownLinuxGnu
        } else if same_text(triple, "s390x-unknown-linux-gnu") {
            Target::S390xUnknownLinuxGnu
        } else if same_text(triple, "sparc64-unknown-linux-gnu") {
            Target::Sparc64UnknownLinuxGnu
        } else if same_text(triple, "sparcv9-sun-solaris") {
            Target::Sparcv9SunSolaris
        } else if same_text(triple, "thumbv6m-none-eabi") {
            Target::Thumbv6mNoneEabi
        } else if same_text(triple, "thumbv7em-none-eabi") {
            Target::Thumbv7emNoneEabi
        } else if same_text(triple, "thumbv7em-none-eabihf") {
            Target::Thumbv7emNoneEabihf
        } else if same_text(triple, "thumbv7m-none-eabi") {
            Target::Thumbv7mNoneEabi
        } else if same_text(triple, "wasm32-unknown-emscripten") {
            Target::Wasm32UnknownEmscripten
        } else if same_text(triple, "x86_64-apple-darwin") {
            Target::X86_64AppleDarwin
        } else if same_text(triple, "x86_64-linux-android") {
            Target::X86_64LinuxAndroid
        } else if same_text(triple, "x86_64-pc-windows-gnu") {
            Target::X86_64PcWindowsGnu
        } else if same_text(triple, "x86_64-sun-solaris") {
            Target::X86_64SunSolaris
        } else if same_text(triple, "x86_64-unknown-dragonfly") {
            Target::X86_64UnknownDragonfly
        } else if same_text(triple, "x86_64-unknown-freebsd") {
            Target::X86_64UnknownFreebsd
        } else if same_text(triple, "x86_64-unknown-linux-gnu") {
            Target::X86_64UnknownLinuxGnu
        } else if same_text(triple, "x86_64-unknown-linux-musl") {
            Target::X86_64UnknownLinuxMusl
        } else if same_text(triple, "x86_64-unknown-netbsd") {
            Target::X86_64UnknownNetbsd
        } else {
            Target::Custom { triple: triple.to_owned() }
        }
    }
}

} // verus!

verus! {

/// The lengths of the built-in triples and, where two have the same length, a
/// character at which they differ.
proof fn lemma_builtin_triple_letters()
    ensures
        "aarch64-linux-android"@.len() == 21,
        "aarch64-unknown-linux-gnu"@.len() == 25,
        "arm-linux-androideabi"@.len() == 21,
        "arm-unknown-linux-gnueabi"@.len() == 25,
        "arm-unknown-linux-musleabi"@.len() == 26,
        "armv7-linux-androideabi"@.len() == 23,
        "armv7-unknown-linux-gnueabihf"@.len() == 29,
        "armv7-unknown-linux-musleabihf"@.len() == 30,
        "asmjs-unknown-emscripten"@.len() == 24,
        "i586-unknown-linux-gnu"@.len() == 22,
        "i686-apple-darwin"@.len() == 17,
        "i686-linux-android"@.len() == 18,
        "i686-pc-windows-gnu"@.len() == 19,
        "i686-unknown-freebsd"@.len() == 20,
        "i686-unknown-linux-gnu"@.len() == 22,
        "i686-unknown-linux-musl"@.len() == 23,
        "mips-unknown-linux-gnu"@.len() == 22,
        "mips64-unknown-linux-gnuabi64"@.len() == 29,
        "mips64el-unknown-linux-gnuabi64"@.len() == 31,
        "mipsel-unknown-linux-gnu"@.len() == 24,
        "powerpc-unknown-linux-gnu"@.len() == 25,
        "powerpc64-unknown-linux-gnu"@.len() == 27,
        "powerpc64le-unknown-linux-gnu"@.len() == 29,
        "s390x-unknown-linux-gnu"@.len() == 23,
        "sparc64-unknown-linux-gnu"@.len() == 25,
        "sparcv9-sun-solaris"@.len() == 19,
        "thumbv6m-none-eabi"@.len() == 18,
        "thumbv7em-none-eabi"@.len() == 19,
        "thumbv7em-none-eabihf"@.len() == 21,
        "thumbv7m-none-eabi"@.len() == 18,
        "wasm32-unknown-emscripten"@.len() == 25,
        "x86_64-apple-darwin"@.len() == 19,
        "x86_64-linux-android"@.len() == 20,
        "x86_64-pc-windows-gnu"@.len() == 21,
        "x86_64-sun-solaris"@.len() == 18,
        "x86_64-unknown-dragonfly"@.len() == 24,
        "x86_64-unknown-freebsd"@.len() == 22,
        "x86_64-unknown-linux-gnu"@.len() == 24,
        "x86_64-unknown-linux-musl"@.len() == 25,
        "x86_64-unknown-netbsd"@.len() == 21,
        "i686-linux-android"@[0] == 'i',
        "i686-linux-android"@[6] == 'i',
        "thumbv6m-none-eabi"@[0] == 't',
        "thumbv6m-none-eabi"@[6] == '6',
        "thumbv7m-none-eabi"@[0] == 't',
        "thumbv7m-none-eabi"@[6] == '7',
        "x86_64-sun-solaris"@[0] == 'x',
        "x86_64-sun-solaris"@[6] == '-',
        "i686-pc-windows-gnu"@[0] == 'i',
        "sparcv9-sun-solaris"@[0] == 's',
        "thumbv7em-none-eabi"@[0] == 't',
        "x86_64-apple-darwin"@[0] == 'x',
        "i686-unknown-freebsd"@[0] == 'i',
        "x86_64-linux-android"@[0] == 'x',
        "aarch64-linux-android"@[1] == 'a',
        "aarch64-linux-android"@[7] == '-',
        "arm-linux-androideabi"@[1] == 'r',
        "arm-linux-androideabi"@[7] == 'u',
        "thumbv7em-none-eabihf"@[1] == 'h',
        "thumbv7em-none-eabihf"@[7] == 'e',
        "x86_64-pc-windows-gnu"@[1] == '8',
        "x86_64-pc-windows-gnu"@[7] == 'p',
        "x86_64-unknown-netbsd"@[1] == '8',
        "x86_64-unknown-netbsd"@[7] == 'u',
        "i586-unknown-linux-gnu"@[1] == '5',
        "i686-unknown-linux-gnu"@[1] == '6',
        "mips-unknown-linux-gnu"@[1] == 'i',
        "x86_64-unknown-freebsd"@[1] == '8',
        "armv7-linux-androideabi"@[0] == 'a',
        "i686-unknown-linux-musl"@[0] == 'i',
        "s390x-unknown-linux-gnu"@[0] == 's',
        "asmjs-unknown-emscripten"@[0] == 'a',
        "asmjs-unknown-emscripten"@[15] == 'm',
        "mipsel-unknown-linux-gnu"@[0] == 'm',
        "mipsel-unknown-linux-gnu"@[15] == 'l',
        "x86_64-unknown-dragonfly"@[0] == 'x',
        "x86_64-unknown-dragonfly"@[15] == 'd',
        "x86_64-unknown-linux-gnu"@[0] == 'x',
        "x86_64-unknown-linux-gnu"@[15] == 'l',
        "aarch64-unknown-linux-gnu"@[0] == 'a',
        "aarch64-unknown-linux-gnu"@[1] == 'a',
        "arm-unknown-linux-gnueabi"@[0] == 'a',
        "arm-unknown-linux-gnueabi"@[1] == 'r',
        "powerpc-unknown-linux-gnu"@[0] == 'p',
        "powerpc-unknown-linux-gnu"@[1] == 'o',
        "sparc64-unknown-linux-gnu"@[0] == 's',
        "sparc64-unknown-linux-gnu"@[1] == 'p',
        "wasm32-unknown-emscripten"@[0] == 'w',
        "wasm32-unknown-emscripten"@[1] == 'a',
        "x86_64-unknown-linux-musl"@[0] == 'x',
        "x86_64-unknown-linux-musl"@[1] == '8',
        "armv7-unknown-linux-gnueabihf"@[0] == 'a',
        "mips64-unknown-linux-gnuabi64"@[0] == 'm',
        "powerpc64le-unknown-linux-gnu"@[0] == 'p',
{
    broadcast use vstd::string::group_string_axioms;
        reveal_strlit("aarch64-linux-android");
        reveal_strlit("aarch64-unknown-linux-gnu");
        reveal_strlit("arm-linux-androideabi");
        reveal_strlit("arm-unknown-linux-gnueabi");
        reveal_strlit("arm-unknown-linux-musleabi");
        reveal_strlit("armv7-linux-androideabi");
        reveal_strlit("armv7-unknown-linux-gnueabihf");
        reveal_strlit("armv7-unknown-linux-musleabihf");
        reveal_strlit("asmjs-unknown-emscripten");
        reveal_strlit("i586-unknown-linux-gnu");
        reveal_strlit("i686-apple-darwin");
        reveal_strlit("i686-linux-android");
        reveal_strlit("i686-pc-windows-gnu");
        reveal_strlit("i686-unknown-freebsd");
        reveal_strlit("i686-unknown-linux-gnu");
        reveal_strlit("i686-unknown-linux-musl");
        reveal_strlit("mips-unknown-linux-gnu");
        reveal_strlit("mips64-unknown-linux-gnuabi64");
        reveal_strlit("mips64el-unknown-linux-gnuabi64");
        reveal_strlit("mipsel-unknown-linux-gnu");
        reveal_strlit("powerpc-unknown-linux-gnu");
        reveal_strlit("powerpc64-unknown-linux-gnu");
        reveal_strlit("powerpc64le-unknown-linux-gnu");
        reveal_strlit("s390x-unknown-linux-gnu");
        reveal_strlit("sparc64-unknown-linux-gnu");
        reveal_strlit("sparcv9-sun-solaris");
        reveal_strlit("thumbv6m-none-eabi");
        reveal_strlit("thumbv7em-none-eabi");
        reveal_strlit("thumbv7em-none-eabihf");
        reveal_strlit("thumbv7m-none-eabi");
        reveal_strlit("wasm32-unknown-emscripten");
        reveal_strlit("x86_64-apple-darwin");
        reveal_strlit("x86_64-linux-android");
        reveal_strlit("x86_64-pc-windows-gnu");
        reveal_strlit("x86_64-sun-solaris");
        reveal_strlit("x86_64-unknown-dragonfly");
        reveal_strlit("x86_64-unknown-freebsd");
        reveal_strlit("x86_64-unknown-linux-gnu");
        reveal_strlit("x86_64-unknown-linux-musl");
        reveal_strlit("x86_64-unknown-netbsd");
}

/// The target that `cross` builds for when it runs on a supported host.
pub open spec fn host_target(h: Host) -> Target {
    match h {
        Host::X86_64AppleDarwin => Target::X86_64AppleDarwin,
        Host::X86_64UnknownLinuxGnu => Target::X86_64UnknownLinuxGnu,
        Host::Other => Target::Other,
    }
}

impl Target {
    /// The target of a supported host.
    pub fn from_host(host: Host) -> (r: Target)
        requires
            host != Host::Other,
        ensures
            r == host_target(host),
    {
        match host {
            Host::X86_64UnknownLinuxGnu => Target::X86_64UnknownLinuxGnu,
            Host::X86_64AppleDarwin => Target::X86_64AppleDarwin,
            // excluded by the precondition
            Host::Other => Target::Other,
        }
    }
}

/// Reading back the triple of a parsed target gives exactly the text it was parsed
/// from, and parsing never gives `Other`.
pub proof fn lemma_parsed_triple_round_trip(s: Seq<char>, t: Target)
    requires
        parses_to(s, t),
    ensures
        t.spec_triple() == s,
        !(t is Other),
{
}

/// Parsing the triple of a target gives that target back: for every built-in target
/// but `Other`, and for every custom target whose triple no built-in target has.
pub proof fn lemma_triple_parses_back(t: Target)
    requires
        !(t is Other),
        t is Custom ==> builtin_named(t.spec_triple()) is None,
    ensures
        parses_to(t.spec_triple(), t),
{
    lemma_builtin_triple_letters();
}

/// The host named by the triple of a supported host's target is that host.
pub proof fn lemma_host_triple_round_trip(h: Host)
    requires
        h != Host::Other,
    ensures
        host_named(host_target(h).spec_triple()) == h,
{
    lemma_builtin_triple_letters();
}

/// A triple that names a supported host parses to that host's target.
pub proof fn lemma_host_name_parses_to_host_target(s: Seq<char>)
    requires
        host_named(s) != Host::Other,
    ensures
        parses_to(s, host_target(host_named(s))),
{
    lemma_builtin_triple_letters();
}

/// A built-in target is bare metal exactly when its triple has a `-none-` component.
pub proof fn lemma_bare_metal_iff_none_component(t: Target)
    requires
        !(t is Other),
        !(t is Custom),
    ensures
        t.spec_is_bare_metal() <==> contains_text(t.spec_triple(), "-none-"@),
{
    broadcast use vstd::string::group_string_axioms;
    reveal_strlit("-none-");
    reveal_with_fuel(crate::text::occurs_from, 30);
    reveal_with_fuel(crate::text::matches_from, 7);
    match t {
        Target::Aarch64LinuxAndroid => {
            reveal_strlit("aarch64-linux-android");
        },
        Target::Aarch64UnknownLinuxGnu => {
            reveal_strlit("aarch64-unknown-linux-gnu");
        },
        Target::ArmLinuxAndroideabi => {
            reveal_strlit("arm-linux-androideabi");
        },
        Target::ArmUnknownLinuxGnueabi => {
            reveal_strlit("arm-unknown-linux-gnueabi");
        },
        Target::ArmUnknownLinuxMusleabi => {
            reveal_strlit("arm-unknown-linux-musleabi");
        },
        Target::Armv7LinuxAndroideabi => {
            reveal_strlit("armv7-linux-androideabi");
        },
        Target::Armv7UnknownLinuxGnueabihf => {
            reveal_strlit("armv7-unknown-linux-gnueabihf");
        },
        Target::Armv7UnknownLinuxMusleabihf => {
            reveal_strlit("armv7-unknown-linux-musleabihf");
        },
        Target::AsmjsUnknownEmscripten => {
            reveal_strlit("asmjs-unknown-emscripten");
        },
        Target::I586UnknownLinuxGnu => {
            reveal_strlit("i586-unknown-linux-gnu");
        },
        Target::I686AppleDarwin => {
            reveal_strlit("i686-apple-darwin");
        },
        Target::I686LinuxAndroid => {
            reveal_strlit("i686-linux-android");
        },
        Target::I686PcWindowsGnu => {
            reveal_strlit("i686-pc-windows-gnu");
        },
        Target::I686UnknownFreebsd => {
            reveal_strlit("i686-unknown-freebsd");
        },
        Target::I686UnknownLinuxGnu => {
            reveal_strlit("i686-unknown-linux-gnu");
        },
        Target::I686UnknownLinuxMusl => {
            reveal_strlit("i686-unknown-linux-musl");
        },
        Target::MipsUnknownLinuxGnu => {
            reveal_strlit("mips-unknown-linux-gnu");
        },
        Target::Mips64UnknownLinuxGnuabi64 => {
            reveal_strlit("mips64-unknown-linux-gnuabi64");
        },
        Target::Mips64elUnknownLinuxGnuabi64 => {
            reveal_strlit("mips64el-unknown-linux-gnuabi64");
        },
        Target::MipselUnknownLinuxGnu => {
            reveal_strlit("mipsel-unknown-linux-gnu");
        },
        Target::PowerpcUnknownLinuxGnu => {
            reveal_strlit("powerpc-unknown-linux-gnu");
        },
        Target::Powerpc64UnknownLinuxGnu => {
            reveal_strlit("powerpc64-unknown-linux-gnu");
        },
        Target::Powerpc64leUnknownLinuxGnu => {
            reveal_strlit("powerpc64le-unknown-linux-gnu");
        },
        Target::S390xUnknownLinuxGnu => {
            reveal_strlit("s390x-unknown-linux-gnu");
        },
        Target::Sparc64UnknownLinuxGnu => {
            reveal_strlit("sparc64-unknown-linux-gnu");
        },
        Target::Sparcv9SunSolaris => {
            reveal_strlit("sparcv9-sun-solaris");
        },
        Target::Thumbv6mNoneEabi => {
            reveal_strlit("thumbv6m-none-eabi");
        },
        Target::Thumbv7emNoneEabi => {
            reveal_strlit("thumbv7em-none-eabi");
        },
        Target::Thumbv7emNoneEabihf => {
            reveal_strlit("thumbv7em-none-eabihf");
        },
        Target::Thumbv7mNoneEabi => {
            reveal_strlit("thumbv7m-none-eabi");
        },
        Target::Wasm32UnknownEmscripten => {
            reveal_strlit("wasm32-unknown-emscripten");
        },
        Target::X86_64AppleDarwin => {
            reveal_strlit("x86_64-apple-darwin");
        },
        Target::X86_64LinuxAndroid => {
            reveal_strlit("x86_64-linux-android");
        },
        Target::X86_64PcWindowsGnu => {
            reveal_strlit("x86_64-pc-windows-gnu");
        },
        Target::X86_64SunSolaris => {
            reveal_strlit("x86_64-sun-solaris");
        },
        Target::X86_64UnknownDragonfly => {
            reveal_strlit("x86_64-unknown-dragonfly");
        },
        Target::X86_64UnknownFreebsd => {
            reveal_strlit("x86_64-unknown-freebsd");
        },
        Target::X86_64UnknownLinuxGnu => {
            reveal_strlit("x86_64-unknown-linux-gnu");
        },
        Target::X86_64UnknownLinuxMusl => {
            reveal_strlit("x86_64-unknown-linux-musl");
        },
        Target::X86_64UnknownNetbsd => {
            reveal_strlit("x86_64-unknown-netbsd");
        },
        Target::Custom { .. } => {},
        Target::Other => {},
    }
}

/// A target needs xargo exactly when it is a custom target or its triple has a
/// `-none-` component; `Other` does not need it. The text of a custom triple plays
/// no part.
pub proof fn lemma_needs_xargo_exactly(t: Target)
    ensures
        t is Custom ==> t.spec_needs_xargo(),
        t is Other ==> !t.spec_needs_xargo(),
        !(t is Custom) && !(t is Other) ==> (t.spec_needs_xargo() <==> contains_text(
            t.spec_triple(),
            "-none-"@,
        )),
{
    if !(t is Custom) && !(t is Other) {
        lemma_bare_metal_iff_none_component(t);
    }
}

/// Every target but a custom one is built in, `Other` included.
pub proof fn lemma_builtin_exactly_when_not_custom(t: Target)
    ensures
        t.spec_is_builtin() <==> !(t is Custom),
{
}

} // verus!
