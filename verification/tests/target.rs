use cross::{Host, Target};

fn builtin_targets() -> Vec<(&'static str, Target)> {
    vec![
    ("aarch64-linux-android", Target::Aarch64LinuxAndroid),
    ("aarch64-unknown-linux-gnu", Target::Aarch64UnknownLinuxGnu),
    ("arm-linux-androideabi", Target::ArmLinuxAndroideabi),
    ("arm-unknown-linux-gnueabi", Target::ArmUnknownLinuxGnueabi),
    ("arm-unknown-linux-musleabi", Target::ArmUnknownLinuxMusleabi),
    ("armv7-linux-androideabi", Target::Armv7LinuxAndroideabi),
    ("armv7-unknown-linux-gnueabihf", Target::Armv7UnknownLinuxGnueabihf),
    ("armv7-unknown-linux-musleabihf", Target::Armv7UnknownLinuxMusleabihf),
    ("asmjs-unknown-emscripten", Target::AsmjsUnknownEmscripten),
    ("i586-unknown-linux-gnu", Target::I586UnknownLinuxGnu),
    ("i686-apple-darwin", Target::I686AppleDarwin),
    ("i686-linux-android", Target::I686LinuxAndroid),
    ("i686-pc-windows-gnu", Target::I686PcWindowsGnu),
    ("i686-unknown-freebsd", Target::I686UnknownFreebsd),
    ("i686-unknown-linux-gnu", Target::I686UnknownLinuxGnu),
    ("i686-unknown-linux-musl", Target::I686UnknownLinuxMusl),
    ("mips-unknown-linux-gnu", Target::MipsUnknownLinuxGnu),
    ("mips64-unknown-linux-gnuabi64", Target::Mips64UnknownLinuxGnuabi64),
    ("mips64el-unknown-linux-gnuabi64", Target::Mips64elUnknownLinuxGnuabi64),
    ("mipsel-unknown-linux-gnu", Target::MipselUnknownLinuxGnu),
    ("powerpc-unknown-linux-gnu", Target::PowerpcUnknownLinuxGnu),
    ("powerpc64-unknown-linux-gnu", Target::Powerpc64UnknownLinuxGnu),
    ("powerpc64le-unknown-linux-gnu", Target::Powerpc64leUnknownLinuxGnu),
    ("s390x-unknown-linux-gnu", Target::S390xUnknownLinuxGnu),
    ("sparc64-unknown-linux-gnu", Target::Sparc64UnknownLinuxGnu),
    ("sparcv9-sun-solaris", Target::Sparcv9SunSolaris),
    ("thumbv6m-none-eabi", Target::Thumbv6mNoneEabi),
    ("thumbv7em-none-eabi", Target::Thumbv7emNoneEabi),
    ("thumbv7em-none-eabihf", Target::Thumbv7emNoneEabihf),
    ("thumbv7m-none-eabi", Target::Thumbv7mNoneEabi),
    ("wasm32-unknown-emscripten", Target::Wasm32UnknownEmscripten),
    ("x86_64-apple-darwin", Target::X86_64AppleDarwin),
    ("x86_64-linux-android", Target::X86_64LinuxAndroid),
    ("x86_64-pc-windows-gnu", Target::X86_64PcWindowsGnu),
    ("x86_64-sun-solaris", Target::X86_64SunSolaris),
    ("x86_64-unknown-dragonfly", Target::X86_64UnknownDragonfly),
    ("x86_64-unknown-freebsd", Target::X86_64UnknownFreebsd),
    ("x86_64-unknown-linux-gnu", Target::X86_64UnknownLinuxGnu),
    ("x86_64-unknown-linux-musl", Target::X86_64UnknownLinuxMusl),
    ("x86_64-unknown-netbsd", Target::X86_64UnknownNetbsd),
    ]
}

#[test]
fn every_builtin_triple_parses_to_its_target() {
    for (triple, target) in builtin_targets() {
        assert_eq!(Target::from(triple), target);
        assert_eq!(target.triple(), triple);
        assert!(target.is_builtin());
    }
}

#[test]
fn builtin_triples_are_distinct() {
    let all = builtin_targets();
    assert_eq!(all.len(), 40);
    for (i, (a, _)) in all.iter().enumerate() {
        for (b, _) in all.iter().skip(i + 1) {
            assert_ne!(a, b);
        }
    }
}

#[test]
fn unknown_triple_is_custom() {
    let t = Target::from("riscv64gc-unknown-none-elf");
    assert_eq!(
        t,
        Target::Custom { triple: "riscv64gc-unknown-none-elf".to_string() }
    );
    assert_eq!(t.triple(), "riscv64gc-unknown-none-elf");
    assert!(!t.is_builtin());
    assert!(!t.is_bare_metal());
    assert!(t.needs_xargo());
}

#[test]
fn empty_triple_is_custom() {
    let t = Target::from("");
    assert_eq!(t, Target::Custom { triple: String::new() });
    assert_eq!(t.triple(), "");
}

#[test]
fn triple_parsing_is_exact() {
    assert_eq!(
        Target::from("X86_64-unknown-linux-gnu"),
        Target::Custom { triple: "X86_64-unknown-linux-gnu".to_string() }
    );
    assert_eq!(
        Target::from("x86_64-unknown-linux-gnu "),
        Target::Custom { triple: "x86_64-unknown-linux-gnu ".to_string() }
    );
    assert_eq!(
        Target::from("thumbv7em-none-eabi"),
        Target::Thumbv7emNoneEabi
    );
    assert_eq!(
        Target::from("thumbv7em-none-eabihf"),
        Target::Thumbv7emNoneEabihf
    );
}

#[test]
fn bare_metal_targets_need_xargo() {
    let bare = [
        Target::Thumbv6mNoneEabi,
        Target::Thumbv7emNoneEabi,
        Target::Thumbv7emNoneEabihf,
        Target::Thumbv7mNoneEabi,
    ];
    for (_, target) in builtin_targets() {
        let is_bare = bare.contains(&target);
        assert_eq!(target.is_bare_metal(), is_bare);
        assert_eq!(target.needs_xargo(), is_bare);
    }
}

#[test]
fn bare_metal_targets_are_those_with_a_none_component() {
    for (triple, target) in builtin_targets() {
        assert_eq!(target.is_bare_metal(), triple.contains("-none-"));
    }
}

#[test]
fn other_is_builtin_and_needs_no_xargo() {
    assert!(Target::Other.is_builtin());
    assert!(!Target::Other.is_bare_metal());
    assert!(!Target::Other.needs_xargo());
}

#[test]
fn custom_triple_with_builtin_name_reads_back_as_builtin() {
    let custom = Target::Custom { triple: "x86_64-unknown-linux-gnu".to_string() };
    assert_eq!(Target::from(custom.triple()), Target::X86_64UnknownLinuxGnu);
}

#[test]
fn host_from_triple() {
    assert_eq!(Host::from("x86_64-apple-darwin"), Host::X86_64AppleDarwin);
    assert_eq!(Host::from("x86_64-unknown-linux-gnu"), Host::X86_64UnknownLinuxGnu);
    assert_eq!(Host::from("aarch64-unknown-linux-gnu"), Host::Other);
    assert_eq!(Host::from(""), Host::Other);
}

#[test]
fn host_target_has_the_host_triple() {
    for triple in ["x86_64-apple-darwin", "x86_64-unknown-linux-gnu"] {
        let target = Target::from_host(Host::from(triple));
        assert_eq!(target.triple(), triple);
        assert_eq!(target, Target::from(triple));
    }
    assert_eq!(Target::from_host(Host::X86_64AppleDarwin), Target::X86_64AppleDarwin);
    assert_eq!(
        Target::from_host(Host::X86_64UnknownLinuxGnu),
        Target::X86_64UnknownLinuxGnu
    );
}
