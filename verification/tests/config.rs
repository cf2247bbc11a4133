use cross::config::{read_bool, read_string, read_string_list, target_key_text};
use cross::{toml, ConfigError, ConfigErrorKind, Target, Toml, TomlItem};

const SAMPLE: &str = r#"
[build]
xargo = true

[build.env]
passthrough = ["RUST_BACKTRACE", "RUST_LOG"]

[target.aarch64-unknown-linux-gnu]
image = "example/aarch64:v1"
toolchain = "nightly"
xargo = false

[target.aarch64-unknown-linux-gnu.env]
passthrough = ["FOO", "BAR"]

[target.mips-unknown-linux-gnu]
image = 7
xargo = "yes"

[target.mips-unknown-linux-gnu.env]
passthrough = [1, 2]
"#;

fn sample() -> Toml {
    Toml::parse(SAMPLE.to_string()).expect("sample parses")
}

fn error(kind: ConfigErrorKind, subject: &str) -> ConfigError {
    ConfigError { kind, subject: subject.to_string() }
}

#[test]
fn image_and_toolchain_of_a_configured_target() {
    let t = sample();
    let target = Target::Aarch64UnknownLinuxGnu;
    assert_eq!(t.image(&target), Ok(Some("example/aarch64:v1".to_string())));
    assert_eq!(t.toolchain(&target), Ok(Some("nightly".to_string())));
}

#[test]
fn unconfigured_target_has_no_settings() {
    let t = sample();
    let target = Target::ArmUnknownLinuxGnueabi;
    assert_eq!(t.image(&target), Ok(None));
    assert_eq!(t.toolchain(&target), Ok(None));
    assert_eq!(t.target_env_passthrough(&target), Ok(vec![]));
}

#[test]
fn image_that_is_not_a_string_is_refused() {
    let t = sample();
    let r = t.image(&Target::MipsUnknownLinuxGnu);
    let e = error(ConfigErrorKind::NotAString, "target.mips-unknown-linux-gnu.image");
    assert_eq!(r, Err(e.clone()));
    assert_eq!(e.message(), "target.mips-unknown-linux-gnu.image must be a string");
}

#[test]
fn build_image_boolean_overrides_the_target() {
    let t = Toml::parse(
        "[build]\nimage = true\n[target.aarch64-unknown-linux-gnu]\nxargo = false\n[target.mips-unknown-linux-gnu]\nxargo = \"yes\"\n"
            .to_string(),
    )
    .unwrap();
    assert_eq!(t.xargo(&Target::Aarch64UnknownLinuxGnu), Ok(Some(true)));
    // even a target whose own setting is not a boolean
    assert_eq!(t.xargo(&Target::MipsUnknownLinuxGnu), Ok(Some(true)));
    assert_eq!(t.xargo(&Target::I686UnknownLinuxGnu), Ok(Some(true)));
}

#[test]
fn build_xargo_key_is_not_read() {
    let t = sample();
    assert_eq!(t.xargo(&Target::Aarch64UnknownLinuxGnu), Ok(Some(false)));
    assert_eq!(t.xargo(&Target::I686UnknownLinuxGnu), Ok(None));
}

#[test]
fn target_xargo_applies_without_build_image() {
    let t = Toml::parse(
        "[target.aarch64-unknown-linux-gnu]\nxargo = false\n[target.mips-unknown-linux-gnu]\nxargo = \"yes\"\n"
            .to_string(),
    )
    .unwrap();
    assert_eq!(t.xargo(&Target::Aarch64UnknownLinuxGnu), Ok(Some(false)));
    assert_eq!(t.xargo(&Target::I686UnknownLinuxGnu), Ok(None));
    let r = t.xargo(&Target::MipsUnknownLinuxGnu);
    let e = error(ConfigErrorKind::NotABoolean, "target.mips-unknown-linux-gnu.xargo");
    assert_eq!(r, Err(e.clone()));
    assert_eq!(e.message(), "target.mips-unknown-linux-gnu.xargo must be a boolean");
}

#[test]
fn build_image_that_is_not_a_boolean_is_refused() {
    let t = Toml::parse("[build]\nimage = \"example/all:v1\"\n".to_string()).unwrap();
    let r = t.xargo(&Target::Aarch64UnknownLinuxGnu);
    let e = error(ConfigErrorKind::NotABoolean, "build.image");
    assert_eq!(r, Err(e.clone()));
    assert_eq!(e.message(), "build.image must be a boolean");
}

#[test]
fn env_passthrough_joins_build_and_target() {
    let t = sample();
    let target = Target::Aarch64UnknownLinuxGnu;
    assert_eq!(
        t.build_env_passthrough(),
        Ok(vec!["RUST_BACKTRACE".to_string(), "RUST_LOG".to_string()])
    );
    assert_eq!(
        t.target_env_passthrough(&target),
        Ok(vec!["FOO".to_string(), "BAR".to_string()])
    );
    assert_eq!(
        t.env_passthrough(&target),
        Ok(vec![
            "RUST_BACKTRACE".to_string(),
            "RUST_LOG".to_string(),
            "FOO".to_string(),
            "BAR".to_string()
        ])
    );
    assert_eq!(
        t.env_passthrough(&Target::I686UnknownLinuxGnu),
        Ok(vec!["RUST_BACKTRACE".to_string(), "RUST_LOG".to_string()])
    );
}

#[test]
fn env_passthrough_with_a_non_string_is_refused() {
    let t = sample();
    let key = "target.mips-unknown-linux-gnu.env.passthrough";
    let e = error(ConfigErrorKind::NotAllStrings, key);
    assert_eq!(t.target_env_passthrough(&Target::MipsUnknownLinuxGnu), Err(e.clone()));
    assert_eq!(t.env_passthrough(&Target::MipsUnknownLinuxGnu), Err(e.clone()));
    assert_eq!(
        e.message(),
        "every target.mips-unknown-linux-gnu.env.passthrough element must be a string"
    );
}

#[test]
fn build_env_refusal_comes_first() {
    let t = Toml::parse(
        "[build.env]\npassthrough = [true]\n[target.aarch64-unknown-linux-gnu.env]\npassthrough = [2]\n"
            .to_string(),
    )
    .unwrap();
    let e = error(ConfigErrorKind::NotAllStrings, "build.env.passthrough");
    assert_eq!(t.build_env_passthrough(), Err(e.clone()));
    assert_eq!(t.env_passthrough(&Target::Aarch64UnknownLinuxGnu), Err(e.clone()));
    assert_eq!(e.message(), "every build.env.passthrough element must be a string");
}

#[test]
fn passthrough_that_is_not_an_array_is_empty() {
    let t = Toml::parse("[build.env]\npassthrough = \"FOO\"\n".to_string()).unwrap();
    assert_eq!(t.build_env_passthrough(), Ok(vec![]));
}

#[test]
fn custom_target_settings() {
    let t = Toml::parse("[target.my-board]\nimage = \"board:latest\"\n".to_string()).unwrap();
    let target = Target::from("my-board");
    assert_eq!(t.image(&target), Ok(Some("board:latest".to_string())));
    assert_eq!(t.xargo(&target), Ok(None));
}

#[test]
fn dotted_custom_triple_walks_nested_tables() {
    let t = Toml::parse("[target.foo.bar]\nimage = \"nested\"\n".to_string()).unwrap();
    let target = Target::from("foo.bar");
    assert_eq!(t.image(&target), Ok(Some("nested".to_string())));
}

#[test]
fn unparsable_text_is_refused() {
    assert!(Toml::parse("[target\nimage = ".to_string()).is_none());
    let r = toml("/work/Cross.toml", Some("this is not toml".to_string()));
    let e = error(ConfigErrorKind::Unparsable, "/work/Cross.toml");
    assert_eq!(r.err(), Some(e.clone()));
    assert_eq!(e.message(), "couldn't parse /work/Cross.toml as TOML");
}

#[test]
fn missing_file_gives_no_configuration() {
    assert!(matches!(toml("/work/Cross.toml", None), Ok(None)));
}

#[test]
fn present_file_gives_its_configuration() {
    let r = toml("/work/Cross.toml", Some(SAMPLE.to_string())).unwrap().unwrap();
    assert_eq!(
        r.image(&Target::Aarch64UnknownLinuxGnu),
        Ok(Some("example/aarch64:v1".to_string()))
    );
}

#[test]
fn empty_file_sets_nothing() {
    let t = Toml::parse(String::new()).unwrap();
    assert_eq!(t.image(&Target::X86_64UnknownLinuxGnu), Ok(None));
    assert_eq!(t.xargo(&Target::X86_64UnknownLinuxGnu), Ok(None));
    assert_eq!(t.env_passthrough(&Target::X86_64UnknownLinuxGnu), Ok(vec![]));
}

#[test]
fn target_keys() {
    assert_eq!(target_key_text("x86_64-unknown-linux-gnu", "image"), "target.x86_64-unknown-linux-gnu.image");
    assert_eq!(target_key_text("", "env.passthrough"), "target..env.passthrough");
}

#[test]
fn reading_items() {
    assert_eq!(read_string(&TomlItem::Absent, "k"), Ok(None));
    assert_eq!(read_string(&TomlItem::Str("v".to_string()), "k"), Ok(Some("v".to_string())));
    assert_eq!(
        read_string(&TomlItem::Boolean(true), "k"),
        Err(error(ConfigErrorKind::NotAString, "k"))
    );
    assert_eq!(read_bool(&TomlItem::Boolean(false), "k"), Ok(Some(false)));
    assert_eq!(read_bool(&TomlItem::Absent, "k"), Ok(None));
    assert_eq!(
        read_bool(&TomlItem::Other, "k"),
        Err(error(ConfigErrorKind::NotABoolean, "k"))
    );
    assert_eq!(
        read_string_list(
            &TomlItem::Array(vec![Some("A".to_string()), Some("B".to_string())]),
            "k"
        ),
        Ok(vec!["A".to_string(), "B".to_string()])
    );
    assert_eq!(
        read_string_list(&TomlItem::Array(vec![Some("A".to_string()), None]), "k"),
        Err(error(ConfigErrorKind::NotAllStrings, "k"))
    );
    assert_eq!(read_string_list(&TomlItem::Other, "k"), Ok(vec![]));
    assert_eq!(read_string_list(&TomlItem::Str("A".to_string()), "k"), Ok(vec![]));
}
