# cross

The verified core of `cross`, a tool that runs Cargo builds for other targets.

- `src/target.rs`: the targets and hosts `cross` knows, their triples, and laws on
  reading triples back and forth.
- `src/config.rs`: the settings of `Cross.toml` (image, toolchain, xargo, the
  environment variables passed through) and its error messages.
- `src/document.rs`: the two trusted calls into the `toml` crate.
- `src/invocation.rs`: the decisions of the command line program (target, xargo,
  flags, exit code, error report).
- `app/main.rs`: the program itself, with its file, process and environment access.
