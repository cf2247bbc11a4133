use vstd::prelude::*;
use vstd::string::*;

use crate::config::{error_view, string_views, xargo_setting, ConfigError, ConfigErrorKind, Toml};
use crate::target::Target;
use crate::text::same_text;

verus! {

/// The target to build for: the one asked for, else `x86_64-unknown-linux-gnu`.
pub fn effective_target(requested: Option<Target>) -> (r: Target)
    ensures
        r == match requested {
            Some(t) => t,
            None => Target::X86_64UnknownLinuxGnu,
        },
{
    match requested {
        Some(t) => t,
        None => Target::X86_64UnknownLinuxGnu,
    }
}

/// Whether to build with xargo: what `Cross.toml` says where it says it, else
/// whether the target needs xargo.
pub open spec fn xargo_decision(doc: Option<Seq<char>>, target: Target) -> Result<
    bool,
    (ConfigErrorKind, Seq<char>),
> {
    match doc {
        None => Ok(target.spec_needs_xargo()),
        Some(d) => match xargo_setting(d, target.spec_triple()) {
            Err(e) => Err(e),
            Ok(Some(b)) => Ok(b),
            Ok(None) => Ok(target.spec_needs_xargo()),
        },
    }
}

/// The xargo decision as plain values.
pub open spec fn decision_view(r: Result<bool, ConfigError>) -> Result<
    bool,
    (ConfigErrorKind, Seq<char>),
> {
    match r {
        Ok(b) => Ok(b),
        Err(e) => Err(error_view(e)),
    }
}

/// The text of the configuration, where there is one.
pub open spec fn doc_of(toml: Option<&Toml>) -> Option<Seq<char>> {
    match toml {
        Some(t) => Some(t@),
        None => None,
    }
}

/// Without a configuration the decision is whether the target needs xargo. A
/// configuration that sets nothing for the target decides as no configuration does;
/// one that sets a boolean decides by that boolean alone; a refusal is passed on.
pub proof fn lemma_xargo_decision_follows_setting(d: Seq<char>, t: Target)
    ensures
        xargo_decision(None, t) == Ok::<bool, (ConfigErrorKind, Seq<char>)>(t.spec_needs_xargo()),
        match xargo_setting(d, t.spec_triple()) {
            Ok(None) => xargo_decision(Some(d), t) == xargo_decision(None, t),
            Ok(Some(b)) => xargo_decision(Some(d), t) == Ok::<bool, (ConfigErrorKind, Seq<char>)>(b),
            Err(e) => xargo_decision(Some(d), t) == Err::<bool, (ConfigErrorKind, Seq<char>)>(e),
        },
{
}

/// The plain views used by the decision keep what they view.
pub proof fn lemma_decision_views_are_faithful(r: Result<bool, ConfigError>, toml: Option<&Toml>)
    ensures
        match r {
            Ok(b) => decision_view(r) == Ok::<bool, (ConfigErrorKind, Seq<char>)>(b),
            Err(e) => decision_view(r) == Err::<bool, (ConfigErrorKind, Seq<char>)>(
                (e.kind, e.subject@),
            ),
        },
        match toml {
            Some(t) => doc_of(toml) == Some(t@),
            None => doc_of(toml) is None,
        },
{
}

/// Decides whether the build for `target` goes through xargo.
pub fn uses_xargo(toml: Option<&Toml>, target: &Target) -> (r: Result<bool, ConfigError>)
    requires
        !(target is Other),
    ensures
        decision_view(r) == xargo_decision(doc_of(toml), *target),
{
    let configured = match toml {
        Some(t) => match t.xargo(target) {
            Ok(b) => b,
            Err(e) => return Err(e),
        },
        None => None,
    };
    match configured {
        Some(b) => Ok(b),
        None => Ok(target.needs_xargo()),
    }
}

/// Whether some argument is `name`.
pub open spec fn has_argument(args: Seq<String>, name: Seq<char>) -> bool {
    exists|i: int| 0 <= i < args.len() && (#[trigger] args[i])@ == name
}

fn has_arg(args: &Vec<String>, name: &str) -> (r: bool)
    ensures
        r == has_argument(args@, name@),
{
    let mut i: usize = 0;
    while i < args.len()
        invariant
            i <= args@.len(),
            forall|j: int| 0 <= j < i ==> (#[trigger] args@[j])@ != name@,
        decreases args@.len() - i,
    {
        if same_text(args[i].as_str(), name) {
            assert((args@[i as int])@ == name@);
            return true;
        }
        i = i + 1;
    }
    false
}

/// Whether the arguments ask for the version of `cross` itself: `--version` or
/// `-V`, without a Cargo subcommand.
pub fn wants_version(args: &Vec<String>, has_subcommand: bool) -> (r: bool)
    ensures
        r == (!has_subcommand && (has_argument(args@, "--version"@) || has_argument(
            args@,
            "-V"@,
        ))),
{
    (has_arg(args, "--version") || has_arg(args, "-V")) && !has_subcommand
}

/// Whether the arguments ask for verbose output: `--verbose`, `-v` or `-vv`.
pub fn is_verbose(args: &Vec<String>) -> (r: bool)
    ensures
        r == (has_argument(args@, "--verbose"@) || has_argument(args@, "-v"@) || has_argument(
            args@,
            "-vv"@,
        )),
{
    has_arg(args, "--verbose") || has_arg(args, "-v") || has_arg(args, "-vv")
}

/// The line that `--version` prints.
pub fn version_line(version: &str, commit_info: &str) -> (r: String)
    ensures
        r@ == "cross "@ + version@ + commit_info@,
{
    let mut l = String::new();
    l.append("cross ");
    l.append(version);
    l.append(commit_info);
    l
}

/// Whether a backtrace is wanted: the variable `RUST_BACKTRACE` is set to `1`.
pub fn backtrace_enabled(value: Option<&str>) -> (r: bool)
    ensures
        r == (value matches Some(v) && v@ == "1"@),
{
    match value {
        Some(v) => same_text(v, "1"),
        None => false,
    }
}

/// The code to exit with after Cargo has run: none where it succeeded, else its
/// own exit code, or 1 where it has none.
pub fn exit_code(success: bool, code: Option<i32>) -> (r: Option<i32>)
    ensures
        r == (if success {
            None
        } else {
            Some(
                match code {
                    Some(c) => c,
                    None => 1i32,
                },
            )
        }),
{
    if success {
        None
    } else {
        match code {
            Some(c) => Some(c),
            None => Some(1),
        }
    }
}

/// The lines that report a failure: the error, then each of its causes, then, where
/// no backtrace is shown, how to ask for one.
pub open spec fn report_lines(messages: Seq<Seq<char>>, show_backtrace: bool) -> Seq<Seq<char>> {
    let lines = Seq::new(
        messages.len(),
        |i: int|
            if i == 0 {
                "error: "@ + messages[i]
            } else {
                "caused by: "@ + messages[i]
            },
    );
    if show_backtrace {
        lines
    } else {
        lines.push("note: run with `RUST_BACKTRACE=1` for a backtrace"@)
    }
}

/// Reports a failure whose error and causes have the messages `messages`, in order.
pub fn error_report(messages: &Vec<String>, show_backtrace: bool) -> (r: Vec<String>)
    ensures
        string_views(r@) == report_lines(string_views(messages@), show_backtrace),
{
    let mut lines: Vec<String> = Vec::new();
    let mut i: usize = 0;
    while i < messages.len()
        invariant
            i <= messages@.len(),
            lines@.len() == i,
            forall|j: int|
                0 <= j < i ==> (#[trigger] lines@[j])@ == (if j == 0 {
                    "error: "@ + messages@[j]@
                } else {
                    "caused by: "@ + messages@[j]@
                }),
        decreases messages@.len() - i,
    {
        let mut l = String::new();
        if i == 0 {
            l.append("error: ");
        } else {
            l.append("caused by: ");
        }
        l.append(messages[i].as_str());
        lines.push(l);
        i = i + 1;
    }
    let ghost before = lines@;
    if !show_backtrace {
        let mut note = String::new();
        note.append("note: run with `RUST_BACKTRACE=1` for a backtrace");
        lines.push(note);
    }
    assert(string_views(lines@) =~= report_lines(string_views(messages@), show_backtrace));
    lines
}

/// An argument is present exactly when some argument has its text.
pub proof fn lemma_has_argument_exactly(args: Seq<String>, name: Seq<char>)
    ensures
        has_argument(args, name) <==> exists|i: int| 0 <= i < args.len() && (#[trigger] args[i])@
            == name,
{
}

/// A failure report has one line per message, the first marked `error: ` and the
/// others `caused by: `, in order; then, only where no backtrace is shown, one more
/// line that tells how to ask for one.
pub proof fn lemma_report_has_a_line_per_message(messages: Seq<Seq<char>>, show_backtrace: bool)
    ensures
        report_lines(messages, show_backtrace).len() == messages.len() + (if show_backtrace {
            0int
        } else {
            1int
        }),
        messages.len() > 0 ==> report_lines(messages, show_backtrace)[0] == "error: "@
            + messages[0],
        forall|i: int|
            1 <= i < messages.len() ==> #[trigger] report_lines(messages, show_backtrace)[i]
                == "caused by: "@ + messages[i],
        !show_backtrace ==> report_lines(messages, show_backtrace)[messages.len() as int]
            == "note: run with `RUST_BACKTRACE=1` for a backtrace"@,
{
}

} // verus!
