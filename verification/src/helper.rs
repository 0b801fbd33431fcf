//! The commands that the privilege helper is asked to run.

use crate::file_handler::{Action, Probe};
use vstd::prelude::*;

verus! {

/// The command by which the privilege helper is run.
pub const HELPER_COMMAND: &'static str = "doas";

/// The arguments of the helper's run that does nothing: it shows, before any
/// path is touched, whether the helper can be used at all.
pub open spec fn spec_startup_arguments() -> Seq<Seq<char>> {
    seq!["dd"@, "status=none"@, "count=0"@, "of=/dev/null"@]
}

/// The arguments with which the helper carries out `action` for the target
/// `path`, which lies in the directory `parent` and is staged as `working`;
/// nothing for an action that the helper has no part in.
///
/// The helper tests existence and kind with `test`, reports owner and
/// permission bits in the form `%u %a` with `stat`, reads with `cat`, checks
/// its own configuration with `-C`, and writes to the target with `dd`,
/// silenced.
///
/// The write names no input file: the content is fed to the helper on its
/// standard input. What reaches the target is then the very bytes that the
/// stage holds, which are the bytes that were compared, also where the
/// working copy changes on disk between the comparison and the write.
pub open spec fn spec_helper_arguments(
    action: Action,
    path: Seq<char>,
    parent: Seq<char>,
    working: Seq<char>,
) -> Option<Seq<Seq<char>>> {
    match action {
        Action::Probe(Probe::PrivilegedExists) => Some(seq!["test"@, "-e"@, path]),
        Action::Probe(Probe::PrivilegedIsFile) => Some(seq!["test"@, "-f"@, path]),
        Action::Probe(Probe::PrivilegedMetadata) => Some(seq!["stat"@, "-c"@, "%u %a"@, path]),
        Action::Probe(Probe::PrivilegedParentIsDir) => Some(seq!["test"@, "-d"@, parent]),
        Action::ReadPrivileged => Some(seq!["cat"@, path]),
        Action::RunValidator => Some(seq!["-C"@, working]),
        Action::WritePrivileged => Some(seq!["dd"@, "status=none"@, "of="@ + path]),
        _ => None,
    }
}

fn two(first: &str, second: &str) -> (args: Vec<String>)
    ensures
        args.deep_view() == seq![first@, second@],
{
    let mut args: Vec<String> = Vec::new();
    args.push(String::from_str(first));
    args.push(String::from_str(second));
    assert(args.deep_view() =~= seq![first@, second@]);
    args
}

fn three(first: &str, second: &str, third: &str) -> (args: Vec<String>)
    ensures
        args.deep_view() == seq![first@, second@, third@],
{
    let mut args: Vec<String> = Vec::new();
    args.push(String::from_str(first));
    args.push(String::from_str(second));
    args.push(String::from_str(third));
    assert(args.deep_view() =~= seq![first@, second@, third@]);
    args
}

fn four(first: &str, second: &str, third: &str, fourth: &str) -> (args: Vec<String>)
    ensures
        args.deep_view() == seq![first@, second@, third@, fourth@],
{
    let mut args: Vec<String> = Vec::new();
    args.push(String::from_str(first));
    args.push(String::from_str(second));
    args.push(String::from_str(third));
    args.push(String::from_str(fourth));
    assert(args.deep_view() =~= seq![first@, second@, third@, fourth@]);
    args
}

/// The arguments of the helper's run that does nothing.
pub fn startup_arguments() -> (args: Vec<String>)
    ensures
        args.deep_view() == spec_startup_arguments(),
{
    four("dd", "status=none", "count=0", "of=/dev/null")
}

/// The arguments with which the helper carries out `action` for the target
/// `file_path`, which lies in the directory `parent` and is staged as
/// `working_path`; nothing for an action that the helper has no part in.
pub fn helper_arguments(action: Action, file_path: &str, parent: &str, working_path: &str) -> (args:
    Option<Vec<String>>)
    ensures
        args.deep_view() == spec_helper_arguments(action, file_path@, parent@, working_path@),
{
    match action {
        Action::Probe(Probe::PrivilegedExists) => Some(three("test", "-e", file_path)),
        Action::Probe(Probe::PrivilegedIsFile) => Some(three("test", "-f", file_path)),
        Action::Probe(Probe::PrivilegedMetadata) => Some(four("stat", "-c", "%u %a", file_path)),
        Action::Probe(Probe::PrivilegedParentIsDir) => Some(three("test", "-d", parent)),
        Action::ReadPrivileged => Some(two("cat", file_path)),
        Action::RunValidator => Some(two("-C", working_path)),
        Action::WritePrivileged => {
            let target = String::from_str("of=").concat(file_path);
            Some(three("dd", "status=none", target.as_str()))
        },
        _ => None,
    }
}

} // verus!
