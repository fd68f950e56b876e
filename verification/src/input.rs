//! The root-path argument and its default.
//!
//! The root path comes from a command-line option whose default is a
//! sentinel; when the sentinel is seen, the process's current working
//! directory is offered instead. The chosen string is only a suggestion
//! for the interactive path prompt — the caller re-validates that the
//! final path exists on disk.

use vstd::prelude::*;
use vstd::string::*;

verus! {

/// The command-line arguments the engine cares about: the starting
/// suggestion for the root path, or the sentinel when none was given.
pub struct Args {
    pub path: String,
}

/// Whether the argument still holds the "no path given" sentinel.
pub open spec fn spec_is_sentinel(path: Seq<char>) -> bool {
    path == "<NONE_PATH>"@
}

/// Whether `path` is the "no path given" sentinel.
pub fn is_sentinel(path: &str) -> (b: bool)
    ensures
        b == spec_is_sentinel(path@),
{
    let given = path.to_owned();
    let sentinel = "<NONE_PATH>".to_owned();
    given == sentinel
}

/// The starting suggestion for the path prompt: the argument as given,
/// or the current working directory when the argument was absent.
pub fn resolve_path(args: &Args, cwd: &str) -> (r: String)
    ensures
        r@ == (if spec_is_sentinel(args.path@) {
            cwd@
        } else {
            args.path@
        }),
{
    if is_sentinel(args.path.as_str()) {
        cwd.to_owned()
    } else {
        args.path.clone()
    }
}

} // verus!
