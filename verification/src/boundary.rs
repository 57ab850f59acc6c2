//! What the command-line boundary says to its user.

use vstd::prelude::*;
use vstd::string::StringExecFns;

verus! {

/// The usage text for a program called `name`.
pub open spec fn usage_text(name: Seq<char>) -> Seq<char> {
    "usage:\t "@ + name
        + " verify\n\nRead parameters (message, signature, and gpk from stdin, in the rmp format."@
}

/// The usage text, printed when the one recognised subcommand, `verify`, is
/// not what was given.
pub fn usage(name: &str) -> (text: String)
    ensures
        text@ == usage_text(name@),
{
    let mut text = String::from_str("usage:\t ");
    text.append(name);
    text.append(
        " verify\n\nRead parameters (message, signature, and gpk from stdin, in the rmp format.",
    );
    text
}

} // verus!
