//! Judging what the deployment command line reported.
use vstd::prelude::*;
use crate::text::{contains, contains_text};

verus! {

/// `args` joined by single spaces.
pub open spec fn joined(args: Seq<String>) -> Seq<char>
    decreases args.len(),
{
    if args.len() == 0 {
        Seq::empty()
    } else if args.len() == 1 {
        args[0]@
    } else {
        joined(args.drop_last()) + " "@ + args.last()@
    }
}

/// The command line as shown in failure messages: `program`, one space, then
/// `args` joined by single spaces (so a command without arguments keeps its
/// trailing space).
pub fn command_line(program: &str, args: &Vec<String>) -> (r: String)
    ensures
        r@ == program@ + " "@ + joined(args@),
{
    let mut line = program.to_owned();
    line.append(" ");
    let mut i: usize = 0;
    while i < args.len()
        invariant
            i <= args@.len(),
            line@ == program@ + " "@ + joined(args@.subrange(0, i as int)),
        decreases args@.len() - i,
    {
        proof {
            let s = args@.subrange(0, i + 1);
            assert(s.drop_last() =~= args@.subrange(0, i as int));
        }
        if i > 0 {
            line.append(" ");
        }
        line.append(args[i].as_str());
        proof {
            assert(line@ =~= program@ + " "@ + joined(args@.subrange(0, i + 1)));
        }
        i = i + 1;
    }
    assert(args@.subrange(0, args@.len() as int) =~= args@);
    line
}

/// Whether a publish of a local package counts as done: it succeeded, or it
/// failed only because the package is already there.
pub open spec fn publish_ok(success: bool, stderr: Seq<char>) -> bool {
    success || contains(stderr, "already exists"@) || contains(stderr, "Could not create package"@)
}

/// Whether a publish that exited with `success` and wrote `stderr` leaves
/// the package published.
pub fn publish_accepted(success: bool, stderr: &str) -> (r: bool)
    requires
        stderr@.len() < usize::MAX,
    ensures
        r == publish_ok(success, stderr@),
{
    success || contains_text(stderr, "already exists") || contains_text(
        stderr,
        "Could not create package",
    )
}

} // verus!
