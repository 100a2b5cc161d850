//! Choosing the mode of the program from its command line.

use vstd::prelude::*;

use crate::text::str_equals;

verus! {

/// The modes the program runs in.
#[derive(Clone, Copy, PartialEq, Eq, Structural, Debug)]
pub enum Mode {
    /// Serve the HTTP interface.
    Server,
    /// Run the synchronisation daemon.
    Daemon,
}

/// The message for a command line without a mode, for the program name
/// `program`.
pub open spec fn usage_text(program: Seq<char>) -> Seq<char> {
    "Usage: "@ + program + " <server|daemon>"@
}

/// The message for an unknown mode.
pub open spec fn unknown_mode_text(mode: Seq<char>) -> Seq<char> {
    "Unknown mode: '"@ + mode + "'. Valid modes are: server, daemon"@
}

/// The mode that the command line `args` (the program name first) asks
/// for, or the message to print before exiting with status 1.
pub fn select_mode(args: &Vec<String>) -> (r: Result<Mode, String>)
    ensures
        args@.len() >= 2 && args@[1]@ == "server"@ ==> r == Ok::<Mode, String>(Mode::Server),
        args@.len() >= 2 && args@[1]@ == "daemon"@ ==> r == Ok::<Mode, String>(Mode::Daemon),
        args@.len() >= 2 && args@[1]@ != "server"@ && args@[1]@ != "daemon"@ ==> (r matches Err(m)
            && m@ == unknown_mode_text(args@[1]@)),
        args@.len() == 1 ==> (r matches Err(m) && m@ == usage_text(args@[0]@)),
        args@.len() == 0 ==> (r matches Err(m) && m@ == usage_text("synker"@)),
{
    proof {
        reveal_strlit("server");
        reveal_strlit("daemon");
        assert("server"@[0] != "daemon"@[0]);
    }
    if args.len() >= 2 {
        let mode = args[1].as_str();
        if str_equals(mode, "server") {
            Ok(Mode::Server)
        } else if str_equals(mode, "daemon") {
            Ok(Mode::Daemon)
        } else {
            let mut m = String::from_str("Unknown mode: '");
            m.append(mode);
            m.append("'. Valid modes are: server, daemon");
            Err(m)
        }
    } else {
        let mut m = String::from_str("Usage: ");
        if args.len() == 1 {
            m.append(args[0].as_str());
        } else {
            m.append("synker");
        }
        m.append(" <server|daemon>");
        Err(m)
    }
}

} // verus!
