use vstd::prelude::*;
use vstd::string::*;

verus! {

/// The family of operating systems a build targets; it decides which
/// command interpreter runs a command string.
#[derive(Clone, Copy, Debug, PartialEq, Eq, Structural)]
pub enum OsFamily {
    Windows,
    Posix,
}

/// The program to start and the arguments to hand it.
pub struct Invocation {
    pub program: String,
    pub args: Vec<String>,
}

/// The interpreter of a family: `cmd` on Windows, `sh` elsewhere.
pub open spec fn interpreter_of(family: OsFamily) -> Seq<char> {
    match family {
        OsFamily::Windows => seq!['c', 'm', 'd'],
        OsFamily::Posix => seq!['s', 'h'],
    }
}

/// The switch that makes the interpreter run its next argument as a command.
pub open spec fn run_switch_of(family: OsFamily) -> Seq<char> {
    match family {
        OsFamily::Windows => seq!['/', 'C'],
        OsFamily::Posix => seq!['-', 'c'],
    }
}

impl Invocation {
    /// The invocation is the family's interpreter with its run switch and
    /// then the command, untouched.
    pub open spec fn runs(&self, family: OsFamily, command: Seq<char>) -> bool {
        &&& self.program@ == interpreter_of(family)
        &&& self.args@.len() == 2
        &&& self.args@[0]@ == run_switch_of(family)
        &&& self.args@[1]@ == command
    }
}

/// Builds the shell invocation that runs `command` on `family`.
pub fn shell_invocation(family: OsFamily, command: &str) -> (r: Invocation)
    ensures
        r.runs(family, command@),
{
    let (program, switch) = match family {
        OsFamily::Windows => {
            proof {
                reveal_strlit("cmd");
                reveal_strlit("/C");
                assert("cmd"@ =~= interpreter_of(family));
                assert("/C"@ =~= run_switch_of(family));
            }
            (String::from_str("cmd"), String::from_str("/C"))
        },
        OsFamily::Posix => {
            proof {
                reveal_strlit("sh");
                reveal_strlit("-c");
                assert("sh"@ =~= interpreter_of(family));
                assert("-c"@ =~= run_switch_of(family));
            }
            (String::from_str("sh"), String::from_str("-c"))
        },
    };
    let mut args: Vec<String> = Vec::new();
    args.push(switch);
    args.push(String::from_str(command));
    Invocation { program, args }
}

} // verus!
