//! The command line of the project's own tasks.

use vstd::prelude::*;

use crate::error::joined;
use crate::text::same;

verus! {

/// What a command line asks for.
pub enum XtaskCommand {
    /// Nothing: the usage is shown.
    Usage,
    /// Generate protobuf bindings.
    Codegen,
    /// Something that there is not.
    Unknown(String),
}

/// What the command line asks for: its first argument, behind the name of the
/// program, is the command.
pub fn xtask_command(args: &Vec<String>) -> (res: XtaskCommand)
    ensures
        if args@.len() < 2 {
            res is Usage
        } else if args@[1]@ == "codegen"@ {
            res is Codegen
        } else {
            res matches XtaskCommand::Unknown(cmd) && cmd@ == args@[1]@
        },
{
    if args.len() < 2 {
        XtaskCommand::Usage
    } else if same(args[1].as_str(), "codegen") {
        XtaskCommand::Codegen
    } else {
        XtaskCommand::Unknown(args[1].clone())
    }
}

impl XtaskCommand {
    /// What is told to someone who did not name a command that there is, after
    /// which the program fails.
    pub fn complaint(&self) -> (res: Option<String>)
        ensures
            match self {
                XtaskCommand::Usage => res matches Some(m) && m@
                    == "Usage: cargo xtask <COMMAND>\n\nCommands:\n  codegen    Generate protobuf bindings from .proto files\n"@,
                XtaskCommand::Unknown(cmd) => res matches Some(m) && m@ == "Unknown command: "@
                    + cmd@
                    + "\n\nAvailable commands:\n  codegen    Generate protobuf bindings from .proto files\n"@,
                XtaskCommand::Codegen => res is None,
            },
    {
        match self {
            XtaskCommand::Usage => Some(
                "Usage: cargo xtask <COMMAND>\n\nCommands:\n  codegen    Generate protobuf bindings from .proto files\n".to_owned(),
            ),
            XtaskCommand::Unknown(cmd) => {
                let mut message = joined("Unknown command: ", cmd.as_str());
                message.append(
                    "\n\nAvailable commands:\n  codegen    Generate protobuf bindings from .proto files\n",
                );
                Some(message)
            },
            XtaskCommand::Codegen => None,
        }
    }
}

/// The first argument behind the name of the program is the command; there is
/// one command, and anything else is told back to whoever gave it.
pub proof fn law_commands(args: Vec<String>, command: XtaskCommand, complaint: Option<String>)
    requires
        call_ensures(xtask_command, (&args,), command),
        call_ensures(XtaskCommand::complaint, (&command,), complaint),
    ensures
        args@.len() < 2 <==> command is Usage,
        args@.len() >= 2 && args@[1]@ == "codegen"@ <==> command is Codegen,
        command is Codegen <==> complaint is None,
        args@.len() >= 2 && args@[1]@ != "codegen"@ ==> (complaint matches Some(m) && m@
            == "Unknown command: "@ + args@[1]@
            + "\n\nAvailable commands:\n  codegen    Generate protobuf bindings from .proto files\n"@),
        args@.len() < 2 ==> (complaint matches Some(m) && m@
            == "Usage: cargo xtask <COMMAND>\n\nCommands:\n  codegen    Generate protobuf bindings from .proto files\n"@),
{
}

} // verus!
