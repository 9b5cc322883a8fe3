//! The top-level command selected on the command line: which action to
//! run, under which name and description.

use vstd::prelude::*;
use crate::strutil::str_eq;

verus! {

broadcast use vstd::string::group_string_axioms;

/// The actions the binary knows.
#[derive(Clone, Copy, PartialEq, Eq, Structural, Debug)]
pub enum CommandOption {
    /// Import a snapshot into a local environment.
    Import,
    /// Update existing local environments.
    Update,
    /// List the available commands.
    List,
}

/// A parsed top-level command.
#[derive(Debug)]
pub struct Command {
    pub name: String,
    pub description: String,
    pub action: CommandOption,
}

impl Command {
    /// Build a `Command` from the command-line arguments (the first entry
    /// is the binary's own name and is skipped). The recognized commands
    /// are `import` and `update`; anything else is rejected, as is an
    /// empty argument list.
    pub fn build(args: Vec<String>) -> (r: Result<Command, &'static str>)
        ensures
            args@.len() < 2 ==> (r matches Err(e) && e@ == "No command provided"@),
            args@.len() >= 2 && args.deep_view()[1] == "import"@ ==> (r matches Ok(c)
                && c.name@ == "import"@ && c.description@ == "Import domains from Merlin"@
                && c.action is Import),
            args@.len() >= 2 && args.deep_view()[1] == "update"@ ==> (r matches Ok(c)
                && c.name@ == "update"@ && c.description@ == "Update domains from Merlin"@
                && c.action is Update),
            args@.len() >= 2 && args.deep_view()[1] != "import"@ && args.deep_view()[1]
                != "update"@ ==> (r matches Err(e) && e@ == "Command not found"@),
    {
        proof {
            reveal_strlit("import");
            reveal_strlit("update");
            assert("import"@[0] == 'i' && "update"@[0] == 'u');
            assert("import"@ != "update"@);
        }
        if args.len() < 2 {
            return Err("No command provided");
        }
        proof {
            assert(args.deep_view()[1] == args@[1]@);
        }
        let command_name = &args[1];
        if str_eq(command_name.as_str(), "import") {
            Ok(
                Command {
                    name: command_name.clone(),
                    description: String::from_str("Import domains from Merlin"),
                    action: CommandOption::Import,
                },
            )
        } else if str_eq(command_name.as_str(), "update") {
            Ok(
                Command {
                    name: command_name.clone(),
                    description: String::from_str("Update domains from Merlin"),
                    action: CommandOption::Update,
                },
            )
        } else {
            Err("Command not found")
        }
    }
}

} // verus!
