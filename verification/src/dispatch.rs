//! The dispatch boundary.
//!
//! The front-end invokes operations by name, with every argument
//! carried as a string. [`parse_command`] marshals such an invocation
//! into the typed [`Command`] it denotes, and rejects anything else —
//! an unknown operation name or a wrong argument count — with a
//! marshalling error before any operation could run. It performs no
//! business logic itself.

use crate::errors::CommandError;
use crate::text::str_eq;
use vstd::prelude::*;
use vstd::string::StringExecFns;

verus! {

/// One typed invocation of the command surface.
#[derive(Debug)]
pub enum Command {
    /// Return the text content of the file at `path`.
    ReadFile { path: String },
    /// Overwrite (or create) the file at `path` with `content`.
    WriteFile { path: String, content: String },
    /// List the immediate children of the directory at `path`.
    ListDir { path: String },
    /// Forward one chat message to a registered provider.
    AiChat { provider: String, model: String, message: String, api_key: String },
    /// Open the project store at `path` and ensure its tables exist.
    InitDb { path: String },
    /// Run a command line through the host's interpreter.
    SpawnTerminal { command: String },
}

/// Whether `op` names an operation of the command surface and `n`
/// arguments fit it.
pub open spec fn valid_invocation(op: Seq<char>, n: nat) -> bool {
    ||| (op == "read_file"@ && n == 1)
    ||| (op == "write_file"@ && n == 2)
    ||| (op == "list_dir"@ && n == 1)
    ||| (op == "ai_chat"@ && n == 4)
    ||| (op == "init_db"@ && n == 1)
    ||| (op == "spawn_terminal"@ && n == 1)
}

/// Marshals one named invocation into the typed command it denotes.
/// An unknown name or a wrong argument count is a marshalling error,
/// raised before the underlying operation could execute.
pub fn parse_command(op: &str, args: &Vec<String>) -> (r: Result<Command, CommandError>)
    ensures
        r is Ok <==> valid_invocation(op@, args@.len() as nat),
        r matches Err(e) ==> e matches CommandError::MarshalError(_),
        r matches Ok(c) ==> (op@ == "read_file"@ ==> (c matches Command::ReadFile { path }
            && path@ == args@[0]@)),
        r matches Ok(c) ==> (op@ == "write_file"@ ==> (c matches Command::WriteFile {
            path,
            content,
        } && path@ == args@[0]@ && content@ == args@[1]@)),
        r matches Ok(c) ==> (op@ == "list_dir"@ ==> (c matches Command::ListDir { path }
            && path@ == args@[0]@)),
        r matches Ok(c) ==> (op@ == "ai_chat"@ ==> (c matches Command::AiChat {
            provider,
            model,
            message,
            api_key,
        } && provider@ == args@[0]@ && model@ == args@[1]@ && message@ == args@[2]@
            && api_key@ == args@[3]@)),
        r matches Ok(c) ==> (op@ == "init_db"@ ==> (c matches Command::InitDb { path }
            && path@ == args@[0]@)),
        r matches Ok(c) ==> (op@ == "spawn_terminal"@ ==> (c matches Command::SpawnTerminal {
            command,
        } && command@ == args@[0]@)),
{
    proof {
        reveal_strlit("read_file");
        reveal_strlit("write_file");
        reveal_strlit("list_dir");
        reveal_strlit("ai_chat");
        reveal_strlit("init_db");
        reveal_strlit("spawn_terminal");
        assert("read_file"@.len() == 9);
        assert("write_file"@.len() == 10);
        assert("list_dir"@.len() == 8);
        assert("ai_chat"@.len() == 7);
        assert("init_db"@.len() == 7);
        assert("spawn_terminal"@.len() == 14);
        assert("ai_chat"@ != "init_db"@) by {
            assert("ai_chat"@[0] == 'a');
            assert("init_db"@[0] == 'i');
        }
    }
    if str_eq(op, "read_file") {
        if args.len() == 1 {
            Result::Ok(Command::ReadFile { path: args[0].clone() })
        } else {
            Result::Err(marshal_error())
        }
    } else if str_eq(op, "write_file") {
        if args.len() == 2 {
            Result::Ok(Command::WriteFile { path: args[0].clone(), content: args[1].clone() })
        } else {
            Result::Err(marshal_error())
        }
    } else if str_eq(op, "list_dir") {
        if args.len() == 1 {
            Result::Ok(Command::ListDir { path: args[0].clone() })
        } else {
            Result::Err(marshal_error())
        }
    } else if str_eq(op, "ai_chat") {
        if args.len() == 4 {
            Result::Ok(
                Command::AiChat {
                    provider: args[0].clone(),
                    model: args[1].clone(),
                    message: args[2].clone(),
                    api_key: args[3].clone(),
                },
            )
        } else {
            Result::Err(marshal_error())
        }
    } else if str_eq(op, "init_db") {
        if args.len() == 1 {
            Result::Ok(Command::InitDb { path: args[0].clone() })
        } else {
            Result::Err(marshal_error())
        }
    } else if str_eq(op, "spawn_terminal") {
        if args.len() == 1 {
            Result::Ok(Command::SpawnTerminal { command: args[0].clone() })
        } else {
            Result::Err(marshal_error())
        }
    } else {
        Result::Err(marshal_error())
    }
}

/// The marshalling failure returned for an invocation that matches no
/// operation.
fn marshal_error() -> (r: CommandError)
    ensures
        r matches CommandError::MarshalError(_),
{
    CommandError::MarshalError(String::from_str("invalid command invocation"))
}

} // verus!
