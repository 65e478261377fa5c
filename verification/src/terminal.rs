//! Local command execution: invocation shape and output capture.
//!
//! A terminal command runs through the host's command interpreter,
//! synchronously, and only its captured standard output is returned as
//! text; standard error and the exit status are discarded by design.
//! Spawning the process is host I/O and is done by the surrounding
//! application; the library fixes the interpreter invocation and turns
//! the captured bytes into text.

use vstd::prelude::*;
use vstd::string::StringExecFns;

verus! {

/// The text that lossy UTF-8 decoding yields for a byte sequence.
pub uninterp spec fn lossy_text(b: Seq<u8>) -> Seq<char>;

/// How a shell invocation runs a command line: the interpreter
/// program and its argument list, the command line passed verbatim as
/// the last argument.
pub struct ShellInvocation {
    /// The interpreter program.
    pub program: String,
    /// The arguments handed to the interpreter.
    pub args: Vec<String>,
}

/// Relies on String::from_utf8_lossy: the text depends on the bytes
/// alone; valid UTF-8 is kept unchanged (so ASCII bytes map to their
/// own characters) and invalid sequences become replacement
/// characters.
#[verifier::external_body]
fn decode_lossy(bytes: &Vec<u8>) -> (r: String)
    ensures
        r@ == lossy_text(bytes@),
        bytes@.len() == 0 ==> r@.len() == 0,
        (forall|i: int| 0 <= i < bytes@.len() ==> bytes@[i] < 128) ==> r@ == bytes@.map_values(
            |x: u8| x as char,
        ),
{
    String::from_utf8_lossy(bytes.as_slice()).to_string()
}

/// The invocation that runs `command` through the host's command
/// interpreter: `sh -c command`, the command line passed verbatim.
pub fn shell_invocation(command: &str) -> (r: ShellInvocation)
    ensures
        r.program@ == "sh"@,
        r.args@.len() == 2,
        r.args@[0]@ == "-c"@,
        r.args@[1]@ == command@,
{
    let mut args: Vec<String> = Vec::new();
    args.push(String::from_str("-c"));
    args.push(command.to_owned());
    ShellInvocation { program: String::from_str("sh"), args }
}

/// The text returned for a finished command: its captured standard
/// output, decoded as text with lossy UTF-8 decoding.
pub fn terminal_text(stdout: &Vec<u8>) -> (r: String)
    ensures
        r@ == lossy_text(stdout@),
        stdout@.len() == 0 ==> r@.len() == 0,
        (forall|i: int| 0 <= i < stdout@.len() ==> stdout@[i] < 128) ==> r@
            == stdout@.map_values(|x: u8| x as char),
{
    decode_lossy(stdout)
}

} // verus!
