//! What running a program gave, and how its output is read as text.

use crate::error::{ErrorModel, WebDriverError};
use vstd::prelude::*;
use vstd::utf8::{decode_utf8, valid_utf8};

verus! {

/// What came of running a program once, as the caller observed it.
#[derive(Debug, Clone, PartialEq, Eq)]
pub enum CommandOutcome {
    /// The program could not be started; `source` is the system's message.
    NotStarted { source: String },
    /// The program ran and ended. `success` says whether it ended with
    /// status zero; `stdout` holds what it wrote to its standard output.
    Finished { success: bool, stdout: Vec<u8> },
}

/// How a command is named in errors: the program in single quotes, a space,
/// the argument.
pub open spec fn command_line_model(program: Seq<char>, argument: Seq<char>) -> Seq<char> {
    "'"@ + program + "' "@ + argument
}

/// The text of a command for errors: see [`command_line_model`].
pub fn command_line(program: &str, argument: &str) -> (r: String)
    ensures
        r@ == command_line_model(program@, argument@),
{
    "'".to_string().concat(program).concat("' ").concat(argument)
}

/// The output of `command` as text: the characters that the bytes encode
/// in UTF-8, or `CommandOutputParsingError` with the bytes where they encode
/// none.
pub open spec fn decoded_output(command: Seq<char>, stdout: Seq<u8>) -> Result<
    Seq<char>,
    ErrorModel,
> {
    if valid_utf8(stdout) {
        Ok(decode_utf8(stdout))
    } else {
        Err(ErrorModel::CommandOutputParsingError { command, output: stdout })
    }
}

/// `String::from_utf8`, with `FromUtf8Error::into_bytes` on its error. The
/// contract claims that the bytes become a text exactly where they are
/// valid UTF-8, that the text is what they encode, and that they come back
/// unchanged otherwise.
#[verifier::external_body]
fn string_from_utf8(bytes: Vec<u8>) -> (r: Result<String, Vec<u8>>)
    ensures
        match r {
            Ok(text) => valid_utf8(bytes@) && text@ == decode_utf8(bytes@),
            Err(rejected) => !valid_utf8(bytes@) && rejected@ == bytes@,
        },
{
    String::from_utf8(bytes).map_err(|e| e.into_bytes())
}

/// Reads the output of `command` as text: see [`decoded_output`].
pub fn decode_output(command: String, stdout: Vec<u8>) -> (r: Result<String, WebDriverError>)
    ensures
        match r {
            Ok(text) => decoded_output(command@, stdout@) == Ok::<Seq<char>, ErrorModel>(text@),
            Err(e) => decoded_output(command@, stdout@) == Err::<Seq<char>, ErrorModel>(e@),
        },
{
    match string_from_utf8(stdout) {
        Ok(text) => Ok(text),
        Err(output) => Err(WebDriverError::CommandOutputParsingError { command, output }),
    }
}

} // verus!
