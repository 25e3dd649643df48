//! A small library backing a desktop application's `convert_video` command.
//!
//! The command takes an input path and an output path and reports the
//! conversion it was asked for as a message of the form
//! `Converted <input> -> <output>`.

use vstd::prelude::*;
use vstd::string::StringExecFns;

verus! {

/// The message that a conversion request for `input` and `output` yields,
/// as a sequence of characters.
pub open spec fn conversion_message(input: Seq<char>, output: Seq<char>) -> Seq<char> {
    "Converted "@ + input + " -> "@ + output
}

/// Handle a request to convert the video at `input` into `output`.
///
/// Every request succeeds, and the success value is exactly the message
/// `Converted <input> -> <output>`.
pub fn convert_video(input: String, output: String) -> (r: Result<String, String>)
    ensures
        r is Ok,
        r matches Ok(m) ==> m@ == conversion_message(input@, output@),
{
    let mut message: String = "Converted ".to_owned();
    message.append(input.as_str());
    message.append(" -> ");
    message.append(output.as_str());
    Ok(message)
}

} // verus!
