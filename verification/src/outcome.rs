use vstd::prelude::*;
use vstd::string::StringExecFns;
use crate::cstring::{text, text_of};
use vstd::utf8::{decode_utf8, valid_utf8};

verus! {

/// The Rust value of a C boolean: every non-zero value is true.
pub open spec fn c_truth(value: i32) -> bool {
    value != 0
}

/// The message of the error that `tostring` gives when the interpreter hands
/// back no string.
pub open spec fn null_string_message() -> Seq<char> {
    "Null string"@
}

/// The answer of a test (`isobject`, `isdefined`, `isundefined`,
/// `hasproperty`) from the C integer that the interpreter returned.
pub fn truth(value: i32) -> (r: bool)
    ensures
        r == c_truth(value),
        r == (value != 0),
{
    value != 0
}

/// The result of `toboolean` from the C integer that the interpreter
/// returned: always a value, true for every non-zero integer.
pub fn toboolean_result(value: i32) -> (r: Result<bool, String>)
    ensures
        r == Ok::<bool, String>(c_truth(value)),
{
    Ok(value != 0)
}

/// The result of `tostring` from what the interpreter handed back: `None`
/// for a null pointer, else the bytes of the C string before its terminator.
pub fn tostring_result(raw: Option<&[u8]>) -> (r: Result<String, String>)
    ensures
        match raw {
            None => r matches Err(e) && e@ == null_string_message(),
            Some(bytes) => r matches Ok(t) && t@ == text_of(bytes@) && (valid_utf8(bytes@) ==> t@
                == decode_utf8(bytes@)),
        },
{
    match raw {
        None => {
            proof {
                reveal_strlit("Null string");
            }
            Err(String::from_str("Null string"))
        },
        Some(bytes) => Ok(text(bytes)),
    }
}

/// What a protected call (`loadstring`, `call`, `construct`, `dostring`) does
/// once the interpreter has returned its status.
#[derive(Debug, PartialEq, Eq)]
pub enum CallStep {
    /// The call is over, with this result.
    Done(Result<(), String>),
    /// The call failed and left its error on the stack: read the value at
    /// this index as a string, and hand it to `call_failure`.
    ReadError(i32),
}

/// The next step of a protected call after the interpreter reported `status`:
/// success exactly where the status is 0; otherwise the error value on top of
/// the stack is to be read.
pub fn after_status(status: i32) -> (r: CallStep)
    ensures
        status == 0 ==> r == CallStep::Done(Ok(())),
        status != 0 ==> r == CallStep::ReadError(-1i32),
{
    if status == 0 {
        CallStep::Done(Ok(()))
    } else {
        CallStep::ReadError(-1)
    }
}

/// The result of a failed protected call, from the text of its error value.
pub fn call_failure(message: Result<String, String>) -> (r: Result<(), String>)
    requires
        message is Ok,
    ensures
        r matches Err(e) && e == message->Ok_0,
{
    match message {
        Ok(m) => Err(m),
        Err(_) => Err(String::new()),
    }
}

/// The index of the error value that an uncaught throw leaves on top of a
/// stack holding `top` values.
pub fn panic_error_index(top: i32) -> (r: i32)
    requires
        top > i32::MIN,
    ensures
        r == top - 1,
{
    top - 1
}

} // verus!
