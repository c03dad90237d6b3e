use vstd::prelude::*;
use crate::cstring::{c_bytes, c_compatible, c_string, c_string_prefix, until_nul};
use crate::flags::{PropertyAttributes, attribute_bits};
use vstd::string::StringSliceAdditionalSpecFns;

verus! {

/// The C value of a boolean: 1 for true, 0 for false.
pub open spec fn bool_to_c(b: bool) -> i32 {
    if b {
        1i32
    } else {
        0i32
    }
}

/// The kinds of error object the interpreter can create.
#[derive(Clone, Copy, Debug, PartialEq, Eq, Structural)]
pub enum ErrorKind {
    /// `Error`
    Error,
    /// `EvalError`
    EvalError,
    /// `RangeError`
    RangeError,
    /// `ReferenceError`
    ReferenceError,
    /// `SyntaxError`
    SyntaxError,
    /// `TypeError`
    TypeError,
    /// `URIError`
    UriError,
}

/// One call into the interpreter, with its arguments as the C side receives
/// them: strings NUL-terminated, booleans and attributes as C integers.
/// Stack indices count from the bottom when non-negative and from the top
/// (`-1` is the top) when negative.
#[derive(Debug, PartialEq, Eq)]
pub enum Command {
    /// Run the garbage collector; `report` non-zero prints statistics.
    Gc { report: i32 },
    /// Compile `source` and push it as a function (protected: returns a status).
    LoadString { filename: Vec<u8>, source: Vec<u8> },
    /// Call the function below `args` arguments and a this value (protected).
    Call { args: i32 },
    /// Call the constructor below `args` arguments (protected).
    Construct { args: i32 },
    /// Compile and run `source` (protected).
    DoString { source: Vec<u8> },
    /// Pop the value on top and throw it.
    Throw,
    /// Push a new error object of `kind` with `message`.
    NewError { kind: ErrorKind, message: Vec<u8> },
    /// Return the number of values on the stack.
    GetTop,
    /// Pop `count` values.
    Pop { count: i32 },
    /// Push a copy of the value at `index`.
    Copy { index: i32 },
    /// Push a new empty object.
    NewObject,
    /// Return non-zero where the value at `index` is an object.
    IsObject { index: i32 },
    /// Push undefined.
    PushUndefined,
    /// Push null.
    PushNull,
    /// Push a boolean, given as a C integer.
    PushBoolean { value: i32 },
    /// Push a string.
    PushString { value: Vec<u8> },
    /// Return non-zero where the object at `index` has property `name`.
    HasProperty { index: i32, name: Vec<u8> },
    /// Pop the top value and assign it to property `name` of the object at `index`.
    SetProperty { index: i32, name: Vec<u8> },
    /// Push the value of property `name` of the object at `index`.
    GetProperty { index: i32, name: Vec<u8> },
    /// Pop the top value and define it as property `name` with `attrs`.
    DefProperty { index: i32, name: Vec<u8>, attrs: i32 },
    /// Pop a getter and a setter and define them for property `name` with `attrs`.
    DefAccessor { index: i32, name: Vec<u8>, attrs: i32 },
    /// Delete property `name` of the object at `index`.
    DelProperty { index: i32, name: Vec<u8> },
    /// Push the object of the global environment.
    PushGlobal,
    /// Push the value of global variable `name`.
    GetGlobal { name: Vec<u8> },
    /// Pop the top value and assign it to global variable `name`.
    SetGlobal { name: Vec<u8> },
    /// Pop the top value and define it as global variable `name` with `attrs`.
    DefGlobal { name: Vec<u8>, attrs: i32 },
    /// Return non-zero where the value at `index` is not undefined.
    IsDefined { index: i32 },
    /// Return non-zero where the value at `index` is undefined.
    IsUndefined { index: i32 },
    /// Return the truth value of the value at `index` as a C integer.
    ToBoolean { index: i32 },
}

/// Run the garbage collector, printing statistics where `report` holds.
pub fn gc(report: bool) -> (r: Command)
    ensures
        r == (Command::Gc { report: bool_to_c(report) }),
{
    if report {
        Command::Gc { report: 1 }
    } else {
        Command::Gc { report: 0 }
    }
}

/// Compile `source`, under the virtual file name `filename`.
pub fn loadstring(filename: &str, source: &str) -> (r: Command)
    requires
        c_compatible(filename),
        c_compatible(source),
    ensures
        r matches Command::LoadString { filename: f, source: s } && f@ == c_bytes(filename) && s@
            == c_bytes(source),
{
    Command::LoadString { filename: c_string(filename), source: c_string(source) }
}

/// Compile and run `source`.
pub fn dostring(source: &str) -> (r: Command)
    requires
        c_compatible(source),
    ensures
        r matches Command::DoString { source: s } && s@ == c_bytes(source),
{
    Command::DoString { source: c_string(source) }
}

/// Push a new error object of `kind`. The interpreter reads the message up to
/// its first NUL, so that is what it is given.
pub fn newerror(kind: ErrorKind, message: &str) -> (r: Command)
    ensures
        r matches Command::NewError { kind: k, message: m } && k == kind && m@ == until_nul(
            message.spec_bytes(),
        ).push(0u8),
{
    Command::NewError { kind, message: c_string_prefix(message) }
}

/// Throw a new error of `kind` in the executing environment: create the error
/// object, then throw it.
pub fn error(kind: ErrorKind, message: &str) -> (r: Vec<Command>)
    ensures
        r.len() == 2,
        r[0] matches Command::NewError { kind: k, message: m } && k == kind && m@ == until_nul(
            message.spec_bytes(),
        ).push(0u8),
        r[1] is Throw,
{
    let mut v: Vec<Command> = Vec::new();
    v.push(newerror(kind, message));
    v.push(Command::Throw);
    v
}

/// Push a boolean.
pub fn pushboolean(value: bool) -> (r: Command)
    ensures
        r == (Command::PushBoolean { value: bool_to_c(value) }),
{
    if value {
        Command::PushBoolean { value: 1 }
    } else {
        Command::PushBoolean { value: 0 }
    }
}

/// Push a string.
pub fn pushstring(value: &str) -> (r: Command)
    requires
        c_compatible(value),
    ensures
        r matches Command::PushString { value: v } && v@ == c_bytes(value),
{
    Command::PushString { value: c_string(value) }
}

/// Test whether the object at `index` has property `name`.
pub fn hasproperty(index: i32, name: &str) -> (r: Command)
    requires
        c_compatible(name),
    ensures
        r matches Command::HasProperty { index: i, name: n } && i == index && n@ == c_bytes(name),
{
    Command::HasProperty { index, name: c_string(name) }
}

/// Assign the top value to property `name` of the object at `index`.
pub fn setproperty(index: i32, name: &str) -> (r: Command)
    requires
        c_compatible(name),
    ensures
        r matches Command::SetProperty { index: i, name: n } && i == index && n@ == c_bytes(name),
{
    Command::SetProperty { index, name: c_string(name) }
}

/// Push property `name` of the object at `index`.
pub fn getproperty(index: i32, name: &str) -> (r: Command)
    requires
        c_compatible(name),
    ensures
        r matches Command::GetProperty { index: i, name: n } && i == index && n@ == c_bytes(name),
{
    Command::GetProperty { index, name: c_string(name) }
}

/// Define property `name` of the object at `index` with the top value and `attrs`.
pub fn defproperty(index: i32, name: &str, attrs: PropertyAttributes) -> (r: Command)
    requires
        c_compatible(name),
    ensures
        r matches Command::DefProperty { index: i, name: n, attrs: a } && i == index && n@
            == c_bytes(name) && a == attribute_bits(attrs@),
{
    Command::DefProperty { index, name: c_string(name), attrs: attrs.bits() }
}

/// Define a getter and a setter for property `name` of the object at `index`.
pub fn defaccessor(index: i32, name: &str, attrs: PropertyAttributes) -> (r: Command)
    requires
        c_compatible(name),
    ensures
        r matches Command::DefAccessor { index: i, name: n, attrs: a } && i == index && n@
            == c_bytes(name) && a == attribute_bits(attrs@),
{
    Command::DefAccessor { index, name: c_string(name), attrs: attrs.bits() }
}

/// Delete property `name` of the object at `index`.
pub fn delproperty(index: i32, name: &str) -> (r: Command)
    requires
        c_compatible(name),
    ensures
        r matches Command::DelProperty { index: i, name: n } && i == index && n@ == c_bytes(name),
{
    Command::DelProperty { index, name: c_string(name) }
}

/// Push global variable `name`.
pub fn getglobal(name: &str) -> (r: Command)
    requires
        c_compatible(name),
    ensures
        r matches Command::GetGlobal { name: n } && n@ == c_bytes(name),
{
    Command::GetGlobal { name: c_string(name) }
}

/// Assign the top value to global variable `name`.
pub fn setglobal(name: &str) -> (r: Command)
    requires
        c_compatible(name),
    ensures
        r matches Command::SetGlobal { name: n } && n@ == c_bytes(name),
{
    Command::SetGlobal { name: c_string(name) }
}

/// Define global variable `name` with the top value and `attrs`.
pub fn defglobal(name: &str, attrs: PropertyAttributes) -> (r: Command)
    requires
        c_compatible(name),
    ensures
        r matches Command::DefGlobal { name: n, attrs: a } && n@ == c_bytes(name) && a
            == attribute_bits(attrs@),
{
    Command::DefGlobal { name: c_string(name), attrs: attrs.bits() }
}

} // verus!
