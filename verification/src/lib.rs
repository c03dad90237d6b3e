//! Verified value handling for the MuJS embedding interface.

pub mod command;
pub mod cstring;
pub mod flags;
pub mod laws;
pub mod outcome;

pub use command::{Command, ErrorKind};
pub use cstring::{c_string, c_string_prefix, is_c_compatible, text};
pub use flags::{AttributeModel, PropertyAttributes, StateFlags};
pub use outcome::{CallStep, after_status, call_failure, panic_error_index, tostring_result, toboolean_result, truth};
