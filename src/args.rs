use vstd::prelude::*;
use crate::defs::{field_of, FunctionCall, Kind, Struct};
use crate::text::join;

verus! {

/// Why a tool could not read its one string argument.
#[derive(Clone, Copy, Debug, PartialEq, Eq, Structural)]
pub enum ArgError {
    /// The call carries no arguments at all.
    NoArgs,
    /// The argument is absent.
    Missing,
    /// The argument is present but unset.
    Null,
    /// The argument holds something other than a string.
    NotString,
}

/// The string argument `key` of a call whose arguments are `args`.
pub open spec fn string_arg_of(args: Option<Struct>, key: Seq<char>) -> Result<Seq<char>, ArgError> {
    match args {
        None => Err(ArgError::NoArgs),
        Some(s) => match field_of(s, key) {
            None => Err(ArgError::Missing),
            Some(v) => match v.kind {
                None => Err(ArgError::Null),
                Some(Kind::StringValue(t)) => Ok(t@),
                Some(_) => Err(ArgError::NotString),
            },
        },
    }
}

/// The message reported to the model for an argument problem.
pub open spec fn arg_error_text(e: ArgError, key: Seq<char>) -> Seq<char> {
    match e {
        ArgError::NoArgs => "Argument is none"@,
        ArgError::Missing => "Required argument '"@ + key + "' is missing"@,
        ArgError::Null => "Required argument '"@ + key + "' is null"@,
        ArgError::NotString => "String argument '"@ + key + "' is not a string"@,
    }
}

/// Reads the string argument `key` of `call`.
pub fn string_arg(call: &FunctionCall, key: &str) -> (r: Result<String, ArgError>)
    ensures
        match r {
            Ok(s) => string_arg_of(call.args, key@) == Ok::<Seq<char>, ArgError>(s@),
            Err(e) => string_arg_of(call.args, key@) == Err::<Seq<char>, ArgError>(e),
        },
{
    let args = match &call.args {
        None => return Err(ArgError::NoArgs),
        Some(a) => a,
    };
    let k = String::from_str(key);
    let v = match args.get(&k) {
        None => return Err(ArgError::Missing),
        Some(v) => v,
    };
    match &v.kind {
        None => Err(ArgError::Null),
        Some(Kind::StringValue(t)) => Ok(t.clone()),
        Some(_) => Err(ArgError::NotString),
    }
}

/// The message for an argument problem with `key`.
pub fn arg_error_message(e: ArgError, key: &str) -> (r: String)
    ensures
        r@ == arg_error_text(e, key@),
{
    match e {
        ArgError::NoArgs => String::from_str("Argument is none"),
        ArgError::Missing => {
            let a = join("Required argument '", key);
            join(a.as_str(), "' is missing")
        },
        ArgError::Null => {
            let a = join("Required argument '", key);
            join(a.as_str(), "' is null")
        },
        ArgError::NotString => {
            let a = join("String argument '", key);
            join(a.as_str(), "' is not a string")
        },
    }
}

} // verus!
