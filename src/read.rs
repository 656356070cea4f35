use vstd::prelude::*;
use crate::args::{arg_error_message, arg_error_text, string_arg, string_arg_of};
use crate::defs::{is_text, keys_distinct, text_value, FunctionCall, FunctionResponse, Struct, Value};

verus! {

/// `r` is the one-field map `{key: text}`.
pub open spec fn is_single(r: Struct, key: Seq<char>, text: Seq<char>) -> bool {
    &&& keys_distinct(r)
    &&& r.fields@.len() == 1
    &&& r.fields@[0].0@ == key
    &&& is_text(r.fields@[0].1, text)
}

/// The response `{error: message}`.
pub fn respond_error(message: String) -> (r: Struct)
    ensures
        is_single(r, "error"@, message@),
{
    let mut fields: Vec<(String, Value)> = Vec::new();
    fields.push((String::from_str("error"), text_value(message)));
    Struct { fields }
}

/// The response `{result: content}`.
pub fn respond_result(content: String) -> (r: Struct)
    ensures
        is_single(r, "result"@, content@),
{
    let mut fields: Vec<(String, Value)> = Vec::new();
    fields.push((String::from_str("result"), text_value(content)));
    Struct { fields }
}

/// What a `read_fs` call with arguments `args` answers, given the outcome
/// `read` of reading the file its `path` argument names.
pub open spec fn read_answer(r: Struct, args: Option<Struct>, read: Result<String, String>) -> bool {
    match string_arg_of(args, "path"@) {
        Err(e) => is_single(r, "error"@, arg_error_text(e, "path"@)),
        Ok(_) => match read {
            Ok(content) => is_single(r, "result"@, content@),
            Err(message) => is_single(r, "error"@, message@),
        },
    }
}

/// Answers a `read_fs` call. `read` is the whole text of the file named by
/// the call's `path` argument, or why it could not be read; it is not looked
/// at when that argument is unusable.
pub fn handle_read_fs(call: &FunctionCall, read: &Result<String, String>) -> (r: FunctionResponse)
    ensures
        r.id == call.id,
        r.name == call.name,
        match r.response {
            Some(st) => read_answer(st, call.args, *read),
            None => false,
        },
{
    let response = match string_arg(call, "path") {
        Err(e) => respond_error(arg_error_message(e, "path")),
        Ok(_) => match read {
            Ok(content) => respond_result(content.clone()),
            Err(message) => respond_error(message.clone()),
        },
    };
    FunctionResponse { id: call.id.clone(), name: call.name.clone(), response: Some(response) }
}

} // verus!
