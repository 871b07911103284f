use vstd::prelude::*;

verus! {

/// An error carrying a human-readable message.
#[derive(Debug)]
pub struct AppError {
    pub message: String,
}

impl AppError {
    /// An error whose message is `message`.
    pub fn new(message: &str) -> (e: AppError)
        ensures
            e.message@ == message@,
    {
        AppError { message: message.to_owned() }
    }

    /// An error whose message is the given string.
    pub fn from_string(message: String) -> (e: AppError)
        ensures
            e.message@ == message@,
    {
        AppError { message }
    }
}

impl AppError {
    /// An error saying that `context` failed because of `cause`: `context [cause]`.
    pub fn from_cause(context: &str, cause: AppError) -> (e: AppError)
        ensures
            e.message@ == context@ + " ["@ + cause.message@ + "]"@,
    {
        AppError {
            message: String::from_str(context).concat(" [").concat(cause.message.as_str()).concat("]"),
        }
    }
}

/// The result of an operation of this library that can fail.
pub type Result<T> = core::result::Result<T, AppError>;

} // verus!
