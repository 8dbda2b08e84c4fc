use vstd::prelude::*;

use crate::value::{Kind, Value, ValueModel};

verus! {

/// What can go wrong around a client.
#[derive(Debug)]
pub enum Error {
    /// The HTTP exchange failed.
    Transport(String),
    /// The response body is not a well-formed XML-RPC response.
    WireDecode(String),
    /// A struct lacks the named field.
    MissingField(String),
    /// The named field holds a value of another kind than expected; the value is kept.
    WrongFieldType(String, Kind, Value),
    /// A token names no variant of the named enumeration.
    UnknownVariant(String, String),
    /// The response is not a struct; the value is kept.
    MalformedResponse(Value),
    /// The status code is not among the ones the call accepts.
    UnexpectedStatus(Vec<i32>, i32),
}

/// The mathematical content of an `Error`.
pub enum ErrorModel {
    Transport(Seq<char>),
    WireDecode(Seq<char>),
    MissingField(Seq<char>),
    WrongFieldType(Seq<char>, Kind, ValueModel),
    UnknownVariant(Seq<char>, Seq<char>),
    MalformedResponse(ValueModel),
    UnexpectedStatus(Seq<i32>, i32),
}

impl Error {
    pub open spec fn model(self) -> ErrorModel {
        match self {
            Error::Transport(m) => ErrorModel::Transport(m@),
            Error::WireDecode(m) => ErrorModel::WireDecode(m@),
            Error::MissingField(k) => ErrorModel::MissingField(k@),
            Error::WrongFieldType(k, kind, v) => ErrorModel::WrongFieldType(k@, kind, v.model()),
            Error::UnknownVariant(e, t) => ErrorModel::UnknownVariant(e@, t@),
            Error::MalformedResponse(v) => ErrorModel::MalformedResponse(v.model()),
            Error::UnexpectedStatus(exp, got) => ErrorModel::UnexpectedStatus(exp@, got),
        }
    }
}

/// The content of a result: the view of its value, or the model of its error.
pub open spec fn result_view<T: View>(r: Result<T>) -> core::result::Result<T::V, ErrorModel> {
    match r {
        Ok(x) => Ok(x@),
        Err(e) => Err(e.model()),
    }
}

/// A `Result` whose error is this library's `Error`.
pub type Result<T> = core::result::Result<T, Error>;

} // verus!
