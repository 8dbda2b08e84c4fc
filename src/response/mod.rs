use vstd::prelude::*;

pub mod account;
pub mod nameserver;

use crate::common::get_i32;
use crate::common::int_spec;
use crate::error::{result_view, Error, ErrorModel, Result};
use crate::value::{
    find, members_model, opt_model, position, FieldModel, Kind, Member, Value, ValueModel,
};

verus! {

/// The envelope of every response: a status code and, for some calls, a payload.
#[derive(Debug)]
pub struct ResponseData<T> {
    pub status: i32,
    pub params: Option<T>,
}

/// The data type that a call answers with, decoded from the payload of the envelope.
pub trait Response: Sized + View {
    /// What decoding a payload, or its absence, yields.
    spec fn payload_spec(payload: Option<ValueModel>) -> core::result::Result<Self::V, ErrorModel>;

    fn from_payload(payload: Option<Value>) -> (r: Result<Self>)
        ensures
            result_view(r) == Self::payload_spec(opt_model(payload)),
    ;
}

/// Calls that answer with nothing ignore the payload.
impl Response for () {
    open spec fn payload_spec(payload: Option<ValueModel>) -> core::result::Result<(), ErrorModel> {
        Ok(())
    }

    fn from_payload(payload: Option<Value>) -> (r: Result<()>) {
        Ok(())
    }
}

/// The fields of a payload that must be there and must be a struct.
pub open spec fn payload_fields(payload: Option<ValueModel>) -> core::result::Result<
    Seq<FieldModel>,
    ErrorModel,
> {
    match payload {
        None => Err(ErrorModel::MissingField("resData"@)),
        Some(ValueModel::Struct(fields)) => Ok(fields),
        Some(v) => Err(ErrorModel::WrongFieldType("resData"@, Kind::Struct, v)),
    }
}

/// The members of a payload that must be there and must be a struct.
pub fn payload_members(payload: Option<Value>) -> (r: Result<Vec<Member>>)
    ensures
        match r {
            Ok(m) => payload_fields(opt_model(payload)) == Ok::<Seq<FieldModel>, ErrorModel>(
                members_model(m@),
            ),
            Err(e) => payload_fields(opt_model(payload)) == Err::<Seq<FieldModel>, ErrorModel>(
                e.model(),
            ),
        },
{
    match payload {
        None => Err(Error::MissingField("resData".to_owned())),
        Some(Value::Struct(m)) => Ok(m),
        Some(v) => Err(Error::WrongFieldType("resData".to_owned(), Kind::Struct, v)),
    }
}

/// What reading the envelope of a response yields: its status code and its payload, if any.
pub open spec fn envelope_spec(reply: ValueModel) -> core::result::Result<
    (i32, Option<ValueModel>),
    ErrorModel,
> {
    match reply {
        ValueModel::Struct(fields) => match int_spec(fields, "code"@) {
            Ok(code) => Ok((code, find(fields, "resData"@))),
            Err(e) => Err(e),
        },
        _ => Err(ErrorModel::MalformedResponse(reply)),
    }
}

/// Splits a response into its status code and its payload.
pub fn read_envelope(reply: Value) -> (r: Result<ResponseData<Value>>)
    ensures
        match r {
            Ok(d) => envelope_spec(reply.model()) == Ok::<(i32, Option<ValueModel>), ErrorModel>(
                (d.status, opt_model(d.params)),
            ),
            Err(e) => envelope_spec(reply.model()) == Err::<(i32, Option<ValueModel>), ErrorModel>(
                e.model(),
            ),
        },
{
    match reply {
        Value::Struct(mut members) => {
            let ghost fields = members_model(members@);
            let status = match get_i32(&members, "code".to_owned()) {
                Ok(c) => c,
                Err(e) => return Err(e),
            };
            let key = "resData".to_owned();
            let params = match position(&members, &key) {
                Some(i) => Some(members.remove(i).value),
                None => None,
            };
            assert(opt_model(params) == find(fields, "resData"@));
            Ok(ResponseData { status, params })
        },
        _ => Err(Error::MalformedResponse(reply)),
    }
}

} // verus!
