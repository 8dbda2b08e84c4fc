use vstd::prelude::*;

pub mod nameserver;

use crate::error::{result_view, Error, ErrorModel, Result};
use crate::value::{
    find, items_model, lookup, members_model, DateTime, FieldModel, Kind, Member, Value,
    ValueModel,
};

verus! {

/// Whether a string holds exactly the given text.
pub fn text_is(s: &String, text: &str) -> (r: bool)
    ensures
        r == (s@ == text@),
{
    *s == text.to_owned()
}

/// What reading the string field `key` yields: its content, or why not.
pub open spec fn str_spec(fields: Seq<FieldModel>, key: Seq<char>) -> core::result::Result<
    Seq<char>,
    ErrorModel,
> {
    match find(fields, key) {
        None => Err(ErrorModel::MissingField(key)),
        Some(ValueModel::Str(s)) => Ok(s),
        Some(v) => Err(ErrorModel::WrongFieldType(key, Kind::Str, v)),
    }
}

/// Reads the string field `key`.
pub fn get_str(members: &Vec<Member>, key: String) -> (r: Result<String>)
    ensures
        result_view(r) == str_spec(members_model(members@), key@),
{
    match lookup(members, &key) {
        None => Err(Error::MissingField(key)),
        Some(Value::Str(s)) => Ok(s.clone()),
        Some(v) => Err(Error::WrongFieldType(key, Kind::Str, v.deep_copy())),
    }
}

/// What reading the 32-bit integer field `key` yields: its content, or why not.
pub open spec fn int_spec(fields: Seq<FieldModel>, key: Seq<char>) -> core::result::Result<
    i32,
    ErrorModel,
> {
    match find(fields, key) {
        None => Err(ErrorModel::MissingField(key)),
        Some(ValueModel::Int(i)) => Ok(i),
        Some(v) => Err(ErrorModel::WrongFieldType(key, Kind::Int, v)),
    }
}

/// Reads the 32-bit integer field `key`.
pub fn get_i32(members: &Vec<Member>, key: String) -> (r: Result<i32>)
    ensures
        result_view(r) == int_spec(members_model(members@), key@),
{
    match lookup(members, &key) {
        None => Err(Error::MissingField(key)),
        Some(Value::Int(i)) => Ok(*i),
        Some(v) => Err(Error::WrongFieldType(key, Kind::Int, v.deep_copy())),
    }
}

/// What reading the boolean field `key` yields: its content, or why not.
pub open spec fn bool_spec(fields: Seq<FieldModel>, key: Seq<char>) -> core::result::Result<
    bool,
    ErrorModel,
> {
    match find(fields, key) {
        None => Err(ErrorModel::MissingField(key)),
        Some(ValueModel::Bool(b)) => Ok(b),
        Some(v) => Err(ErrorModel::WrongFieldType(key, Kind::Bool, v)),
    }
}

/// Reads the boolean field `key`.
pub fn get_bool(members: &Vec<Member>, key: String) -> (r: Result<bool>)
    ensures
        result_view(r) == bool_spec(members_model(members@), key@),
{
    match lookup(members, &key) {
        None => Err(Error::MissingField(key)),
        Some(Value::Bool(b)) => Ok(*b),
        Some(v) => Err(Error::WrongFieldType(key, Kind::Bool, v.deep_copy())),
    }
}

/// What reading the date-time field `key` yields: its content, or why not.
pub open spec fn datetime_spec(fields: Seq<FieldModel>, key: Seq<char>) -> core::result::Result<
    DateTime,
    ErrorModel,
> {
    match find(fields, key) {
        None => Err(ErrorModel::MissingField(key)),
        Some(ValueModel::DateTime(d)) => Ok(d),
        Some(v) => Err(ErrorModel::WrongFieldType(key, Kind::DateTime, v)),
    }
}

/// Reads the date-time field `key`.
pub fn get_datetime(members: &Vec<Member>, key: String) -> (r: Result<DateTime>)
    ensures
        result_view(r) == datetime_spec(members_model(members@), key@),
{
    match lookup(members, &key) {
        None => Err(Error::MissingField(key)),
        Some(Value::DateTime(d)) => Ok(*d),
        Some(v) => Err(Error::WrongFieldType(key, Kind::DateTime, v.deep_copy())),
    }
}

/// What reading the array field `key` yields: its content, or why not.
pub open spec fn array_spec(fields: Seq<FieldModel>, key: Seq<char>) -> core::result::Result<
    Seq<ValueModel>,
    ErrorModel,
> {
    match find(fields, key) {
        None => Err(ErrorModel::MissingField(key)),
        Some(ValueModel::Array(a)) => Ok(a),
        Some(v) => Err(ErrorModel::WrongFieldType(key, Kind::Array, v)),
    }
}

/// Reads the array field `key`.
pub fn get_array(members: &Vec<Member>, key: String) -> (r: Result<&Vec<Value>>)
    ensures
        match r {
            Ok(a) => array_spec(members_model(members@), key@) == Ok::<Seq<ValueModel>, ErrorModel>(
                items_model(a@),
            ),
            Err(e) => array_spec(members_model(members@), key@) == Err::<Seq<ValueModel>, ErrorModel>(
                e.model(),
            ),
        },
{
    match lookup(members, &key) {
        None => Err(Error::MissingField(key)),
        Some(Value::Array(a)) => Ok(a),
        Some(v) => Err(Error::WrongFieldType(key, Kind::Array, v.deep_copy())),
    }
}

/// What reading the struct field `key` yields: its content, or why not.
pub open spec fn struct_spec(fields: Seq<FieldModel>, key: Seq<char>) -> core::result::Result<
    Seq<FieldModel>,
    ErrorModel,
> {
    match find(fields, key) {
        None => Err(ErrorModel::MissingField(key)),
        Some(ValueModel::Struct(m)) => Ok(m),
        Some(v) => Err(ErrorModel::WrongFieldType(key, Kind::Struct, v)),
    }
}

/// Reads the struct field `key`.
pub fn get_map(members: &Vec<Member>, key: String) -> (r: Result<&Vec<Member>>)
    ensures
        match r {
            Ok(a) => struct_spec(members_model(members@), key@) == Ok::<Seq<FieldModel>, ErrorModel>(
                members_model(a@),
            ),
            Err(e) => struct_spec(members_model(members@), key@) == Err::<Seq<FieldModel>, ErrorModel>(
                e.model(),
            ),
        },
{
    match lookup(members, &key) {
        None => Err(Error::MissingField(key)),
        Some(Value::Struct(m)) => Ok(m),
        Some(v) => Err(Error::WrongFieldType(key, Kind::Struct, v.deep_copy())),
    }
}
/// A field that may be left out: absence gives `None`; any other failure stays a failure.
pub open spec fn optional_spec<T>(r: core::result::Result<T, ErrorModel>) -> core::result::Result<
    Option<T>,
    ErrorModel,
> {
    match r {
        Ok(x) => Ok(Some(x)),
        Err(ErrorModel::MissingField(_)) => Ok(None),
        Err(e) => Err(e),
    }
}

/// A field read leniently: any failure gives `None`.
pub open spec fn lenient_spec<T>(r: core::result::Result<T, ErrorModel>) -> Option<T> {
    match r {
        Ok(x) => Some(x),
        Err(_) => None,
    }
}

/// The content of an optional value.
pub open spec fn opt_view<T: View>(o: Option<T>) -> Option<T::V> {
    match o {
        Some(x) => Some(x@),
        None => None,
    }
}

/// The content of a result that holds an optional value.
pub open spec fn opt_result_view<T: View>(r: Result<Option<T>>) -> core::result::Result<
    Option<T::V>,
    ErrorModel,
> {
    match r {
        Ok(o) => Ok(opt_view(o)),
        Err(e) => Err(e.model()),
    }
}

/// Turns the absence of a field into `None`.
pub fn optional<T: View>(r: Result<T>) -> (o: Result<Option<T>>)
    ensures
        opt_result_view(o) == optional_spec(result_view(r)),
{
    match r {
        Ok(x) => Ok(Some(x)),
        Err(Error::MissingField(_)) => Ok(None),
        Err(e) => Err(e),
    }
}

/// Turns any failure to read a field into `None`.
pub fn lenient<T: View>(r: Result<T>) -> (o: Option<T>)
    ensures
        opt_view(o) == lenient_spec(result_view(r)),
{
    match r {
        Ok(x) => Some(x),
        Err(_) => None,
    }
}

} // verus!
