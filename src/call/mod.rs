use vstd::prelude::*;

use crate::value::{find, lemma_members_model, members_model, opt_model, FieldModel, Member, Value, ValueModel};

pub mod account;
pub mod nameserver;

verus! {

/// A call to the API: a method name, the status codes that count as success for it,
/// and the struct that is sent as its one parameter.
pub trait Call {
    spec fn method_spec(&self) -> Seq<char>;

    spec fn expected_spec(&self) -> Seq<i32>;

    /// The struct that encodes this call.
    spec fn wire_spec(&self) -> ValueModel;

    fn method_name(&self) -> (r: String)
        ensures
            r@ == self.method_spec(),
    ;

    fn expected(&self) -> (r: Vec<i32>)
        ensures
            r@ == self.expected_spec(),
    ;

    fn encode(&self) -> (r: Value)
        ensures
            r.model() == self.wire_spec(),
    ;
}

/// Ties a call to the data type of its response.
pub trait Response<T> {}

impl Response<crate::response::account::Login> for account::Login {}

impl Response<()> for account::Logout {}

impl Response<crate::response::nameserver::RecordInfo> for nameserver::RecordInfo {}

impl Response<()> for nameserver::RecordUpdate {}

/// `fields` with the field `key` appended when a value is given, unchanged otherwise.
pub open spec fn opt_push(fields: Seq<FieldModel>, key: Seq<char>, v: Option<ValueModel>) -> Seq<
    FieldModel,
> {
    match v {
        Some(x) => fields.push(FieldModel { key, value: x }),
        None => fields,
    }
}

pub open spec fn str_model(o: Option<String>) -> Option<ValueModel> {
    match o {
        Some(s) => Some(ValueModel::Str(s@)),
        None => None,
    }
}

pub open spec fn int_model(o: Option<i32>) -> Option<ValueModel> {
    match o {
        Some(i) => Some(ValueModel::Int(i)),
        None => None,
    }
}

pub open spec fn bool_model(o: Option<bool>) -> Option<ValueModel> {
    match o {
        Some(b) => Some(ValueModel::Bool(b)),
        None => None,
    }
}

pub proof fn lemma_members_model_push(members: Seq<Member>, m: Member)
    ensures
        members_model(members.push(m)) == members_model(members).push(
            FieldModel { key: m.key@, value: m.value.model() },
        ),
{
    lemma_members_model(members);
    lemma_members_model(members.push(m));
    assert(members_model(members.push(m)) =~= members_model(members).push(
        FieldModel { key: m.key@, value: m.value.model() },
    ));
}

/// Looking up a key after an optional append: an earlier field wins, else the appended one.
pub broadcast proof fn lemma_find_opt_push(
    fields: Seq<FieldModel>,
    key: Seq<char>,
    v: Option<ValueModel>,
    k: Seq<char>,
)
    ensures
        #[trigger] find(opt_push(fields, key, v), k) == if find(fields, k) is Some {
            find(fields, k)
        } else if key == k {
            v
        } else {
            None
        },
    decreases fields.len(),
{
    if v is Some && fields.len() > 0 {
        let f = FieldModel { key, value: v->0 };
        assert(fields.push(f).drop_first() =~= fields.drop_first().push(f));
        lemma_find_opt_push(fields.drop_first(), key, v, k);
    } else if v is Some {
        let f = FieldModel { key, value: v->0 };
        assert(fields.push(f).drop_first() =~= fields);
    }
}

/// Appends the field `key` to `members` when a value is given.
pub fn put(members: &mut Vec<Member>, key: &str, value: Option<Value>)
    ensures
        members_model(final(members)@) == opt_push(
            members_model(old(members)@),
            key@,
            opt_model(value),
        ),
{
    match value {
        Some(v) => {
            let m = Member { key: key.to_owned(), value: v };
            proof {
                lemma_members_model_push(members@, m);
            }
            members.push(m);
        },
        None => {},
    }
}

pub fn str_value(o: &Option<String>) -> (r: Option<Value>)
    ensures
        opt_model(r) == str_model(*o),
{
    match o {
        Some(s) => Some(Value::Str(s.clone())),
        None => None,
    }
}

pub fn int_value(o: Option<i32>) -> (r: Option<Value>)
    ensures
        opt_model(r) == int_model(o),
{
    match o {
        Some(i) => Some(Value::Int(i)),
        None => None,
    }
}

pub fn bool_value(o: Option<bool>) -> (r: Option<Value>)
    ensures
        opt_model(r) == bool_model(o),
{
    match o {
        Some(b) => Some(Value::Bool(b)),
        None => None,
    }
}

} // verus!
