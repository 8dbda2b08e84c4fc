use vstd::prelude::*;

use crate::call::{
    bool_model, bool_value, int_model, int_value, lemma_find_opt_push, opt_push, put, str_model,
    str_value, Call,
};
use crate::client::SUCCESS;
use crate::common::nameserver::{RecordType, RedirectType};
use crate::value::{
    find, items_model, lemma_items_model, members_model, FieldModel, Member, Value, ValueModel,
};

verus! {

/// Optional search constraints to find nameserver records
/// the account has access to.
#[derive(Debug)]
pub struct RecordInfo {
    pub domain_name: Option<String>,
    pub domain_id: Option<i32>,
    pub record_id: Option<i32>,
    pub record_type: Option<RecordType>,
    pub name: Option<String>,
    pub content: Option<String>,
    pub ttl: Option<i32>,
    pub priority: Option<i32>,
}

/// Update the records with the specified IDs.
/// Any `None` fields will remain unchanged.
#[derive(Debug)]
pub struct RecordUpdate {
    pub ids: Vec<i32>,
    pub name: Option<String>,
    pub record_type: Option<RecordType>,
    pub content: Option<String>,
    pub ttl: Option<i32>,
    pub priority: Option<i32>,
    pub url_rdr_type: Option<RedirectType>,
    pub url_rdr_title: Option<String>,
    pub url_rdr_desc: Option<String>,
    pub url_rdr_keywords: Option<String>,
    pub url_rdr_favicon: Option<String>,
    pub url_append: Option<bool>,
    pub testing_mode: bool,
}

pub open spec fn record_type_model(o: Option<RecordType>) -> Option<ValueModel> {
    match o {
        Some(t) => Some(ValueModel::Str(t.token_spec())),
        None => None,
    }
}

pub open spec fn redirect_type_model(o: Option<RedirectType>) -> Option<ValueModel> {
    match o {
        Some(t) => Some(ValueModel::Str(t.token_spec())),
        None => None,
    }
}

fn record_type_value(o: Option<RecordType>) -> (r: Option<Value>)
    ensures
        crate::value::opt_model(r) == record_type_model(o),
{
    match o {
        Some(t) => Some(Value::Str(t.token().to_owned())),
        None => None,
    }
}

fn redirect_type_value(o: Option<RedirectType>) -> (r: Option<Value>)
    ensures
        crate::value::opt_model(r) == redirect_type_model(o),
{
    match o {
        Some(t) => Some(Value::Str(t.token().to_owned())),
        None => None,
    }
}

/// The fields of an encoded search, in order; absent constraints are left out.
pub open spec fn record_info_fields(c: RecordInfo) -> Seq<FieldModel> {
    let f = opt_push(Seq::empty(), "domain"@, str_model(c.domain_name));
    let f = opt_push(f, "roId"@, int_model(c.domain_id));
    let f = opt_push(f, "recordId"@, int_model(c.record_id));
    let f = opt_push(f, "type"@, record_type_model(c.record_type));
    let f = opt_push(f, "name"@, str_model(c.name));
    let f = opt_push(f, "content"@, str_model(c.content));
    let f = opt_push(f, "ttl"@, int_model(c.ttl));
    opt_push(f, "prio"@, int_model(c.priority))
}

/// The record IDs of an update as wire integers.
pub open spec fn ids_model(ids: Seq<i32>) -> Seq<ValueModel> {
    Seq::new(ids.len(), |i: int| ValueModel::Int(ids[i]))
}

/// The fields of an encoded update, in order; absent changes are left out, while the
/// IDs and the testing flag are always there.
pub open spec fn record_update_fields(c: RecordUpdate) -> Seq<FieldModel> {
    let f = opt_push(Seq::empty(), "id"@, Some(ValueModel::Array(ids_model(c.ids@))));
    let f = opt_push(f, "name"@, str_model(c.name));
    let f = opt_push(f, "type"@, record_type_model(c.record_type));
    let f = opt_push(f, "content"@, str_model(c.content));
    let f = opt_push(f, "ttl"@, int_model(c.ttl));
    let f = opt_push(f, "prio"@, int_model(c.priority));
    let f = opt_push(f, "urlRedirectType"@, redirect_type_model(c.url_rdr_type));
    let f = opt_push(f, "urlRedirectTitle"@, str_model(c.url_rdr_title));
    let f = opt_push(f, "urlRedirectDescription"@, str_model(c.url_rdr_desc));
    let f = opt_push(f, "urlRedirectKeywords"@, str_model(c.url_rdr_keywords));
    let f = opt_push(f, "urlRedirectFavIcon"@, str_model(c.url_rdr_favicon));
    let f = opt_push(f, "urlAppend"@, bool_model(c.url_append));
    opt_push(f, "testing"@, Some(ValueModel::Bool(c.testing_mode)))
}

impl Call for RecordInfo {
    open spec fn method_spec(&self) -> Seq<char> {
        "nameserver.info"@
    }

    open spec fn expected_spec(&self) -> Seq<i32> {
        seq![SUCCESS]
    }

    open spec fn wire_spec(&self) -> ValueModel {
        ValueModel::Struct(record_info_fields(*self))
    }

    fn method_name(&self) -> (r: String) {
        "nameserver.info".to_owned()
    }

    fn expected(&self) -> (r: Vec<i32>) {
        vec![SUCCESS]
    }

    fn encode(&self) -> (r: Value) {
        let mut members: Vec<Member> = Vec::new();
        assert(members_model(members@) =~= Seq::empty());
        put(&mut members, "domain", str_value(&self.domain_name));
        put(&mut members, "roId", int_value(self.domain_id));
        put(&mut members, "recordId", int_value(self.record_id));
        put(&mut members, "type", record_type_value(self.record_type));
        put(&mut members, "name", str_value(&self.name));
        put(&mut members, "content", str_value(&self.content));
        put(&mut members, "ttl", int_value(self.ttl));
        put(&mut members, "prio", int_value(self.priority));
        Value::Struct(members)
    }
}

impl Call for RecordUpdate {
    open spec fn method_spec(&self) -> Seq<char> {
        "nameserver.updateRecord"@
    }

    open spec fn expected_spec(&self) -> Seq<i32> {
        seq![SUCCESS]
    }

    open spec fn wire_spec(&self) -> ValueModel {
        ValueModel::Struct(record_update_fields(*self))
    }

    fn method_name(&self) -> (r: String) {
        "nameserver.updateRecord".to_owned()
    }

    fn expected(&self) -> (r: Vec<i32>) {
        vec![SUCCESS]
    }

    fn encode(&self) -> (r: Value) {
        let mut ids: Vec<Value> = Vec::new();
        let mut i: usize = 0;
        while i < self.ids.len()
            invariant
                i <= self.ids.len(),
                ids@.len() == i,
                forall|j: int| 0 <= j < i ==> (#[trigger] ids@[j]).model() == ValueModel::Int(self.ids@[j]),
            decreases self.ids.len() - i,
        {
            ids.push(Value::Int(self.ids[i]));
            i = i + 1;
        }
        proof {
            lemma_items_model(ids@);
            assert(items_model(ids@) =~= ids_model(self.ids@));
        }
        let mut members: Vec<Member> = Vec::new();
        assert(members_model(members@) =~= Seq::empty());
        put(&mut members, "id", Some(Value::Array(ids)));
        put(&mut members, "name", str_value(&self.name));
        put(&mut members, "type", record_type_value(self.record_type));
        put(&mut members, "content", str_value(&self.content));
        put(&mut members, "ttl", int_value(self.ttl));
        put(&mut members, "prio", int_value(self.priority));
        put(&mut members, "urlRedirectType", redirect_type_value(self.url_rdr_type));
        put(&mut members, "urlRedirectTitle", str_value(&self.url_rdr_title));
        put(&mut members, "urlRedirectDescription", str_value(&self.url_rdr_desc));
        put(&mut members, "urlRedirectKeywords", str_value(&self.url_rdr_keywords));
        put(&mut members, "urlRedirectFavIcon", str_value(&self.url_rdr_favicon));
        put(&mut members, "urlAppend", bool_value(self.url_append));
        put(&mut members, "testing", Some(Value::Bool(self.testing_mode)));
        Value::Struct(members)
    }
}

/// Encoding a search leaves out the key of each constraint that is not given, and
/// carries each one that is given under its key, with its value.
#[verifier::rlimit(50)]
pub proof fn lemma_record_info_omission(c: RecordInfo)
    ensures
        find(record_info_fields(c), "domain"@) == str_model(c.domain_name),
        find(record_info_fields(c), "roId"@) == int_model(c.domain_id),
        find(record_info_fields(c), "recordId"@) == int_model(c.record_id),
        find(record_info_fields(c), "type"@) == record_type_model(c.record_type),
        find(record_info_fields(c), "name"@) == str_model(c.name),
        find(record_info_fields(c), "content"@) == str_model(c.content),
        find(record_info_fields(c), "ttl"@) == int_model(c.ttl),
        find(record_info_fields(c), "prio"@) == int_model(c.priority),
{
    broadcast use lemma_find_opt_push;

    reveal_strlit("domain");
    reveal_strlit("roId");
    reveal_strlit("recordId");
    reveal_strlit("type");
    reveal_strlit("name");
    reveal_strlit("content");
    reveal_strlit("ttl");
    reveal_strlit("prio");
    assert("domain"@.len() == 6);
    assert("roId"@.len() == 4);
    assert("recordId"@.len() == 8);
    assert("type"@.len() == 4);
    assert("name"@.len() == 4);
    assert("content"@.len() == 7);
    assert("ttl"@.len() == 3);
    assert("prio"@.len() == 4);
    assert("roId"@[0] != "type"@[0]);
    assert("roId"@[0] != "name"@[0]);
    assert("roId"@[0] != "prio"@[0]);
    assert("type"@[0] != "name"@[0]);
    assert("type"@[0] != "prio"@[0]);
    assert("name"@[0] != "prio"@[0]);
    assert(find(Seq::<FieldModel>::empty(), "domain"@) is None);
    assert(forall|k: Seq<char>| find(Seq::<FieldModel>::empty(), k) is None);
}

/// Encoding an update leaves out the key of each change that is not given, carries each
/// one that is given under its key, with its value, and always carries the IDs and the
/// testing flag.
#[verifier::rlimit(50)]
pub proof fn lemma_record_update_omission(c: RecordUpdate)
    ensures
        find(record_update_fields(c), "id"@) == Some(ValueModel::Array(ids_model(c.ids@))),
        find(record_update_fields(c), "name"@) == str_model(c.name),
        find(record_update_fields(c), "type"@) == record_type_model(c.record_type),
        find(record_update_fields(c), "content"@) == str_model(c.content),
        find(record_update_fields(c), "ttl"@) == int_model(c.ttl),
        find(record_update_fields(c), "prio"@) == int_model(c.priority),
        find(record_update_fields(c), "urlRedirectType"@) == redirect_type_model(c.url_rdr_type),
        find(record_update_fields(c), "urlRedirectTitle"@) == str_model(c.url_rdr_title),
        find(record_update_fields(c), "urlRedirectDescription"@) == str_model(c.url_rdr_desc),
        find(record_update_fields(c), "urlRedirectKeywords"@) == str_model(c.url_rdr_keywords),
        find(record_update_fields(c), "urlRedirectFavIcon"@) == str_model(c.url_rdr_favicon),
        find(record_update_fields(c), "urlAppend"@) == bool_model(c.url_append),
        find(record_update_fields(c), "testing"@) == Some(ValueModel::Bool(c.testing_mode)),
{
    broadcast use lemma_find_opt_push;

    reveal_strlit("id");
    reveal_strlit("name");
    reveal_strlit("type");
    reveal_strlit("content");
    reveal_strlit("ttl");
    reveal_strlit("prio");
    reveal_strlit("urlRedirectType");
    reveal_strlit("urlRedirectTitle");
    reveal_strlit("urlRedirectDescription");
    reveal_strlit("urlRedirectKeywords");
    reveal_strlit("urlRedirectFavIcon");
    reveal_strlit("urlAppend");
    reveal_strlit("testing");
    assert("id"@.len() == 2);
    assert("name"@.len() == 4);
    assert("type"@.len() == 4);
    assert("content"@.len() == 7);
    assert("ttl"@.len() == 3);
    assert("prio"@.len() == 4);
    assert("urlRedirectType"@.len() == 15);
    assert("urlRedirectTitle"@.len() == 16);
    assert("urlRedirectDescription"@.len() == 22);
    assert("urlRedirectKeywords"@.len() == 19);
    assert("urlRedirectFavIcon"@.len() == 18);
    assert("urlAppend"@.len() == 9);
    assert("testing"@.len() == 7);
    assert("name"@[0] != "type"@[0]);
    assert("name"@[0] != "prio"@[0]);
    assert("type"@[0] != "prio"@[0]);
    assert("content"@[0] != "testing"@[0]);
    assert(forall|k: Seq<char>| find(Seq::<FieldModel>::empty(), k) is None);
}

} // verus!
