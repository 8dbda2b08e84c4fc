use vstd::prelude::*;

use crate::common::nameserver::{
    domain_role_spec, get_domain_role, get_record_type, get_redirect_type, record_type_spec,
    redirect_type_spec, slave_dns_spec, DomainRole, RecordType, RedirectType, SlaveDns,
    SlaveDnsModel, lemma_domain_role_tokens, lemma_record_type_tokens, lemma_redirect_type_tokens,
    lemma_slave_dns_round_trip, slave_dns_fields,
};
use crate::call::nameserver::redirect_type_model;
use crate::call::{bool_model, int_model, lemma_find_opt_push, opt_push};
use crate::common::{
    array_spec, bool_spec, datetime_spec, get_array, get_bool, get_datetime, get_i32, get_map,
    get_str, int_spec, lenient, lenient_spec, opt_view, optional, optional_spec, str_spec,
    struct_spec,
};
use crate::error::{result_view, ErrorModel, Result};
use crate::response::{payload_fields, payload_members, Response};
use crate::value::{
    find, items_model, lemma_items_model, members_model, DateTime, FieldModel, Member, Value,
    ValueModel,
};

verus! {

/// A nameserver record. Contains DNS information as well as INWX metadata.
#[derive(Clone, Debug, PartialEq)]
pub struct Record {
    pub id: i32,
    pub name: String,
    pub record_type: RecordType,
    pub content: String,
    pub ttl: i32,
    pub priority: i32,
    pub url_rdr_type: Option<RedirectType>,
    pub url_rdr_title: Option<String>,
    pub url_rdr_desc: Option<String>,
    pub url_rdr_keywords: Option<String>,
    pub url_rdr_favicon: Option<String>,
    pub url_append: Option<bool>,
}

/// The content of a `Record`.
pub struct RecordModel {
    pub id: i32,
    pub name: Seq<char>,
    pub record_type: RecordType,
    pub content: Seq<char>,
    pub ttl: i32,
    pub priority: i32,
    pub url_rdr_type: Option<RedirectType>,
    pub url_rdr_title: Option<Seq<char>>,
    pub url_rdr_desc: Option<Seq<char>>,
    pub url_rdr_keywords: Option<Seq<char>>,
    pub url_rdr_favicon: Option<Seq<char>>,
    pub url_append: Option<bool>,
}

impl View for Record {
    type V = RecordModel;

    open spec fn view(&self) -> RecordModel {
        RecordModel {
            id: self.id,
            name: self.name@,
            record_type: self.record_type,
            content: self.content@,
            ttl: self.ttl,
            priority: self.priority,
            url_rdr_type: opt_view(self.url_rdr_type),
            url_rdr_title: opt_view(self.url_rdr_title),
            url_rdr_desc: opt_view(self.url_rdr_desc),
            url_rdr_keywords: opt_view(self.url_rdr_keywords),
            url_rdr_favicon: opt_view(self.url_rdr_favicon),
            url_append: opt_view(self.url_append),
        }
    }
}

/// What decoding a full record yields.
pub open spec fn record_spec(fields: Seq<FieldModel>) -> core::result::Result<
    RecordModel,
    ErrorModel,
> {
    match int_spec(fields, "id"@) {
        Err(e) => Err(e),
        Ok(id) => match str_spec(fields, "name"@) {
            Err(e) => Err(e),
            Ok(name) => match record_type_spec(fields, "type"@) {
                Err(e) => Err(e),
                Ok(record_type) => match str_spec(fields, "content"@) {
                    Err(e) => Err(e),
                    Ok(content) => match int_spec(fields, "ttl"@) {
                        Err(e) => Err(e),
                        Ok(ttl) => match int_spec(fields, "prio"@) {
                            Err(e) => Err(e),
                            Ok(priority) => match optional_spec(redirect_type_spec(fields, "urlRedirectType"@)) {
                                Err(e) => Err(e),
                                Ok(url_rdr_type) => match optional_spec(str_spec(fields, "urlRedirectTitle"@)) {
                                    Err(e) => Err(e),
                                    Ok(url_rdr_title) => match optional_spec(str_spec(fields, "urlRedirectDescription"@)) {
                                        Err(e) => Err(e),
                                        Ok(url_rdr_desc) => match optional_spec(str_spec(fields, "urlRedirectKeywords"@)) {
                                            Err(e) => Err(e),
                                            Ok(url_rdr_keywords) => match optional_spec(str_spec(fields, "urlRedirectFavIcon"@)) {
                                                Err(e) => Err(e),
                                                Ok(url_rdr_favicon) => match optional_spec(bool_spec(fields, "urlAppend"@)) {
                                                    Err(e) => Err(e),
                                                    Ok(url_append) => Ok(
                                                        RecordModel { id, name, record_type, content, ttl, priority, url_rdr_type, url_rdr_title, url_rdr_desc, url_rdr_keywords, url_rdr_favicon, url_append },
                                                    ),
                                                },
                                            },
                                        },
                                    },
                                },
                            },
                        },
                    },
                },
            },
        },
    }
}

impl Record {
    /// Decodes a full record: each required field must be there with its kind, and an optional one, if there, must have its kind; the first failure is the result.
    pub fn decode(members: &Vec<Member>) -> (r: Result<Record>)
        ensures
            result_view(r) == record_spec(members_model(members@)),
    {
        let id = match get_i32(members, "id".to_owned()) {
            Ok(x) => x,
            Err(e) => return Err(e),
        };
        let name = match get_str(members, "name".to_owned()) {
            Ok(x) => x,
            Err(e) => return Err(e),
        };
        let record_type = match get_record_type(members, "type".to_owned()) {
            Ok(x) => x,
            Err(e) => return Err(e),
        };
        let content = match get_str(members, "content".to_owned()) {
            Ok(x) => x,
            Err(e) => return Err(e),
        };
        let ttl = match get_i32(members, "ttl".to_owned()) {
            Ok(x) => x,
            Err(e) => return Err(e),
        };
        let priority = match get_i32(members, "prio".to_owned()) {
            Ok(x) => x,
            Err(e) => return Err(e),
        };
        let url_rdr_type = match optional(get_redirect_type(members, "urlRedirectType".to_owned())) {
            Ok(x) => x,
            Err(e) => return Err(e),
        };
        let url_rdr_title = match optional(get_str(members, "urlRedirectTitle".to_owned())) {
            Ok(x) => x,
            Err(e) => return Err(e),
        };
        let url_rdr_desc = match optional(get_str(members, "urlRedirectDescription".to_owned())) {
            Ok(x) => x,
            Err(e) => return Err(e),
        };
        let url_rdr_keywords = match optional(get_str(members, "urlRedirectKeywords".to_owned())) {
            Ok(x) => x,
            Err(e) => return Err(e),
        };
        let url_rdr_favicon = match optional(get_str(members, "urlRedirectFavIcon".to_owned())) {
            Ok(x) => x,
            Err(e) => return Err(e),
        };
        let url_append = match optional(get_bool(members, "urlAppend".to_owned())) {
            Ok(x) => x,
            Err(e) => return Err(e),
        };
        Ok(Record { id, name, record_type, content, ttl, priority, url_rdr_type, url_rdr_title, url_rdr_desc, url_rdr_keywords, url_rdr_favicon, url_append })
    }
}

/// What one element of a search's record list contributes: its record, or nothing when
/// it does not decode.
pub open spec fn record_item_spec(item: ValueModel) -> Seq<RecordModel> {
    match item {
        ValueModel::Struct(fields) => match record_spec(fields) {
            Ok(r) => seq![r],
            Err(_) => Seq::empty(),
        },
        _ => Seq::empty(),
    }
}

/// The records of a search's record list, in order, without the elements that do not
/// decode.
pub open spec fn records_spec(items: Seq<ValueModel>) -> Seq<RecordModel>
    decreases items.len(),
{
    if items.len() == 0 {
        Seq::empty()
    } else {
        records_spec(items.drop_last()) + record_item_spec(items.last())
    }
}

/// The content of a list of records.
pub open spec fn records_view(records: Seq<Record>) -> Seq<RecordModel> {
    records.map_values(|r: Record| r@)
}

/// Decodes a search's record list, dropping the elements that do not decode.
pub fn decode_records(items: &Vec<Value>) -> (r: Vec<Record>)
    ensures
        records_view(r@) == records_spec(items_model(items@)),
{
    proof {
        lemma_items_model(items@);
    }
    let ghost all = items_model(items@);
    let mut out: Vec<Record> = Vec::new();
    let mut i: usize = 0;
    while i < items.len()
        invariant
            i <= items.len(),
            all == items_model(items@),
            all.len() == items@.len(),
            forall|j: int| 0 <= j < items.len() ==> #[trigger] all[j] == items@[j].model(),
            records_view(out@) == records_spec(all.take(i as int)),
        decreases items.len() - i,
    {
        let ghost before = out@;
        assert(all.take(i + 1).drop_last() =~= all.take(i as int));
        assert(all.take(i + 1).last() == items@[i as int].model());
        match &items[i] {
            Value::Struct(members) => {
                match Record::decode(members) {
                    Ok(rec) => {
                        out.push(rec);
                        assert(records_view(out@) =~= records_view(before) + seq![rec@]);
                    },
                    Err(_) => {},
                }
            },
            _ => {},
        }
        assert(records_view(out@) =~= records_spec(all.take(i + 1)));
        i = i + 1;
    }
    assert(all.take(items.len() as int) =~= all);
    out
}

/// The records that match a search.
#[derive(Clone, Debug, PartialEq)]
pub struct RecordInfo {
    pub domain_id: Option<i32>,
    pub domain_name: Option<String>,
    pub domain_type: Option<DomainRole>,
    pub master_address: Option<String>,
    pub last_zone_check: Option<DateTime>,
    pub slave_dns: Option<SlaveDns>,
    pub soa_serial: Option<String>,
    pub records: Option<Vec<Record>>,
}

/// The content of a `RecordInfo`.
pub struct RecordInfoModel {
    pub domain_id: Option<i32>,
    pub domain_name: Option<Seq<char>>,
    pub domain_type: Option<DomainRole>,
    pub master_address: Option<Seq<char>>,
    pub last_zone_check: Option<DateTime>,
    pub slave_dns: Option<SlaveDnsModel>,
    pub soa_serial: Option<Seq<char>>,
    pub records: Option<Seq<RecordModel>>,
}

impl View for RecordInfo {
    type V = RecordInfoModel;

    open spec fn view(&self) -> RecordInfoModel {
        RecordInfoModel {
            domain_id: opt_view(self.domain_id),
            domain_name: opt_view(self.domain_name),
            domain_type: opt_view(self.domain_type),
            master_address: opt_view(self.master_address),
            last_zone_check: opt_view(self.last_zone_check),
            slave_dns: opt_view(self.slave_dns),
            soa_serial: opt_view(self.soa_serial),
            records: match self.records {
                Some(v) => Some(records_view(v@)),
                None => None,
            },
        }
    }
}

/// What decoding the data of a search yields. Every field is read on its own, and one
/// that is missing or does not decode is unknown (`None`) rather than a failure.
pub open spec fn record_info_spec(fields: Seq<FieldModel>) -> RecordInfoModel {
    RecordInfoModel {
        domain_id: lenient_spec(int_spec(fields, "roId"@)),
        domain_name: lenient_spec(str_spec(fields, "domain"@)),
        domain_type: lenient_spec(domain_role_spec(fields, "type"@)),
        master_address: lenient_spec(str_spec(fields, "masterIp"@)),
        last_zone_check: lenient_spec(datetime_spec(fields, "lastZoneCheck"@)),
        slave_dns: match struct_spec(fields, "slaveDns"@) {
            Ok(m) => lenient_spec(slave_dns_spec(m)),
            Err(_) => None,
        },
        soa_serial: lenient_spec(str_spec(fields, "SOAserial"@)),
        records: match array_spec(fields, "record"@) {
            Ok(items) => Some(records_spec(items)),
            Err(_) => None,
        },
    }
}

impl RecordInfo {
    /// Decodes the data of a search; this never fails (see `record_info_spec`).
    pub fn decode(members: &Vec<Member>) -> (r: RecordInfo)
        ensures
            r@ == record_info_spec(members_model(members@)),
    {
        let domain_id = lenient(get_i32(members, "roId".to_owned()));
        let domain_name = lenient(get_str(members, "domain".to_owned()));
        let domain_type = lenient(get_domain_role(members, "type".to_owned()));
        let master_address = lenient(get_str(members, "masterIp".to_owned()));
        let last_zone_check = lenient(get_datetime(members, "lastZoneCheck".to_owned()));
        let slave_dns = match get_map(members, "slaveDns".to_owned()) {
            Ok(m) => lenient(SlaveDns::decode(m)),
            Err(_) => None,
        };
        let soa_serial = lenient(get_str(members, "SOAserial".to_owned()));
        let records = match get_array(members, "record".to_owned()) {
            Ok(items) => Some(decode_records(items)),
            Err(_) => None,
        };
        RecordInfo {
            domain_id,
            domain_name,
            domain_type,
            master_address,
            last_zone_check,
            slave_dns,
            soa_serial,
            records,
        }
    }
}

impl Response for RecordInfo {
    open spec fn payload_spec(payload: Option<ValueModel>) -> core::result::Result<
        RecordInfoModel,
        ErrorModel,
    > {
        match payload_fields(payload) {
            Err(e) => Err(e),
            Ok(fields) => Ok(record_info_spec(fields)),
        }
    }

    fn from_payload(payload: Option<Value>) -> (r: Result<RecordInfo>) {
        match payload_members(payload) {
            Err(e) => Err(e),
            Ok(members) => Ok(RecordInfo::decode(&members)),
        }
    }
}

/// The wire value of an optional text.
pub open spec fn text_model(o: Option<Seq<char>>) -> Option<ValueModel> {
    match o {
        Some(s) => Some(ValueModel::Str(s)),
        None => None,
    }
}

/// The struct that carries a record: every required field, and each optional one that
/// is set.
pub open spec fn record_fields(r: RecordModel) -> Seq<FieldModel> {
    let f = opt_push(Seq::empty(), "id"@, Some(ValueModel::Int(r.id)));
    let f = opt_push(f, "name"@, Some(ValueModel::Str(r.name)));
    let f = opt_push(f, "type"@, Some(ValueModel::Str(r.record_type.token_spec())));
    let f = opt_push(f, "content"@, Some(ValueModel::Str(r.content)));
    let f = opt_push(f, "ttl"@, Some(ValueModel::Int(r.ttl)));
    let f = opt_push(f, "prio"@, Some(ValueModel::Int(r.priority)));
    let f = opt_push(f, "urlRedirectType"@, redirect_type_model(r.url_rdr_type));
    let f = opt_push(f, "urlRedirectTitle"@, text_model(r.url_rdr_title));
    let f = opt_push(f, "urlRedirectDescription"@, text_model(r.url_rdr_desc));
    let f = opt_push(f, "urlRedirectKeywords"@, text_model(r.url_rdr_keywords));
    let f = opt_push(f, "urlRedirectFavIcon"@, text_model(r.url_rdr_favicon));
    opt_push(f, "urlAppend"@, bool_model(r.url_append))
}

/// Decoding a struct that holds every required field of a record with its kind, and
/// the optional ones that are set, succeeds and gives back exactly those values.
#[verifier::rlimit(50)]
pub proof fn lemma_record_round_trip(r: RecordModel)
    ensures
        record_spec(record_fields(r)) == Ok::<RecordModel, ErrorModel>(r),
{
    broadcast use lemma_find_opt_push;

    reveal_strlit("id");
    reveal_strlit("name");
    reveal_strlit("type");
    reveal_strlit("content");
    reveal_strlit("ttl");
    reveal_strlit("prio");
    reveal_strlit("urlRedirectType");
    reveal_strlit("urlRedirectTitle");
    reveal_strlit("urlRedirectDescription");
    reveal_strlit("urlRedirectKeywords");
    reveal_strlit("urlRedirectFavIcon");
    reveal_strlit("urlAppend");
    assert("id"@.len() == 2);
    assert("name"@.len() == 4);
    assert("type"@.len() == 4);
    assert("content"@.len() == 7);
    assert("ttl"@.len() == 3);
    assert("prio"@.len() == 4);
    assert("urlRedirectType"@.len() == 15);
    assert("urlRedirectTitle"@.len() == 16);
    assert("urlRedirectDescription"@.len() == 22);
    assert("urlRedirectKeywords"@.len() == 19);
    assert("urlRedirectFavIcon"@.len() == 18);
    assert("urlAppend"@.len() == 9);
    assert("name"@[0] != "type"@[0]);
    assert("name"@[0] != "prio"@[0]);
    assert("type"@[0] != "prio"@[0]);    assert(forall|k: Seq<char>| find(Seq::<FieldModel>::empty(), k) is None);
    lemma_record_type_tokens(r.record_type, r.record_type);
    if r.url_rdr_type is Some {
        lemma_redirect_type_tokens(r.url_rdr_type->0, r.url_rdr_type->0);
    }
}

/// The record list that carries the given records.
pub open spec fn records_wire(rs: Seq<RecordModel>) -> Seq<ValueModel> {
    Seq::new(rs.len(), |i: int| ValueModel::Struct(record_fields(rs[i])))
}

/// Decoding a record list made of well-formed records gives back all of them, in order.
pub proof fn lemma_records_round_trip(rs: Seq<RecordModel>)
    ensures
        records_spec(records_wire(rs)) == rs,
    decreases rs.len(),
{
    if rs.len() > 0 {
        lemma_records_round_trip(rs.drop_last());
        assert(records_wire(rs).drop_last() =~= records_wire(rs.drop_last()));
        lemma_record_round_trip(rs.last());
        assert(records_spec(records_wire(rs)) =~= rs);
    }
}

pub open spec fn role_model(o: Option<DomainRole>) -> Option<ValueModel> {
    match o {
        Some(t) => Some(ValueModel::Str(t.token_spec())),
        None => None,
    }
}

pub open spec fn datetime_model(o: Option<DateTime>) -> Option<ValueModel> {
    match o {
        Some(d) => Some(ValueModel::DateTime(d)),
        None => None,
    }
}

/// The struct that carries the data of a search: each field that is known.
pub open spec fn record_info_wire(m: RecordInfoModel) -> Seq<FieldModel> {
    let f = opt_push(Seq::empty(), "roId"@, int_model(m.domain_id));
    let f = opt_push(f, "domain"@, text_model(m.domain_name));
    let f = opt_push(f, "type"@, role_model(m.domain_type));
    let f = opt_push(f, "masterIp"@, text_model(m.master_address));
    let f = opt_push(f, "lastZoneCheck"@, datetime_model(m.last_zone_check));
    let f = opt_push(
        f,
        "slaveDns"@,
        match m.slave_dns {
            Some(s) => Some(ValueModel::Struct(slave_dns_fields(s))),
            None => None,
        },
    );
    let f = opt_push(f, "SOAserial"@, text_model(m.soa_serial));
    opt_push(
        f,
        "record"@,
        match m.records {
            Some(rs) => Some(ValueModel::Array(records_wire(rs))),
            None => None,
        },
    )
}

/// Decoding a search's data built from known values gives back exactly those values.
#[verifier::rlimit(50)]
pub proof fn lemma_record_info_round_trip(m: RecordInfoModel)
    ensures
        record_info_spec(record_info_wire(m)) == m,
{
    broadcast use lemma_find_opt_push;

    reveal_strlit("roId");
    reveal_strlit("domain");
    reveal_strlit("type");
    reveal_strlit("masterIp");
    reveal_strlit("lastZoneCheck");
    reveal_strlit("slaveDns");
    reveal_strlit("SOAserial");
    reveal_strlit("record");
    assert("roId"@.len() == 4);
    assert("domain"@.len() == 6);
    assert("type"@.len() == 4);
    assert("masterIp"@.len() == 8);
    assert("lastZoneCheck"@.len() == 13);
    assert("slaveDns"@.len() == 8);
    assert("SOAserial"@.len() == 9);
    assert("record"@.len() == 6);
    assert("roId"@[0] != "type"@[0]);
    assert("domain"@[0] != "record"@[0]);
    assert("masterIp"@[0] != "slaveDns"@[0]);    assert(forall|k: Seq<char>| find(Seq::<FieldModel>::empty(), k) is None);
    if m.domain_type is Some {
        lemma_domain_role_tokens(m.domain_type->0, m.domain_type->0);
    }
    if m.slave_dns is Some {
        lemma_slave_dns_round_trip(m.slave_dns->0);
    }
    if m.records is Some {
        lemma_records_round_trip(m.records->0);
    }
}

/// Strict against lenient decoding. A full record that lacks a required field does not
/// decode, and when the fields read before it are fine the failure is `MissingField` for
/// that very key; the data of a search that lacks a field still decodes, with that field
/// unknown. `type` is required in a record and optional in a search.
pub proof fn lemma_strict_and_lenient(fields: Seq<FieldModel>, key: Seq<char>)
    requires
        find(fields, key) is None,
    ensures
        key == "id"@ || key == "name"@ || key == "type"@ || key == "content"@ || key == "ttl"@
            || key == "prio"@ ==> record_spec(fields) is Err,
        key == "id"@ ==> record_spec(fields) == Err::<RecordModel, ErrorModel>(
            ErrorModel::MissingField(key),
        ),
        key == "type"@ && int_spec(fields, "id"@) is Ok && str_spec(fields, "name"@) is Ok
            ==> record_spec(fields) == Err::<RecordModel, ErrorModel>(
            ErrorModel::MissingField(key),
        ),
        RecordInfo::payload_spec(Some(ValueModel::Struct(fields))) == Ok::<
            RecordInfoModel,
            ErrorModel,
        >(record_info_spec(fields)),
        key == "type"@ ==> record_info_spec(fields).domain_type is None,
        key == "roId"@ ==> record_info_spec(fields).domain_id is None,
        key == "domain"@ ==> record_info_spec(fields).domain_name is None,
        key == "masterIp"@ ==> record_info_spec(fields).master_address is None,
        key == "lastZoneCheck"@ ==> record_info_spec(fields).last_zone_check is None,
        key == "slaveDns"@ ==> record_info_spec(fields).slave_dns is None,
        key == "SOAserial"@ ==> record_info_spec(fields).soa_serial is None,
        key == "record"@ ==> record_info_spec(fields).records is None,
{
}

} // verus!
