use inwx::call::account::{Login, Logout};
use inwx::call::nameserver::{RecordInfo as RecordInfoCall, RecordUpdate};
use inwx::call::Call;
use inwx::common::nameserver::{DomainRole, RecordType, RedirectType, SlaveDns};
use inwx::common::{get_array, get_bool, get_datetime, get_i32, get_map, get_str};
use inwx::response::account::Login as LoginResponse;
use inwx::response::nameserver::{decode_records, Record, RecordInfo};
use inwx::response::{read_envelope, Response};
use inwx::value::{CalendarDate, DateTime, Kind, Member, TimeOfDay, Value};
use inwx::Error;

fn text(s: &str) -> Value {
    Value::Str(s.to_string())
}

fn member(key: &str, value: Value) -> Member {
    Member { key: key.to_string(), value }
}

fn shown(v: &Value) -> String {
    format!("{:?}", v)
}

fn keys(v: &Value) -> Vec<String> {
    match v {
        Value::Struct(ms) => ms.iter().map(|m| m.key.clone()).collect(),
        _ => panic!("not a struct: {:?}", v),
    }
}

fn field<'a>(v: &'a Value, key: &str) -> Option<&'a Value> {
    match v {
        Value::Struct(ms) => ms.iter().find(|m| m.key == key).map(|m| &m.value),
        _ => None,
    }
}

fn sample_datetime() -> DateTime {
    DateTime {
        date: CalendarDate::YMD { year: 2024, month: 2, day: 29 },
        time: TimeOfDay {
            hour: 13,
            minute: 5,
            second: 9,
            millisecond: 0,
            tz_offset_hours: 0,
            tz_offset_minutes: 0,
        },
    }
}

fn full_record(id: i32) -> Vec<Member> {
    vec![
        member("id", Value::Int(id)),
        member("name", text("www.example.com")),
        member("type", text("AAAA")),
        member("content", text("::1")),
        member("ttl", Value::Int(3600)),
        member("prio", Value::Int(0)),
    ]
}

#[test]
fn get_str_reads_string() {
    let m = vec![member("name", text("example.com"))];
    assert_eq!(get_str(&m, "name".to_string()).unwrap(), "example.com");
}

#[test]
fn get_str_missing_field() {
    let m = vec![member("name", text("example.com"))];
    match get_str(&m, "content".to_string()) {
        Err(Error::MissingField(k)) => assert_eq!(k, "content"),
        other => panic!("unexpected {:?}", other),
    }
}

#[test]
fn get_str_wrong_type_keeps_value() {
    let m = vec![member("name", Value::Int(5))];
    match get_str(&m, "name".to_string()) {
        Err(Error::WrongFieldType(k, kind, v)) => {
            assert_eq!(k, "name");
            assert_eq!(kind, Kind::Str);
            assert_eq!(shown(&v), shown(&Value::Int(5)));
        }
        other => panic!("unexpected {:?}", other),
    }
}

#[test]
fn get_i32_does_not_coerce_strings() {
    let m = vec![member("ttl", text("3600")), member("prio", Value::Int(10))];
    assert_eq!(get_i32(&m, "prio".to_string()).unwrap(), 10);
    match get_i32(&m, "ttl".to_string()) {
        Err(Error::WrongFieldType(k, Kind::Int, v)) => {
            assert_eq!(k, "ttl");
            assert_eq!(shown(&v), shown(&text("3600")));
        }
        other => panic!("unexpected {:?}", other),
    }
}

#[test]
fn get_bool_and_get_datetime() {
    let m = vec![
        member("urlAppend", Value::Bool(true)),
        member("lastZoneCheck", Value::DateTime(sample_datetime())),
    ];
    assert_eq!(get_bool(&m, "urlAppend".to_string()).unwrap(), true);
    assert_eq!(get_datetime(&m, "lastZoneCheck".to_string()).unwrap(), sample_datetime());
    match get_datetime(&m, "urlAppend".to_string()) {
        Err(Error::WrongFieldType(_, Kind::DateTime, Value::Bool(true))) => {}
        other => panic!("unexpected {:?}", other),
    }
}

#[test]
fn get_array_and_get_map() {
    let m = vec![
        member("record", Value::Array(vec![Value::Int(1), Value::Int(2)])),
        member("slaveDns", Value::Struct(vec![member("hostname", text("ns1"))])),
    ];
    assert_eq!(get_array(&m, "record".to_string()).unwrap().len(), 2);
    assert_eq!(get_map(&m, "slaveDns".to_string()).unwrap()[0].key, "hostname");
    match get_map(&m, "record".to_string()) {
        Err(Error::WrongFieldType(_, Kind::Struct, Value::Array(a))) => assert_eq!(a.len(), 2),
        other => panic!("unexpected {:?}", other),
    }
    match get_array(&m, "nothing".to_string()) {
        Err(Error::MissingField(k)) => assert_eq!(k, "nothing"),
        other => panic!("unexpected {:?}", other),
    }
}

#[test]
fn first_member_with_a_key_wins() {
    let m = vec![member("ttl", Value::Int(1)), member("ttl", Value::Int(2))];
    assert_eq!(get_i32(&m, "ttl".to_string()).unwrap(), 1);
}

const RECORD_TYPES: [RecordType; 26] = [
    RecordType::A,
    RecordType::Aaaa,
    RecordType::Afsdb,
    RecordType::Alias,
    RecordType::Caa,
    RecordType::Cert,
    RecordType::CName,
    RecordType::HInfo,
    RecordType::Https,
    RecordType::IpSecKey,
    RecordType::Loc,
    RecordType::Mx,
    RecordType::NaPtr,
    RecordType::Ns,
    RecordType::OpenPgpKey,
    RecordType::Ptr,
    RecordType::Rp,
    RecordType::SmimeA,
    RecordType::Soa,
    RecordType::Srv,
    RecordType::SshFp,
    RecordType::Svcb,
    RecordType::Tlsa,
    RecordType::Txt,
    RecordType::Uri,
    RecordType::Url,
];

#[test]
fn record_type_tokens_are_unique_and_decode_back() {
    let mut seen: Vec<&str> = Vec::new();
    for t in RECORD_TYPES {
        let token = t.token();
        assert!(!token.is_empty());
        assert!(!seen.contains(&token));
        seen.push(token);
        assert_eq!(RecordType::from_token(&token.to_string()).unwrap(), t);
    }
    assert_eq!(RecordType::A.token(), "A");
    assert_eq!(RecordType::NaPtr.token(), "NAPTR");
}

#[test]
fn redirect_and_role_tokens() {
    assert_eq!(RedirectType::Permanent.token(), "HEADER301");
    assert_eq!(RedirectType::Temporary.token(), "HEADER302");
    assert_eq!(RedirectType::Frame.token(), "FRAME");
    for t in [RedirectType::Permanent, RedirectType::Temporary, RedirectType::Frame] {
        assert_eq!(RedirectType::from_token(&t.token().to_string()).unwrap(), t);
    }
    assert_eq!(DomainRole::Master.token(), "MASTER");
    assert_eq!(DomainRole::Slave.token(), "SLAVE");
    assert_eq!(DomainRole::from_token(&"SLAVE".to_string()).unwrap(), DomainRole::Slave);
}

#[test]
fn unknown_token_is_unknown_variant() {
    match RecordType::from_token(&"BOGUS".to_string()) {
        Err(Error::UnknownVariant(e, t)) => {
            assert_eq!(e, "RecordType");
            assert_eq!(t, "BOGUS");
        }
        other => panic!("unexpected {:?}", other),
    }
    match RedirectType::from_token(&"header301".to_string()) {
        Err(Error::UnknownVariant(e, t)) => {
            assert_eq!(e, "RedirectType");
            assert_eq!(t, "header301");
        }
        other => panic!("unexpected {:?}", other),
    }
}

fn empty_search() -> RecordInfoCall {
    RecordInfoCall {
        domain_name: None,
        domain_id: None,
        record_id: None,
        record_type: None,
        name: None,
        content: None,
        ttl: None,
        priority: None,
    }
}

#[test]
fn search_encoding_omits_absent_fields() {
    let mut c = empty_search();
    c.record_id = Some(75503);
    let v = c.encode();
    assert_eq!(keys(&v), vec!["recordId".to_string()]);
    assert_eq!(shown(field(&v, "recordId").unwrap()), shown(&Value::Int(75503)));
    assert!(field(&v, "prio").is_none());
    assert_eq!(keys(&empty_search().encode()).len(), 0);
}

#[test]
fn search_encoding_places_present_fields() {
    let mut c = empty_search();
    c.priority = Some(10);
    c.record_type = Some(RecordType::Mx);
    c.domain_name = Some("example.com".to_string());
    c.domain_id = Some(7);
    let v = c.encode();
    assert_eq!(keys(&v), vec!["domain", "roId", "type", "prio"]);
    assert_eq!(shown(field(&v, "prio").unwrap()), shown(&Value::Int(10)));
    assert_eq!(shown(field(&v, "type").unwrap()), shown(&text("MX")));
    assert_eq!(shown(field(&v, "roId").unwrap()), shown(&Value::Int(7)));
    assert_eq!(c.method_name(), "nameserver.info");
    assert_eq!(c.expected(), vec![1000]);
}

fn update(ids: Vec<i32>) -> RecordUpdate {
    RecordUpdate {
        ids,
        name: None,
        record_type: None,
        content: None,
        ttl: None,
        priority: None,
        url_rdr_type: None,
        url_rdr_title: None,
        url_rdr_desc: None,
        url_rdr_keywords: None,
        url_rdr_favicon: None,
        url_append: None,
        testing_mode: false,
    }
}

#[test]
fn update_encoding_always_has_ids_and_testing() {
    let v = update(vec![]).encode();
    assert_eq!(keys(&v), vec!["id", "testing"]);
    assert_eq!(shown(field(&v, "id").unwrap()), shown(&Value::Array(vec![])));
    assert_eq!(shown(field(&v, "testing").unwrap()), shown(&Value::Bool(false)));
}

#[test]
fn update_encoding_exact() {
    let mut u = update(vec![75503, 75504]);
    u.content = Some("::1".to_string());
    u.url_rdr_type = Some(RedirectType::Permanent);
    u.url_append = Some(true);
    u.testing_mode = true;
    let v = u.encode();
    assert_eq!(keys(&v), vec!["id", "content", "urlRedirectType", "urlAppend", "testing"]);
    assert_eq!(
        shown(field(&v, "id").unwrap()),
        shown(&Value::Array(vec![Value::Int(75503), Value::Int(75504)]))
    );
    assert_eq!(shown(field(&v, "content").unwrap()), shown(&text("::1")));
    assert_eq!(shown(field(&v, "urlRedirectType").unwrap()), shown(&text("HEADER301")));
    assert_eq!(shown(field(&v, "urlAppend").unwrap()), shown(&Value::Bool(true)));
    assert_eq!(shown(field(&v, "testing").unwrap()), shown(&Value::Bool(true)));
    assert_eq!(u.method_name(), "nameserver.updateRecord");
    assert_eq!(u.expected(), vec![1000]);
}

#[test]
fn login_and_logout_encoding() {
    let l = Login { user: "u".to_string(), pass: "p".to_string(), case_insensitive: false };
    let v = l.encode();
    assert_eq!(keys(&v), vec!["user", "pass", "case-insensitive"]);
    assert_eq!(shown(field(&v, "user").unwrap()), shown(&text("u")));
    assert_eq!(shown(field(&v, "pass").unwrap()), shown(&text("p")));
    assert_eq!(shown(field(&v, "case-insensitive").unwrap()), shown(&Value::Bool(false)));
    assert_eq!(l.method_name(), "account.login");
    assert_eq!(l.expected(), vec![1000]);
    assert_eq!(keys(&Logout.encode()).len(), 0);
    assert_eq!(Logout.method_name(), "account.logout");
    assert_eq!(Logout.expected(), vec![1500]);
}

#[test]
fn record_decodes_full_struct() {
    let mut m = full_record(42);
    m.push(member("urlRedirectTitle", text("Title")));
    let r = Record::decode(&m).unwrap();
    assert_eq!(r.id, 42);
    assert_eq!(r.name, "www.example.com");
    assert_eq!(r.record_type, RecordType::Aaaa);
    assert_eq!(r.content, "::1");
    assert_eq!(r.ttl, 3600);
    assert_eq!(r.priority, 0);
    assert_eq!(r.url_rdr_title, Some("Title".to_string()));
    assert_eq!(r.url_rdr_type, None);
    assert_eq!(r.url_append, None);
}

#[test]
fn record_missing_field_fails() {
    let m: Vec<Member> = full_record(42).into_iter().filter(|m| m.key != "type").collect();
    match Record::decode(&m) {
        Err(Error::MissingField(k)) => assert_eq!(k, "type"),
        other => panic!("unexpected {:?}", other),
    }
}

#[test]
fn record_first_failure_wins() {
    let mut m = full_record(42);
    m[0] = member("id", text("42"));
    m[4] = member("ttl", text("3600"));
    match Record::decode(&m) {
        Err(Error::WrongFieldType(k, Kind::Int, _)) => assert_eq!(k, "id"),
        other => panic!("unexpected {:?}", other),
    }
}

#[test]
fn record_optional_field_of_wrong_kind_fails() {
    let mut m = full_record(42);
    m.push(member("urlAppend", text("yes")));
    match Record::decode(&m) {
        Err(Error::WrongFieldType(k, Kind::Bool, _)) => assert_eq!(k, "urlAppend"),
        other => panic!("unexpected {:?}", other),
    }
}

#[test]
fn record_unknown_type_fails() {
    let mut m = full_record(42);
    m[2] = member("type", text("BOGUS"));
    match Record::decode(&m) {
        Err(Error::UnknownVariant(e, t)) => {
            assert_eq!(e, "RecordType");
            assert_eq!(t, "BOGUS");
        }
        other => panic!("unexpected {:?}", other),
    }
}

#[test]
fn search_decodes_with_missing_fields() {
    let m = vec![member("domain", text("example.com")), member("roId", text("not a number"))];
    let r = RecordInfo::decode(&m);
    assert_eq!(r.domain_name, Some("example.com".to_string()));
    assert_eq!(r.domain_id, None);
    assert_eq!(r.domain_type, None);
    assert_eq!(r.records, None);
    assert_eq!(r.slave_dns, None);
}

#[test]
fn search_decodes_every_field() {
    let m = vec![
        member("roId", Value::Int(9)),
        member("domain", text("example.com")),
        member("type", text("MASTER")),
        member("masterIp", text("192.0.2.1")),
        member("lastZoneCheck", Value::DateTime(sample_datetime())),
        member("slaveDns", Value::Struct(vec![member("hostname", text("ns2")), member("address", text("192.0.2.2"))])),
        member("SOAserial", text("2024022901")),
        member("record", Value::Array(vec![Value::Struct(full_record(1))])),
    ];
    let r = RecordInfo::decode(&m);
    assert_eq!(r.domain_id, Some(9));
    assert_eq!(r.domain_type, Some(DomainRole::Master));
    assert_eq!(r.master_address, Some("192.0.2.1".to_string()));
    assert_eq!(r.last_zone_check, Some(sample_datetime()));
    assert_eq!(
        r.slave_dns,
        Some(SlaveDns { hostname: "ns2".to_string(), address: "192.0.2.2".to_string() })
    );
    assert_eq!(r.soa_serial, Some("2024022901".to_string()));
    assert_eq!(r.records.unwrap()[0].id, 1);
}

#[test]
fn search_drops_records_that_do_not_decode() {
    let mut bad = full_record(2);
    bad.remove(1);
    let items = vec![
        Value::Struct(full_record(1)),
        Value::Struct(bad),
        Value::Int(3),
        Value::Struct(full_record(4)),
    ];
    let rs = decode_records(&items);
    assert_eq!(rs.iter().map(|r| r.id).collect::<Vec<i32>>(), vec![1, 4]);
}

#[test]
fn search_bad_slave_dns_is_unknown() {
    let m = vec![
        member("slaveDns", Value::Struct(vec![member("hostname", text("ns2"))])),
        member("type", text("PRIMARY")),
    ];
    let r = RecordInfo::decode(&m);
    assert_eq!(r.slave_dns, None);
    assert_eq!(r.domain_type, None);
}

#[test]
fn login_response_decodes() {
    let payload = Value::Struct(vec![
        member("customerId", Value::Int(1)),
        member("customerNo", Value::Int(2)),
        member("accountId", Value::Int(3)),
        member("tfa", text("0")),
    ]);
    let l = LoginResponse::from_payload(Some(payload)).unwrap();
    assert_eq!(l.customer_id, 1);
    assert_eq!(l.customer_number, 2);
    assert_eq!(l.account_id, 3);
    assert_eq!(l.tfa, "0");
}

#[test]
fn missing_payload_is_missing_field() {
    match LoginResponse::from_payload(None) {
        Err(Error::MissingField(k)) => assert_eq!(k, "resData"),
        other => panic!("unexpected {:?}", other),
    }
    match RecordInfo::from_payload(Some(Value::Int(1))) {
        Err(Error::WrongFieldType(k, Kind::Struct, Value::Int(1))) => assert_eq!(k, "resData"),
        other => panic!("unexpected {:?}", other),
    }
    assert!(<() as Response>::from_payload(None).is_ok());
}

#[test]
fn envelope_splits_status_and_payload() {
    let reply = Value::Struct(vec![
        member("code", Value::Int(1000)),
        member("msg", text("Command completed successfully")),
        member("resData", Value::Struct(vec![])),
    ]);
    let d = read_envelope(reply).unwrap();
    assert_eq!(d.status, 1000);
    assert_eq!(shown(&d.params.unwrap()), shown(&Value::Struct(vec![])));
    let d = read_envelope(Value::Struct(vec![member("code", Value::Int(1500))])).unwrap();
    assert_eq!(d.status, 1500);
    assert!(d.params.is_none());
}

#[test]
fn malformed_envelopes_fail() {
    match read_envelope(Value::Array(vec![])) {
        Err(Error::MalformedResponse(Value::Array(a))) => assert!(a.is_empty()),
        other => panic!("unexpected {:?}", other),
    }
    match read_envelope(Value::Struct(vec![member("resData", Value::Nil)])) {
        Err(Error::MissingField(k)) => assert_eq!(k, "code"),
        other => panic!("unexpected {:?}", other),
    }
}

#[test]
fn deep_copy_is_equal() {
    let v = Value::Struct(vec![
        member("a", Value::Array(vec![Value::Nil, Value::Bool(true), text("x")])),
        member("b", Value::DateTime(sample_datetime())),
    ]);
    assert_eq!(shown(&v.deep_copy()), shown(&v));
    assert_eq!(v.kind(), Kind::Struct);
}
