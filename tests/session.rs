use inwx::call::account::{Login, Logout};
use inwx::call::nameserver::{RecordInfo as RecordInfoCall, RecordUpdate};
use inwx::call::Call;
use inwx::client::{check_status, finish_call, Endpoint, Session, SessionState, SESSION_ENDED, SUCCESS};
use inwx::response::nameserver::RecordInfo;
use inwx::value::{Member, Value};
use inwx::Error;

fn member(key: &str, value: Value) -> Member {
    Member { key: key.to_string(), value }
}

fn reply(code: i32, payload: Option<Value>) -> Value {
    let mut ms = vec![member("code", Value::Int(code))];
    if let Some(p) = payload {
        ms.push(member("resData", p));
    }
    Value::Struct(ms)
}

fn login_call() -> Login {
    Login { user: "inwxclient".to_string(), pass: "password".to_string(), case_insensitive: false }
}

fn login_payload() -> Value {
    Value::Struct(vec![
        member("customerId", Value::Int(11)),
        member("customerNo", Value::Int(22)),
        member("accountId", Value::Int(33)),
        member("tfa", Value::Str("0".to_string())),
    ])
}

fn search_by_id(id: i32) -> RecordInfoCall {
    RecordInfoCall {
        domain_name: None,
        domain_id: None,
        record_id: Some(id),
        record_type: None,
        name: None,
        content: None,
        ttl: None,
        priority: None,
    }
}

#[test]
fn status_codes() {
    assert_eq!(SUCCESS, 1000);
    assert_eq!(SESSION_ENDED, 1500);
}

#[test]
fn check_status_accepts_expected_codes_only() {
    assert!(check_status(vec![1000, 1500], 1500).is_ok());
    match check_status(vec![1000], 2400) {
        Err(Error::UnexpectedStatus(exp, got)) => {
            assert_eq!(exp, vec![1000]);
            assert_eq!(got, 2400);
        }
        other => panic!("unexpected {:?}", other),
    }
}

#[test]
fn status_gating_rejects_session_end_for_search() {
    let r: Result<RecordInfo, Error> =
        finish_call(&search_by_id(75503), reply(1500, Some(Value::Struct(vec![]))));
    match r {
        Err(Error::UnexpectedStatus(exp, got)) => {
            assert_eq!(exp, vec![1000]);
            assert_eq!(got, 1500);
        }
        other => panic!("unexpected {:?}", other),
    }
}

#[test]
fn logout_accepts_session_end_only() {
    let r: Result<(), Error> = finish_call(&Logout, reply(1500, None));
    assert!(r.is_ok());
    let r: Result<(), Error> = finish_call(&Logout, reply(1000, None));
    match r {
        Err(Error::UnexpectedStatus(exp, got)) => {
            assert_eq!(exp, vec![1500]);
            assert_eq!(got, 1000);
        }
        other => panic!("unexpected {:?}", other),
    }
}

#[test]
fn update_ignores_payload() {
    let u = RecordUpdate {
        ids: vec![75503],
        name: None,
        record_type: None,
        content: Some("::1".to_string()),
        ttl: None,
        priority: None,
        url_rdr_type: None,
        url_rdr_title: None,
        url_rdr_desc: None,
        url_rdr_keywords: None,
        url_rdr_favicon: None,
        url_append: None,
        testing_mode: false,
    };
    let r: Result<(), Error> = finish_call(&u, reply(1000, Some(Value::Int(1))));
    assert!(r.is_ok());
}

#[test]
fn login_success_activates_session() {
    let mut s = Session::new();
    assert_eq!(s.state(), SessionState::Unauthenticated);
    let l = s.login_reply(&login_call(), reply(1000, Some(login_payload()))).unwrap();
    assert_eq!(l.customer_id, 11);
    assert_eq!(l.account_id, 33);
    assert_eq!(s.state(), SessionState::Active);
}

#[test]
fn login_failure_leaves_no_session() {
    let mut s = Session::new();
    match s.login_reply(&login_call(), reply(2200, None)) {
        Err(Error::UnexpectedStatus(exp, got)) => {
            assert_eq!(exp, vec![1000]);
            assert_eq!(got, 2200);
        }
        other => panic!("unexpected {:?}", other),
    }
    assert_eq!(s.state(), SessionState::Unauthenticated);
    let mut s = Session::new();
    assert!(s.login_reply(&login_call(), reply(1000, None)).is_err());
    assert_eq!(s.state(), SessionState::Unauthenticated);
    assert!(!s.close());
    assert_eq!(s.state(), SessionState::Closed);
}

#[test]
fn close_sends_logout_once() {
    let mut s = Session::new();
    s.login_reply(&login_call(), reply(1000, Some(login_payload()))).unwrap();
    assert!(s.close());
    assert_eq!(s.state(), SessionState::Closed);
    assert!(!s.close());
    assert_eq!(s.state(), SessionState::Closed);
}

#[test]
fn endpoint_urls() {
    assert_eq!(Endpoint::Production.url(), "https://api.domrobot.com/xmlrpc/");
    assert_eq!(Endpoint::Sandbox.url(), "https://api.ote.domrobot.com/xmlrpc/");
}

#[test]
fn sandbox_search_scenario() {
    let mut session = Session::new();
    let login = login_call();
    assert_eq!(login.method_name(), "account.login");
    session.login_reply(&login, reply(1000, Some(login_payload()))).unwrap();
    assert_eq!(session.state(), SessionState::Active);

    let search = search_by_id(75503);
    match search.encode() {
        Value::Struct(ms) => {
            assert_eq!(ms.len(), 1);
            assert_eq!(ms[0].key, "recordId");
            assert!(matches!(ms[0].value, Value::Int(75503)));
        }
        other => panic!("unexpected {:?}", other),
    }
    let record = Value::Struct(vec![
        member("id", Value::Int(75503)),
        member("name", Value::Str("test.example.com".to_string())),
        member("type", Value::Str("AAAA".to_string())),
        member("content", Value::Str("::1".to_string())),
        member("ttl", Value::Int(3600)),
        member("prio", Value::Int(0)),
    ]);
    let payload = Value::Struct(vec![member("record", Value::Array(vec![record]))]);
    let found: RecordInfo = finish_call(&search, reply(1000, Some(payload))).unwrap();
    assert_eq!(found.domain_id, None);
    let records = found.records.unwrap();
    assert_eq!(records.len(), 1);
    assert_eq!(records[0].id, 75503);

    assert!(session.close());
    let logout: Result<(), Error> = finish_call(&Logout, reply(2400, None));
    assert!(logout.is_err());
    assert_eq!(session.state(), SessionState::Closed);
}
