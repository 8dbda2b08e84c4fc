use vstd::prelude::*;

use crate::common::{get_i32, get_str, int_spec, str_spec};
use crate::error::{result_view, ErrorModel, Result};
use crate::response::{payload_fields, payload_members, Response};
use crate::call::{lemma_find_opt_push, opt_push};
use crate::value::{find, members_model, FieldModel, Member, Value, ValueModel};

verus! {

/// What a successful login reports about the account.
#[derive(Clone, Debug, PartialEq)]
pub struct Login {
    pub customer_id: i32,
    pub customer_number: i32,
    pub account_id: i32,
    pub tfa: String,
}

/// The content of a `Login`.
pub struct LoginModel {
    pub customer_id: i32,
    pub customer_number: i32,
    pub account_id: i32,
    pub tfa: Seq<char>,
}

impl View for Login {
    type V = LoginModel;

    open spec fn view(&self) -> LoginModel {
        LoginModel {
            customer_id: self.customer_id,
            customer_number: self.customer_number,
            account_id: self.account_id,
            tfa: self.tfa@,
        }
    }
}

/// What decoding the data of a successful login yields.
pub open spec fn login_spec(fields: Seq<FieldModel>) -> core::result::Result<
    LoginModel,
    ErrorModel,
> {
    match int_spec(fields, "customerId"@) {
        Err(e) => Err(e),
        Ok(customer_id) => match int_spec(fields, "customerNo"@) {
            Err(e) => Err(e),
            Ok(customer_number) => match int_spec(fields, "accountId"@) {
                Err(e) => Err(e),
                Ok(account_id) => match str_spec(fields, "tfa"@) {
                    Err(e) => Err(e),
                    Ok(tfa) => Ok(
                        LoginModel { customer_id, customer_number, account_id, tfa },
                    ),
                },
            },
        },
    }
}

impl Login {
    /// Decodes the data of a successful login; every field is required.
    pub fn decode(members: &Vec<Member>) -> (r: Result<Login>)
        ensures
            result_view(r) == login_spec(members_model(members@)),
    {
        let customer_id = match get_i32(members, "customerId".to_owned()) {
            Ok(x) => x,
            Err(e) => return Err(e),
        };
        let customer_number = match get_i32(members, "customerNo".to_owned()) {
            Ok(x) => x,
            Err(e) => return Err(e),
        };
        let account_id = match get_i32(members, "accountId".to_owned()) {
            Ok(x) => x,
            Err(e) => return Err(e),
        };
        let tfa = match get_str(members, "tfa".to_owned()) {
            Ok(x) => x,
            Err(e) => return Err(e),
        };
        Ok(Login { customer_id, customer_number, account_id, tfa })
    }
}

impl Response for Login {
    open spec fn payload_spec(payload: Option<ValueModel>) -> core::result::Result<
        LoginModel,
        ErrorModel,
    > {
        match payload_fields(payload) {
            Err(e) => Err(e),
            Ok(fields) => login_spec(fields),
        }
    }

    fn from_payload(payload: Option<Value>) -> (r: Result<Login>) {
        match payload_members(payload) {
            Err(e) => Err(e),
            Ok(members) => Login::decode(&members),
        }
    }
}

/// The struct that carries the data of a login.
pub open spec fn login_fields(m: LoginModel) -> Seq<FieldModel> {
    let f = opt_push(Seq::empty(), "customerId"@, Some(ValueModel::Int(m.customer_id)));
    let f = opt_push(f, "customerNo"@, Some(ValueModel::Int(m.customer_number)));
    let f = opt_push(f, "accountId"@, Some(ValueModel::Int(m.account_id)));
    opt_push(f, "tfa"@, Some(ValueModel::Str(m.tfa)))
}

/// Decoding a struct that holds every field of a login with its kind succeeds and gives
/// back exactly those values.
pub proof fn lemma_login_round_trip(m: LoginModel)
    ensures
        login_spec(login_fields(m)) == Ok::<LoginModel, ErrorModel>(m),
{
    broadcast use lemma_find_opt_push;

    reveal_strlit("customerId");
    reveal_strlit("customerNo");
    reveal_strlit("accountId");
    reveal_strlit("tfa");
    assert("customerId"@.len() == 10);
    assert("customerNo"@.len() == 10);
    assert("accountId"@.len() == 9);
    assert("tfa"@.len() == 3);
    assert("customerId"@[8] != "customerNo"@[8]);    assert(forall|k: Seq<char>| find(Seq::<FieldModel>::empty(), k) is None);
}

} // verus!
