use vstd::prelude::*;

use crate::call::{put, Call};
use crate::client::{SESSION_ENDED, SUCCESS};
use crate::value::{members_model, FieldModel, Member, Value, ValueModel};

verus! {

/// The credentials that open a session.
#[derive(Clone, Debug, PartialEq)]
pub struct Login {
    pub user: String,
    pub pass: String,
    pub case_insensitive: bool,
}

impl Call for Login {
    open spec fn method_spec(&self) -> Seq<char> {
        "account.login"@
    }

    open spec fn expected_spec(&self) -> Seq<i32> {
        seq![SUCCESS]
    }

    open spec fn wire_spec(&self) -> ValueModel {
        ValueModel::Struct(
            seq![
                FieldModel { key: "user"@, value: ValueModel::Str(self.user@) },
                FieldModel { key: "pass"@, value: ValueModel::Str(self.pass@) },
                FieldModel {
                    key: "case-insensitive"@,
                    value: ValueModel::Bool(self.case_insensitive),
                },
            ],
        )
    }

    fn method_name(&self) -> (r: String) {
        "account.login".to_owned()
    }

    fn expected(&self) -> (r: Vec<i32>) {
        vec![SUCCESS]
    }

    fn encode(&self) -> (r: Value) {
        let mut members: Vec<Member> = Vec::new();
        put(&mut members, "user", Some(Value::Str(self.user.clone())));
        put(&mut members, "pass", Some(Value::Str(self.pass.clone())));
        put(&mut members, "case-insensitive", Some(Value::Bool(self.case_insensitive)));
        assert(members_model(members@) =~= seq![
            FieldModel { key: "user"@, value: ValueModel::Str(self.user@) },
            FieldModel { key: "pass"@, value: ValueModel::Str(self.pass@) },
            FieldModel { key: "case-insensitive"@, value: ValueModel::Bool(self.case_insensitive) },
        ]);
        Value::Struct(members)
    }
}

/// Ends the session; it carries no data.
#[derive(Clone, Copy, Debug, PartialEq)]
pub struct Logout;

impl Call for Logout {
    open spec fn method_spec(&self) -> Seq<char> {
        "account.logout"@
    }

    open spec fn expected_spec(&self) -> Seq<i32> {
        seq![SESSION_ENDED]
    }

    open spec fn wire_spec(&self) -> ValueModel {
        ValueModel::Struct(Seq::empty())
    }

    fn method_name(&self) -> (r: String) {
        "account.logout".to_owned()
    }

    fn expected(&self) -> (r: Vec<i32>) {
        vec![SESSION_ENDED]
    }

    fn encode(&self) -> (r: Value) {
        let members: Vec<Member> = Vec::new();
        assert(members_model(members@) =~= Seq::empty());
        Value::Struct(members)
    }
}

} // verus!
