use vstd::prelude::*;

verus! {

/// The calendar part of a date-time, in one of the three ISO 8601 forms.
#[derive(Clone, Copy, Debug, PartialEq, Eq, Structural)]
pub enum CalendarDate {
    YMD { year: i32, month: u32, day: u32 },
    Week { year: i32, ww: u32, d: u32 },
    Ordinal { year: i32, ddd: u32 },
}

/// The time-of-day part of a date-time, with its offset from UTC.
#[derive(Clone, Copy, Debug, PartialEq, Eq, Structural)]
pub struct TimeOfDay {
    pub hour: u32,
    pub minute: u32,
    pub second: u32,
    pub millisecond: u32,
    pub tz_offset_hours: i32,
    pub tz_offset_minutes: i32,
}

/// A point in time as the wire format carries it.
#[derive(Clone, Copy, Debug, PartialEq, Eq, Structural)]
pub struct DateTime {
    pub date: CalendarDate,
    pub time: TimeOfDay,
}

/// A self-describing wire value.
#[derive(Debug)]
pub enum Value {
    Nil,
    Bool(bool),
    Int(i32),
    Str(String),
    DateTime(DateTime),
    Array(Vec<Value>),
    Struct(Vec<Member>),
}

/// One named entry of a `Value::Struct`.
#[derive(Debug)]
pub struct Member {
    pub key: String,
    pub value: Value,
}

/// The mathematical content of a `Value`.
pub enum ValueModel {
    Nil,
    Bool(bool),
    Int(i32),
    Str(Seq<char>),
    DateTime(DateTime),
    Array(Seq<ValueModel>),
    Struct(Seq<FieldModel>),
}

/// The mathematical content of a `Member`.
pub struct FieldModel {
    pub key: Seq<char>,
    pub value: ValueModel,
}

impl Value {
    pub open spec fn model(self) -> ValueModel
        decreases self,
    {
        match self {
            Value::Nil => ValueModel::Nil,
            Value::Bool(b) => ValueModel::Bool(b),
            Value::Int(i) => ValueModel::Int(i),
            Value::Str(s) => ValueModel::Str(s@),
            Value::DateTime(d) => ValueModel::DateTime(d),
            Value::Array(items) => ValueModel::Array(items_model(items@)),
            Value::Struct(members) => ValueModel::Struct(members_model(members@)),
        }
    }
}

pub open spec fn items_model(items: Seq<Value>) -> Seq<ValueModel>
    decreases items,
{
    if items.len() == 0 {
        Seq::empty()
    } else {
        seq![items[0].model()] + items_model(items.drop_first())
    }
}

pub open spec fn members_model(members: Seq<Member>) -> Seq<FieldModel>
    decreases members,
{
    if members.len() == 0 {
        Seq::empty()
    } else {
        seq![FieldModel { key: members[0].key@, value: members[0].value.model() }]
            + members_model(members.drop_first())
    }
}


/// The kind of a value, as named in type-mismatch diagnostics.
#[derive(Clone, Copy, Debug, PartialEq, Eq, Structural)]
pub enum Kind {
    Nil,
    Bool,
    Int,
    Str,
    DateTime,
    Array,
    Struct,
}

impl ValueModel {
    pub open spec fn kind(self) -> Kind {
        match self {
            ValueModel::Nil => Kind::Nil,
            ValueModel::Bool(_) => Kind::Bool,
            ValueModel::Int(_) => Kind::Int,
            ValueModel::Str(_) => Kind::Str,
            ValueModel::DateTime(_) => Kind::DateTime,
            ValueModel::Array(_) => Kind::Array,
            ValueModel::Struct(_) => Kind::Struct,
        }
    }
}

/// The value stored under `key`: the first field with that key, if any.
pub open spec fn find(fields: Seq<FieldModel>, key: Seq<char>) -> Option<ValueModel>
    decreases fields.len(),
{
    if fields.len() == 0 {
        None
    } else if fields[0].key == key {
        Some(fields[0].value)
    } else {
        find(fields.drop_first(), key)
    }
}

pub proof fn lemma_items_model(items: Seq<Value>)
    ensures
        items_model(items).len() == items.len(),
        forall|i: int| 0 <= i < items.len() ==> #[trigger] items_model(items)[i] == items[i].model(),
    decreases items.len(),
{
    if items.len() > 0 {
        lemma_items_model(items.drop_first());
        assert forall|i: int| 0 <= i < items.len() implies #[trigger] items_model(items)[i]
            == items[i].model() by {
            if i > 0 {
                assert(items_model(items)[i] == items_model(items.drop_first())[i - 1]);
            }
        }
    }
}

pub proof fn lemma_members_model(members: Seq<Member>)
    ensures
        members_model(members).len() == members.len(),
        forall|i: int|
            0 <= i < members.len() ==> (#[trigger] members_model(members)[i]).key == members[i].key@
                && members_model(members)[i].value == members[i].value.model(),
    decreases members.len(),
{
    if members.len() > 0 {
        lemma_members_model(members.drop_first());
        assert forall|i: int| 0 <= i < members.len() implies (#[trigger] members_model(
            members,
        )[i]).key == members[i].key@ && members_model(members)[i].value
            == members[i].value.model() by {
            if i > 0 {
                assert(members_model(members)[i] == members_model(members.drop_first())[i - 1]);
            }
        }
    }
}

/// Where the first field with `key` stands at index `i`, `find` yields its value.
pub proof fn lemma_find_at(fields: Seq<FieldModel>, key: Seq<char>, i: int)
    requires
        0 <= i < fields.len(),
        fields[i].key == key,
        forall|j: int| 0 <= j < i ==> fields[j].key != key,
    ensures
        find(fields, key) == Some(fields[i].value),
    decreases i,
{
    if i > 0 {
        lemma_find_at(fields.drop_first(), key, i - 1);
    }
}

/// Where no field has `key`, `find` yields nothing.
pub proof fn lemma_find_none(fields: Seq<FieldModel>, key: Seq<char>)
    requires
        forall|j: int| 0 <= j < fields.len() ==> fields[j].key != key,
    ensures
        find(fields, key) is None,
    decreases fields.len(),
{
    if fields.len() > 0 {
        lemma_find_none(fields.drop_first(), key);
    }
}

impl Value {
    /// The kind of this value.
    pub fn kind(&self) -> (k: Kind)
        ensures
            k == self.model().kind(),
    {
        match self {
            Value::Nil => Kind::Nil,
            Value::Bool(_) => Kind::Bool,
            Value::Int(_) => Kind::Int,
            Value::Str(_) => Kind::Str,
            Value::DateTime(_) => Kind::DateTime,
            Value::Array(_) => Kind::Array,
            Value::Struct(_) => Kind::Struct,
        }
    }

    /// A copy of this value, all the way down.
    pub fn deep_copy(&self) -> (r: Value)
        ensures
            r.model() == self.model(),
        decreases self,
    {
        match self {
            Value::Nil => Value::Nil,
            Value::Bool(b) => Value::Bool(*b),
            Value::Int(i) => Value::Int(*i),
            Value::Str(s) => Value::Str(s.clone()),
            Value::DateTime(d) => Value::DateTime(*d),
            Value::Array(items) => {
                let mut out: Vec<Value> = Vec::new();
                let mut i: usize = 0;
                while i < items.len()
                    invariant
                        i <= items.len(),
                        *self == Value::Array(*items),
                        out@.len() == i,
                        forall|j: int| 0 <= j < i ==> (#[trigger] out@[j]).model() == items@[j].model(),
                    decreases items.len() - i,
                {
                    proof {
                        vstd::std_specs::vec::axiom_vec_index_decreases(*items, i as int);
                        assert(decreases_to!(*self => self->Array_0));
                    }
                    let c = items[i].deep_copy();
                    out.push(c);
                    i = i + 1;
                }
                proof {
                    lemma_items_model(out@);
                    lemma_items_model(items@);
                    assert(items_model(out@) =~= items_model(items@));
                }
                Value::Array(out)
            },
            Value::Struct(members) => {
                let mut out: Vec<Member> = Vec::new();
                let mut i: usize = 0;
                while i < members.len()
                    invariant
                        i <= members.len(),
                        *self == Value::Struct(*members),
                        out@.len() == i,
                        forall|j: int|
                            0 <= j < i ==> (#[trigger] out@[j]).key@ == members@[j].key@
                                && out@[j].value.model() == members@[j].value.model(),
                    decreases members.len() - i,
                {
                    proof {
                        vstd::std_specs::vec::axiom_vec_index_decreases(*members, i as int);
                        assert(decreases_to!(*self => self->Struct_0));
                        assert(decreases_to!(members@[i as int] => members@[i as int].value));
                    }
                    let c = Member { key: members[i].key.clone(), value: members[i].value.deep_copy() };
                    out.push(c);
                    i = i + 1;
                }
                proof {
                    lemma_members_model(out@);
                    lemma_members_model(members@);
                    assert(members_model(out@) =~= members_model(members@));
                }
                Value::Struct(out)
            },
        }
    }
}

/// The index of the first member with `key`, if any.
pub fn position(members: &Vec<Member>, key: &String) -> (r: Option<usize>)
    ensures
        match r {
            Some(i) => i < members@.len() && find(members_model(members@), key@) == Some(
                members@[i as int].value.model(),
            ),
            None => find(members_model(members@), key@) is None,
        },
{
    proof {
        lemma_members_model(members@);
    }
    let mut i: usize = 0;
    while i < members.len()
        invariant
            i <= members.len(),
            members_model(members@).len() == members@.len(),
            forall|j: int| 0 <= j < i ==> (#[trigger] members_model(members@)[j]).key != key@,
            forall|j: int|
                0 <= j < members.len() ==> (#[trigger] members_model(members@)[j]).key
                    == members@[j].key@ && members_model(members@)[j].value
                    == members@[j].value.model(),
        decreases members.len() - i,
    {
        if members[i].key == *key {
            proof {
                lemma_find_at(members_model(members@), key@, i as int);
            }
            return Some(i);
        }
        i = i + 1;
    }
    proof {
        lemma_find_none(members_model(members@), key@);
    }
    None
}

/// The value stored under `key` in a struct's members.
pub fn lookup<'a>(members: &'a Vec<Member>, key: &String) -> (r: Option<&'a Value>)
    ensures
        match r {
            Some(v) => find(members_model(members@), key@) == Some(v.model()),
            None => find(members_model(members@), key@) is None,
        },
{
    match position(members, key) {
        Some(i) => Some(&members[i].value),
        None => None,
    }
}

pub open spec fn opt_model(o: Option<Value>) -> Option<ValueModel> {
    match o {
        Some(v) => Some(v.model()),
        None => None,
    }
}

impl View for DateTime {
    type V = DateTime;

    open spec fn view(&self) -> DateTime {
        *self
    }
}

} // verus!
