//! Values and their types at the boundary between host and guest.

use vstd::prelude::*;

verus! {

/// A type that an interface may declare for an argument or a result.
#[derive(Debug, PartialEq, Eq)]
pub enum ValueType {
    Bool,
    S8,
    U8,
    S16,
    U16,
    S32,
    U32,
    S64,
    U64,
    Char,
    Str,
    List(Box<ValueType>),
    Record(Vec<Field>),
}

/// One named field of a record type.
#[derive(Debug, PartialEq, Eq)]
pub struct Field {
    pub name: String,
    pub ty: ValueType,
}

/// A value that crosses the boundary.
#[derive(Debug, PartialEq, Eq)]
pub enum Value {
    Bool(bool),
    S8(i8),
    U8(u8),
    S16(i16),
    U16(u16),
    S32(i32),
    U32(u32),
    S64(i64),
    U64(u64),
    Char(char),
    Str(String),
    List(Vec<Value>),
    Record(Vec<Member>),
}

/// One named field of a record value.
#[derive(Debug, PartialEq, Eq)]
pub struct Member {
    pub name: String,
    pub value: Value,
}

/// What a `ValueType` stands for: names by their characters, fields in order.
pub enum TypeModel {
    Bool,
    S8,
    U8,
    S16,
    U16,
    S32,
    U32,
    S64,
    U64,
    Char,
    Str,
    List(Box<TypeModel>),
    Record(Seq<(Seq<char>, TypeModel)>),
}

impl ValueType {
    /// What the type stands for.
    pub open spec fn model(&self) -> TypeModel
        decreases self,
    {
        match self {
            ValueType::Bool => TypeModel::Bool,
            ValueType::S8 => TypeModel::S8,
            ValueType::U8 => TypeModel::U8,
            ValueType::S16 => TypeModel::S16,
            ValueType::U16 => TypeModel::U16,
            ValueType::S32 => TypeModel::S32,
            ValueType::U32 => TypeModel::U32,
            ValueType::S64 => TypeModel::S64,
            ValueType::U64 => TypeModel::U64,
            ValueType::Char => TypeModel::Char,
            ValueType::Str => TypeModel::Str,
            ValueType::List(element) => TypeModel::List(Box::new(element.model())),
            ValueType::Record(fields) => TypeModel::Record(
                Seq::new(
                    fields@.len(),
                    |i: int|
                        if 0 <= i < fields@.len() {
                            (fields@[i].name@, fields@[i].ty.model())
                        } else {
                            (Seq::empty(), TypeModel::Bool)
                        },
                ),
            ),
        }
    }

    /// Whether two types stand for the same thing.
    pub fn same(&self, other: &ValueType) -> (r: bool)
        ensures
            r == (self.model() == other.model()),
        decreases self,
    {
        match (self, other) {
            (ValueType::Bool, ValueType::Bool) => true,
            (ValueType::S8, ValueType::S8) => true,
            (ValueType::U8, ValueType::U8) => true,
            (ValueType::S16, ValueType::S16) => true,
            (ValueType::U16, ValueType::U16) => true,
            (ValueType::S32, ValueType::S32) => true,
            (ValueType::U32, ValueType::U32) => true,
            (ValueType::S64, ValueType::S64) => true,
            (ValueType::U64, ValueType::U64) => true,
            (ValueType::Char, ValueType::Char) => true,
            (ValueType::Str, ValueType::Str) => true,
            (ValueType::List(a), ValueType::List(b)) => a.same(b),
            (ValueType::Record(a), ValueType::Record(b)) => {
                let ghost ma = self.model()->Record_0;
                let ghost mb = other.model()->Record_0;
                if a.len() != b.len() {
                    assert(ma.len() != mb.len());
                    return false;
                }
                let mut i: usize = 0;
                while i < a.len()
                    invariant
                        i <= a.len(),
                        a.len() == b.len(),
                        *self == ValueType::Record(*a),
                        *other == ValueType::Record(*b),
                        ma == self.model()->Record_0,
                        mb == other.model()->Record_0,
                        forall|j: int| 0 <= j < i ==> ma[j] == mb[j],
                    decreases a.len() - i,
                {
                    assert(ma[i as int] == (a@[i as int].name@, a@[i as int].ty.model()));
                    assert(mb[i as int] == (b@[i as int].name@, b@[i as int].ty.model()));
                    if !(a[i].name == b[i].name) || !a[i].ty.same(&b[i].ty) {
                        return false;
                    }
                    i += 1;
                }
                assert(ma =~= mb);
                true
            },
            _ => false,
        }
    }
}

/// What a list of types stands for, place by place.
pub open spec fn types_model(types: Seq<ValueType>) -> Seq<TypeModel> {
    Seq::new(types.len(), |i: int| types[i].model())
}

/// Whether the two lists are as long and each type of `a` stands for the same
/// thing as the type of `b` at its place.
pub fn same_types(a: &Vec<ValueType>, b: &Vec<ValueType>) -> (r: bool)
    ensures
        r == (types_model(a@) == types_model(b@)),
{
    if a.len() != b.len() {
        assert(types_model(a@).len() != types_model(b@).len());
        return false;
    }
    let mut i: usize = 0;
    while i < a.len()
        invariant
            i <= a.len(),
            a.len() == b.len(),
            forall|j: int| 0 <= j < i ==> types_model(a@)[j] == types_model(b@)[j],
        decreases a.len() - i,
    {
        if !a[i].same(&b[i]) {
            assert(types_model(a@)[i as int] != types_model(b@)[i as int]);
            return false;
        }
        i += 1;
    }
    assert(types_model(a@) =~= types_model(b@));
    true
}

impl Value {
    /// Whether the value has the type `t`. A list has a list type if each of
    /// its items has the element type; a record has a record type if it has
    /// the same fields, by name and in order, each with a value of its type.
    pub open spec fn conforms(&self, t: TypeModel) -> bool
        decreases self,
    {
        match (self, t) {
            (Value::Bool(_), TypeModel::Bool) => true,
            (Value::S8(_), TypeModel::S8) => true,
            (Value::U8(_), TypeModel::U8) => true,
            (Value::S16(_), TypeModel::S16) => true,
            (Value::U16(_), TypeModel::U16) => true,
            (Value::S32(_), TypeModel::S32) => true,
            (Value::U32(_), TypeModel::U32) => true,
            (Value::S64(_), TypeModel::S64) => true,
            (Value::U64(_), TypeModel::U64) => true,
            (Value::Char(_), TypeModel::Char) => true,
            (Value::Str(_), TypeModel::Str) => true,
            (Value::List(items), TypeModel::List(element)) => forall|i: int|
                0 <= i < items@.len() ==> (#[trigger] items@[i]).conforms(*element),
            (Value::Record(members), TypeModel::Record(fields)) => {
                &&& members@.len() == fields.len()
                &&& forall|i: int|
                    0 <= i < members@.len() ==> {
                        &&& (#[trigger] members@[i]).name@ == fields[i].0
                        &&& members@[i].value.conforms(fields[i].1)
                    }
            },
            _ => false,
        }
    }

    /// Checks the value against a declared type.
    pub fn has_type(&self, t: &ValueType) -> (r: bool)
        ensures
            r == self.conforms(t.model()),
        decreases self,
    {
        match (self, t) {
            (Value::Bool(_), ValueType::Bool) => true,
            (Value::S8(_), ValueType::S8) => true,
            (Value::U8(_), ValueType::U8) => true,
            (Value::S16(_), ValueType::S16) => true,
            (Value::U16(_), ValueType::U16) => true,
            (Value::S32(_), ValueType::S32) => true,
            (Value::U32(_), ValueType::U32) => true,
            (Value::S64(_), ValueType::S64) => true,
            (Value::U64(_), ValueType::U64) => true,
            (Value::Char(_), ValueType::Char) => true,
            (Value::Str(_), ValueType::Str) => true,
            (Value::List(items), ValueType::List(element)) => {
                let mut i: usize = 0;
                while i < items.len()
                    invariant
                        i <= items.len(),
                        *self == Value::List(*items),
                        *t == ValueType::List(*element),
                        forall|j: int| 0 <= j < i ==> (#[trigger] items@[j]).conforms(element.model()),
                    decreases items.len() - i,
                {
                    assert(decreases_to!(*self => self->List_0));
                    if !items[i].has_type(element) {
                        return false;
                    }
                    i += 1;
                }
                true
            },
            (Value::Record(members), ValueType::Record(fields)) => {
                let ghost mf = t.model()->Record_0;
                if members.len() != fields.len() {
                    return false;
                }
                let mut i: usize = 0;
                while i < members.len()
                    invariant
                        i <= members.len(),
                        members.len() == fields.len(),
                        *self == Value::Record(*members),
                        *t == ValueType::Record(*fields),
                        mf == t.model()->Record_0,
                        forall|j: int|
                            0 <= j < i ==> {
                                &&& (#[trigger] members@[j]).name@ == mf[j].0
                                &&& members@[j].value.conforms(mf[j].1)
                            },
                    decreases members.len() - i,
                {
                    assert(mf[i as int] == (fields@[i as int].name@, fields@[i as int].ty.model()));
                    assert(decreases_to!(*self => self->Record_0));
                    if !(members[i].name == fields[i].name) || !members[i].value.has_type(
                        &fields[i].ty,
                    ) {
                        return false;
                    }
                    i += 1;
                }
                true
            },
            _ => false,
        }
    }
}

/// Whether `values` are as many as `types` and each has the type at its place.
pub open spec fn values_conform(values: Seq<Value>, types: Seq<TypeModel>) -> bool {
    &&& values.len() == types.len()
    &&& forall|i: int| 0 <= i < values.len() ==> (#[trigger] values[i]).conforms(types[i])
}

/// Checks a list of values against a list of declared types.
pub fn have_types(values: &Vec<Value>, types: &Vec<ValueType>) -> (r: bool)
    ensures
        r == values_conform(values@, types_model(types@)),
{
    if values.len() != types.len() {
        return false;
    }
    let mut i: usize = 0;
    while i < values.len()
        invariant
            i <= values.len(),
            values.len() == types.len(),
            forall|j: int|
                0 <= j < i ==> (#[trigger] values@[j]).conforms(types_model(types@)[j]),
        decreases values.len() - i,
    {
        if !values[i].has_type(&types[i]) {
            return false;
        }
        i += 1;
    }
    true
}

} // verus!
