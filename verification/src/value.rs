//! Decoded storage values: a tree of named and unnamed composites, variants and
//! primitives, each node with some context.
use crate::text::same_text;
use vstd::prelude::*;

verus! {

/// A decoded value and its context.
#[derive(Debug)]
pub struct Value<T> {
    /// The shape of the value
    pub value: ValueDef<T>,
    /// What is known of where the value came from
    pub context: T,
}

/// The shape of a value.
#[derive(Debug)]
pub enum ValueDef<T> {
    /// A struct-like, array-like or tuple-like set of values
    Composite(Composite<T>),
    /// An enum variant
    Variant(Variant<T>),
    /// A sequence of bits
    BitSequence(Vec<bool>),
    /// Any of the primitive values
    Primitive(Primitive),
}

/// A named or unnamed set of values.
#[derive(Debug)]
pub enum Composite<T> {
    /// Such as `{ foo: 2, bar: false }`
    Named(Vec<(String, Value<T>)>),
    /// Such as `(2, false)`
    Unnamed(Vec<Value<T>>),
}

/// The name of an enum variant and its values.
#[derive(Debug)]
pub struct Variant<T> {
    pub name: String,
    pub values: Composite<T>,
}

/// A primitive value.
#[derive(Debug)]
pub enum Primitive {
    Bool(bool),
    Char(char),
    String(String),
    U128(u128),
    I128(i128),
    U256([u8; 32]),
    I256([u8; 32]),
}

/// The number that a value is, if it is an unsigned one.
pub open spec fn as_u128<T>(v: Value<T>) -> Option<u128> {
    match v.value {
        ValueDef::Primitive(Primitive::U128(n)) => Some(n),
        _ => None,
    }
}

/// The members of an unnamed composite.
pub open spec fn unnamed_items<T>(v: Value<T>) -> Option<Seq<Value<T>>> {
    match v.value {
        ValueDef::Composite(Composite::Unnamed(items)) => Some(items@),
        _ => None,
    }
}

/// The fields of a named composite.
pub open spec fn named_fields<T>(v: Value<T>) -> Option<Seq<(String, Value<T>)>> {
    match v.value {
        ValueDef::Composite(Composite::Named(fields)) => Some(fields@),
        _ => None,
    }
}

/// A field of a named composite is smaller than the composite.
pub proof fn lemma_field_is_smaller<T>(v: Value<T>, fields: Vec<(String, Value<T>)>, i: int)
    requires
        v.value == ValueDef::Composite(Composite::Named(fields)),
        0 <= i < fields@.len(),
    ensures
        decreases_to!(v => fields@[i].1),
{
    let c = v.value->Composite_0;
    let f = c->Named_0;
    assert(decreases_to!(v => v.value));
    assert(decreases_to!(v.value => v.value->Composite_0));
    assert(decreases_to!(c => c->Named_0));
    assert(decreases_to!(f => f@));
    assert(decreases_to!(fields@ => fields@[i]));
    assert(decreases_to!(fields@[i] => fields@[i].1));
}

/// A member of an unnamed composite is smaller than the composite.
pub proof fn lemma_item_is_smaller<T>(v: Value<T>, items: Vec<Value<T>>, i: int)
    requires
        v.value == ValueDef::Composite(Composite::Unnamed(items)),
        0 <= i < items@.len(),
    ensures
        decreases_to!(v => items@[i]),
{
    let c = v.value->Composite_0;
    let f = c->Unnamed_0;
    assert(decreases_to!(v => v.value));
    assert(decreases_to!(v.value => v.value->Composite_0));
    assert(decreases_to!(c => c->Unnamed_0));
    assert(decreases_to!(f => f@));
    assert(decreases_to!(items@ => items@[i]));
}

/// The first field whose name is wanted, or the number of fields where none is.
pub open spec fn first_field<T>(
    fields: Seq<(String, Value<T>)>,
    wanted: spec_fn(Seq<char>) -> bool,
) -> int
    decreases fields.len(),
{
    if fields.len() == 0 || wanted(fields[0].0@) {
        0
    } else {
        1 + first_field(fields.drop_first(), wanted)
    }
}

/// The first field is the one before which no name is wanted.
pub proof fn lemma_first_field<T>(
    fields: Seq<(String, Value<T>)>,
    wanted: spec_fn(Seq<char>) -> bool,
    k: int,
)
    requires
        0 <= k <= fields.len(),
        k < fields.len() ==> wanted(fields[k].0@),
        forall|j: int| 0 <= j < k ==> !wanted(#[trigger] fields[j].0@),
    ensures
        first_field(fields, wanted) == k,
    decreases fields.len(),
{
    if fields.len() > 0 && k > 0 {
        let rest = fields.drop_first();
        assert(!wanted(fields[0].0@));
        assert forall|j: int| 0 <= j < k - 1 implies !wanted(#[trigger] rest[j].0@) by {
            assert(rest[j] == fields[j + 1]);
        }
        lemma_first_field(rest, wanted, k - 1);
    }
}

impl<T> Value<T> {
    /// If the value is an unsigned number, return it.
    pub fn as_u128(&self) -> (r: Option<u128>)
        ensures
            r == as_u128(*self),
    {
        match &self.value {
            ValueDef::Primitive(Primitive::U128(n)) => Some(*n),
            _ => None,
        }
    }
}

/// The field of a composite that a name selects: the first of that name.
pub open spec fn field_at<T>(c: Composite<T>, name: Seq<char>) -> Option<Value<T>> {
    match c {
        Composite::Named(fields) => {
            let k = first_field(fields@, |n: Seq<char>| n == name);
            if k < fields@.len() {
                Some(fields@[k].1)
            } else {
                None
            }
        },
        Composite::Unnamed(_) => None,
    }
}

impl<T> Composite<T> {
    /// The first field of the given name.
    pub fn at(&self, name: &str) -> (r: Option<&Value<T>>)
        ensures
            match r {
                Some(v) => field_at(*self, name@) == Some(*v),
                None => field_at(*self, name@) is None,
            },
    {
        match self {
            Composite::Named(fields) => {
                let ghost wanted = |n: Seq<char>| n == name@;
                let mut i: usize = 0;
                while i < fields.len()
                    invariant
                        i <= fields@.len(),
                        wanted == (|n: Seq<char>| n == name@),
                        *self == Composite::Named(*fields),
                        forall|j: int| 0 <= j < i ==> !wanted(#[trigger] fields@[j].0@),
                    decreases fields@.len() - i,
                {
                    let field = &fields[i];
                    if same_text(field.0.as_str(), name) {
                        proof {
                            lemma_first_field(fields@, wanted, i as int);
                        }
                        return Some(&field.1);
                    }
                    i = i + 1;
                }
                proof {
                    lemma_first_field(fields@, wanted, i as int);
                }
                None
            },
            Composite::Unnamed(_) => None,
        }
    }
}

/// The field that a name selects is the first of that name in a named composite;
/// there is none exactly where no field has the name.
pub proof fn law_first_field_of_a_name_is_selected<T>(c: Composite<T>, name: Seq<char>)
    requires
        c is Named,
    ensures
        ({
            let fields = c->Named_0@;
            match field_at(c, name) {
                Some(v) => exists|k: int|
                    0 <= k < fields.len() && (#[trigger] fields[k]).0@ == name && fields[k].1 == v
                        && (forall|j: int| 0 <= j < k ==> (#[trigger] fields[j]).0@ != name),
                None => forall|j: int| 0 <= j < fields.len() ==> (#[trigger] fields[j]).0@ != name,
            }
        }),
{
    let fields = c->Named_0@;
    let wanted = |n: Seq<char>| n == name;
    lemma_first_field_meaning(fields, wanted);
    let k = first_field(fields, wanted);
    assert forall|j: int| 0 <= j < k implies (#[trigger] fields[j]).0@ != name by {
        assert(!wanted(fields[j].0@));
    }
    if k < fields.len() {
        assert(wanted(fields[k].0@));
        assert(fields[k].0@ == name);
    }
    assert forall|w: spec_fn(Seq<char>) -> bool|
        (forall|n: Seq<char>| #[trigger] w(n) == (n == name)) implies #[trigger] first_field(
        fields,
        w,
    ) == k by {
        lemma_first_field(fields, w, k);
    }
}

/// What the first field whose name is wanted means.
pub proof fn lemma_first_field_meaning<T>(
    fields: Seq<(String, Value<T>)>,
    wanted: spec_fn(Seq<char>) -> bool,
)
    ensures
        0 <= first_field(fields, wanted) <= fields.len(),
        first_field(fields, wanted) < fields.len() ==> wanted(
            fields[first_field(fields, wanted)].0@,
        ),
        forall|j: int| 0 <= j < first_field(fields, wanted) ==> !wanted(#[trigger] fields[j].0@),
    decreases fields.len(),
{
    if fields.len() > 0 && !wanted(fields[0].0@) {
        let rest = fields.drop_first();
        lemma_first_field_meaning(rest, wanted);
        assert forall|j: int| 0 < j < fields.len() implies #[trigger] fields[j] == rest[j - 1] by {}
    }
}

/// Nothing is selected by name from an unnamed composite.
pub proof fn law_unnamed_composites_have_no_names<T>(items: Vec<Value<T>>, name: Seq<char>)
    ensures
        field_at(Composite::Unnamed(items), name) is None,
{
}

/// A value is an unsigned number exactly where it is one of 128 bits.
pub proof fn law_unsigned_numbers<T>(v: Value<T>, n: u128)
    ensures
        as_u128(v) == Some(n) <==> v.value == ValueDef::<T>::Primitive(Primitive::U128(n)),
        as_u128(v) is None <==> !(v.value matches ValueDef::Primitive(Primitive::U128(_))),
{
}

} // verus!
