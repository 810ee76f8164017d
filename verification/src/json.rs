//! JSON values, as far as the server's decisions read them.
//!
//! An object lists its fields in the order in which they are walked. Of a number
//! only whole ones that are not negative are read; any other is kept as it is
//! written.

use crate::text;
use vstd::prelude::*;

verus! {

/// A JSON value.
#[derive(Debug, PartialEq, Eq)]
pub enum Json {
    Null,
    Bool(bool),
    /// A whole number that is not negative.
    Whole(u64),
    /// Any other number, as it is written.
    Number(String),
    Text(String),
    Array(Vec<Json>),
    Object(Vec<(String, Json)>),
}

/// The fields of an object.
pub type Fields = Vec<(String, Json)>;

/// A JSON value as the contracts see it.
pub enum Value {
    Null,
    Bool(bool),
    Whole(u64),
    Number(Seq<char>),
    Text(Seq<char>),
    Array(Seq<Value>),
    Object(Seq<(Seq<char>, Value)>),
}

impl View for Json {
    type V = Value;

    open spec fn view(&self) -> Value
        decreases self,
    {
        match self {
            Json::Null => Value::Null,
            Json::Bool(b) => Value::Bool(*b),
            Json::Whole(n) => Value::Whole(*n),
            Json::Number(s) => Value::Number(s@),
            Json::Text(s) => Value::Text(s@),
            Json::Array(items) => Value::Array(
                Seq::new(
                    items@.len(),
                    |i: int| if 0 <= i < items@.len() { items@[i].view() } else { Value::Null },
                ),
            ),
            Json::Object(fields) => Value::Object(
                Seq::new(
                    fields@.len(),
                    |i: int|
                        if 0 <= i < fields@.len() {
                            (fields@[i].0@, fields@[i].1.view())
                        } else {
                            (Seq::empty(), Value::Null)
                        },
                ),
            ),
        }
    }
}

/// The items of an array, as the contracts see them.
pub open spec fn items_view(items: Seq<Json>) -> Seq<Value> {
    Seq::new(items.len(), |i: int| items[i]@)
}

/// The fields of an object, as the contracts see them.
pub open spec fn fields_view(fields: Seq<(String, Json)>) -> Seq<(Seq<char>, Value)> {
    Seq::new(fields.len(), |i: int| (fields[i].0@, fields[i].1@))
}

/// An array is viewed item by item, and an object field by field.
pub proof fn parts_are_viewed(json: Json)
    ensures
        json matches Json::Array(items) ==> json@ == Value::Array(items_view(items@)),
        json matches Json::Object(fields) ==> json@ == Value::Object(fields_view(fields@)),
{
    reveal_with_fuel(<Json as View>::view, 2);
    match json {
        Json::Array(items) => {
            assert(json@->Array_0 =~= items_view(items@));
        },
        Json::Object(fields) => {
            assert(json@->Object_0 =~= fields_view(fields@));
        },
        _ => {},
    }
}

/// What the first field of this name holds.
pub open spec fn field(fields: Seq<(Seq<char>, Value)>, name: Seq<char>) -> Option<Value>
    decreases fields.len(),
{
    if fields.len() == 0 {
        None
    } else if fields[0].0 == name {
        Some(fields[0].1)
    } else {
        field(fields.drop_first(), name)
    }
}

/// Whether an object holds this value under this name.
pub open spec fn holds(value: Value, name: Seq<char>, held: Value) -> bool {
    value is Object && value->Object_0.contains((name, held))
}

/// The first field of a name is the one that no earlier field shares it with.
pub proof fn first_field(fields: Seq<(Seq<char>, Value)>, name: Seq<char>, at: int)
    requires
        0 <= at <= fields.len(),
        forall|i: int| 0 <= i < at ==> (#[trigger] fields[i]).0 != name,
        at < fields.len() ==> fields[at].0 == name,
    ensures
        field(fields, name) == if at < fields.len() {
            Some(fields[at].1)
        } else {
            None::<Value>
        },
    decreases fields.len(),
{
    if at > 0 {
        let rest = fields.drop_first();
        assert forall|i: int| 0 <= i < at - 1 implies (#[trigger] rest[i]).0 != name by {
            assert(rest[i] == fields[i + 1]);
        }
        first_field(rest, name, at - 1);
    }
}

/// The object of one field.
pub proof fn only_field(name: Seq<char>, value: Value, other: Seq<char>)
    ensures
        field(seq![(name, value)], other) == if name == other {
            Some(value)
        } else {
            None::<Value>
        },
{
    let fields = seq![(name, value)];
    if name == other {
        first_field(fields, other, 0);
    } else {
        first_field(fields, other, 1);
    }
}

/// What the first field of this name holds.
pub fn find<'a>(fields: &'a Fields, name: &str) -> (out: Option<&'a Json>)
    ensures
        match out {
            Some(found) => field(fields_view(fields@), name@) == Some(found@),
            None => field(fields_view(fields@), name@) is None,
        },
{
    let ghost seen = fields_view(fields@);
    let mut i: usize = 0;
    while i < fields.len()
        invariant
            i <= fields@.len(),
            seen == fields_view(fields@),
            forall|j: int| 0 <= j < i ==> (#[trigger] seen[j]).0 != name@,
        decreases fields@.len() - i,
    {
        if text::same(fields[i].0.as_str(), name) {
            proof {
                first_field(seen, name@, i as int);
            }
            return Some(&fields[i].1);
        }
        i += 1;
    }
    proof {
        first_field(seen, name@, i as int);
    }
    None
}

/// The fields with one more, or with another value for one: a new name stands
/// before the first name that it precedes.
pub open spec fn with_field(fields: Seq<(Seq<char>, Value)>, name: Seq<char>, value: Value) -> Seq<(Seq<char>, Value)>
    decreases fields.len(),
{
    if fields.len() == 0 {
        seq![(name, value)]
    } else if fields[0].0 == name {
        seq![(name, value)] + fields.drop_first()
    } else if text::before(name, fields[0].0) {
        seq![(name, value)] + fields
    } else {
        seq![fields[0]] + with_field(fields.drop_first(), name, value)
    }
}

/// Setting a field sets that field, and no other.
pub proof fn setting_a_field(fields: Seq<(Seq<char>, Value)>, name: Seq<char>, value: Value, other: Seq<char>)
    requires
        field_is_in_order(fields, name),
    ensures
        field(with_field(fields, name, value), other) == if other == name {
            Some(value)
        } else {
            field(fields, other)
        },
    decreases fields.len(),
{
    let set = with_field(fields, name, value);
    if fields.len() == 0 {
        only_field(name, value, other);
    } else if fields[0].0 == name {
        assert(set.drop_first() =~= fields.drop_first());
    } else if text::before(name, fields[0].0) {
        assert(set.drop_first() =~= fields);
    } else {
        let rest = fields.drop_first();
        assert forall|i: int, j: int|
            0 <= i < j < rest.len() && (#[trigger] rest[j]).0 == name implies !text::before(name, (#[trigger] rest[i]).0) by {
            assert(rest[i] == fields[i + 1] && rest[j] == fields[j + 1]);
        }
        setting_a_field(rest, name, value, other);
        assert(set.drop_first() =~= with_field(rest, name, value));
    }
}

/// Whether nothing that a name precedes stands before it.
pub open spec fn field_is_in_order(fields: Seq<(Seq<char>, Value)>, name: Seq<char>) -> bool {
    forall|i: int, j: int|
        0 <= i < j < fields.len() && (#[trigger] fields[j]).0 == name ==> !text::before(name, (#[trigger] fields[i]).0)
}

/// Whether some field has this name.
pub open spec fn has_field(fields: Seq<(Seq<char>, Value)>, name: Seq<char>) -> bool {
    exists|i: int| 0 <= i < fields.len() && (#[trigger] fields[i]).0 == name
}

/// Setting a field keeps the order of every name, and names nothing else.
pub proof fn setting_keeps_order(fields: Seq<(Seq<char>, Value)>, name: Seq<char>, value: Value, other: Seq<char>)
    requires
        field_is_in_order(fields, other),
    ensures
        field_is_in_order(with_field(fields, name, value), other),
        forall|j: int|
            0 <= j < with_field(fields, name, value).len() ==> (#[trigger] with_field(fields, name, value)[j]).0 == name
                || has_field(fields, with_field(fields, name, value)[j].0),
    decreases fields.len(),
{
    let set = with_field(fields, name, value);
    if fields.len() > 0 {
        let rest = fields.drop_first();
        if fields[0].0 == name {
            assert forall|j: int| 0 <= j < set.len() implies (#[trigger] set[j]).0 == fields[j].0 by {
                if j > 0 {
                    assert(set[j] == rest[j - 1]);
                }
            }
            assert(set.len() == fields.len());
        } else if text::before(name, fields[0].0) {
            assert forall|j: int| 0 < j < set.len() implies #[trigger] set[j] == fields[j - 1] by {}
            assert forall|i: int, j: int|
                0 <= i < j < set.len() && (#[trigger] set[j]).0 == other implies !text::before(other, (#[trigger] set[i]).0) by {
                assert(fields[j - 1].0 == other);
                if i == 0 {
                    if text::before(other, name) {
                        text::before_is_transitive(other, name, fields[0].0);
                        if j == 1 {
                            text::before_is_irreflexive(other);
                        }
                        assert(fields[0].0 == fields[0].0);
                    }
                } else {
                    assert(set[i] == fields[i - 1]);
                }
            }
        } else {
            assert forall|i: int, j: int|
                0 <= i < j < rest.len() && (#[trigger] rest[j]).0 == other implies !text::before(other, (#[trigger] rest[i]).0) by {
                assert(rest[i] == fields[i + 1] && rest[j] == fields[j + 1]);
            }
            setting_keeps_order(rest, name, value, other);
            let tail = with_field(rest, name, value);
            assert forall|j: int| 0 < j < set.len() implies #[trigger] set[j] == tail[j - 1] by {}
            assert forall|j: int| 0 <= j < set.len() implies (#[trigger] set[j]).0 == name || has_field(
                fields,
                set[j].0,
            ) by {
                if j == 0 {
                    assert(fields[0].0 == set[0].0);
                } else {
                    assert(set[j] == tail[j - 1]);
                    if tail[j - 1].0 != name {
                        let k = choose|k: int| 0 <= k < rest.len() && (#[trigger] rest[k]).0 == tail[j - 1].0;
                        assert(fields[k + 1].0 == set[j].0);
                    }
                }
            }
            assert forall|i: int, j: int|
                0 <= i < j < set.len() && (#[trigger] set[j]).0 == other implies !text::before(other, (#[trigger] set[i]).0) by {
                assert(set[j] == tail[j - 1]);
                if i == 0 {
                    if tail[j - 1].0 != name {
                        let k = choose|k: int| 0 <= k < rest.len() && (#[trigger] rest[k]).0 == tail[j - 1].0;
                        assert(fields[k + 1].0 == other && fields[0].0 == set[0].0);
                    }
                } else {
                    assert(set[i] == tail[i - 1]);
                }
            }
        }
    }
}

proof fn place_of_field(fields: Seq<(Seq<char>, Value)>, name: Seq<char>, value: Value, at: int)
    requires
        0 <= at <= fields.len(),
        forall|i: int| 0 <= i < at ==> (#[trigger] fields[i]).0 != name && !text::before(name, fields[i].0),
        at < fields.len() ==> fields[at].0 == name || text::before(name, fields[at].0),
    ensures
        with_field(fields, name, value) == if at < fields.len() && fields[at].0 == name {
            fields.update(at, (name, value))
        } else {
            fields.insert(at, (name, value))
        },
    decreases at,
{
    let set = with_field(fields, name, value);
    if at == 0 {
        if fields.len() == 0 {
            assert(set =~= fields.insert(0, (name, value)));
        } else if fields[0].0 == name {
            assert(set =~= fields.update(0, (name, value)));
        } else {
            assert(set =~= fields.insert(0, (name, value)));
        }
    } else {
        let rest = fields.drop_first();
        assert forall|i: int| 0 <= i < at - 1 implies (#[trigger] rest[i]).0 != name && !text::before(
            name,
            rest[i].0,
        ) by {
            assert(rest[i] == fields[i + 1]);
        }
        assert(fields[0].0 != name && !text::before(name, fields[0].0));
        place_of_field(rest, name, value, at - 1);
        if at < fields.len() && fields[at].0 == name {
            assert(set =~= fields.update(at, (name, value)));
        } else {
            assert(set =~= fields.insert(at, (name, value)));
        }
    }
}

/// Sets a field.
pub fn set(fields: &mut Fields, name: &str, value: Json)
    ensures
        fields_view(final(fields)@) == with_field(fields_view(old(fields)@), name@, value@),
{
    let ghost seen = fields_view(fields@);
    let ghost wanted = value@;
    let mut i: usize = 0;
    while i < fields.len()
        invariant_except_break
            forall|j: int| 0 <= j < i ==> (#[trigger] seen[j]).0 != name@ && !text::before(name@, seen[j].0),
        invariant
            *fields == *old(fields),
            seen == fields_view(fields@),
            i <= fields@.len(),
        ensures
            *fields == *old(fields),
            i <= fields@.len(),
            forall|j: int| 0 <= j < i ==> (#[trigger] seen[j]).0 != name@ && !text::before(name@, seen[j].0),
            i < fields@.len() ==> seen[i as int].0 == name@ || text::before(name@, seen[i as int].0),
        decreases fields@.len() - i,
    {
        if text::same(fields[i].0.as_str(), name) || text::precedes(name, fields[i].0.as_str()) {
            break ;
        }
        i += 1;
    }
    proof {
        place_of_field(seen, name@, wanted, i as int);
    }
    if i < fields.len() && text::same(fields[i].0.as_str(), name) {
        fields.set(i, entry(name, value));
        proof {
            assert(fields_view(fields@) =~= seen.update(i as int, (name@, wanted)));
        }
    } else {
        fields.insert(i, entry(name, value));
        proof {
            assert(fields_view(fields@) =~= seen.insert(i as int, (name@, wanted)));
        }
    }
}

/// A field.
pub fn entry(name: &str, value: Json) -> (out: (String, Json))
    ensures
        out.0@ == name@,
        out.1 == value,
{
    (name.to_owned(), value)
}

/// A text, or nothing.
pub open spec fn or_null(text: Option<Seq<char>>) -> Value {
    match text {
        Some(text) => Value::Text(text),
        None => Value::Null,
    }
}

impl Value {
    /// The fields, where it is an object.
    pub open spec fn as_object(self) -> Option<Seq<(Seq<char>, Value)>> {
        match self {
            Value::Object(fields) => Some(fields),
            _ => None,
        }
    }

    /// The text, where it is one.
    pub open spec fn as_text(self) -> Option<Seq<char>> {
        match self {
            Value::Text(text) => Some(text),
            _ => None,
        }
    }
}

impl Json {
    /// The object with these fields.
    pub fn object(fields: Fields) -> (out: Json)
        ensures
            out@ == Value::Object(fields_view(fields@)),
    {
        let out = Json::Object(fields);
        proof {
            parts_are_viewed(out);
        }
        out
    }

    /// The array with these items.
    pub fn array(items: Vec<Json>) -> (out: Json)
        ensures
            out@ == Value::Array(items_view(items@)),
    {
        let out = Json::Array(items);
        proof {
            parts_are_viewed(out);
        }
        out
    }

    /// A text.
    pub fn text(text: &str) -> (out: Json)
        ensures
            out@ == Value::Text(text@),
    {
        Json::Text(text.to_owned())
    }

    /// A text, or nothing.
    pub fn maybe(text: &Option<String>) -> (out: Json)
        ensures
            out@ == or_null(text::maybe(*text)),
    {
        match text {
            Some(text) => Json::Text(text.clone()),
            None => Json::Null,
        }
    }

    /// The fields, where it is an object.
    pub fn as_object(&self) -> (out: Option<&Fields>)
        ensures
            match out {
                Some(fields) => self@.as_object() == Some(fields_view(fields@)),
                None => self@.as_object() is None,
            },
    {
        proof {
            parts_are_viewed(*self);
        }
        match self {
            Json::Object(fields) => Some(fields),
            _ => None,
        }
    }

    /// The items, where it is an array.
    pub fn as_array(&self) -> (out: Option<&Vec<Json>>)
        ensures
            match out {
                Some(items) => self@ == Value::Array(items_view(items@)),
                None => !(self@ is Array),
            },
    {
        proof {
            parts_are_viewed(*self);
        }
        match self {
            Json::Array(items) => Some(items),
            _ => None,
        }
    }

    /// The text, where it is one.
    pub fn as_text(&self) -> (out: Option<&str>)
        ensures
            match out {
                Some(text) => self@.as_text() == Some(text@),
                None => self@.as_text() is None,
            },
    {
        match self {
            Json::Text(text) => Some(text.as_str()),
            _ => None,
        }
    }

    /// The same value again.
    pub fn copy(&self) -> (out: Json)
        ensures
            out@ == self@,
        decreases self,
    {
        match self {
            Json::Null => Json::Null,
            Json::Bool(b) => Json::Bool(*b),
            Json::Whole(n) => Json::Whole(*n),
            Json::Number(s) => Json::Number(s.clone()),
            Json::Text(s) => Json::Text(s.clone()),
            Json::Array(items) => {
                let mut out: Vec<Json> = Vec::new();
                let mut i: usize = 0;
                while i < items.len()
                    invariant
                        *self == Json::Array(*items),
                        i <= items@.len(),
                        out@.len() == i,
                        forall|j: int| 0 <= j < i ==> (#[trigger] out@[j])@ == items@[j]@,
                    decreases items@.len() - i,
                {
                    proof {
                        assert(decreases_to!(self => self->Array_0));
                        assert(decreases_to!(*items => items@));
                        assert(decreases_to!(items@ => items@[i as int]));
                    }
                    out.push(items[i].copy());
                    i += 1;
                }
                let out = Json::Array(out);
                proof {
                    parts_are_viewed(*self);
                    parts_are_viewed(out);
                    assert(items_view(out->Array_0@) =~= items_view(items@));
                }
                out
            },
            Json::Object(fields) => {
                let mut out: Vec<(String, Json)> = Vec::new();
                let mut i: usize = 0;
                while i < fields.len()
                    invariant
                        *self == Json::Object(*fields),
                        i <= fields@.len(),
                        out@.len() == i,
                        forall|j: int|
                            0 <= j < i ==> (#[trigger] out@[j]).0@ == fields@[j].0@ && out@[j].1@ == fields@[j].1@,
                    decreases fields@.len() - i,
                {
                    proof {
                        assert(decreases_to!(self => self->Object_0));
                        assert(decreases_to!(*fields => fields@));
                        assert(decreases_to!(fields@ => fields@[i as int]));
                        assert(decreases_to!(fields@[i as int] => fields@[i as int].1));
                    }
                    out.push((fields[i].0.clone(), fields[i].1.copy()));
                    i += 1;
                }
                let out = Json::Object(out);
                proof {
                    parts_are_viewed(*self);
                    parts_are_viewed(out);
                    assert(fields_view(out->Object_0@) =~= fields_view(fields@));
                }
                out
            },
        }
    }
}

/// A text that may be missing is written as it is, and as null where it is.
pub proof fn what_is_missing_is_null(text: Seq<char>)
    ensures
        or_null(Some(text)) == Value::Text(text),
        or_null(None) == Value::Null,
        Value::Text(text).as_text() == Some(text),
        Value::Text(text).as_object() is None,
{
}

} // verus!
