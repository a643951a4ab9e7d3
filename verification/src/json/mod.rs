//! JSON values, as this library writes and reads them: the values themselves,
//! a writer of objects, and the ways to look into a value.

pub mod automod;
pub mod component;
pub mod decimal;
pub mod edit;
pub mod embed;
pub mod laws;

use vstd::prelude::*;

verus! {

/// A JSON value as a mathematical value.
pub enum Json {
    Null,
    Bool(bool),
    Number(u64),
    Text(Seq<char>),
    Array(Seq<Json>),
    /// The members in the order in which they were written.
    Object(Seq<(Seq<char>, Json)>),
}

/// A JSON value. Numbers are whole and not negative, which is all that this
/// library writes.
#[derive(Debug, PartialEq, Eq)]
pub enum Value {
    Null,
    Bool(bool),
    Number(u64),
    String(String),
    Array(Vec<Value>),
    /// The members in the order in which they were written.
    Object(Vec<(String, Value)>),
}

/// The JSON value as a mathematical value.
pub open spec fn json_of(value: Value) -> Json
    decreases value,
{
    match value {
        Value::Null => Json::Null,
        Value::Bool(b) => Json::Bool(b),
        Value::Number(n) => Json::Number(n),
        Value::String(s) => Json::Text(s@),
        Value::Array(items) => Json::Array(
            Seq::new(
                items@.len(),
                |i: int|
                    if 0 <= i < items@.len() {
                        json_of(items@[i])
                    } else {
                        Json::Null
                    },
            ),
        ),
        Value::Object(members) => Json::Object(
            Seq::new(
                members@.len(),
                |i: int|
                    if 0 <= i < members@.len() {
                        (members@[i].0@, json_of(members@[i].1))
                    } else {
                        (Seq::empty(), Json::Null)
                    },
            ),
        ),
    }
}

impl View for Value {
    type V = Json;

    open spec fn view(&self) -> Json {
        json_of(*self)
    }
}

/// The values of a list as mathematical values.
pub open spec fn items_view(items: Seq<Value>) -> Seq<Json> {
    Seq::new(
        items.len(),
        |i: int|
            if 0 <= i < items.len() {
                items[i].view()
            } else {
                Json::Null
            },
    )
}

/// The members of an object as mathematical values.
pub open spec fn members_view(members: Seq<(String, Value)>) -> Seq<(Seq<char>, Json)> {
    Seq::new(
        members.len(),
        |i: int|
            if 0 <= i < members.len() {
                (members[i].0@, members[i].1.view())
            } else {
                (Seq::empty(), Json::Null)
            },
    )
}

/// The member under `key`, written only if there is a value.
pub open spec fn optional(key: Seq<char>, value: Option<Json>) -> Seq<(Seq<char>, Json)> {
    match value {
        Some(v) => seq![(key, v)],
        None => Seq::empty(),
    }
}

/// The text as a JSON value, if there is one.
pub open spec fn text_json(text: Option<String>) -> Option<Json> {
    match text {
        Some(t) => Some(Json::Text(t@)),
        None => None,
    }
}

/// The number as a JSON value, if there is one.
pub open spec fn number_json(number: Option<u64>) -> Option<Json> {
    match number {
        Some(n) => Some(Json::Number(n)),
        None => None,
    }
}

/// The truth value as a JSON value, if there is one.
pub open spec fn bool_json(value: Option<bool>) -> Option<Json> {
    match value {
        Some(b) => Some(Json::Bool(b)),
        None => None,
    }
}

/// The first member of `members` under `key`.
pub open spec fn member(members: Seq<(Seq<char>, Json)>, key: Seq<char>) -> Option<Json>
    decreases members.len(),
{
    if members.len() == 0 {
        None
    } else if members[0].0 == key {
        Some(members[0].1)
    } else {
        member(members.drop_first(), key)
    }
}

impl Json {
    /// The member of an object under `key`; none for a value that is no object.
    pub open spec fn get(self, key: Seq<char>) -> Option<Json> {
        match self {
            Json::Object(members) => member(members, key),
            _ => None,
        }
    }

    /// The number, for a value that is one.
    pub open spec fn as_number(self) -> Option<u64> {
        match self {
            Json::Number(n) => Some(n),
            _ => None,
        }
    }

    /// The text, for a value that is one.
    pub open spec fn as_text(self) -> Option<Seq<char>> {
        match self {
            Json::Text(t) => Some(t),
            _ => None,
        }
    }

    /// The truth value, for a value that is one.
    pub open spec fn as_bool(self) -> Option<bool> {
        match self {
            Json::Bool(b) => Some(b),
            _ => None,
        }
    }
}

impl Value {
    /// The text `text` as a value.
    pub fn text(text: &str) -> (r: Value)
        ensures
            r@ == Json::Text(text@),
    {
        Value::String(text.to_owned())
    }

    /// The list of `items` as a value.
    pub fn array(items: Vec<Value>) -> (r: Value)
        ensures
            r@ == Json::Array(items_view(items@)),
    {
        let r = Value::Array(items);
        proof {
            reveal_with_fuel(json_of, 2);
        }
        assert(r@->Array_0 =~= items_view(items@));
        r
    }

    /// The object of `members` as a value.
    pub fn object(members: Vec<(String, Value)>) -> (r: Value)
        ensures
            r@ == Json::Object(members_view(members@)),
    {
        let r = Value::Object(members);
        proof {
            reveal_with_fuel(json_of, 2);
        }
        assert(r@->Object_0 =~= members_view(members@));
        r
    }

    /// The first member of this object under `key`; none for a value that is no
    /// object.
    pub fn get(&self, key: &str) -> (r: Option<&Value>)
        ensures
            match r {
                Some(v) => self@.get(key@) == Some(v@),
                None => self@.get(key@) is None,
            },
    {
        match self {
            Value::Object(members) => {
                let ghost all = self@->Object_0;
                proof {
                    reveal_with_fuel(json_of, 2);
                }
                assert(all =~= members_view(members@));
                let wanted = key.to_owned();
                let mut i: usize = 0;
                assert(all.skip(0) =~= all);
                while i < members.len()
                    invariant
                        i <= members.len(),
                        wanted@ == key@,
                        self@ == Json::Object(all),
                        all == members_view(members@),
                        member(all, key@) == member(all.skip(i as int), key@),
                    decreases members.len() - i,
                {
                    proof {
                        let rest = all.skip(i as int);
                        assert(rest[0] == all[i as int]);
                        assert(rest.drop_first() =~= all.skip(i + 1));
                    }
                    if members[i].0 == wanted {
                        proof {
                            let rest = all.skip(i as int);
                            assert(rest[0].0 == key@);
                            assert(member(rest, key@) == Some(rest[0].1));
                            assert(rest[0].1 == members@[i as int].1@);
                        }
                        return Some(&members[i].1);
                    }
                    i = i + 1;
                }
                None
            },
            _ => None,
        }
    }

    /// The number, for a value that is one.
    pub fn as_number(&self) -> (r: Option<u64>)
        ensures
            r == self@.as_number(),
    {
        match self {
            Value::Number(n) => Some(*n),
            _ => None,
        }
    }

    /// The text, for a value that is one.
    pub fn as_text(&self) -> (r: Option<&String>)
        ensures
            match r {
                Some(t) => self@.as_text() == Some(t@),
                None => self@.as_text() is None,
            },
    {
        match self {
            Value::String(t) => Some(t),
            _ => None,
        }
    }

    /// The truth value, for a value that is one.
    pub fn as_bool(&self) -> (r: Option<bool>)
        ensures
            r == self@.as_bool(),
    {
        match self {
            Value::Bool(b) => Some(*b),
            _ => None,
        }
    }

    /// The items, for a value that is a list.
    pub fn as_array(&self) -> (r: Option<&Vec<Value>>)
        ensures
            match r {
                Some(items) => self@ == Json::Array(items_view(items@)),
                None => !(self@ is Array),
            },
    {
        match self {
            Value::Array(items) => {
                proof {
                    reveal_with_fuel(json_of, 2);
                }
                assert(self@->Array_0 =~= items_view(items@));
                Some(items)
            },
            _ => None,
        }
    }
}

/// A writer of one JSON object, member by member.
pub struct ObjectWriter {
    members: Vec<(String, Value)>,
}

impl View for ObjectWriter {
    type V = Seq<(Seq<char>, Json)>;

    closed spec fn view(&self) -> Seq<(Seq<char>, Json)> {
        members_view(self.members@)
    }
}

impl ObjectWriter {
    /// The writer of an object without members.
    pub fn new() -> (r: Self)
        ensures
            r@ == Seq::<(Seq<char>, Json)>::empty(),
    {
        let r = ObjectWriter { members: Vec::new() };
        assert(r@ =~= Seq::<(Seq<char>, Json)>::empty());
        r
    }

    /// Writes the member `key` with `value`, behind those that are written.
    pub fn put(&mut self, key: &str, value: Value)
        ensures
            final(self)@ == old(self)@.push((key@, value@)),
    {
        self.members.push((key.to_owned(), value));
        assert(self@ =~= old(self)@.push((key@, value@)));
    }

    /// Writes the member `key` if there is a value for it.
    pub fn put_optional(&mut self, key: &str, value: Option<Value>)
        ensures
            final(self)@ == old(self)@ + optional(
                key@,
                match value {
                    Some(v) => Some(v@),
                    None => None,
                },
            ),
    {
        match value {
            Some(v) => {
                self.put(key, v);
                assert(self@ =~= old(self)@ + seq![(key@, v@)]);
            },
            None => {
                assert(self@ =~= old(self)@ + Seq::<(Seq<char>, Json)>::empty());
            },
        }
    }

    /// Writes the member `key` with a text, if there is one.
    pub fn put_text(&mut self, key: &str, text: &Option<String>)
        ensures
            final(self)@ == old(self)@ + optional(key@, text_json(*text)),
    {
        match text {
            Some(t) => self.put_optional(key, Some(Value::String(t.clone()))),
            None => self.put_optional(key, None),
        }
    }

    /// Writes the member `key` with a number, if there is one.
    pub fn put_number(&mut self, key: &str, number: Option<u64>)
        ensures
            final(self)@ == old(self)@ + optional(key@, number_json(number)),
    {
        match number {
            Some(n) => self.put_optional(key, Some(Value::Number(n))),
            None => self.put_optional(key, None),
        }
    }

    /// Writes the member `key` with a truth value, if there is one.
    pub fn put_bool(&mut self, key: &str, value: Option<bool>)
        ensures
            final(self)@ == old(self)@ + optional(key@, bool_json(value)),
    {
        match value {
            Some(b) => self.put_optional(key, Some(Value::Bool(b))),
            None => self.put_optional(key, None),
        }
    }

    /// The object that was written.
    pub fn finish(self) -> (r: Value)
        ensures
            r@ == Json::Object(self@),
    {
        Value::object(self.members)
    }
}

} // verus!
