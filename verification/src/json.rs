//! JSON documents, as far as requests and responses need them.

use vstd::prelude::*;

verus! {

/// A number, by the two readings that the logic makes of one.
#[derive(Clone, Copy)]
pub struct Number {
    /// Its value, if it is a whole number that a `u64` holds.
    pub unsigned: Option<u64>,
    /// The bits of its value as a double-precision number, if it has one.
    pub float_bits: Option<u64>,
}

/// A JSON value. The members of an object keep their order.
pub enum Json {
    Null,
    Bool(bool),
    Number(Number),
    Text(String),
    Array(Vec<Json>),
    Object(Vec<(String, Json)>),
}

/// What a [`Json`] value says.
pub enum JsonView {
    Null,
    Bool(bool),
    Number(Number),
    Text(Seq<char>),
    Array(Seq<JsonView>),
    Object(Seq<(Seq<char>, JsonView)>),
}

impl Json {
    /// What the value says.
    pub open spec fn meaning(self) -> JsonView
        decreases self,
    {
        match self {
            Json::Null => JsonView::Null,
            Json::Bool(b) => JsonView::Bool(b),
            Json::Number(n) => JsonView::Number(n),
            Json::Text(s) => JsonView::Text(s@),
            Json::Array(items) => JsonView::Array(
                Seq::new(
                    items@.len(),
                    |i: int|
                        if 0 <= i < items@.len() {
                            items@[i].meaning()
                        } else {
                            JsonView::Null
                        },
                ),
            ),
            Json::Object(members) => JsonView::Object(
                Seq::new(
                    members@.len(),
                    |i: int|
                        if 0 <= i < members@.len() {
                            (members@[i].0@, members@[i].1.meaning())
                        } else {
                            (Seq::empty(), JsonView::Null)
                        },
                ),
            ),
        }
    }
}

/// The value of the first member called `name`.
pub open spec fn first_member(members: Seq<(Seq<char>, JsonView)>, name: Seq<char>) -> Option<JsonView>
    decreases members.len(),
{
    if members.len() == 0 {
        None
    } else if members[0].0 == name {
        Some(members[0].1)
    } else {
        first_member(members.skip(1), name)
    }
}

/// The member `name` of a value; `Null` where the value is no object or has no such member.
pub open spec fn member_of(value: JsonView, name: Seq<char>) -> JsonView {
    match value {
        JsonView::Object(members) => match first_member(members, name) {
            Some(member) => member,
            None => JsonView::Null,
        },
        _ => JsonView::Null,
    }
}

/// The last item of a value; `Null` where the value is no array or an empty one.
pub open spec fn last_item_of(value: JsonView) -> JsonView {
    match value {
        JsonView::Array(items) => if items.len() > 0 {
            items.last()
        } else {
            JsonView::Null
        },
        _ => JsonView::Null,
    }
}

/// The value as a `u64`, if it is a number that is one.
pub open spec fn unsigned_of(value: JsonView) -> Option<u64> {
    match value {
        JsonView::Number(n) => n.unsigned,
        _ => None,
    }
}

/// The bits of the value as a double-precision number, if it is a number that has them.
pub open spec fn float_bits_of(value: JsonView) -> Option<u64> {
    match value {
        JsonView::Number(n) => n.float_bits,
        _ => None,
    }
}

impl Json {
    /// The member `name`, where there is one that is not `Null`.
    pub fn member(&self, name: &str) -> (r: Option<&Json>)
        ensures
            match r {
                Some(value) => value.meaning() == member_of(self.meaning(), name@),
                None => member_of(self.meaning(), name@) == JsonView::Null,
            },
    {
        match self {
            Json::Object(members) => {
                let key = name.to_string();
                let ghost all = match self.meaning() {
                    JsonView::Object(m) => m,
                    _ => Seq::empty(),
                };
                let mut i: usize = 0;
                assert(all.skip(0) =~= all);
                while i < members.len()
                    invariant
                        i <= members.len(),
                        key@ == name@,
                        *self == Json::Object(*members),
                        self.meaning() == JsonView::Object(all),
                        all.len() == members@.len(),
                        forall|k: int|
                            0 <= k < all.len() ==> #[trigger] all[k] == (
                                members@[k].0@,
                                members@[k].1.meaning(),
                            ),
                        first_member(all, name@) == first_member(all.skip(i as int), name@),
                    decreases members.len() - i,
                {
                    assert(all.skip(i as int)[0] == all[i as int]);
                    if members[i].0 == key {
                        return Some(&members[i].1);
                    }
                    assert(all.skip(i as int).skip(1) =~= all.skip(i + 1));
                    i = i + 1;
                }
                None
            },
            _ => None,
        }
    }

    /// The last item, where there is one.
    pub fn last_item(&self) -> (r: Option<&Json>)
        ensures
            match r {
                Some(value) => value.meaning() == last_item_of(self.meaning()),
                None => last_item_of(self.meaning()) == JsonView::Null,
            },
    {
        match self {
            Json::Array(items) => if items.len() > 0 {
                Some(&items[items.len() - 1])
            } else {
                None
            },
            _ => None,
        }
    }

    /// The value as a `u64`.
    pub fn as_unsigned(&self) -> (r: Option<u64>)
        ensures
            r == unsigned_of(self.meaning()),
    {
        match self {
            Json::Number(n) => n.unsigned,
            _ => None,
        }
    }

    /// The bits of the value as a double-precision number.
    pub fn as_float_bits(&self) -> (r: Option<u64>)
        ensures
            r == float_bits_of(self.meaning()),
    {
        match self {
            Json::Number(n) => n.float_bits,
            _ => None,
        }
    }
}

} // verus!
