//! A model of JSON documents: values that hold, as plain data, what a
//! document says.
//!
//! An object is the sequence of its members. Where a key occurs more than
//! once, the last member with the key is the one that counts.

use vstd::prelude::*;

verus! {

/// A JSON number: an integer that is not negative, a negative integer, or a
/// number with a fraction or an exponent, kept as its literal.
#[derive(Debug, PartialEq, Eq)]
pub enum JsonNumber {
    Unsigned(u64),
    Signed(i64),
    Real(String),
}

/// A JSON value.
#[derive(Debug, PartialEq, Eq)]
pub enum Json {
    Null,
    Bool(bool),
    Number(JsonNumber),
    Text(String),
    Array(Vec<Json>),
    Object(Vec<(String, Json)>),
}

/// What a [`JsonNumber`] holds.
pub enum JsonNumberView {
    Unsigned(u64),
    Signed(i64),
    Real(Seq<char>),
}

/// What a [`Json`] value holds.
pub enum JsonView {
    Null,
    Bool(bool),
    Number(JsonNumberView),
    Text(Seq<char>),
    Array(Seq<JsonView>),
    Object(Seq<(Seq<char>, JsonView)>),
}

impl View for JsonNumber {
    type V = JsonNumberView;

    open spec fn view(&self) -> JsonNumberView {
        match self {
            JsonNumber::Unsigned(u) => JsonNumberView::Unsigned(*u),
            JsonNumber::Signed(i) => JsonNumberView::Signed(*i),
            JsonNumber::Real(text) => JsonNumberView::Real(text@),
        }
    }
}

/// What a JSON value holds: for an array what its values hold, for an object
/// the keys of its members and what their values hold, each in their order.
pub open spec fn json_view(json: Json) -> JsonView
    decreases json,
{
    match json {
        Json::Null => JsonView::Null,
        Json::Bool(b) => JsonView::Bool(b),
        Json::Number(n) => JsonView::Number(n@),
        Json::Text(text) => JsonView::Text(text@),
        Json::Array(items) => JsonView::Array(
            Seq::new(
                items@.len(),
                |i: int|
                    if 0 <= i < items@.len() {
                        json_view(items@[i])
                    } else {
                        JsonView::Null
                    },
            ),
        ),
        Json::Object(members) => JsonView::Object(
            Seq::new(
                members@.len(),
                |i: int|
                    if 0 <= i < members@.len() {
                        (members@[i].0@, json_view(members@[i].1))
                    } else {
                        (Seq::<char>::empty(), JsonView::Null)
                    },
            ),
        ),
    }
}

impl View for Json {
    type V = JsonView;

    open spec fn view(&self) -> JsonView {
        json_view(*self)
    }
}

/// What each value of a list holds.
pub open spec fn items_view(items: Seq<Json>) -> Seq<JsonView> {
    Seq::new(items.len(), |i: int| items[i]@)
}

/// What each member of a list of members holds.
pub open spec fn members_view(members: Seq<(String, Json)>) -> Seq<(Seq<char>, JsonView)> {
    Seq::new(members.len(), |i: int| (members[i].0@, members[i].1@))
}

/// The place of the last member of `members` with the key `key`, if there is
/// one.
pub open spec fn member_index(members: Seq<(Seq<char>, JsonView)>, key: Seq<char>) -> Option<int>
    decreases members.len(),
{
    if members.len() == 0 {
        None
    } else if members.last().0 == key {
        Some(members.len() - 1)
    } else {
        member_index(members.drop_last(), key)
    }
}

/// The members `members` with the value of the key `key` set to `value`: in
/// the place of the member that counts for the key, or at the end where there
/// is none.
pub open spec fn with_member(
    members: Seq<(Seq<char>, JsonView)>,
    key: Seq<char>,
    value: JsonView,
) -> Seq<(Seq<char>, JsonView)> {
    match member_index(members, key) {
        Some(at) => members.update(at, (key, value)),
        None => members.push((key, value)),
    }
}

impl JsonView {
    /// The members of an object; a value of another kind has none.
    pub open spec fn members(self) -> Seq<(Seq<char>, JsonView)> {
        match self {
            JsonView::Object(members) => members,
            _ => Seq::empty(),
        }
    }

    /// The value of the key `key` in an object; a value of another kind has
    /// none.
    pub open spec fn member(self, key: Seq<char>) -> Option<JsonView> {
        match member_index(self.members(), key) {
            Some(at) => Some(self.members()[at].1),
            None => None,
        }
    }

    /// The values of an array.
    pub open spec fn items(self) -> Option<Seq<JsonView>> {
        match self {
            JsonView::Array(items) => Some(items),
            _ => None,
        }
    }

    /// The characters of a text.
    pub open spec fn text(self) -> Option<Seq<char>> {
        match self {
            JsonView::Text(text) => Some(text),
            _ => None,
        }
    }

    /// The value of a number that is an integer and not negative.
    pub open spec fn unsigned(self) -> Option<u64> {
        match self {
            JsonView::Number(JsonNumberView::Unsigned(u)) => Some(u),
            JsonView::Number(JsonNumberView::Signed(i)) => if i >= 0 {
                Some(i as u64)
            } else {
                None
            },
            _ => None,
        }
    }

    /// The characters of the key `key` of an object, where its value is a
    /// text.
    pub open spec fn text_member(self, key: Seq<char>) -> Option<Seq<char>> {
        match self.member(key) {
            Some(value) => value.text(),
            None => None,
        }
    }

    /// The values of the key `key` of an object, where its value is an array.
    pub open spec fn items_member(self, key: Seq<char>) -> Option<Seq<JsonView>> {
        match self.member(key) {
            Some(value) => value.items(),
            None => None,
        }
    }

    /// The number of the key `key` of an object, where its value is an
    /// integer that is not negative.
    pub open spec fn unsigned_member(self, key: Seq<char>) -> Option<u64> {
        match self.member(key) {
            Some(value) => value.unsigned(),
            None => None,
        }
    }
}

/// An array holds what its values hold, in their order.
pub proof fn lemma_array_view(items: Vec<Json>)
    ensures
        Json::Array(items)@ == JsonView::Array(items_view(items@)),
{
    let held = Json::Array(items)@.items()->0;
    assert(held.len() == items@.len());
    assert forall|i: int| 0 <= i < held.len() implies held[i] == items_view(items@)[i] by {
        assert(held[i] == json_view(items@[i]));
    }
    assert(held =~= items_view(items@));
}

/// An object holds what its members hold, in their order.
pub proof fn lemma_object_view(members: Vec<(String, Json)>)
    ensures
        Json::Object(members)@ == JsonView::Object(members_view(members@)),
{
    let held = Json::Object(members)@.members();
    assert(held.len() == members@.len());
    assert forall|i: int| 0 <= i < held.len() implies held[i] == members_view(members@)[i] by {
        assert(held[i] == (members@[i].0@, json_view(members@[i].1)));
    }
    assert(held =~= members_view(members@));
}

/// Finds the place of the last member with the key `key`.
pub fn find_member(members: &Vec<(String, Json)>, key: &str) -> (found: Option<usize>)
    ensures
        match found {
            Some(at) => member_index(members_view(members@), key@) == Some(at as int) && at
                < members.len(),
            None => member_index(members_view(members@), key@) is None,
        },
{
    let mut i: usize = members.len();
    assert(members_view(members@).take(i as int) =~= members_view(members@));
    while i > 0
        invariant
            i <= members.len(),
            member_index(members_view(members@), key@) == member_index(
                members_view(members@).take(i as int),
                key@,
            ),
        decreases i,
    {
        let ghost upto = members_view(members@).take(i as int);
        i = i - 1;
        assert(upto.last() == members_view(members@)[i as int]);
        assert(upto.drop_last() =~= members_view(members@).take(i as int));
        if members[i].0.as_str().eq(key) {
            return Some(i);
        }
    }
    None
}

impl Json {
    /// The value of the key `key`, where `self` is an object that has the
    /// key.
    pub fn get(&self, key: &str) -> (found: Option<&Json>)
        ensures
            match found {
                Some(value) => self@.member(key@) == Some(value@),
                None => self@.member(key@) is None,
            },
    {
        match self {
            Json::Object(members) => {
                proof {
                    lemma_object_view(*members);
                }
                match find_member(members, key) {
                    Some(at) => Some(&members[at].1),
                    None => None,
                }
            },
            _ => None,
        }
    }

    /// The values of an array; `None` for a value of another kind.
    pub fn as_array(&self) -> (found: Option<&Vec<Json>>)
        ensures
            match found {
                Some(items) => self@.items() == Some(items_view(items@)),
                None => self@.items() is None,
            },
    {
        match self {
            Json::Array(items) => {
                proof {
                    lemma_array_view(*items);
                }
                Some(items)
            },
            _ => None,
        }
    }

    /// The characters of a text; `None` for a value of another kind.
    pub fn as_str(&self) -> (found: Option<&str>)
        ensures
            match found {
                Some(text) => self@.text() == Some(text@),
                None => self@.text() is None,
            },
    {
        match self {
            Json::Text(text) => Some(text.as_str()),
            _ => None,
        }
    }

    /// The value of a number that is an integer and not negative; `None` for
    /// any other value.
    pub fn as_u64(&self) -> (found: Option<u64>)
        ensures
            found == self@.unsigned(),
    {
        match self {
            Json::Number(JsonNumber::Unsigned(u)) => Some(*u),
            Json::Number(JsonNumber::Signed(i)) => if *i >= 0 {
                Some(*i as u64)
            } else {
                None
            },
            _ => None,
        }
    }
}

} // verus!
