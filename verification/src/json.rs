//! A JSON document as a tree of plain values.

use vstd::prelude::*;
use vstd::std_specs::vec::axiom_vec_index_decreases;
use vstd::string::*;

use crate::text::same;

verus! {

/// A JSON number: an unsigned or signed integer, or the bit pattern of a
/// binary64 value that is no integer.
#[derive(Clone, Copy, Debug, PartialEq, Eq, Structural)]
pub enum Number {
    Unsigned(u64),
    Signed(i64),
    Binary64(u64),
}

/// A JSON value.
#[derive(Debug)]
pub enum Json {
    Null,
    Bool(bool),
    Number(Number),
    Text(String),
    Array(Vec<Json>),
    Object(Vec<Member>),
}

/// One `name: value` pair of a JSON object.
#[derive(Debug)]
pub struct Member {
    pub name: String,
    pub value: Json,
}

/// The mathematical value of a [`Json`].
pub enum JsonValue {
    Null,
    Bool(bool),
    Number(Number),
    Text(Seq<char>),
    Array(Seq<JsonValue>),
    Object(Seq<(Seq<char>, JsonValue)>),
}

impl View for Json {
    type V = JsonValue;

    open spec fn view(&self) -> JsonValue {
        json_value(*self)
    }
}

/// The mathematical value of `j`.
pub open spec fn json_value(j: Json) -> JsonValue
    decreases j, 0nat,
{
    match j {
        Json::Null => JsonValue::Null,
        Json::Bool(b) => JsonValue::Bool(b),
        Json::Number(n) => JsonValue::Number(n),
        Json::Text(t) => JsonValue::Text(t@),
        Json::Array(items) => JsonValue::Array(values_upto(items, items.len() as nat)),
        Json::Object(members) => JsonValue::Object(members_upto(members, members.len() as nat)),
    }
}

/// The values of the first `n` of `items`.
pub open spec fn values_upto(items: Vec<Json>, n: nat) -> Seq<JsonValue>
    decreases items, n,
{
    if n == 0 || n > items.len() {
        Seq::empty()
    } else {
        values_upto(items, (n - 1) as nat).push(json_value(items[n - 1]))
    }
}

/// The names and values of the first `n` of `members`.
pub open spec fn members_upto(members: Vec<Member>, n: nat) -> Seq<(Seq<char>, JsonValue)>
    decreases members, n,
{
    if n == 0 || n > members.len() {
        Seq::empty()
    } else {
        members_upto(members, (n - 1) as nat).push(
            (members[n - 1].name@, json_value(members[n - 1].value)),
        )
    }
}

/// The values of `items`, one for one.
pub open spec fn array_values(items: Seq<Json>) -> Seq<JsonValue> {
    Seq::new(items.len(), |i: int| items[i]@)
}

/// The names and values of `members`, one for one.
pub open spec fn object_values(members: Seq<Member>) -> Seq<(Seq<char>, JsonValue)> {
    Seq::new(members.len(), |i: int| (members[i].name@, members[i].value@))
}

proof fn lemma_values_upto(items: Vec<Json>, n: nat)
    requires
        n <= items.len(),
    ensures
        values_upto(items, n) == array_values(items@.take(n as int)),
    decreases n,
{
    if n > 0 {
        lemma_values_upto(items, (n - 1) as nat);
        assert(items@.take(n as int).drop_last() =~= items@.take(n - 1));
    }
    assert(values_upto(items, n) =~= array_values(items@.take(n as int)));
}

proof fn lemma_members_upto(members: Vec<Member>, n: nat)
    requires
        n <= members.len(),
    ensures
        members_upto(members, n) == object_values(members@.take(n as int)),
    decreases n,
{
    if n > 0 {
        lemma_members_upto(members, (n - 1) as nat);
    }
    assert(members_upto(members, n) =~= object_values(members@.take(n as int)));
}

/// The value of an array is the sequence of its items' values.
pub proof fn lemma_array_view(items: Vec<Json>)
    ensures
        Json::Array(items)@ == JsonValue::Array(array_values(items@)),
{
    lemma_values_upto(items, items.len() as nat);
    assert(items@.take(items.len() as int) =~= items@);
}

/// The value of an object is the sequence of its members' names and values.
pub proof fn lemma_object_view(members: Vec<Member>)
    ensures
        Json::Object(members)@ == JsonValue::Object(object_values(members@)),
{
    lemma_members_upto(members, members.len() as nat);
    assert(members@.take(members.len() as int) =~= members@);
}

impl JsonValue {
    /// Whether `self` is an object whose member `i` is the first one named `name`.
    pub open spec fn first_named(self, name: Seq<char>, i: int) -> bool {
        &&& self matches JsonValue::Object(members)
        &&& 0 <= i < members.len()
        &&& members[i].0 == name
        &&& forall|j: int| 0 <= j < i ==> (#[trigger] members[j]).0 != name
    }

    /// The place of the first member named `name`, where `self` is an object
    /// that has one.
    pub open spec fn index_of(self, name: Seq<char>) -> Option<int> {
        if exists|i: int| self.first_named(name, i) {
            Some(choose|i: int| self.first_named(name, i))
        } else {
            None
        }
    }

    /// The value of the first member named `name`.
    pub open spec fn member(self, name: Seq<char>) -> Option<JsonValue> {
        match self.index_of(name) {
            Some(i) => Some(self->Object_0[i].1),
            None => None,
        }
    }

    /// The characters of a text value.
    pub open spec fn text(self) -> Option<Seq<char>> {
        match self {
            JsonValue::Text(t) => Some(t),
            _ => None,
        }
    }

    /// The text of the first member named `name`.
    pub open spec fn text_member(self, name: Seq<char>) -> Option<Seq<char>> {
        match self.member(name) {
            Some(v) => v.text(),
            None => None,
        }
    }

    /// At most one member of an object is the first of its name.
    pub proof fn lemma_first_named(self, name: Seq<char>, i: int)
        requires
            self.first_named(name, i),
        ensures
            self.index_of(name) == Some(i),
            self.member(name) == Some(self->Object_0[i].1),
    {
        let c = choose|k: int| self.first_named(name, k);
        assert(c == i) by {
            if c < i {
                assert(self->Object_0[c].0 == name);
            } else if i < c {
                assert(self->Object_0[i].0 == name);
            }
        }
    }

    /// A value without a member of that name has no place for it.
    pub proof fn lemma_no_member(self, name: Seq<char>)
        requires
            self matches JsonValue::Object(members) ==> forall|j: int|
                0 <= j < members.len() ==> (#[trigger] members[j]).0 != name,
        ensures
            self.index_of(name) is None,
            self.member(name) is None,
    {
    }

    /// What `index_of` finds is the first member of that name.
    pub proof fn lemma_index_of(self, name: Seq<char>)
        ensures
            match self.index_of(name) {
                Some(i) => self.first_named(name, i),
                None => self matches JsonValue::Object(members) ==> forall|j: int|
                    0 <= j < members.len() ==> (#[trigger] members[j]).0 != name,
            },
    {
        if self.index_of(name) is None {
            if let JsonValue::Object(members) = self {
                assert forall|j: int| 0 <= j < members.len() implies (#[trigger] members[j]).0
                    != name by {
                    if members[j].0 == name {
                        self.lemma_some_first(name, j);
                    }
                }
            }
        }
    }

    /// An object with a member of that name has a first one.
    pub proof fn lemma_some_first(self, name: Seq<char>, j: int)
        requires
            self matches JsonValue::Object(members) && 0 <= j < members.len() && members[j].0
                == name,
        ensures
            exists|i: int| self.first_named(name, i),
        decreases j,
    {
        let members = self->Object_0;
        if forall|k: int| 0 <= k < j ==> (#[trigger] members[k]).0 != name {
            assert(self.first_named(name, j));
        } else {
            let k = choose|k: int| 0 <= k < j && (#[trigger] members[k]).0 == name;
            self.lemma_some_first(name, k);
        }
    }
}

impl Member {
    /// The member `name: value`.
    pub fn new(name: &str, value: Json) -> (member: Member)
        ensures
            member.name@ == name@,
            member.value == value,
    {
        Member { name: name.to_owned(), value }
    }
}

impl Json {
    /// The text `text`.
    pub fn text(text: &str) -> (json: Json)
        ensures
            json@ == JsonValue::Text(text@),
    {
        Json::Text(text.to_owned())
    }

    /// The array of `items`.
    pub fn array(items: Vec<Json>) -> (json: Json)
        ensures
            json@ == JsonValue::Array(array_values(items@)),
    {
        proof {
            lemma_array_view(items);
        }
        Json::Array(items)
    }

    /// The object of `members`.
    pub fn object(members: Vec<Member>) -> (json: Json)
        ensures
            json@ == JsonValue::Object(object_values(members@)),
    {
        proof {
            lemma_object_view(members);
        }
        Json::Object(members)
    }

    /// The place of the first member named `name`.
    pub fn position(&self, name: &str) -> (r: Option<usize>)
        ensures
            match r {
                Some(i) => self@.index_of(name@) == Some(i as int),
                None => self@.index_of(name@) is None,
            },
    {
        match self {
            Json::Object(members) => {
                let mut i: usize = 0;
                proof {
                    lemma_object_view(*members);
                }
                while i < members.len()
                    invariant
                        i <= members.len(),
                        self@ == JsonValue::Object(object_values(members@)),
                        forall|j: int| 0 <= j < i ==> (#[trigger] members[j]).name@ != name@,
                    decreases members.len() - i,
                {
                    if same(members[i].name.as_str(), name) {
                        proof {
                            self@.lemma_first_named(name@, i as int);
                        }
                        return Some(i);
                    }
                    i += 1;
                }
                proof {
                    self@.lemma_no_member(name@);
                }
                None
            },
            _ => None,
        }
    }

    /// The value of the first member named `name`.
    pub fn get(&self, name: &str) -> (r: Option<&Json>)
        ensures
            match r {
                Some(v) => self@.member(name@) == Some(v@),
                None => self@.member(name@) is None,
            },
    {
        match self {
            Json::Object(members) => match self.position(name) {
                Some(i) => {
                    proof {
                        lemma_object_view(*members);
                        self@.lemma_index_of(name@);
                    }
                    Some(&members[i].value)
                },
                None => None,
            },
            _ => None,
        }
    }

    /// A second value like `self`.
    pub fn copy(&self) -> (json: Json)
        ensures
            json@ == self@,
        decreases self,
    {
        match self {
            Json::Null => Json::Null,
            Json::Bool(b) => Json::Bool(*b),
            Json::Number(n) => Json::Number(*n),
            Json::Text(t) => Json::Text(t.clone()),
            Json::Array(items) => {
                let mut copies: Vec<Json> = Vec::new();
                let mut i: usize = 0;
                while i < items.len()
                    invariant
                        i <= items.len(),
                        copies.len() == i,
                        *self == Json::Array(*items),
                        forall|j: int| 0 <= j < i ==> (#[trigger] copies[j])@ == items[j]@,
                    decreases items.len() - i,
                {
                    proof {
                        axiom_vec_index_decreases(*items, i as int);
                        assert(self->Array_0 == *items);
                    }
                    copies.push(items[i].copy());
                    i += 1;
                }
                proof {
                    lemma_array_view(*items);
                    assert(array_values(copies@) =~= array_values(items@));
                }
                Json::array(copies)
            },
            Json::Object(members) => {
                let mut copies: Vec<Member> = Vec::new();
                let mut i: usize = 0;
                while i < members.len()
                    invariant
                        i <= members.len(),
                        copies.len() == i,
                        *self == Json::Object(*members),
                        forall|j: int|
                            0 <= j < i ==> (#[trigger] copies[j]).name@ == members[j].name@
                                && copies[j].value@ == members[j].value@,
                    decreases members.len() - i,
                {
                    proof {
                        axiom_vec_index_decreases(*members, i as int);
                        assert(self->Object_0 == *members);
                    }
                    let value = members[i].value.copy();
                    copies.push(Member { name: members[i].name.clone(), value });
                    i += 1;
                }
                proof {
                    lemma_object_view(*members);
                    assert(object_values(copies@) =~= object_values(members@));
                }
                Json::object(copies)
            },
        }
    }

    /// Whether `self` and `other` are the same value.
    pub fn equals(&self, other: &Json) -> (r: bool)
        ensures
            r == (self@ == other@),
        decreases self,
    {
        match (self, other) {
            (Json::Null, Json::Null) => true,
            (Json::Bool(a), Json::Bool(b)) => *a == *b,
            (Json::Number(a), Json::Number(b)) => *a == *b,
            (Json::Text(a), Json::Text(b)) => same(a.as_str(), b.as_str()),
            (Json::Array(a), Json::Array(b)) => {
                proof {
                    lemma_array_view(*a);
                    lemma_array_view(*b);
                }
                if a.len() != b.len() {
                    assert(array_values(a@).len() != array_values(b@).len());
                    return false;
                }
                let mut i: usize = 0;
                while i < a.len()
                    invariant
                        i <= a.len(),
                        a.len() == b.len(),
                        *self == Json::Array(*a),
                        self@ == JsonValue::Array(array_values(a@)),
                        other@ == JsonValue::Array(array_values(b@)),
                        forall|j: int| 0 <= j < i ==> (#[trigger] a[j])@ == b[j]@,
                    decreases a.len() - i,
                {
                    proof {
                        axiom_vec_index_decreases(*a, i as int);
                    }
                    if !a[i].equals(&b[i]) {
                        assert(array_values(a@)[i as int] != array_values(b@)[i as int]);
                        return false;
                    }
                    i += 1;
                }
                assert(array_values(a@) =~= array_values(b@));
                true
            },
            (Json::Object(a), Json::Object(b)) => {
                proof {
                    lemma_object_view(*a);
                    lemma_object_view(*b);
                }
                if a.len() != b.len() {
                    assert(object_values(a@).len() != object_values(b@).len());
                    return false;
                }
                let mut i: usize = 0;
                while i < a.len()
                    invariant
                        i <= a.len(),
                        a.len() == b.len(),
                        *self == Json::Object(*a),
                        self@ == JsonValue::Object(object_values(a@)),
                        other@ == JsonValue::Object(object_values(b@)),
                        forall|j: int|
                            0 <= j < i ==> (#[trigger] a[j]).name@ == b[j].name@ && a[j].value@
                                == b[j].value@,
                    decreases a.len() - i,
                {
                    proof {
                        axiom_vec_index_decreases(*a, i as int);
                    }
                    if !same(a[i].name.as_str(), b[i].name.as_str()) || !a[i].value.equals(
                        &b[i].value,
                    ) {
                        assert(object_values(a@)[i as int] != object_values(b@)[i as int]);
                        return false;
                    }
                    i += 1;
                }
                assert(object_values(a@) =~= object_values(b@));
                true
            },
            _ => false,
        }
    }

    /// Whether `self` is an array.
    pub fn is_array(&self) -> (r: bool)
        ensures
            r == (self@ is Array),
    {
        match self {
            Json::Array(_) => true,
            _ => false,
        }
    }

    /// The characters of a text value.
    pub fn as_text(&self) -> (r: Option<&str>)
        ensures
            match r {
                Some(t) => self@.text() == Some(t@),
                None => self@.text() is None,
            },
    {
        match self {
            Json::Text(t) => Some(t.as_str()),
            _ => None,
        }
    }
}

} // verus!
