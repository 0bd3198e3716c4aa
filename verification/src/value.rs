//! The canonical value: the dynamically typed tree that every document
//! format is read into and that validation works on.

use vstd::prelude::*;
use crate::number::Number;

verus! {

/// A document, or a part of one.
#[derive(Debug, PartialEq)]
pub enum Value {
    Null,
    Bool(bool),
    Number(Number),
    String(String),
    Array(Vec<Value>),
    /// Members in document order. A key is looked up from the front, so of
    /// two members with one key the first is the one that counts.
    Object(Vec<(String, Value)>),
}

/// What a `Value` stands for.
pub enum ValueView {
    Null,
    Bool(bool),
    Number(Number),
    Str(Seq<char>),
    Array(Seq<ValueView>),
    Object(Seq<(Seq<char>, ValueView)>),
}

/// The members of an object, as contracts see them.
pub type Members = Seq<(Seq<char>, ValueView)>;

/// The index of the first member at or after `from` that has the key.
pub open spec fn index_from(members: Members, key: Seq<char>, from: int) -> Option<int>
    decreases members.len() - from,
{
    if from < 0 || from >= members.len() {
        None
    } else if members[from].0 == key {
        Some(from)
    } else {
        index_from(members, key, from + 1)
    }
}

/// The index of the first member that has the key.
pub open spec fn index_of(members: Members, key: Seq<char>) -> Option<int> {
    index_from(members, key, 0)
}

/// The value of the first member that has the key.
pub open spec fn lookup(members: Members, key: Seq<char>) -> Option<ValueView> {
    match index_of(members, key) {
        Some(i) => Some(members[i].1),
        None => None,
    }
}

/// The members after `key` was set to `value`: the first member with that
/// key gets the value and keeps its place; without one, a member is added at
/// the end.
pub open spec fn upsert(members: Members, key: Seq<char>, value: ValueView) -> Members {
    match index_of(members, key) {
        Some(i) => members.update(i, (key, value)),
        None => members.push((key, value)),
    }
}

/// `index_from` finds the first member with the key at or after `from`, and
/// finds none only where there is none.
pub proof fn lemma_index_from(members: Members, key: Seq<char>, from: int)
    requires
        0 <= from,
    ensures
        match index_from(members, key, from) {
            Some(i) => from <= i < members.len() && members[i].0 == key && forall|j: int|
                from <= j < i ==> (#[trigger] members[j]).0 != key,
            None => forall|j: int| from <= j < members.len() ==> (#[trigger] members[j]).0 != key,
        },
    decreases members.len() - from,
{
    if from < members.len() && members[from].0 != key {
        lemma_index_from(members, key, from + 1);
    }
}

/// A member that has the key and is preceded by none that has it is the one
/// that `index_of` finds.
pub proof fn lemma_index_is_first(members: Members, key: Seq<char>, i: int)
    requires
        0 <= i < members.len(),
        members[i].0 == key,
        forall|j: int| 0 <= j < i ==> (#[trigger] members[j]).0 != key,
    ensures
        index_of(members, key) == Some(i),
{
    lemma_index_from(members, key, 0);
}

/// Without a member that has the key, `index_of` finds none.
pub proof fn lemma_index_absent(members: Members, key: Seq<char>)
    requires
        forall|j: int| 0 <= j < members.len() ==> (#[trigger] members[j]).0 != key,
    ensures
        index_of(members, key) is None,
{
    lemma_index_from(members, key, 0);
}

/// A key that was set is found with the value it was set to.
pub proof fn lemma_lookup_after_upsert(members: Members, key: Seq<char>, value: ValueView)
    ensures
        lookup(upsert(members, key, value), key) == Some(value),
{
    lemma_index_from(members, key, 0);
    let after = upsert(members, key, value);
    match index_of(members, key) {
        Some(i) => {
            assert forall|j: int| 0 <= j < i implies (#[trigger] after[j]).0 != key by {
                assert(after[j] == members[j]);
            }
            lemma_index_is_first(after, key, i);
        },
        None => {
            let i = members.len() as int;
            assert forall|j: int| 0 <= j < i implies (#[trigger] after[j]).0 != key by {
                assert(after[j] == members[j]);
            }
            lemma_index_is_first(after, key, i);
        },
    }
}

/// Setting one key leaves what is found under every other key as it was.
pub proof fn lemma_lookup_other_after_upsert(
    members: Members,
    key: Seq<char>,
    value: ValueView,
    other: Seq<char>,
)
    requires
        other != key,
    ensures
        lookup(upsert(members, key, value), other) == lookup(members, other),
{
    lemma_index_from(members, key, 0);
    lemma_index_from(members, other, 0);
    let after = upsert(members, key, value);
    assert forall|j: int| 0 <= j < members.len() implies ((#[trigger] after[j]).0 == other
        <==> members[j].0 == other) && (members[j].0 == other ==> after[j] == members[j]) by {}
    match index_of(members, other) {
        Some(i) => {
            assert forall|j: int| 0 <= j < i implies (#[trigger] after[j]).0 != other by {
                assert(members[j].0 != other);
            }
            lemma_index_is_first(after, other, i);
        },
        None => {
            assert forall|j: int| 0 <= j < after.len() implies (#[trigger] after[j]).0 != other by {
                if j < members.len() {
                    assert(members[j].0 != other);
                }
            }
            lemma_index_absent(after, other);
        },
    }
}

impl ValueView {
    /// The member of an object under a key; `None` for a missing key and for
    /// anything that is not an object.
    pub open spec fn get(self, key: Seq<char>) -> Option<ValueView> {
        match self {
            ValueView::Object(members) => lookup(members, key),
            _ => None,
        }
    }

    /// The value after `key` was set to `value`. Only an object has members:
    /// anything else stays as it is.
    pub open spec fn with(self, key: Seq<char>, value: ValueView) -> ValueView {
        match self {
            ValueView::Object(members) => ValueView::Object(upsert(members, key, value)),
            _ => self,
        }
    }

    /// Whether a key has a member that is not null.
    pub open spec fn has(self, key: Seq<char>) -> bool {
        self.get(key) is Some && self.get(key) != Some(ValueView::Null)
    }
}

impl Value {
    /// What the value stands for, part by part.
    pub open spec fn model(self) -> ValueView
        decreases self,
    {
        match self {
            Value::Null => ValueView::Null,
            Value::Bool(b) => ValueView::Bool(b),
            Value::Number(n) => ValueView::Number(n),
            Value::String(s) => ValueView::Str(s@),
            Value::Array(items) => ValueView::Array(
                Seq::new(
                    items@.len(),
                    |i: int|
                        if 0 <= i < items@.len() {
                            items@[i].model()
                        } else {
                            ValueView::Null
                        },
                ),
            ),
            Value::Object(members) => ValueView::Object(
                Seq::new(
                    members@.len(),
                    |i: int|
                        if 0 <= i < members@.len() {
                            (members@[i].0@, members@[i].1.model())
                        } else {
                            (Seq::empty(), ValueView::Null)
                        },
                ),
            ),
        }
    }
}

impl View for Value {
    type V = ValueView;

    open spec fn view(&self) -> ValueView {
        self.model()
    }
}

/// The view of a list of members.
pub open spec fn members_view(members: Seq<(String, Value)>) -> Members {
    Seq::new(members.len(), |i: int| (members[i].0@, members[i].1@))
}

/// The view of a list of values.
pub open spec fn items_view(items: Seq<Value>) -> Seq<ValueView> {
    Seq::new(items.len(), |i: int| items[i]@)
}

/// The view of an object is the view of its members, one by one.
pub proof fn lemma_object_view(members: Vec<(String, Value)>)
    ensures
        Value::Object(members)@ == ValueView::Object(members_view(members@)),
{
    let v = Value::Object(members);
    assert(v@ is Object);
    let m = v@->Object_0;
    assert(m.len() == members@.len());
    assert forall|i: int| 0 <= i < m.len() implies m[i] == members_view(members@)[i] by {}
    assert(m =~= members_view(members@));
}

/// The view of an array is the view of its items, one by one.
pub proof fn lemma_array_view(items: Vec<Value>)
    ensures
        Value::Array(items)@ == ValueView::Array(items_view(items@)),
{
    let v = Value::Array(items);
    assert(v@ is Array);
    let m = v@->Array_0;
    assert(m.len() == items@.len());
    assert forall|i: int| 0 <= i < m.len() implies m[i] == items_view(items@)[i] by {}
    assert(m =~= items_view(items@));
}

/// The index of the first member that has the key.
fn position(members: &Vec<(String, Value)>, key: &String) -> (r: Option<usize>)
    ensures
        match r {
            Some(i) => index_of(members_view(members@), key@) == Some(i as int) && i
                < members@.len(),
            None => index_of(members_view(members@), key@) is None,
        },
{
    let ghost view = members_view(members@);
    let mut i: usize = 0;
    while i < members.len()
        invariant
            i <= members@.len(),
            view == members_view(members@),
            forall|j: int| 0 <= j < i ==> (#[trigger] view[j]).0 != key@,
        decreases members@.len() - i,
    {
        if members[i].0 == *key {
            proof {
                lemma_index_is_first(view, key@, i as int);
            }
            return Some(i);
        }
        i += 1;
    }
    proof {
        lemma_index_absent(view, key@);
    }
    None
}

impl Value {
    /// Tells whether the value is null.
    pub fn is_null(&self) -> (r: bool)
        ensures
            r == (self@ is Null),
    {
        match self {
            Value::Null => true,
            _ => false,
        }
    }

    /// Tells whether the value is an object.
    pub fn is_object(&self) -> (r: bool)
        ensures
            r == (self@ is Object),
    {
        match self {
            Value::Object(_) => true,
            _ => false,
        }
    }

    /// The member of an object under a key; `None` for a missing key and for
    /// anything that is not an object.
    pub fn get(&self, key: &str) -> (r: Option<&Value>)
        ensures
            match r {
                Some(v) => self@.get(key@) == Some(v@),
                None => self@.get(key@) is None,
            },
    {
        match self {
            Value::Object(members) => {
                proof {
                    lemma_object_view(*members);
                }
                let wanted = key.to_owned();
                match position(members, &wanted) {
                    Some(i) => Some(&members[i].1),
                    None => None,
                }
            },
            _ => None,
        }
    }

    /// Sets a member of an object: the first member with that key gets the
    /// value, and without one a member is added at the end. A value that is
    /// not an object has no members and is left as it is.
    pub fn insert(&mut self, key: String, value: Value)
        ensures
            final(self)@ == old(self)@.with(key@, value@),
    {
        match self {
            Value::Object(members) => {
                proof {
                    lemma_object_view(*members);
                }
                let ghost before = members_view(members@);
                match position(members, &key) {
                    Some(i) => {
                        members.set(i, (key, value));
                    },
                    None => {
                        members.push((key, value));
                    },
                }
                proof {
                    lemma_object_view(*members);
                    assert(members_view(members@) =~= upsert(before, key@, value@));
                }
            },
            _ => {},
        }
    }
}

impl Clone for Value {
    /// A copy that stands for the same document.
    fn clone(&self) -> (r: Value)
        ensures
            r@ == self@,
        decreases self,
    {
        match self {
            Value::Null => Value::Null,
            Value::Bool(b) => Value::Bool(*b),
            Value::Number(n) => Value::Number(*n),
            Value::String(s) => Value::String(s.clone()),
            Value::Array(items) => {
                let mut copy: Vec<Value> = Vec::new();
                let mut i: usize = 0;
                while i < items.len()
                    invariant
                        decreases_to!(self => items),
                        i <= items@.len(),
                        copy@.len() == i,
                        forall|j: int| 0 <= j < i ==> (#[trigger] copy@[j])@ == items@[j]@,
                    decreases items@.len() - i,
                {
                    assert(decreases_to!(*items => items[i as int]));
                    let item = items[i].clone();
                    copy.push(item);
                    i += 1;
                }
                proof {
                    lemma_array_view(*items);
                    lemma_array_view(copy);
                    assert(items_view(copy@) =~= items_view(items@));
                }
                Value::Array(copy)
            },
            Value::Object(members) => {
                let mut copy: Vec<(String, Value)> = Vec::new();
                let mut i: usize = 0;
                while i < members.len()
                    invariant
                        decreases_to!(self => members),
                        i <= members@.len(),
                        copy@.len() == i,
                        forall|j: int|
                            0 <= j < i ==> (#[trigger] copy@[j]).0@ == members@[j].0@
                                && copy@[j].1@ == members@[j].1@,
                    decreases members@.len() - i,
                {
                    let key = members[i].0.clone();
                    assert(decreases_to!(*members => members[i as int]));
                    let value = members[i].1.clone();
                    copy.push((key, value));
                    i += 1;
                }
                proof {
                    lemma_object_view(*members);
                    lemma_object_view(copy);
                    assert(members_view(copy@) =~= members_view(members@));
                }
                Value::Object(copy)
            },
        }
    }
}

} // verus!
