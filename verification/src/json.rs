//! JSON values as a tree of plain data, with the structural operations the
//! record model needs: comparison, deep copy and field lookup.

use vstd::prelude::*;

verus! {

/// A JSON number. An integer is held exactly; a number with a fraction or an
/// exponent is held as its decimal literal, since nothing here computes with it.
#[derive(Debug, Eq)]
pub enum JsonNumber {
    /// An integer.
    Int(i128),
    /// The decimal literal of any other number.
    Float(String),
}

/// Mathematical model of a [`JsonNumber`].
pub ghost enum NumberView {
    Int(int),
    Float(Seq<char>),
}

impl View for JsonNumber {
    type V = NumberView;

    open spec fn view(&self) -> NumberView {
        match self {
            JsonNumber::Int(n) => NumberView::Int(*n as int),
            JsonNumber::Float(t) => NumberView::Float(t@),
        }
    }
}

impl PartialEq for JsonNumber {
    /// Whether two numbers are the same number, written the same way.
    fn eq(&self, other: &JsonNumber) -> (r: bool) {
        match (self, other) {
            (JsonNumber::Int(a), JsonNumber::Int(b)) => *a == *b,
            (JsonNumber::Float(a), JsonNumber::Float(b)) => *a == *b,
            _ => false,
        }
    }
}

impl vstd::std_specs::cmp::PartialEqSpecImpl for JsonNumber {
    open spec fn obeys_eq_spec() -> bool {
        true
    }

    open spec fn eq_spec(&self, other: &JsonNumber) -> bool {
        self@ == other@
    }
}

impl Clone for JsonNumber {
    fn clone(&self) -> (r: JsonNumber)
        ensures
            r@ == self@,
    {
        match self {
            JsonNumber::Int(n) => JsonNumber::Int(*n),
            JsonNumber::Float(t) => JsonNumber::Float(t.clone()),
        }
    }
}

/// A JSON value: null, a boolean, a number, a string, an array of values, or an
/// object, held as its members in the order in which they were given. A value
/// that was read from text has the members of each object in the order of their
/// names, each name once. Two values are the same only if they are written the
/// same way, members in the same order.
#[derive(Debug, Eq)]
pub enum JsonValue {
    Null,
    Bool(bool),
    Number(JsonNumber),
    String(String),
    Array(Vec<JsonValue>),
    Object(Vec<(String, JsonValue)>),
}

/// Mathematical model of a [`JsonValue`].
pub ghost enum JsonTree {
    Null,
    Bool(bool),
    Number(NumberView),
    String(Seq<char>),
    Array(Seq<JsonTree>),
    Object(Seq<(Seq<char>, JsonTree)>),
}

/// The tree that a value stands for.
pub open spec fn tree_of(v: JsonValue) -> JsonTree
    decreases v,
{
    match v {
        JsonValue::Null => JsonTree::Null,
        JsonValue::Bool(b) => JsonTree::Bool(b),
        JsonValue::Number(n) => JsonTree::Number(n@),
        JsonValue::String(s) => JsonTree::String(s@),
        JsonValue::Array(items) => JsonTree::Array(
            Seq::new(
                items@.len(),
                |i: int|
                    if 0 <= i < items@.len() {
                        tree_of(items@[i])
                    } else {
                        JsonTree::Null
                    },
            ),
        ),
        JsonValue::Object(members) => JsonTree::Object(
            Seq::new(
                members@.len(),
                |i: int|
                    if 0 <= i < members@.len() {
                        (members@[i].0@, tree_of(members@[i].1))
                    } else {
                        (Seq::empty(), JsonTree::Null)
                    },
            ),
        ),
    }
}

impl View for JsonValue {
    type V = JsonTree;

    open spec fn view(&self) -> JsonTree {
        tree_of(*self)
    }
}

/// The value of the last member named `key` among `members`, if there is one.
pub open spec fn lookup(members: Seq<(Seq<char>, JsonTree)>, key: Seq<char>) -> Option<JsonTree>
    decreases members.len(),
{
    if members.len() == 0 {
        None
    } else if members.last().0 == key {
        Some(members.last().1)
    } else {
        lookup(members.drop_last(), key)
    }
}

/// The member `key` of an object; nothing for any other value.
pub open spec fn field(tree: JsonTree, key: Seq<char>) -> Option<JsonTree> {
    match tree {
        JsonTree::Object(members) => lookup(members, key),
        _ => None,
    }
}

impl JsonValue {
    /// The JSON string with the given text.
    pub fn text(s: &str) -> (r: JsonValue)
        ensures
            r@ == JsonTree::String(s@),
    {
        JsonValue::String(s.to_owned())
    }

    /// The member `key` of an object, the last one if the name occurs more than
    /// once; nothing if `self` is no object or has no such member.
    pub fn get(&self, key: &str) -> (r: Option<&JsonValue>)
        ensures
            match r {
                Some(v) => field(self@, key@) == Some(v@),
                None => field(self@, key@) is None,
            },
    {
        match self {
            JsonValue::Object(members) => {
                let name = key.to_owned();
                let mut i: usize = members.len();
                assert(self@->Object_0.take(i as int) =~= self@->Object_0);
                while i > 0
                    invariant
                        i <= members.len(),
                        name@ == key@,
                        *self == JsonValue::Object(*members),
                        lookup(self@->Object_0, key@) == lookup(
                            self@->Object_0.take(i as int),
                            key@,
                        ),
                    decreases i,
                {
                    i -= 1;
                    let ghost prefix = self@->Object_0.take(i as int + 1);
                    assert(prefix.drop_last() =~= self@->Object_0.take(i as int));
                    if members[i].0 == name {
                        return Some(&members[i].1);
                    }
                }
                None
            },
            _ => None,
        }
    }

    /// The text of a JSON string; nothing for any other value.
    pub fn as_text(&self) -> (r: Option<&String>)
        ensures
            match r {
                Some(s) => self@ == JsonTree::String(s@),
                None => !(self@ is String),
            },
    {
        match self {
            JsonValue::String(s) => Some(s),
            _ => None,
        }
    }
}

impl PartialEq for JsonValue {
    /// Whether two values are the same tree: same shape, same leaves, object
    /// members in the same order.
    fn eq(&self, other: &JsonValue) -> (r: bool)
        decreases self,
    {
        match (self, other) {
            (JsonValue::Null, JsonValue::Null) => true,
            (JsonValue::Bool(a), JsonValue::Bool(b)) => *a == *b,
            (JsonValue::Number(a), JsonValue::Number(b)) => *a == *b,
            (JsonValue::String(a), JsonValue::String(b)) => *a == *b,
            (JsonValue::Array(a), JsonValue::Array(b)) => {
                if a.len() != b.len() {
                    assert(self@->Array_0.len() != other@->Array_0.len());
                    return false;
                }
                let mut i: usize = 0;
                while i < a.len()
                    invariant
                        i <= a.len(),
                        a.len() == b.len(),
                        *self == JsonValue::Array(*a),
                        *other == JsonValue::Array(*b),
                        forall|j: int| 0 <= j < i ==> a@[j]@ == b@[j]@,
                    decreases a.len() - i,
                {
                    if !(a[i] == b[i]) {
                        assert(self@->Array_0[i as int] != other@->Array_0[i as int]);
                        return false;
                    }
                    i += 1;
                }
                assert(self@->Array_0 =~= other@->Array_0);
                true
            },
            (JsonValue::Object(a), JsonValue::Object(b)) => {
                if a.len() != b.len() {
                    assert(self@->Object_0.len() != other@->Object_0.len());
                    return false;
                }
                let mut i: usize = 0;
                while i < a.len()
                    invariant
                        i <= a.len(),
                        a.len() == b.len(),
                        *self == JsonValue::Object(*a),
                        *other == JsonValue::Object(*b),
                        forall|j: int|
                            0 <= j < i ==> a@[j].0@ == b@[j].0@ && a@[j].1@ == b@[j].1@,
                    decreases a.len() - i,
                {
                    if !(a[i].0 == b[i].0 && a[i].1 == b[i].1) {
                        assert(self@->Object_0[i as int] != other@->Object_0[i as int]);
                        return false;
                    }
                    i += 1;
                }
                assert(self@->Object_0 =~= other@->Object_0);
                true
            },
            _ => false,
        }
    }
}

impl vstd::std_specs::cmp::PartialEqSpecImpl for JsonValue {
    open spec fn obeys_eq_spec() -> bool {
        true
    }

    open spec fn eq_spec(&self, other: &JsonValue) -> bool {
        self@ == other@
    }
}

impl Clone for JsonValue {
    /// An independent copy of the whole tree.
    fn clone(&self) -> (r: JsonValue)
        ensures
            r@ == self@,
        decreases self,
    {
        match self {
            JsonValue::Null => JsonValue::Null,
            JsonValue::Bool(b) => JsonValue::Bool(*b),
            JsonValue::Number(n) => JsonValue::Number(n.clone()),
            JsonValue::String(s) => JsonValue::String(s.clone()),
            JsonValue::Array(items) => {
                let mut copy: Vec<JsonValue> = Vec::new();
                let mut i: usize = 0;
                while i < items.len()
                    invariant
                        i <= items.len(),
                        *self == JsonValue::Array(*items),
                        copy@.len() == i,
                        forall|j: int| 0 <= j < i ==> copy@[j]@ == items@[j]@,
                    decreases items.len() - i,
                {
                    assert(self->Array_0 == *items);
                    let item = items[i].clone();
                    copy.push(item);
                    i += 1;
                }
                let r = JsonValue::Array(copy);
                assert(r@->Array_0 =~= self@->Array_0);
                r
            },
            JsonValue::Object(members) => {
                let mut copy: Vec<(String, JsonValue)> = Vec::new();
                let mut i: usize = 0;
                while i < members.len()
                    invariant
                        i <= members.len(),
                        *self == JsonValue::Object(*members),
                        copy@.len() == i,
                        forall|j: int|
                            0 <= j < i ==> copy@[j].0@ == members@[j].0@ && copy@[j].1@
                                == members@[j].1@,
                    decreases members.len() - i,
                {
                    assert(self->Object_0 == *members);
                    let value = members[i].1.clone();
                    copy.push((members[i].0.clone(), value));
                    i += 1;
                }
                let r = JsonValue::Object(copy);
                assert(r@->Object_0 =~= self@->Object_0);
                r
            },
        }
    }
}

} // verus!
