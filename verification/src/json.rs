//! JSON values as the agent sends and receives them.
//!
//! [`Json`] is what the rules of this crate read and write; [`JsonView`] is its
//! mathematical value, over which every contract speaks.

use vstd::prelude::*;
use vstd::std_specs::cmp::PartialEqSpecImpl;
use crate::text::str_eq;

verus! {

/// A JSON number. A non-integral number is carried by the bits of its
/// IEEE 754 double, which is finite.
#[derive(Clone, Copy, Debug, Eq)]
pub enum JsonNumber {
    PosInt(u64),
    NegInt(i64),
    Float(u64),
}

/// A JSON value. With `==`, objects compare by their members, in whatever order, and
/// numbers by what they amount to.
#[derive(Debug, Eq)]
pub enum Json {
    Null,
    Bool(bool),
    Number(JsonNumber),
    String(String),
    Array(Vec<Json>),
    Object(JsonObject),
}

/// The members of a JSON object, in insertion order, each name once. With `==` the
/// order does not count.
#[derive(Debug, Eq)]
pub struct JsonObject {
    members: Vec<(String, Json)>,
}

/// The mathematical value of a [`Json`].
pub enum JsonView {
    Null,
    Bool(bool),
    Number(JsonNumber),
    String(Seq<char>),
    Array(Seq<JsonView>),
    Object(Map<Seq<char>, JsonView>),
}

impl JsonView {
    /// The member called `key`, if this is an object that has one.
    pub open spec fn get(self, key: Seq<char>) -> Option<JsonView> {
        match self {
            JsonView::Object(members) => if members.contains_key(key) {
                Some(members[key])
            } else {
                None
            },
            _ => None,
        }
    }

    /// The member called `key`, or, where there is none, the one called `other`.
    pub open spec fn get_either(self, key: Seq<char>, other: Seq<char>) -> Option<JsonView> {
        if self.get(key) is Some {
            self.get(key)
        } else {
            self.get(other)
        }
    }

    pub open spec fn as_str(self) -> Option<Seq<char>> {
        match self {
            JsonView::String(s) => Some(s),
            _ => None,
        }
    }

    pub open spec fn as_bool(self) -> Option<bool> {
        match self {
            JsonView::Bool(b) => Some(b),
            _ => None,
        }
    }

    /// The number as an unsigned integer, if it was written as one.
    pub open spec fn as_u64(self) -> Option<u64> {
        match self {
            JsonView::Number(JsonNumber::PosInt(n)) => Some(n),
            _ => None,
        }
    }

    pub open spec fn as_array(self) -> Option<Seq<JsonView>> {
        match self {
            JsonView::Array(items) => Some(items),
            _ => None,
        }
    }

    pub open spec fn is_null(self) -> bool {
        self is Null
    }

    pub open spec fn is_object(self) -> bool {
        self is Object
    }

    /// The string member called `key`.
    pub open spec fn str_at(self, key: Seq<char>) -> Option<Seq<char>> {
        str_of(self.get(key))
    }
}

/// The string that an optional value holds.
pub open spec fn str_of(v: Option<JsonView>) -> Option<Seq<char>> {
    match v {
        Some(value) => value.as_str(),
        None => None,
    }
}

/// The unsigned integer that an optional value holds.
pub open spec fn u64_of(v: Option<JsonView>) -> Option<u64> {
    match v {
        Some(value) => value.as_u64(),
        None => None,
    }
}

/// The truth value that an optional value holds.
pub open spec fn bool_of(v: Option<JsonView>) -> Option<bool> {
    match v {
        Some(value) => value.as_bool(),
        None => None,
    }
}

/// The items that an optional value holds; none where it is no array.
pub open spec fn items_of(v: Option<JsonView>) -> Seq<JsonView> {
    match v {
        Some(JsonView::Array(items)) => items,
        _ => Seq::empty(),
    }
}

/// The member called `key` of an optional value.
pub open spec fn member_of(v: Option<JsonView>, key: Seq<char>) -> Option<JsonView> {
    match v {
        Some(value) => value.get(key),
        None => None,
    }
}

/// A string, unless it is empty.
pub open spec fn non_empty(s: Option<Seq<char>>) -> Option<Seq<char>> {
    match s {
        Some(text) => if text.len() > 0 {
            Some(text)
        } else {
            None
        },
        None => None,
    }
}

/// The values of a sequence of [`Json`].
pub open spec fn items_view(items: Seq<Json>) -> Seq<JsonView> {
    items.map_values(|item: Json| item@)
}

/// The value behind an optional reference.
pub open spec fn opt_json(v: Option<&Json>) -> Option<JsonView> {
    match v {
        Some(value) => Some(value@),
        None => None,
    }
}

/// The characters behind an optional reference.
pub open spec fn opt_chars(s: Option<&str>) -> Option<Seq<char>> {
    match s {
        Some(text) => Some(text@),
        None => None,
    }
}

/// The characters of an optional string.
pub open spec fn opt_text(s: Option<String>) -> Option<Seq<char>> {
    match s {
        Some(text) => Some(text@),
        None => None,
    }
}

impl View for Json {
    type V = JsonView;

    open spec fn view(&self) -> JsonView {
        self.model()
    }
}

impl View for JsonObject {
    type V = Map<Seq<char>, JsonView>;

    open spec fn view(&self) -> Map<Seq<char>, JsonView> {
        self.model()
    }
}

spec fn members_model(members: Seq<(String, Json)>) -> Map<Seq<char>, JsonView>
    decreases members,
{
    if members.len() == 0 {
        Map::empty()
    } else {
        members_model(members.drop_last()).insert(members.last().0@, members.last().1.model())
    }
}

spec fn unique_names(members: Seq<(String, Json)>) -> bool {
    forall|i: int, j: int| 0 <= i < j < members.len() ==> members[i].0@ != members[j].0@
}

proof fn lemma_members_model(members: Seq<(String, Json)>)
    requires
        unique_names(members),
    ensures
        members_model(members).dom().finite(),
        members_model(members).dom().len() == members.len(),
        forall|i: int|
            0 <= i < members.len() ==> {
                &&& members_model(members).contains_key(#[trigger] members[i].0@)
                &&& members_model(members)[members[i].0@] == members[i].1@
            },
        forall|key: Seq<char>| #[trigger]
            members_model(members).contains_key(key) ==> exists|i: int|
                0 <= i < members.len() && #[trigger] members[i].0@ == key,
    decreases members.len(),
{
    if members.len() > 0 {
        let front = members.drop_last();
        let last = members.last();
        lemma_members_model(front);
        assert forall|i: int| 0 <= i < members.len() implies {
            &&& members_model(members).contains_key(#[trigger] members[i].0@)
            &&& members_model(members)[members[i].0@] == members[i].1@
        } by {
            if i < front.len() {
                assert(front[i] == members[i]);
                assert(front[i].0@ != last.0@);
            }
        }
        assert forall|key: Seq<char>| #[trigger]
            members_model(members).contains_key(key) implies exists|i: int|
            0 <= i < members.len() && #[trigger] members[i].0@ == key by {
            if key == last.0@ {
                assert(members[members.len() - 1].0@ == key);
            } else {
                assert(members_model(front).contains_key(key));
                let i = choose|i: int| 0 <= i < front.len() && #[trigger] front[i].0@ == key;
                assert(members[i].0@ == key);
            }
        }
        assert(!members_model(front).contains_key(last.0@)) by {
            if members_model(front).contains_key(last.0@) {
                let i = choose|i: int| 0 <= i < front.len() && #[trigger] front[i].0@ == last.0@;
                assert(members[i].0@ == last.0@);
            }
        }
        assert(members_model(members).dom() =~= members_model(front).dom().insert(last.0@));
    }
}

impl JsonObject {
    /// The members by name.
    pub closed spec fn model(self) -> Map<Seq<char>, JsonView>
        decreases self,
    {
        members_model(self.members@)
    }

    #[verifier::type_invariant]
    spec fn each_name_once(self) -> bool {
        unique_names(self.members@)
    }

    /// The names of the members, in order.
    pub closed spec fn names(self) -> Seq<Seq<char>> {
        member_names(self.members@)
    }

    /// An object without members.
    pub fn new() -> (object: JsonObject)
        ensures
            object@ == Map::<Seq<char>, JsonView>::empty(),
            object.names() == Seq::<Seq<char>>::empty(),
    {
        let object = JsonObject { members: Vec::new() };
        assert(object.names() =~= Seq::empty());
        object
    }

    /// The position of the member called `key`.
    fn position(&self, key: &str) -> (position: Option<usize>)
        ensures
            match position {
                Some(i) => i < self.members@.len() && self.members@[i as int].0@ == key@,
                None => !self@.contains_key(key@),
            },
    {
        proof {
            use_type_invariant(self);
            lemma_members_model(self.members@);
        }
        let mut i: usize = 0;
        while i < self.members.len()
            invariant
                i <= self.members.len(),
                forall|j: int| 0 <= j < i ==> #[trigger] self.members@[j].0@ != key@,
            decreases self.members.len() - i,
        {
            if str_eq(self.members[i].0.as_str(), key) {
                return Some(i);
            }
            i += 1;
        }
        None
    }

    /// The member called `key`.
    pub fn get(&self, key: &str) -> (member: Option<&Json>)
        ensures
            opt_json(member) == JsonView::Object(self@).get(key@),
    {
        proof {
            use_type_invariant(self);
            lemma_members_model(self.members@);
        }
        match self.position(key) {
            Some(i) => Some(&self.members[i].1),
            None => None,
        }
    }

    /// How many members there are.
    pub fn len(&self) -> (count: usize)
        ensures
            count == self@.len(),
            count == self.names().len(),
            self.names().no_duplicates(),
            self.names().to_set() == self@.dom(),
    {
        proof {
            use_type_invariant(self);
            lemma_members_model(self.members@);
            lemma_names(self.members@);
        }
        self.members.len()
    }

    /// The name and value of the member at `index`.
    pub fn member(&self, index: usize) -> (member: (&str, &Json))
        requires
            index < self.names().len(),
        ensures
            member.0@ == self.names()[index as int],
            self@.contains_pair(member.0@, member.1@),
    {
        proof {
            use_type_invariant(self);
            lemma_members_model(self.members@);
        }
        let entry = &self.members[index];
        (entry.0.as_str(), &entry.1)
    }

    /// Sets the member called `name`, in place of an earlier one of that name.
    pub fn insert(&mut self, name: String, value: Json)
        ensures
            final(self)@ == old(self)@.insert(name@, value@),
            final(self).names() == if old(self)@.contains_key(name@) {
                old(self).names()
            } else {
                old(self).names().push(name@)
            },
    {
        proof {
            use_type_invariant(&*self);
            lemma_members_model(self.members@);
        }
        let found = self.position(name.as_str());
        let mut members: Vec<(String, Json)> = Vec::new();
        std::mem::swap(&mut members, &mut self.members);
        let ghost before = members@;
        match found {
            Some(i) => {
                members.set(i, (name, value));
                proof {
                    assert(unique_names(members@));
                    lemma_members_model(members@);
                    assert(members_model(members@) =~= members_model(before).insert(name@, value@)) by {
                        lemma_same_dom_model(before, members@, i as int);
                    }
                }
            },
            None => {
                members.push((name, value));
                proof {
                    assert(members@.drop_last() =~= before);
                    assert(unique_names(members@));
                }
            },
        }
        self.members = members;
        proof {
            assert(self.names() =~= if old(self)@.contains_key(name@) {
                old(self).names()
            } else {
                old(self).names().push(name@)
            });
        }
    }
}

spec fn member_names(members: Seq<(String, Json)>) -> Seq<Seq<char>> {
    members.map_values(|member: (String, Json)| member.0@)
}

proof fn lemma_names(members: Seq<(String, Json)>)
    requires
        unique_names(members),
    ensures
        member_names(members).no_duplicates(),
        member_names(members).to_set() == members_model(members).dom(),
{
    let names = member_names(members);
    lemma_members_model(members);
    assert forall|name: Seq<char>| names.to_set().contains(name) == members_model(
        members,
    ).contains_key(name) by {
        if names.contains(name) {
            let i = choose|i: int| 0 <= i < names.len() && names[i] == name;
            assert(members[i].0@ == name);
        }
        if members_model(members).contains_key(name) {
            let i = choose|i: int| 0 <= i < members.len() && #[trigger] members[i].0@ == name;
            assert(names[i] == name);
        }
    }
    assert(names.to_set() =~= members_model(members).dom());
}

proof fn lemma_same_dom_model(before: Seq<(String, Json)>, after: Seq<(String, Json)>, i: int)
    requires
        unique_names(before),
        unique_names(after),
        0 <= i < before.len() == after.len(),
        before[i].0@ == after[i].0@,
        forall|j: int| 0 <= j < before.len() && j != i ==> before[j] == after[j],
    ensures
        members_model(after) =~= members_model(before).insert(after[i].0@, after[i].1@),
{
    lemma_members_model(before);
    lemma_members_model(after);
    let left = members_model(after);
    let right = members_model(before).insert(after[i].0@, after[i].1@);
    assert forall|key: Seq<char>| left.contains_key(key) == right.contains_key(key) by {
        if left.contains_key(key) {
            let j = choose|j: int| 0 <= j < after.len() && #[trigger] after[j].0@ == key;
            assert(before[j].0@ == key);
        }
        if right.contains_key(key) && key != after[i].0@ {
            let j = choose|j: int| 0 <= j < before.len() && #[trigger] before[j].0@ == key;
            assert(after[j].0@ == key);
        }
    }
    assert forall|key: Seq<char>| left.contains_key(key) implies left[key] == right[key] by {
        let j = choose|j: int| 0 <= j < after.len() && #[trigger] after[j].0@ == key;
        assert(before[j].0@ == key);
    }
}

impl Json {
    /// The value of this JSON.
    pub open spec fn model(self) -> JsonView
        decreases self,
    {
        match self {
            Json::Null => JsonView::Null,
            Json::Bool(b) => JsonView::Bool(b),
            Json::Number(n) => JsonView::Number(n),
            Json::String(s) => JsonView::String(s@),
            Json::Array(items) => JsonView::Array(
                Seq::new(
                    items@.len(),
                    |i: int|
                        if 0 <= i < items@.len() {
                            items@[i].model()
                        } else {
                            JsonView::Null
                        },
                ),
            ),
            Json::Object(object) => JsonView::Object(object.model()),
        }
    }

    /// A string value.
    pub fn text(s: &str) -> (value: Json)
        ensures
            value@ == JsonView::String(s@),
    {
        Json::String(s.to_owned())
    }

    /// An array value.
    pub fn array(items: Vec<Json>) -> (value: Json)
        ensures
            value@ == JsonView::Array(items_view(items@)),
    {
        let value = Json::Array(items);
        assert(value@->Array_0 =~= items_view(items@));
        value
    }

    /// An object value.
    pub fn object(members: JsonObject) -> (value: Json)
        ensures
            value@ == JsonView::Object(members@),
    {
        Json::Object(members)
    }

    /// The member called `key`, if this is an object that has one.
    pub fn get(&self, key: &str) -> (member: Option<&Json>)
        ensures
            opt_json(member) == self@.get(key@),
    {
        match self {
            Json::Object(object) => object.get(key),
            _ => None,
        }
    }

    /// The member called `key`, or, where there is none, the one called `other`.
    pub fn get_either(&self, key: &str, other: &str) -> (member: Option<&Json>)
        ensures
            opt_json(member) == self@.get_either(key@, other@),
    {
        match self.get(key) {
            Some(member) => Some(member),
            None => self.get(other),
        }
    }

    pub fn as_str(&self) -> (s: Option<&str>)
        ensures
            opt_chars(s) == self@.as_str(),
    {
        match self {
            Json::String(s) => Some(s.as_str()),
            _ => None,
        }
    }

    pub fn as_bool(&self) -> (b: Option<bool>)
        ensures
            b == self@.as_bool(),
    {
        match self {
            Json::Bool(b) => Some(*b),
            _ => None,
        }
    }

    /// The number as an unsigned integer, if it was written as one.
    pub fn as_u64(&self) -> (n: Option<u64>)
        ensures
            n == self@.as_u64(),
    {
        match self {
            Json::Number(JsonNumber::PosInt(n)) => Some(*n),
            _ => None,
        }
    }

    pub fn as_array(&self) -> (items: Option<&Vec<Json>>)
        ensures
            match items {
                Some(v) => self@.as_array() == Some(items_view(v@)),
                None => self@.as_array() is None,
            },
    {
        match self {
            Json::Array(items) => {
                assert(self@->Array_0 =~= items_view(items@));
                Some(items)
            },
            _ => None,
        }
    }

    pub fn is_null(&self) -> (b: bool)
        ensures
            b == self@.is_null(),
    {
        matches!(self, Json::Null)
    }

    pub fn is_object(&self) -> (b: bool)
        ensures
            b == self@.is_object(),
    {
        matches!(self, Json::Object(_))
    }

    /// The string member called `key`.
    pub fn str_at(&self, key: &str) -> (s: Option<&str>)
        ensures
            opt_chars(s) == self@.str_at(key@),
    {
        str_in(self.get(key))
    }
}

/// The string that an optional value holds.
pub fn str_in<'a>(v: Option<&'a Json>) -> (s: Option<&'a str>)
    ensures
        opt_chars(s) == str_of(opt_json(v)),
{
    match v {
        Some(value) => value.as_str(),
        None => None,
    }
}

/// The unsigned integer that an optional value holds.
pub fn u64_in(v: Option<&Json>) -> (n: Option<u64>)
    ensures
        n == u64_of(opt_json(v)),
{
    match v {
        Some(value) => value.as_u64(),
        None => None,
    }
}

/// The truth value that an optional value holds.
pub fn bool_in(v: Option<&Json>) -> (b: Option<bool>)
    ensures
        b == bool_of(opt_json(v)),
{
    match v {
        Some(value) => value.as_bool(),
        None => None,
    }
}

/// The member called `key` of an optional value.
pub fn member_in<'a>(v: Option<&'a Json>, key: &str) -> (member: Option<&'a Json>)
    ensures
        opt_json(member) == member_of(opt_json(v), key@),
{
    match v {
        Some(value) => value.get(key),
        None => None,
    }
}

/// A string, unless it is empty.
pub fn unless_empty<'a>(s: Option<&'a str>) -> (kept: Option<&'a str>)
    ensures
        opt_chars(kept) == non_empty(opt_chars(s)),
{
    match s {
        Some(text) => if text.is_empty() {
            None
        } else {
            Some(text)
        },
        None => None,
    }
}

/// An owned copy of an optional string.
pub fn owned(s: Option<&str>) -> (copy: Option<String>)
    ensures
        opt_text(copy) == opt_chars(s),
{
    match s {
        Some(text) => Some(text.to_owned()),
        None => None,
    }
}

// ---------------------------------------------------------------------------
// Equality
// ---------------------------------------------------------------------------

/// The bits of the double that is zero with a minus sign.
pub const NEGATIVE_ZERO: u64 = 0x8000_0000_0000_0000;

/// The bits of a double, those of zero for zero of either sign.
pub open spec fn unsigned_zero(bits: u64) -> u64 {
    if bits == NEGATIVE_ZERO {
        0
    } else {
        bits
    }
}

/// Whether two numbers are equal. Zero is one number, whatever its sign; an integer
/// and a double never are.
pub open spec fn same_number(a: JsonNumber, b: JsonNumber) -> bool {
    match (a, b) {
        (JsonNumber::PosInt(m), JsonNumber::PosInt(n)) => m == n,
        (JsonNumber::NegInt(m), JsonNumber::NegInt(n)) => m == n,
        (JsonNumber::Float(m), JsonNumber::Float(n)) => unsigned_zero(m) == unsigned_zero(n),
        _ => false,
    }
}

/// Whether two values are equal: arrays item by item, objects member by member.
pub open spec fn same_json(a: JsonView, b: JsonView) -> bool
    decreases a,
{
    match (a, b) {
        (JsonView::Null, JsonView::Null) => true,
        (JsonView::Bool(m), JsonView::Bool(n)) => m == n,
        (JsonView::Number(m), JsonView::Number(n)) => same_number(m, n),
        (JsonView::String(m), JsonView::String(n)) => m == n,
        (JsonView::Array(m), JsonView::Array(n)) => {
            &&& m.len() == n.len()
            &&& forall|i: int| 0 <= i < m.len() ==> same_json(#[trigger] m[i], n[i])
        },
        (JsonView::Object(m), JsonView::Object(n)) => {
            &&& m.dom() == n.dom()
            &&& forall|key: Seq<char>| #[trigger] m.contains_key(key) ==> same_json(m[key], n[key])
        },
        _ => false,
    }
}

impl JsonNumber {
    /// Whether two numbers are equal.
    pub fn same(&self, other: &JsonNumber) -> (equal: bool)
        ensures
            equal == same_number(*self, *other),
    {
        match (self, other) {
            (JsonNumber::PosInt(m), JsonNumber::PosInt(n)) => *m == *n,
            (JsonNumber::NegInt(m), JsonNumber::NegInt(n)) => *m == *n,
            (JsonNumber::Float(m), JsonNumber::Float(n)) => *m == *n || (*m == 0 && *n
                == NEGATIVE_ZERO) || (*m == NEGATIVE_ZERO && *n == 0),
            _ => false,
        }
    }
}

impl Json {
    /// Whether two values are equal.
    pub fn same(&self, other: &Json) -> (equal: bool)
        ensures
            equal == same_json(self@, other@),
        decreases self,
    {
        match (self, other) {
            (Json::Null, Json::Null) => true,
            (Json::Bool(m), Json::Bool(n)) => *m == *n,
            (Json::Number(m), Json::Number(n)) => m.same(n),
            (Json::String(m), Json::String(n)) => str_eq(m.as_str(), n.as_str()),
            (Json::Array(m), Json::Array(n)) => {
                if m.len() != n.len() {
                    return false;
                }
                let mut i: usize = 0;
                while i < m.len()
                    invariant
                        i <= m.len(),
                        m.len() == n.len(),
                        *self == Json::Array(*m),
                        *other == Json::Array(*n),
                        forall|j: int| 0 <= j < i ==> same_json((#[trigger] m@[j])@, n@[j]@),
                    decreases m.len() - i,
                {
                    proof {
                        assert(decreases_to!(*self => self->Array_0));
                        vstd::std_specs::vec::axiom_vec_index_decreases(*m, i as int);
                    }
                    if !m[i].same(&n[i]) {
                        assert(self@->Array_0[i as int] == m@[i as int]@);
                        assert(other@->Array_0[i as int] == n@[i as int]@);
                        return false;
                    }
                    i += 1;
                }
                assert forall|j: int| 0 <= j < self@->Array_0.len() implies same_json(
                    #[trigger] self@->Array_0[j],
                    other@->Array_0[j],
                ) by {
                    assert(same_json(m@[j]@, n@[j]@));
                }
                true
            },
            (Json::Object(m), Json::Object(n)) => m.same(n),
            _ => false,
        }
    }
}

impl JsonObject {
    /// Whether two objects have the same members.
    pub fn same(&self, other: &JsonObject) -> (equal: bool)
        ensures
            equal == same_json(JsonView::Object(self@), JsonView::Object(other@)),
        decreases self,
    {
        proof {
            use_type_invariant(self);
            use_type_invariant(other);
            lemma_members_model(self.members@);
            lemma_members_model(other.members@);
        }
        if self.members.len() != other.members.len() {
            return false;
        }
        let mut i: usize = 0;
        while i < self.members.len()
            invariant
                i <= self.members.len(),
                forall|j: int|
                    0 <= j < self.members@.len() ==> {
                        &&& self@.contains_key(#[trigger] self.members@[j].0@)
                        &&& self@[self.members@[j].0@] == self.members@[j].1@
                    },
                forall|j: int|
                    0 <= j < i ==> {
                        &&& other@.contains_key(#[trigger] self.members@[j].0@)
                        &&& same_json(self.members@[j].1@, other@[self.members@[j].0@])
                    },
            decreases self.members.len() - i,
        {
            let member = &self.members[i];
            assert(self@.contains_key(self.members@[i as int].0@));
            let equal = match other.get(member.0.as_str()) {
                Some(value) => member.1.same(value),
                None => false,
            };
            if !equal {
                return false;
            }
            i += 1;
        }
        proof {
            assert(self@.dom().subset_of(other@.dom())) by {
                assert forall|key: Seq<char>| self@.contains_key(key) implies other@.contains_key(
                    key,
                ) by {
                    let j = choose|j: int|
                        0 <= j < self.members@.len() && #[trigger] self.members@[j].0@ == key;
                    assert(other@.contains_key(self.members@[j].0@));
                }
            }
            vstd::set_lib::lemma_subset_equality(self@.dom(), other@.dom());
            assert forall|key: Seq<char>| #[trigger] self@.contains_key(key) implies same_json(
                self@[key],
                other@[key],
            ) by {
                let j = choose|j: int|
                    0 <= j < self.members@.len() && #[trigger] self.members@[j].0@ == key;
                assert(self@.contains_key(self.members@[j].0@));
            }
        }
        true
    }
}

impl PartialEq for JsonNumber {
    fn eq(&self, other: &JsonNumber) -> (equal: bool) {
        self.same(other)
    }
}

impl PartialEqSpecImpl for JsonNumber {
    open spec fn obeys_eq_spec() -> bool {
        true
    }

    open spec fn eq_spec(&self, other: &JsonNumber) -> bool {
        same_number(*self, *other)
    }
}

impl PartialEq for Json {
    fn eq(&self, other: &Json) -> (equal: bool) {
        self.same(other)
    }
}

impl PartialEqSpecImpl for Json {
    open spec fn obeys_eq_spec() -> bool {
        true
    }

    open spec fn eq_spec(&self, other: &Json) -> bool {
        same_json(self@, other@)
    }
}

impl PartialEq for JsonObject {
    fn eq(&self, other: &JsonObject) -> (equal: bool) {
        self.same(other)
    }
}

impl PartialEqSpecImpl for JsonObject {
    open spec fn obeys_eq_spec() -> bool {
        true
    }

    open spec fn eq_spec(&self, other: &JsonObject) -> bool {
        same_json(JsonView::Object(self@), JsonView::Object(other@))
    }
}

impl Clone for Json {
    fn clone(&self) -> (copy: Json)
        ensures
            copy@ == self@,
        decreases self,
    {
        match self {
            Json::Null => Json::Null,
            Json::Bool(b) => Json::Bool(*b),
            Json::Number(n) => Json::Number(*n),
            Json::String(s) => Json::String(s.clone()),
            Json::Array(items) => {
                let mut copies: Vec<Json> = Vec::new();
                let mut i: usize = 0;
                while i < items.len()
                    invariant
                        i <= items.len(),
                        copies@.len() == i,
                        *self == Json::Array(*items),
                        forall|j: int| 0 <= j < i ==> (#[trigger] copies@[j])@ == items@[j]@,
                    decreases items.len() - i,
                {
                    proof {
                        assert(decreases_to!(*self => self->Array_0));
                        vstd::std_specs::vec::axiom_vec_index_decreases(*items, i as int);
                    }
                    copies.push((&items[i]).clone());
                    i += 1;
                }
                let copy = Json::Array(copies);
                assert(copy@->Array_0 =~= self@->Array_0);
                copy
            },
            Json::Object(object) => {
                let copy = object.clone();
                Json::Object(copy)
            },
        }
    }
}

impl Clone for JsonObject {
    fn clone(&self) -> (copy: JsonObject)
        ensures
            copy@ == self@,
            copy.names() == self.names(),
        decreases self,
    {
        proof {
            use_type_invariant(self);
        }
        let mut members: Vec<(String, Json)> = Vec::new();
        let mut i: usize = 0;
        while i < self.members.len()
            invariant
                i <= self.members.len(),
                members@.len() == i,
                unique_names(self.members@),
                forall|j: int|
                    0 <= j < i ==> {
                        &&& (#[trigger] members@[j]).0@ == self.members@[j].0@
                        &&& members@[j].1@ == self.members@[j].1@
                    },
            decreases self.members.len() - i,
        {
            let member = &self.members[i];
            members.push((member.0.clone(), member.1.clone()));
            i += 1;
        }
        proof {
            lemma_equal_members(self.members@, members@);
            assert(member_names(members@) =~= member_names(self.members@));
        }
        JsonObject { members }
    }
}

proof fn lemma_equal_members(left: Seq<(String, Json)>, right: Seq<(String, Json)>)
    requires
        left.len() == right.len(),
        forall|j: int|
            0 <= j < left.len() ==> {
                &&& (#[trigger] right[j]).0@ == left[j].0@
                &&& right[j].1@ == left[j].1@
            },
    ensures
        members_model(left) == members_model(right),
    decreases left.len(),
{
    if left.len() > 0 {
        assert forall|j: int| 0 <= j < left.len() - 1 implies {
            &&& (#[trigger] right.drop_last()[j]).0@ == left.drop_last()[j].0@
            &&& right.drop_last()[j].1@ == left.drop_last()[j].1@
        } by {
            assert(right[j].0@ == left[j].0@);
        }
        lemma_equal_members(left.drop_last(), right.drop_last());
        assert(right[right.len() - 1].0@ == left[left.len() - 1].0@);
    }
}

/// Every value equals itself.
pub proof fn law_value_equals_itself(a: JsonView)
    ensures
        same_json(a, a),
    decreases a,
{
    match a {
        JsonView::Array(items) => {
            assert forall|i: int| 0 <= i < items.len() implies same_json(
                #[trigger] items[i],
                items[i],
            ) by {
                law_value_equals_itself(items[i]);
            }
        },
        JsonView::Object(members) => {
            assert forall|key: Seq<char>| #[trigger] members.contains_key(key) implies same_json(
                members[key],
                members[key],
            ) by {
                law_value_equals_itself(members[key]);
            }
        },
        _ => {},
    }
}

/// Two values are equal in either order, or in neither.
pub proof fn law_equality_is_symmetric(a: JsonView, b: JsonView)
    requires
        same_json(a, b),
    ensures
        same_json(b, a),
    decreases a,
{
    match (a, b) {
        (JsonView::Array(m), JsonView::Array(n)) => {
            assert forall|i: int| 0 <= i < n.len() implies same_json(#[trigger] n[i], m[i]) by {
                law_equality_is_symmetric(m[i], n[i]);
            }
        },
        (JsonView::Object(m), JsonView::Object(n)) => {
            assert forall|key: Seq<char>| #[trigger] n.contains_key(key) implies same_json(
                n[key],
                m[key],
            ) by {
                assert(m.contains_key(key));
                law_equality_is_symmetric(m[key], n[key]);
            }
        },
        _ => {},
    }
}

} // verus!
