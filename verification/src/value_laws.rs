//! What the values and strings of this crate are, said of their parts alone.

use vstd::prelude::*;
use crate::json::{same_json, Json, JsonNumber, JsonView};
use crate::text::ascii_lowercase;

verus! {

// ---------------------------------------------------------------------------
// Reading JSON by its parts
// ---------------------------------------------------------------------------

/// Whether `v` is an object that holds `value` under `key`.
pub open spec fn holds(v: JsonView, key: Seq<char>, value: JsonView) -> bool {
    v matches JsonView::Object(members) && members.contains_key(key) && members[key] == value
}

/// Whether `v` holds nothing under `key`: it has no such member, or is no object.
pub open spec fn lacks(v: JsonView, key: Seq<char>) -> bool {
    v matches JsonView::Object(members) ==> !members.contains_key(key)
}

/// Whether `v` holds a string under `key`, and which.
pub open spec fn holds_text(v: JsonView, key: Seq<char>, text: Seq<char>) -> bool {
    holds(v, key, JsonView::String(text))
}

/// Whether `v` holds no string under `key`.
pub open spec fn lacks_text(v: JsonView, key: Seq<char>) -> bool {
    v matches JsonView::Object(members) ==> members.contains_key(key) ==> !(members[key] is String)
}

/// Whether `text` is the string under the first of `keys` that holds one.
pub open spec fn first_text(v: JsonView, keys: Seq<Seq<char>>, text: Seq<char>) -> bool {
    exists|j: int|
        {
            &&& 0 <= j < keys.len()
            &&& holds_text(v, #[trigger] keys[j], text)
            &&& forall|k: int| 0 <= k < j ==> lacks_text(v, #[trigger] keys[k])
        }
}

/// Whether none of `keys` holds a string.
pub open spec fn no_text(v: JsonView, keys: Seq<Seq<char>>) -> bool {
    forall|k: int| 0 <= k < keys.len() ==> lacks_text(v, #[trigger] keys[k])
}

/// An object has exactly the members that it holds; nothing else has any.
pub proof fn law_members_are_found(v: JsonView, key: Seq<char>, member: JsonView)
    ensures
        v.get(key) == Some(member) <==> holds(v, key, member),
        v.get(key) is None <==> lacks(v, key),
{
}

/// The second name counts only where the first is missing altogether.
pub proof fn law_second_name_is_a_fallback(
    v: JsonView,
    key: Seq<char>,
    other: Seq<char>,
    member: JsonView,
)
    ensures
        holds(v, key, member) ==> v.get_either(key, other) == Some(member),
        lacks(v, key) && holds(v, other, member) ==> v.get_either(key, other) == Some(member),
        lacks(v, key) && lacks(v, other) ==> v.get_either(key, other) is None,
{
}

/// Each reading of a value gives what the value holds, and nothing of another kind.
pub proof fn law_readings_give_what_is_held(v: JsonView)
    ensures
        forall|s: Seq<char>| v.as_str() == Some(s) <==> v == JsonView::String(s),
        forall|b: bool| v.as_bool() == Some(b) <==> v == JsonView::Bool(b),
        forall|n: u64|
            v.as_u64() == Some(n) <==> v == JsonView::Number(JsonNumber::PosInt(n)),
        forall|items: Seq<JsonView>| v.as_array() == Some(items) <==> v == JsonView::Array(items),
        v.is_null() <==> v == JsonView::Null,
        v.is_object() <==> exists|m: Map<Seq<char>, JsonView>| v == JsonView::Object(m),
        forall|key: Seq<char>, s: Seq<char>|
            #![trigger holds_text(v, key, s)]
            v.str_at(key) == Some(s) <==> holds_text(v, key, s),
        forall|key: Seq<char>| #![trigger lacks_text(v, key)]
            v.str_at(key) is None <==> lacks_text(v, key),
{
    if v.is_object() {
        assert(v == JsonView::Object(v->Object_0));
    }
}

/// The value of a scalar is that scalar, and the value of an array has the value of
/// each item in its place.
pub proof fn law_values_of_scalars_and_arrays(
    b: bool,
    n: JsonNumber,
    s: String,
    items: Vec<Json>,
    i: int,
)
    ensures
        Json::Null@ == JsonView::Null,
        Json::Bool(b)@ == JsonView::Bool(b),
        Json::Number(n)@ == JsonView::Number(n),
        Json::String(s)@ == JsonView::String(s@),
        Json::Array(items)@ matches JsonView::Array(values) && values.len() == items@.len() && (0
            <= i < items@.len() ==> values[i] == items@[i]@),
{
}

/// Equal values are of one kind and hold the same: what one object holds under a name,
/// an equal one holds there too.
pub proof fn law_equal_values_hold_the_same(a: JsonView, b: JsonView)
    requires
        same_json(a, b),
    ensures
        a is Null <==> b is Null,
        forall|x: bool| a == JsonView::Bool(x) <==> b == JsonView::Bool(x),
        forall|s: Seq<char>| a == JsonView::String(s) <==> b == JsonView::String(s),
        forall|n: u64|
            a == JsonView::Number(JsonNumber::PosInt(n)) <==> b == JsonView::Number(
                JsonNumber::PosInt(n),
            ),
        forall|n: i64|
            a == JsonView::Number(JsonNumber::NegInt(n)) <==> b == JsonView::Number(
                JsonNumber::NegInt(n),
            ),
        forall|n: u64|
            n != 0 && n != 0x8000_0000_0000_0000 ==> (a == JsonView::Number(JsonNumber::Float(n))
                <==> b == JsonView::Number(JsonNumber::Float(n))),
        a is Array <==> b is Array,
        a is Array ==> a->Array_0.len() == b->Array_0.len(),
        forall|i: int|
            a is Array && 0 <= i < a->Array_0.len() ==> same_json(
                #[trigger] a->Array_0[i],
                b->Array_0[i],
            ),
        a is Object <==> b is Object,
        forall|key: Seq<char>|
            a is Object && #[trigger] a->Object_0.contains_key(key) ==> same_json(
                a->Object_0[key],
                b->Object_0[key],
            ),
        forall|key: Seq<char>| lacks(a, key) <==> lacks(b, key),
        forall|key: Seq<char>, s: Seq<char>| holds_text(a, key, s) <==> holds_text(b, key, s),
{
    if a is Object && b is Object {
        let m = a->Object_0;
        let n = b->Object_0;
        assert forall|key: Seq<char>| lacks(a, key) <==> lacks(b, key) by {
            assert(m.dom().contains(key) <==> n.dom().contains(key));
        }
        assert forall|key: Seq<char>, s: Seq<char>|
            holds_text(a, key, s) <==> holds_text(b, key, s) by {
            assert(m.dom().contains(key) <==> n.dom().contains(key));
            if m.contains_key(key) {
                assert(same_json(m[key], n[key]));
            }
        }
    }
}

/// Values that hold the same are equal, however their objects were put together.
pub proof fn law_same_parts_make_equal_values(a: JsonView, b: JsonView)
    ensures
        a is Null && b is Null ==> same_json(a, b),
        a is Bool && a == b ==> same_json(a, b),
        a is String && a == b ==> same_json(a, b),
        a is Number && a == b ==> same_json(a, b),
        a == JsonView::Number(JsonNumber::Float(0)) && b == JsonView::Number(
            JsonNumber::Float(0x8000_0000_0000_0000),
        ) ==> same_json(a, b),
        a is Array && b is Array && a->Array_0.len() == b->Array_0.len() && (forall|i: int|
            0 <= i < a->Array_0.len() ==> same_json(#[trigger] a->Array_0[i], b->Array_0[i]))
            ==> same_json(a, b),
        a is Object && b is Object && (forall|key: Seq<char>|
            lacks(a, key) <==> #[trigger] lacks(b, key)) && (forall|key: Seq<char>| #[trigger]
            a->Object_0.contains_key(key) ==> same_json(a->Object_0[key], b->Object_0[key]))
            ==> same_json(a, b),
{
    if a is Object && b is Object && (forall|key: Seq<char>|
        lacks(a, key) <==> #[trigger] lacks(b, key)) {
        assert forall|key: Seq<char>|
            a->Object_0.dom().contains(key) == b->Object_0.dom().contains(key) by {
            assert(lacks(a, key) <==> lacks(b, key));
        }
        assert(a->Object_0.dom() =~= b->Object_0.dom());
    }
}

// ---------------------------------------------------------------------------
// Case
// ---------------------------------------------------------------------------

/// Folding keeps the number of characters, brings the letters `A` to `Z` to the code
/// 32 above their own, and keeps everything else.
pub proof fn law_folding_changes_capitals_only(s: Seq<char>, i: int)
    requires
        0 <= i < s.len(),
    ensures
        ascii_lowercase(s).len() == s.len(),
        65 <= s[i] as u32 <= 90 ==> ascii_lowercase(s)[i] as u32 == s[i] as u32 + 32,
        !(65 <= s[i] as u32 <= 90) ==> ascii_lowercase(s)[i] == s[i],
{
}

/// Folding twice is folding once, and no capital is left.
pub proof fn law_folding_leaves_no_capital(s: Seq<char>)
    ensures
        ascii_lowercase(ascii_lowercase(s)) == ascii_lowercase(s),
        forall|i: int|
            0 <= i < s.len() ==> !(65 <= #[trigger] ascii_lowercase(s)[i] as u32 <= 90),
{
    assert(ascii_lowercase(ascii_lowercase(s)) =~= ascii_lowercase(s));
}

} // verus!
