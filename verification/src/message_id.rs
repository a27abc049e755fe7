//! Ids of assistant messages.

use vstd::prelude::*;

verus! {

/// Whether `c` is a hexadecimal digit in lower case.
pub open spec fn is_hex_digit(c: char) -> bool {
    ('0' <= c && c <= '9') || ('a' <= c && c <= 'f')
}

/// Whether `id` has the shape of a message id: a random UUID in its hyphenated
/// form, with the version digit and the variant digit in place.
pub open spec fn is_message_id(id: Seq<char>) -> bool {
    &&& id.len() == 36
    &&& forall|i: int|
        0 <= i < 36 ==> if i == 8 || i == 13 || i == 18 || i == 23 {
            #[trigger] id[i] == '-'
        } else {
            is_hex_digit(id[i])
        }
    &&& id[14] == '4'
    &&& (id[19] == '8' || id[19] == '9' || id[19] == 'a' || id[19] == 'b')
}

/// `uuid::Uuid::new_v4` draws a random UUID from the operating system, and its
/// `to_string` writes it as 32 hexadecimal digits in lower case, in groups of 8, 4,
/// 4, 4 and 12 that hyphens separate. Only the version digit (`4`) and the variant
/// digit (`8`, `9`, `a` or `b`) are fixed; which UUID it is, and that no two calls
/// return the same one, is left unsaid. It panics only where the operating system
/// has no random bytes to give, which no argument decides.
#[verifier::external_body]
pub(crate) fn new_message_id() -> (id: String)
    ensures
        is_message_id(id@),
{
    uuid::Uuid::new_v4().to_string()
}

/// What a rotation of `id` to `next` leaves in place, and what it returns: the id
/// before and after.
pub open spec fn rotated(id: Seq<char>, next: Seq<char>) -> (Seq<char>, (Seq<char>, Seq<char>)) {
    (next, (id, next))
}

/// Puts `next` in the place of `id`; the result is the id before and after.
pub fn rotate_to(id: &mut String, next: String) -> (ids: (String, String))
    ensures
        (final(id)@, (ids.0@, ids.1@)) == rotated(old(id)@, next@),
{
    let mut prev = next.clone();
    std::mem::swap(id, &mut prev);
    (prev, next)
}

/// Puts a fresh id in the place of `id`; the result is the id before and after.
pub fn rotate(id: &mut String) -> (ids: (String, String))
    ensures
        (final(id)@, (ids.0@, ids.1@)) == rotated(old(id)@, ids.1@),
        is_message_id(ids.1@),
{
    rotate_to(id, new_message_id())
}

/// Rotations chain: a second one returns the id that the first one put in place, and
/// leaves its own. As long as no two draws coincide, the three ids are distinct.
pub proof fn law_rotations_chain(id: Seq<char>, first: Seq<char>, second: Seq<char>)
    requires
        id != first,
        first != second,
        id != second,
    ensures
        ({
            let (after_first, ids) = rotated(id, first);
            let (after_second, more) = rotated(after_first, second);
            &&& ids.0 == id
            &&& after_first == ids.1
            &&& more.0 == ids.1
            &&& after_second == more.1
            &&& ids.0 != ids.1 && more.0 != more.1 && ids.0 != more.1
        }),
{
}

} // verus!
