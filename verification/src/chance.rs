//! Questions that only chance can answer.

use crate::protocol;
use crate::protocol::{Query, Reply};
use rand::RngExt;
use vstd::prelude::*;

verus! {

/// A version 4 identifier: the version digit is 4 and the two variant bits are 10.
pub open spec fn is_version_4(uuid: u128) -> bool {
    &&& (uuid >> 76) & 0xf == 4
    &&& (uuid >> 62) & 0x3 == 2
}

/// `rand::RngExt::random_range` over `low..=high` on the generator `rand::rng()`
/// of the thread. The number drawn lies in the range; which one it is, chance
/// decides. The outside function panics on an empty range, so `low` may not be
/// over `high`.
#[verifier::external_body]
fn random_range(low: u8, high: u8) -> (number: u8)
    requires
        low <= high,
    ensures
        low <= number <= high,
{
    rand::rng().random_range(low..=high)
}

/// `uuid::Uuid::new_v4`, as the number that `as_u128` makes of it: random bits,
/// but for the version digit and the variant bits. Which identifier it is, chance
/// decides.
#[verifier::external_body]
fn new_v4() -> (uuid: u128)
    ensures
        is_version_4(uuid),
{
    uuid::Uuid::new_v4().as_u128()
}

/// The answers that chance may give to a question.
pub open spec fn possible(query: Query, reply: protocol::ReplyView) -> bool {
    match (query, reply) {
        (Query::Roll { low, high }, protocol::ReplyView::Count(number)) => low <= number <= high,
        (Query::FreshUuid, protocol::ReplyView::Uuid(uuid)) => is_version_4(uuid),
        _ => false,
    }
}

/// A question that chance can answer.
pub open spec fn is_up_to_chance(query: Query) -> bool {
    match query {
        Query::Roll { low, high } => low <= high,
        Query::FreshUuid => true,
        _ => false,
    }
}

/// Lets chance answer a question, if it is one for chance.
pub fn draw(query: Query) -> (reply: Option<Reply>)
    ensures
        reply is Some <==> is_up_to_chance(query),
        reply is Some ==> possible(query, reply->0@),
{
    match query {
        Query::Roll { low, high } => if low <= high {
            Some(Reply::Count(random_range(low, high)))
        } else {
            None
        },
        Query::FreshUuid => Some(Reply::Uuid(new_v4())),
        _ => None,
    }
}

/// Chance answers nothing but rolls from a range that is not empty and requests for an
/// identifier. A roll gives a number from the lowest to the highest, both included; an
/// identifier has the marks of the fourth version.
pub proof fn chance_answers_rolls_and_names(query: Query, reply: protocol::ReplyView, n: u8)
    ensures
        query is Roll ==> (is_up_to_chance(query) <==> query->low <= query->high),
        query is FreshUuid ==> is_up_to_chance(query),
        !(query is Roll) && !(query is FreshUuid) ==> !is_up_to_chance(query),
        query is Roll ==> (possible(query, protocol::ReplyView::Count(n)) <==> query->low <= n
            <= query->high),
        query is Roll && possible(query, reply) ==> reply is Count,
        query is FreshUuid && possible(query, reply) ==> reply is Uuid && (reply->Uuid_0 >> 76)
            & 0xf == 4 && (reply->Uuid_0 >> 62) & 0x3 == 2,
        possible(query, reply) ==> query is Roll || query is FreshUuid,
{
}

} // verus!
