//! Choosing the next wallpaper from the candidate pool.

use vstd::prelude::*;
use crate::config::Order;

verus! {

/// Selection was asked of an empty candidate pool. The tick that hit this
/// reports it and applies nothing; the next tick retries from scratch.
#[derive(Debug, Clone, Copy, PartialEq, Eq, Structural)]
pub struct EmptyPoolError;

/// Holds when the chosen path is a member of the pool: selection never
/// fabricates a path.
pub open spec fn selected_from(choice: Seq<char>, pool: Seq<Seq<char>>) -> bool {
    exists|i: int| 0 <= i < pool.len() && choice == pool[i]
}

/// Relies on rand::random_range: the result is a uniform draw below the
/// bound from the thread-local generator, and a positive bound never panics.
#[verifier::external_body]
fn random_index(bound: usize) -> (i: usize)
    requires
        bound > 0,
    ensures
        i < bound,
{
    rand::random_range(0..bound)
}

/// Picks one path of a non-empty pool uniformly at random; every call is an
/// independent draw, with no memory of earlier picks.
pub fn pick_random(paths: &Vec<String>) -> (choice: String)
    requires
        paths@.len() > 0,
    ensures
        selected_from(choice@, paths.deep_view()),
{
    let index = random_index(paths.len());
    let choice = paths[index].clone();
    proof {
        assert(choice@ == paths.deep_view()[index as int]);
    }
    choice
}

/// Picks the next wallpaper from the pool under the ordering policy, failing
/// exactly on an empty pool. A random pick is a uniform independent draw
/// from the whole pool; an alphabetical pick is the pool's first path in
/// construction order.
pub fn select(pool: &Vec<String>, order: Order) -> (r: Result<String, EmptyPoolError>)
    ensures
        r is Ok <==> pool@.len() > 0,
        r matches Ok(choice) ==> selected_from(choice@, pool.deep_view()),
        r matches Ok(choice) ==> (order == Order::alphabetical ==> choice@ == pool.deep_view()[0]),
{
    if pool.len() == 0 {
        return Err(EmptyPoolError);
    }
    match order {
        Order::random => Ok(pick_random(pool)),
        Order::alphabetical => {
            let choice = pool[0].clone();
            proof {
                assert(choice@ == pool.deep_view()[0]);
            }
            Ok(choice)
        },
    }
}

} // verus!
