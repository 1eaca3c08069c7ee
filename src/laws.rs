//! Properties of the rendezvous protocol, stated over the contracts of the
//! table, the role decision and the replies.
use crate::point::{role_of, Role, WaitPoint};
use std::sync::Arc;
use vstd::prelude::*;

verus! {

/// Of the arrivals at one point, exactly one is first and, once two have come,
/// exactly one is second, whatever order they came in.
///
/// `observed[i]` is the count that arrival `i` read from the point's atomic
/// counter before incrementing it; the increments being atomic, the counts read
/// by `n` arrivals are `0, 1, ..., n - 1`, each read once.
pub proof fn one_first_one_second(observed: Seq<usize>)
    requires
        observed.no_duplicates(),
        forall|v: usize| v < observed.len() ==> observed.contains(v),
    ensures
        forall|i: int, j: int|
            0 <= i < observed.len() && 0 <= j < observed.len() && role_of(observed[i]) is First
                && role_of(observed[j]) is First ==> i == j,
        forall|i: int, j: int|
            0 <= i < observed.len() && 0 <= j < observed.len() && role_of(observed[i]) is Second
                && role_of(observed[j]) is Second ==> i == j,
        observed.len() >= 1 ==> exists|i: int|
            0 <= i < observed.len() && role_of(observed[i]) is First,
        observed.len() >= 2 ==> exists|i: int|
            0 <= i < observed.len() && role_of(observed[i]) is Second,
{
    if observed.len() >= 1 {
        assert(observed.contains(0usize));
    }
    if observed.len() >= 2 {
        assert(observed.contains(1usize));
    }
}

/// Every arrival after the second one at a point is an extra party: the role
/// that `SyncService::handle_arrival` answers with a conflict, without
/// signalling the point.
pub proof fn later_arrivals_are_extra(previous: usize)
    requires
        previous >= 2,
    ensures
        role_of(previous) == Role::Extra(previous),
{
}

/// Once the first party of a key has been resolved, by a wake-up or a timeout,
/// and its entry removed, the key has no point: the next arrival for it
/// creates a new one, which is then the only point stored for the key.
pub proof fn resolved_key_starts_afresh(
    table: Map<Seq<char>, Arc<WaitPoint>>,
    key: Seq<char>,
    fresh: Arc<WaitPoint>,
)
    ensures
        !table.remove(key).contains_key(key),
        table.remove(key).insert(key, fresh)[key] == fresh,
        table.remove(key).insert(key, fresh).remove(key) == table.remove(key),
{
    assert(table.remove(key).insert(key, fresh).remove(key) =~= table.remove(key));
}

/// Work on one key leaves the entry of every other key as it was: creating or
/// removing the point of `a` neither adds, drops nor replaces the point of `b`.
pub proof fn keys_do_not_interfere(
    table: Map<Seq<char>, Arc<WaitPoint>>,
    a: Seq<char>,
    b: Seq<char>,
    point: Arc<WaitPoint>,
)
    requires
        a != b,
    ensures
        table.insert(a, point).contains_key(b) == table.contains_key(b),
        table.remove(a).contains_key(b) == table.contains_key(b),
        table.contains_key(b) ==> table.insert(a, point)[b] == table[b] && table.remove(a)[b]
            == table[b],
{
}

} // verus!
