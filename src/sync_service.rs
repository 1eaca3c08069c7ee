//! The arrival coordinator: registry access, role decision and the replies.
use crate::point::{role_of, Role, WaitPoint};
use crate::response::{
    conflict_text, first_party_text, second_party_text, ApiResponse, Reply, StatusClass,
};
use crate::table::{PointTable, TableOp};
use parking_lot::RwLock;
use std::sync::Arc;
use vstd::prelude::*;

verus! {

#[verifier::external_type_specification]
#[verifier::external_body]
#[verifier::reject_recursive_types(R)]
#[verifier::reject_recursive_types(T)]
pub struct ExRwLock<R, T: ?Sized>(parking_lot::lock_api::RwLock<R, T>);

#[verifier::external_type_specification]
#[verifier::external_body]
pub struct ExRawRwLock(parking_lot::RawRwLock);

/// The registry: the table of open pairing attempts behind a reader/writer
/// lock that is only ever tried, never waited for.
pub type WaitPoints = RwLock<PointTable>;

/// Relies on parking_lot's `RwLock::new`: an unlocked lock that owns `table`.
#[verifier::external_body]
fn lock_table(table: PointTable) -> WaitPoints {
    RwLock::new(table)
}

/// Relies on parking_lot's `RwLock::try_read`, which does not block: `None`
/// when shared access is not free; otherwise what `PointTable::get` finds for
/// `key` while the shared access is held.
#[verifier::external_body]
fn try_read_get(lock: &WaitPoints, key: &str) -> Option<Option<Arc<WaitPoint>>> {
    lock.try_read().map(|table| table.get(key))
}

/// Relies on parking_lot's `RwLock::try_write`, which does not block: `None`
/// when exclusive access is not free; otherwise what `PointTable::apply` gives
/// for `op` and `key` while the exclusive access is held.
#[verifier::external_body]
fn try_write_apply(
    lock: &WaitPoints,
    op: TableOp,
    key: &str,
) -> (r: Option<Option<Arc<WaitPoint>>>)
    ensures
        op is GetOrCreate ==> (r matches Some(found) ==> found is Some),
{
    lock.try_write().map(|mut table| table.apply(op, key))
}

/// What the coordinator tells the caller to do with an arrival.
pub enum Arrival {
    /// First party: wait on this point (bounded by the timeout), then call
    /// `SyncService::handle_first_party` with the outcome.
    Wait(Arc<WaitPoint>),
    /// Answered at once.
    Done(Reply),
}

/// The reply to a first party whose wait has ended, given whether its key was
/// cleaned up and whether it was woken (rather than timed out).
pub fn resolve_first_party(
    unique_id: &str,
    cleaned: bool,
    notified: bool,
    timeout_secs: u64,
) -> (r: Reply)
    ensures
        !cleaned ==> r.is_unavailable(),
        cleaned && notified ==> r.is_success(unique_id@, first_party_text()),
        cleaned && !notified ==> r.is_timeout(unique_id@, timeout_secs),
{
    if !cleaned {
        ApiResponse::service_unavailable()
    } else if notified {
        Reply {
            status: StatusClass::Success,
            body: ApiResponse::success("Welcome! (first party)", unique_id),
        }
    } else {
        Reply {
            status: StatusClass::RequestTimeout,
            body: ApiResponse::timeout(timeout_secs, unique_id),
        }
    }
}

/// Pairs the parties of each key.
pub struct SyncService {
    pub wait_points: WaitPoints,
}

impl SyncService {
    /// A service with no open pairing attempt.
    pub fn new() -> Self {
        SyncService { wait_points: lock_table(PointTable::new()) }
    }

    /// The point of the open attempt for `unique_id`, created if there is none.
    /// Fails, without waiting, when the registry is busy.
    pub fn get_or_create_point(&self, unique_id: &str) -> (r: Result<Arc<WaitPoint>, Reply>)
        ensures
            r matches Err(reply) ==> reply.is_unavailable(),
    {
        match try_read_get(&self.wait_points, unique_id) {
            None => Err(ApiResponse::service_unavailable()),
            Some(Some(point)) => Ok(point),
            Some(None) => {
                match try_write_apply(&self.wait_points, TableOp::GetOrCreate, unique_id) {
                    Some(Some(point)) => Ok(point),
                    _ => Err(ApiResponse::service_unavailable()),
                }
            },
        }
    }

    /// Removes the entry for `unique_id`; an absent key is no error. Fails,
    /// without waiting, when the registry is busy.
    pub fn cleanup_wait_point(&self, unique_id: &str) -> (r: Result<(), Reply>)
        ensures
            r matches Err(reply) ==> reply.is_unavailable(),
    {
        match try_write_apply(&self.wait_points, TableOp::Remove, unique_id) {
            Some(_) => Ok(()),
            None => Err(ApiResponse::service_unavailable()),
        }
    }

    /// The first party's wait has ended: clean up its key, then answer it.
    pub fn handle_first_party(&self, unique_id: &str, notified: bool, timeout_secs: u64) -> (r: Reply)
        ensures
            r.is_unavailable() || (notified && r.is_success(unique_id@, first_party_text())) || (
                !notified && r.is_timeout(unique_id@, timeout_secs)
            ),
    {
        let cleaned = self.cleanup_wait_point(unique_id).is_ok();
        resolve_first_party(unique_id, cleaned, notified, timeout_secs)
    }

    /// The second party wakes the first and is answered at once. The entry
    /// stays: the first party removes it.
    pub fn handle_second_party(&self, unique_id: &str, point: Arc<WaitPoint>) -> (r: Reply)
        ensures
            r.is_success(unique_id@, second_party_text()),
    {
        point.signal();
        Reply {
            status: StatusClass::Success,
            body: ApiResponse::success("Welcome! (second party)", unique_id),
        }
    }

    /// A party beyond the second is rejected; its point is left as it is.
    pub fn handle_extra_party(&self, unique_id: &str, previous: usize) -> (r: Reply)
        ensures
            r.is_conflict(),
    {
        Reply {
            status: StatusClass::Conflict,
            body: ApiResponse::error("Only 2 parties allowed at a time"),
        }
    }

    /// Acts on an arrival for `unique_id` at `point`, whose counter read
    /// `previous` just before this arrival incremented it.
    pub fn handle_arrival(
        &self,
        unique_id: &str,
        point: Arc<WaitPoint>,
        previous: usize,
    ) -> (r: Arrival)
        ensures
            role_of(previous) is First ==> r == Arrival::Wait(point),
            role_of(previous) is Second ==> (r matches Arrival::Done(reply) && reply.is_success(
                unique_id@,
                second_party_text(),
            )),
            role_of(previous) is Extra ==> (r matches Arrival::Done(reply) && reply.is_conflict()),
    {
        match role_of(previous) {
            Role::First => Arrival::Wait(point),
            Role::Second => Arrival::Done(self.handle_second_party(unique_id, point)),
            Role::Extra(_) => Arrival::Done(self.handle_extra_party(unique_id, previous)),
        }
    }

    /// One arrival for `unique_id`: find or create its point, count the
    /// arrival, and act on the role that the count gives.
    pub fn arrive(&self, unique_id: &str) -> (r: Arrival)
        ensures
            r matches Arrival::Done(reply) ==> reply.is_unavailable() || reply.is_success(
                unique_id@,
                second_party_text(),
            ) || reply.is_conflict(),
    {
        match self.get_or_create_point(unique_id) {
            Err(reply) => Arrival::Done(reply),
            Ok(point) => {
                let previous = point.arrive();
                self.handle_arrival(unique_id, point, previous)
            },
        }
    }
}

} // verus!
