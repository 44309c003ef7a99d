//! Admission of client connections: a shared counter of open connections
//! that never goes past its limit and never below zero.

use vstd::prelude::*;
use std::sync::atomic::{AtomicU32, Ordering};
use crate::text::{decimal, u64_text};

verus! {

/// The counter after one more connection is admitted, if there is room.
pub open spec fn admitted(current: u32, max_value: u32) -> Option<u32> {
    if current < max_value { Some((current + 1) as u32) } else { None }
}

/// The counter after one connection is released, if any is open.
pub open spec fn released(current: u32) -> Option<u32> {
    if current > 0 { Some((current - 1) as u32) } else { None }
}

/// One admission step on the counter's value `current`.
pub fn admit_one(current: u32, max_value: u32) -> (r: Option<u32>)
    ensures
        r == admitted(current, max_value),
{
    if current >= max_value { None } else { Some(current + 1) }
}

/// One release step on the counter's value `current`.
pub fn release_one(current: u32) -> (r: Option<u32>)
    ensures
        r == released(current),
{
    if current == 0 { None } else { Some(current - 1) }
}

/// `AtomicU32::fetch_update` with acquire-release ordering: std documents
/// that it returns `Ok` with the value on which `f` gave `Some` (and stores
/// that new value), or `Err` with the value on which `f` gave `None`.
#[verifier::external_body]
fn fetch_update_u32<F: Fn(u32) -> Option<u32>>(counter: &AtomicU32, f: F) -> (r: Result<u32, u32>)
    requires
        forall|v: u32| f.requires((v,)),
    ensures
        match r {
            Ok(prev) => exists|next: u32| f.ensures((prev,), Some(next)),
            Err(prev) => f.ensures((prev,), None),
        },
{
    counter.fetch_update(Ordering::AcqRel, Ordering::Acquire, f)
}

/// Takes one connection slot if fewer than `max_value` are in use; says
/// whether it did. With a limit of zero no slot is ever taken.
pub fn try_add_connection(counter: &AtomicU32, max_value: u32) -> (r: bool)
    ensures
        r ==> max_value > 0,
{
    let take_slot = |c: u32| -> (o: Option<u32>)
        ensures
            o == admitted(c, max_value),
        { admit_one(c, max_value) };
    match fetch_update_u32(counter, take_slot) {
        Ok(_) => true,
        Err(_) => false,
    }
}

/// Gives one connection slot back, unless none is in use.
pub fn remove_connection(counter: &AtomicU32) {
    let release = |c: u32| -> (o: Option<u32>)
        ensures
            o == released(c),
        { release_one(c) };
    let _ = fetch_update_u32(counter, release);
}

/// The reason given to a client turned away for lack of room.
pub open spec fn busy_reason_text(max_value: nat) -> Seq<char> {
    "Maximum concurrent connections ("@ + decimal(max_value) + ") reached"@
}

/// The reason given to a client turned away for lack of room.
pub fn busy_reason(max_value: u32) -> (r: String)
    ensures
        r@ == busy_reason_text(max_value as nat),
{
    let mut r = String::from_str("Maximum concurrent connections (");
    let n = u64_text(max_value as u64);
    r.append(n.as_str());
    r.append(") reached");
    r
}

/// Releasing a slot right after taking one gives the counter back its value,
/// and a slot can be taken exactly while the counter is below the limit.
pub proof fn lemma_release_undoes_admit(current: u32, max_value: u32)
    ensures
        admitted(current, max_value) is Some <==> current < max_value,
        admitted(current, max_value) matches Some(n) ==> released(n) == Some(current),
        admitted(current, max_value) matches Some(n) ==> n <= max_value,
{
}

} // verus!
