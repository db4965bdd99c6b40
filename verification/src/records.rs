//! The records channel: the receiving end of a `crossbeam_channel` channel on
//! which producers queue telemetry records.

use vstd::prelude::*;

verus! {

/// `crossbeam_channel::Receiver`, the receiving end of a channel. It is
/// opaque here: the worker holds one and hands it to `take_pending`.
#[verifier::external_type_specification]
#[verifier::external_body]
#[verifier::reject_recursive_types(T)]
pub struct ExReceiver<T>(crossbeam_channel::Receiver<T>);

/// The number of records that `source` holds at the moment of the call.
///
/// This is `Receiver::len`. Producers may queue more at any time, so nothing
/// is claimed of the number. A channel without capacity reports 0, and a
/// timer or ticker 0 or 1.
#[verifier::external_body]
pub(crate) fn queued<T>(source: &crossbeam_channel::Receiver<T>) -> (n: usize) {
    source.len()
}

/// Takes the oldest record from `source` if one is there, without waiting.
///
/// This is `Receiver::try_recv`, with both of its errors, an empty channel
/// and an empty channel whose senders are gone, turned into `None`. What
/// comes back depends on what producers have queued, so nothing is claimed
/// of it.
#[verifier::external_body]
pub(crate) fn take_one<T>(source: &crossbeam_channel::Receiver<T>) -> (record: Option<T>) {
    source.try_recv().ok()
}

/// Takes records from `source`, oldest first, until `limit` are taken or
/// the channel is found empty. It never waits.
pub(crate) fn take_up_to<T>(source: &crossbeam_channel::Receiver<T>, limit: usize) -> (taken: Vec<T>)
    ensures
        taken@.len() <= limit,
{
    let mut taken: Vec<T> = Vec::new();
    let mut left: usize = limit;
    while left > 0
        invariant
            taken@.len() + left <= limit,
        decreases left,
    {
        match take_one(source) {
            Some(record) => {
                taken.push(record);
                left = left - 1;
            },
            None => {
                left = 0;
            },
        }
    }
    taken
}

/// Takes the records that are queued on `source` at the moment of the call,
/// oldest first, without waiting for more: as many as the channel reports
/// when asked, or fewer where it is found empty before.
///
/// The number of records taken is bounded by that report, so the call
/// returns on every receiver, also on one that always has a record ready. A
/// channel without capacity reports none as queued, and nothing is taken
/// from it.
pub(crate) fn take_pending<T>(source: &crossbeam_channel::Receiver<T>) -> (pending: Vec<T>) {
    let limit: usize = queued(source);
    take_up_to(source, limit)
}

} // verus!
