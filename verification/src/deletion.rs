//! The channels whose deletion is pending, each with the handle that cancels it.
use vstd::prelude::*;
use std::collections::HashMap;

verus! {

broadcast use vstd::std_specs::hash::group_hash_axioms;

/// How long a scheduled deletion waits: the override when it is positive,
/// otherwise the configured delay.
pub open spec fn deletion_delay(delay_override: u64, default_delay: u64) -> u64 {
    if delay_override > 0 { delay_override } else { default_delay }
}

/// The pending deletions after scheduling one for `channel`: unchanged when
/// one is already pending, otherwise with `channel` and its cancel handle.
pub open spec fn scheduled<T>(pending: Map<u64, T>, channel: u64, cancel: T) -> Map<u64, T> {
    if pending.contains_key(channel) { pending } else { pending.insert(channel, cancel) }
}

/// The pending deletions after the one of `channel` is cancelled, carried
/// out, or found absent.
pub open spec fn cancelled<T>(pending: Map<u64, T>, channel: u64) -> Map<u64, T> {
    pending.remove(channel)
}

/// The channels with a pending deletion, keyed by channel id. `T` is the
/// handle through which a pending deletion is cancelled.
pub struct DeletionRegistry<T> {
    pending: HashMap<u64, T>,
}

impl<T> View for DeletionRegistry<T> {
    type V = Map<u64, T>;

    closed spec fn view(&self) -> Map<u64, T> {
        self.pending@
    }
}

impl<T> DeletionRegistry<T> {
    /// A registry with no pending deletion.
    pub fn new() -> (registry: Self)
        ensures
            registry@ == Map::<u64, T>::empty(),
    {
        DeletionRegistry { pending: HashMap::new() }
    }

    /// Whether the deletion of `channel` is pending.
    pub fn is_pending(&self, channel: u64) -> (pending: bool)
        ensures
            pending == self@.contains_key(channel),
    {
        self.pending.contains_key(&channel)
    }

    /// Records the deletion of `channel`, cancelled through `cancel`, unless one
    /// is already pending; then nothing changes, so a channel never has two
    /// deletions under way. Returns the delay that the new deletion waits, or
    /// `None` when one was already pending.
    pub fn schedule(&mut self, channel: u64, cancel: T, delay_override: u64, default_delay: u64) -> (delay: Option<u64>)
        ensures
            final(self)@ == scheduled(old(self)@, channel, cancel),
            old(self)@.contains_key(channel) ==> delay is None,
            !old(self)@.contains_key(channel) ==> delay == Some(deletion_delay(delay_override, default_delay)),
            !old(self)@.contains_key(channel) && delay_override > 0 ==> delay == Some(delay_override),
            !old(self)@.contains_key(channel) && delay_override == 0 ==> delay == Some(default_delay),
    {
        if self.pending.contains_key(&channel) {
            return None;
        }
        self.pending.insert(channel, cancel);
        if delay_override > 0 {
            Some(delay_override)
        } else {
            Some(default_delay)
        }
    }

    /// Forgets the pending deletion of `channel` and hands back its cancel
    /// handle, if there was one.
    pub fn take(&mut self, channel: u64) -> (cancel: Option<T>)
        ensures
            final(self)@ == cancelled(old(self)@, channel),
            match cancel {
                Some(c) => old(self)@.contains_key(channel) && c == old(self)@[channel],
                None => !old(self)@.contains_key(channel),
            },
    {
        self.pending.remove(&channel)
    }
}

/// A positive override is exactly the delay that a deletion waits, however
/// large; without one the configured delay is used.
pub proof fn law_override_sets_delay(delay_override: u64, default_delay: u64)
    ensures
        delay_override > 0 ==> deletion_delay(delay_override, default_delay) == delay_override,
        delay_override == 0 ==> deletion_delay(delay_override, default_delay) == default_delay,
{
}

/// Scheduling the deletion of a channel whose deletion is pending changes
/// nothing: the first cancel handle stays, and no second timer is recorded.
pub proof fn law_schedule_is_idempotent<T>(pending: Map<u64, T>, channel: u64, first: T, second: T)
    ensures
        scheduled(scheduled(pending, channel, first), channel, second) == scheduled(pending, channel, first),
        scheduled(pending, channel, first).contains_key(channel),
{
}

/// Cancelling a deletion just scheduled hands back the cancel handle given to
/// the schedule and leaves the pending deletions as they were before.
pub proof fn law_cancel_undoes_schedule<T>(pending: Map<u64, T>, channel: u64, cancel: T)
    requires
        !pending.contains_key(channel),
    ensures
        scheduled(pending, channel, cancel)[channel] == cancel,
        cancelled(scheduled(pending, channel, cancel), channel) == pending,
        !cancelled(scheduled(pending, channel, cancel), channel).contains_key(channel),
{
    assert(cancelled(scheduled(pending, channel, cancel), channel) =~= pending);
}

/// Scheduling or cancelling the deletion of one channel leaves every other
/// channel's pending deletion as it was.
pub proof fn law_channels_are_independent<T>(pending: Map<u64, T>, channel: u64, other: u64, cancel: T)
    requires
        channel != other,
    ensures
        scheduled(pending, channel, cancel).contains_key(other) == pending.contains_key(other),
        cancelled(pending, channel).contains_key(other) == pending.contains_key(other),
        pending.contains_key(other) ==> scheduled(pending, channel, cancel)[other] == pending[other],
        pending.contains_key(other) ==> cancelled(pending, channel)[other] == pending[other],
{
}

} // verus!
