//! The usage counter: tracks how many users currently hold each preset, and
//! supports fair selection of a least-used preset among a candidate list.

use crate::RegistryError;
use std::collections::HashMap;
use vstd::prelude::*;

verus! {

broadcast use vstd::std_specs::hash::group_hash_axioms;

/// Draws an index below `len`.
///
/// Relies on `rand::Rng::gen_range`: for the non-empty half-open range
/// `0..len` it returns a value drawn uniformly from that range, so the result
/// is always strictly below `len`. The draw is made from a freshly obtained
/// thread-local generator, so repeated calls are independent draws.
#[verifier::external_body]
pub(crate) fn random_index(len: usize) -> (index: usize)
    requires
        len > 0,
    ensures
        index < len,
{
    rand::Rng::gen_range(&mut rand::thread_rng(), 0..len)
}

/// Counts, per preset identifier, how many users currently hold that preset.
///
/// A preset absent from the map is treated as having usage zero. An entry is
/// never deleted, so a count may sit at zero after all of its holders release
/// it; absence and zero are equivalent for the selection algorithm.
pub struct PresetUsageCache {
    pub preset_to_usage: HashMap<u64, usize>,
}

impl PresetUsageCache {
    /// The usage count recorded for `preset_id`, zero when none is recorded.
    pub open spec fn usage_of(self, preset_id: u64) -> nat {
        if self.preset_to_usage@.contains_key(preset_id) {
            self.preset_to_usage@[preset_id] as nat
        } else {
            0
        }
    }

    pub fn new() -> (cache: Self)
        ensures
            forall|p: u64| cache.usage_of(p) == 0,
    {
        Self { preset_to_usage: HashMap::new() }
    }

    /// Returns the current count for `preset_id`, defaulting to zero.
    pub fn get(&self, preset_id: u64) -> (usage: usize)
        ensures
            usage == self.usage_of(preset_id),
    {
        match self.preset_to_usage.get(&preset_id) {
            Some(usage) => *usage,
            None => 0,
        }
    }

    /// Increments the count for `preset_id` by one, creating the entry at one
    /// if absent. Never fails; the bound on the current count only keeps the
    /// stored machine integer from overflowing.
    pub fn increase(&mut self, preset_id: u64)
        requires
            old(self).usage_of(preset_id) < usize::MAX,
        ensures
            final(self).usage_of(preset_id) == old(self).usage_of(preset_id) + 1,
            forall|q: u64| q != preset_id ==> final(self).usage_of(q) == old(self).usage_of(q),
    {
        let current = self.get(preset_id);
        self.preset_to_usage.insert(preset_id, current + 1);
    }

    /// Decrements the count for `preset_id` by one.
    ///
    /// Fails with `InvariantViolation` when the preset has no recorded usage
    /// to give back: decrementing a count that was never incremented, or one
    /// already at zero, indicates that the caller and the counter have fallen
    /// out of sync. Rejecting a decrement at zero (rather than letting the
    /// count wrap below zero) is a deliberate tightening of the failure
    /// surface: only then can every recorded count be read as a number of
    /// current holders.
    pub fn decrease(&mut self, preset_id: u64) -> (result: Result<(), RegistryError>)
        ensures
            result is Ok <==> old(self).usage_of(preset_id) >= 1,
            result is Err ==> result == Err::<(), RegistryError>(RegistryError::InvariantViolation)
                && *final(self) == *old(self),
            result is Ok ==> {
                &&& final(self).usage_of(preset_id) == old(self).usage_of(preset_id) - 1
                &&& forall|q: u64|
                    q != preset_id ==> final(self).usage_of(q) == old(self).usage_of(q)
            },
    {
        let current = self.get(preset_id);
        if current == 0 {
            Err(RegistryError::InvariantViolation)
        } else {
            self.preset_to_usage.insert(preset_id, current - 1);
            Ok(())
        }
    }

    /// Picks one least-used preset among `preset_list`: the candidates are
    /// grouped by current usage count, and one member of the group with the
    /// strictly lowest count is chosen uniformly at random. Returns `None`
    /// exactly when the candidate list is empty.
    pub fn pick_least_used(&self, preset_list: &Vec<u64>) -> (picked: Option<u64>)
        ensures
            picked is Some <==> preset_list@.len() > 0,
            picked matches Some(p) ==> {
                &&& preset_list@.contains(p)
                &&& forall|j: int|
                    0 <= j < preset_list@.len() ==> self.usage_of(p) <= self.usage_of(
                        #[trigger] preset_list@[j],
                    )
            },
    {
        if preset_list.len() == 0 {
            return None;
        }
        let mut min_usage: usize = self.get(preset_list[0]);
        let mut i: usize = 1;
        while i < preset_list.len()
            invariant
                1 <= i <= preset_list@.len(),
                forall|j: int|
                    0 <= j < i ==> min_usage <= self.usage_of(#[trigger] preset_list@[j]),
                exists|j: int|
                    0 <= j < i && min_usage == self.usage_of(#[trigger] preset_list@[j]),
            decreases preset_list@.len() - i,
        {
            let usage = self.get(preset_list[i]);
            if usage < min_usage {
                min_usage = usage;
            }
            i = i + 1;
        }
        let mut group: Vec<u64> = Vec::new();
        let mut j: usize = 0;
        while j < preset_list.len()
            invariant
                0 <= j <= preset_list@.len(),
                forall|s: int|
                    0 <= s < preset_list@.len() ==> min_usage <= self.usage_of(
                        #[trigger] preset_list@[s],
                    ),
                exists|s: int|
                    0 <= s < preset_list@.len() && min_usage == self.usage_of(
                        #[trigger] preset_list@[s],
                    ),
                forall|t: int|
                    0 <= t < group@.len() ==> preset_list@.contains(#[trigger] group@[t]),
                forall|t: int|
                    0 <= t < group@.len() ==> self.usage_of(#[trigger] group@[t]) == min_usage,
                forall|s: int|
                    0 <= s < j && min_usage == self.usage_of(#[trigger] preset_list@[s])
                        ==> group@.len() > 0,
            decreases preset_list@.len() - j,
        {
            if self.get(preset_list[j]) == min_usage {
                group.push(preset_list[j]);
            }
            j = j + 1;
        }
        let index = random_index(group.len());
        Some(group[index])
    }
}

} // verus!
