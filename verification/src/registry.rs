//! The assignment registry: maps each user to the voice preset assigned to
//! them, choosing a least-used preset on first use and keeping the usage
//! counter consistent as users join and leave.

use crate::usage::PresetUsageCache;
use crate::RegistryError;
use std::collections::HashMap;
use vstd::prelude::*;

verus! {

broadcast use vstd::std_specs::hash::group_hash_axioms;

/// The users that `assignments` currently maps to `preset_id`.
pub open spec fn holders(assignments: Map<u64, u64>, preset_id: u64) -> Set<u64> {
    assignments.dom().filter(|user_id: u64| assignments[user_id] == preset_id)
}

/// How many users `assignments` currently maps to `preset_id`.
pub open spec fn assigned_count(assignments: Map<u64, u64>, preset_id: u64) -> nat {
    holders(assignments, preset_id).len()
}

/// Assigning a fresh user raises the assigned count of the chosen preset by
/// one and leaves every other preset's count unchanged.
proof fn lemma_assigned_count_insert(m: Map<u64, u64>, user_id: u64, preset_id: u64, q: u64)
    requires
        m.dom().finite(),
        !m.contains_key(user_id),
    ensures
        assigned_count(m.insert(user_id, preset_id), q) == assigned_count(m, q) + (if q
            == preset_id {
            1int
        } else {
            0int
        }),
{
    let m2 = m.insert(user_id, preset_id);
    if q == preset_id {
        assert(holders(m2, q) =~= holders(m, q).insert(user_id));
        vstd::set::axiom_set_insert_len(holders(m, q), user_id);
    } else {
        assert(holders(m2, q) =~= holders(m, q));
    }
}

/// Releasing an assigned user lowers the assigned count of their preset by
/// one and leaves every other preset's count unchanged.
proof fn lemma_assigned_count_remove(m: Map<u64, u64>, user_id: u64, q: u64)
    requires
        m.dom().finite(),
        m.contains_key(user_id),
    ensures
        assigned_count(m.remove(user_id), q) + (if q == m[user_id] {
            1int
        } else {
            0int
        }) == assigned_count(m, q),
{
    let m2 = m.remove(user_id);
    if q == m[user_id] {
        assert(holders(m2, q) =~= holders(m, q).remove(user_id));
        assert(holders(m, q).contains(user_id));
        vstd::set::axiom_set_remove_len(holders(m, q), user_id);
    } else {
        assert(holders(m2, q) =~= holders(m, q));
    }
}

/// The number of holders of any one preset is at most the number of users
/// that hold an assignment at all.
proof fn lemma_assigned_count_le_dom(m: Map<u64, u64>, q: u64)
    requires
        m.dom().finite(),
    ensures
        assigned_count(m, q) <= m.dom().len(),
{
    assert(holders(m, q).subset_of(m.dom()));
    vstd::set_lib::lemma_len_subset(holders(m, q), m.dom());
}

/// Maps each user to their assigned preset, and counts how many users hold
/// each preset, so that a new user can be given a least-used preset.
pub struct VoicePresetRegistry {
    pub user_to_preset: HashMap<u64, u64>,
    pub preset_usage: PresetUsageCache,
}

impl VoicePresetRegistry {
    /// Usage conservation: for every preset, the recorded usage count equals
    /// the number of users currently assigned to it.
    pub open spec fn wf(self) -> bool {
        forall|p: u64| #[trigger]
            self.preset_usage.usage_of(p) == assigned_count(self.user_to_preset@, p)
    }

    pub fn new() -> (registry: Self)
        ensures
            registry.wf(),
            registry.user_to_preset@ == Map::<u64, u64>::empty(),
            forall|p: u64| registry.preset_usage.usage_of(p) == 0,
    {
        let registry = Self {
            user_to_preset: HashMap::new(),
            preset_usage: PresetUsageCache::new(),
        };
        proof {
            assert forall|p: u64|
                #[trigger] registry.preset_usage.usage_of(p) == assigned_count(
                    registry.user_to_preset@,
                    p,
                ) by {
                assert(holders(registry.user_to_preset@, p) =~= Set::<u64>::empty());
            }
        }
        registry
    }

    /// Returns the preset assigned to `user_id`, assigning one first if the
    /// user has none: the least-used preset among `available_preset_ids` is
    /// chosen, recorded for the user, and its usage count incremented. A user
    /// who already holds a preset gets it back unchanged, whatever candidate
    /// list is passed, and nothing else changes. Fails with `NoCandidate`
    /// exactly when a new assignment is required and the candidate list is
    /// empty.
    pub fn get(&mut self, user_id: u64, available_preset_ids: &Vec<u64>) -> (result: Result<
        u64,
        RegistryError,
    >)
        requires
            old(self).wf(),
            old(self).user_to_preset@.dom().len() < usize::MAX,
        ensures
            final(self).wf(),
            old(self).user_to_preset@.contains_key(user_id) ==> {
                &&& result == Ok::<u64, RegistryError>(old(self).user_to_preset@[user_id])
                &&& *final(self) == *old(self)
            },
            !old(self).user_to_preset@.contains_key(user_id) && available_preset_ids@.len() == 0
                ==> {
                &&& result == Err::<u64, RegistryError>(RegistryError::NoCandidate)
                &&& *final(self) == *old(self)
            },
            !old(self).user_to_preset@.contains_key(user_id) && available_preset_ids@.len() > 0
                ==> {
                &&& result is Ok
                &&& result matches Ok(p) ==> {
                    &&& available_preset_ids@.contains(p)
                    &&& forall|j: int|
                        0 <= j < available_preset_ids@.len() ==> old(self).preset_usage.usage_of(p)
                            <= old(self).preset_usage.usage_of(
                            #[trigger] available_preset_ids@[j],
                        )
                    &&& final(self).user_to_preset@ == old(self).user_to_preset@.insert(user_id, p)
                    &&& final(self).preset_usage.usage_of(p) == old(self).preset_usage.usage_of(p)
                        + 1
                    &&& forall|q: u64|
                        q != p ==> final(self).preset_usage.usage_of(q) == old(
                            self,
                        ).preset_usage.usage_of(q)
                }
            },
    {
        if let Some(preset_id) = self.user_to_preset.get(&user_id) {
            return Ok(*preset_id);
        }
        match self.preset_usage.pick_least_used(available_preset_ids) {
            Some(preset_id) => {
                match self.insert(user_id, preset_id) {
                    Ok(()) => Ok(preset_id),
                    Err(e) => Err(e),
                }
            },
            None => Err(RegistryError::NoCandidate),
        }
    }

    /// Records a fresh assignment of `preset_id` to `user_id` and increments
    /// the preset's usage count. Fails with `InvariantViolation`, changing
    /// nothing, when the user already holds an assignment; this guards
    /// against concurrent misuse and is unreachable from `get`.
    fn insert(&mut self, user_id: u64, preset_id: u64) -> (result: Result<(), RegistryError>)
        requires
            old(self).wf(),
            old(self).user_to_preset@.dom().len() < usize::MAX,
        ensures
            final(self).wf(),
            old(self).user_to_preset@.contains_key(user_id) ==> {
                &&& result == Err::<(), RegistryError>(RegistryError::InvariantViolation)
                &&& *final(self) == *old(self)
            },
            !old(self).user_to_preset@.contains_key(user_id) ==> {
                &&& result is Ok
                &&& final(self).user_to_preset@ == old(self).user_to_preset@.insert(
                    user_id,
                    preset_id,
                )
                &&& final(self).preset_usage.usage_of(preset_id) == old(
                    self,
                ).preset_usage.usage_of(preset_id) + 1
                &&& forall|q: u64|
                    q != preset_id ==> final(self).preset_usage.usage_of(q) == old(
                        self,
                    ).preset_usage.usage_of(q)
            },
    {
        if self.user_to_preset.contains_key(&user_id) {
            return Err(RegistryError::InvariantViolation);
        }
        let ghost m = self.user_to_preset@;
        proof {
            lemma_assigned_count_le_dom(m, preset_id);
        }
        self.user_to_preset.insert(user_id, preset_id);
        proof {
            assert forall|q: u64|
                #[trigger] assigned_count(self.user_to_preset@, q) == assigned_count(m, q) + (if q
                    == preset_id {
                    1int
                } else {
                    0int
                }) by {
                lemma_assigned_count_insert(m, user_id, preset_id, q);
            }
        }
        self.preset_usage.increase(preset_id);
        Ok(())
    }

    /// Removes the assignment held by `user_id` and decrements the released
    /// preset's usage count. Fails with `NotAssigned`, changing nothing,
    /// exactly when the user holds no assignment.
    pub fn remove(&mut self, user_id: u64) -> (result: Result<(), RegistryError>)
        requires
            old(self).wf(),
        ensures
            final(self).wf(),
            !old(self).user_to_preset@.contains_key(user_id) ==> {
                &&& result == Err::<(), RegistryError>(RegistryError::NotAssigned)
                &&& *final(self) == *old(self)
            },
            old(self).user_to_preset@.contains_key(user_id) ==> {
                let p = old(self).user_to_preset@[user_id];
                &&& result is Ok
                &&& final(self).user_to_preset@ == old(self).user_to_preset@.remove(user_id)
                &&& old(self).preset_usage.usage_of(p) >= 1
                &&& final(self).preset_usage.usage_of(p) == old(self).preset_usage.usage_of(p) - 1
                &&& forall|q: u64|
                    q != p ==> final(self).preset_usage.usage_of(q) == old(
                        self,
                    ).preset_usage.usage_of(q)
            },
    {
        if !self.user_to_preset.contains_key(&user_id) {
            return Err(RegistryError::NotAssigned);
        }
        let ghost m = self.user_to_preset@;
        let preset_id = match self.user_to_preset.remove(&user_id) {
            Some(preset_id) => preset_id,
            None => {
                // The user was just seen in the map, so this arm cannot run.
                return Err(RegistryError::NotAssigned);
            },
        };
        proof {
            assert(holders(m, preset_id).contains(user_id));
            vstd::set::axiom_set_contains_len(holders(m, preset_id), user_id);
            assert forall|q: u64|
                #[trigger] assigned_count(self.user_to_preset@, q) + (if q == preset_id {
                    1int
                } else {
                    0int
                }) == assigned_count(m, q) by {
                lemma_assigned_count_remove(m, user_id, q);
            }
        }
        match self.preset_usage.decrease(preset_id) {
            Ok(()) => Ok(()),
            Err(e) => Err(e),
        }
    }

    /// Returns the usage count currently recorded for `preset_id`: the number
    /// of users assigned to it, by the conservation invariant.
    pub fn usage_of(&self, preset_id: u64) -> (usage: usize)
        ensures
            usage == self.preset_usage.usage_of(preset_id),
    {
        self.preset_usage.get(preset_id)
    }
}

/// Law: a registry whose assignment map is empty records zero usage for every
/// preset. Together with the exact effects of `get` and `remove`, this says
/// that assigning and then releasing any number of users, in any
/// interleaving, ends with every usage count at zero.
pub proof fn lemma_empty_registry_zero_usage(registry: VoicePresetRegistry)
    requires
        registry.wf(),
        registry.user_to_preset@ =~= Map::<u64, u64>::empty(),
    ensures
        forall|p: u64| registry.preset_usage.usage_of(p) == 0,
{
    assert forall|p: u64| registry.preset_usage.usage_of(p) == 0 by {
        assert(holders(registry.user_to_preset@, p) =~= Set::<u64>::empty());
    }
}

} // verus!
