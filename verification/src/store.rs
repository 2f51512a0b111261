//! The resource store: durable keyed records for service instances and
//! bindings, with compare-and-swap as the write-conflict primitive.

use vstd::prelude::*;
use crate::binding::BindingType;
use crate::keyed_map::{
    kv_map, keys_unique, lemma_kv_map_contains, lemma_kv_map_index, KeyedMap, MapKey,
};
use crate::kv::{clone_opt_string, kv_clone, kv_view, opt_str_view};

verus! {

/// Where an instance stands in its lifecycle.
#[derive(Clone, Copy, Debug, PartialEq, Eq, Structural)]
pub enum InstanceState {
    Provisioning,
    Active,
    Updating,
    Deprovisioning,
}

/// Where a binding stands in its lifecycle.
#[derive(Clone, Copy, Debug, PartialEq, Eq, Structural)]
pub enum BindingState {
    Binding,
    Bound,
    Unbinding,
}

/// A stored service instance.
#[derive(Debug)]
pub struct InstanceRecord {
    pub service_id: String,
    pub plan_id: String,
    pub parameters: Vec<(String, String)>,
    pub context: Vec<(String, String)>,
    pub maintenance_info_version: Option<String>,
    pub dashboard_url: Option<String>,
    pub state: InstanceState,
    pub revision: u64,
}

pub struct InstanceRecordView {
    pub service_id: Seq<char>,
    pub plan_id: Seq<char>,
    pub parameters: Seq<(Seq<char>, Seq<char>)>,
    pub context: Seq<(Seq<char>, Seq<char>)>,
    pub maintenance_info_version: Option<Seq<char>>,
    pub dashboard_url: Option<Seq<char>>,
    pub state: InstanceState,
    pub revision: u64,
}

impl View for InstanceRecord {
    type V = InstanceRecordView;

    open spec fn view(&self) -> InstanceRecordView {
        InstanceRecordView {
            service_id: self.service_id@,
            plan_id: self.plan_id@,
            parameters: kv_view(self.parameters@),
            context: kv_view(self.context@),
            maintenance_info_version: opt_str_view(self.maintenance_info_version),
            dashboard_url: opt_str_view(self.dashboard_url),
            state: self.state,
            revision: self.revision,
        }
    }
}

/// A stored binding.
#[derive(Debug)]
pub struct BindingRecord {
    pub service_id: String,
    pub plan_id: String,
    pub parameters: Vec<(String, String)>,
    pub shape: BindingType,
    pub state: BindingState,
}

pub struct BindingRecordView {
    pub service_id: Seq<char>,
    pub plan_id: Seq<char>,
    pub parameters: Seq<(Seq<char>, Seq<char>)>,
    pub shape: BindingType,
    pub state: BindingState,
}

impl View for BindingRecord {
    type V = BindingRecordView;

    open spec fn view(&self) -> BindingRecordView {
        BindingRecordView {
            service_id: self.service_id@,
            plan_id: self.plan_id@,
            parameters: kv_view(self.parameters@),
            shape: self.shape,
            state: self.state,
        }
    }
}

impl InstanceRecord {
    /// A copy of the record, field by field.
    pub fn duplicate(&self) -> (r: InstanceRecord)
        ensures
            r@ == self@,
    {
        InstanceRecord {
            service_id: self.service_id.clone(),
            plan_id: self.plan_id.clone(),
            parameters: kv_clone(&self.parameters),
            context: kv_clone(&self.context),
            maintenance_info_version: clone_opt_string(&self.maintenance_info_version),
            dashboard_url: clone_opt_string(&self.dashboard_url),
            state: self.state,
            revision: self.revision,
        }
    }
}

impl BindingRecord {
    /// A copy of the record, field by field.
    pub fn duplicate(&self) -> (r: BindingRecord)
        ensures
            r@ == self@,
    {
        BindingRecord {
            service_id: self.service_id.clone(),
            plan_id: self.plan_id.clone(),
            parameters: kv_clone(&self.parameters),
            shape: self.shape,
            state: self.state,
        }
    }
}

/// The composite key of a binding.
#[derive(Debug)]
pub struct BindingKey {
    pub instance_id: String,
    pub binding_id: String,
}

impl View for BindingKey {
    type V = (Seq<char>, Seq<char>);

    open spec fn view(&self) -> (Seq<char>, Seq<char>) {
        (self.instance_id@, self.binding_id@)
    }
}

impl MapKey for BindingKey {
    fn key_eq(&self, other: &Self) -> (r: bool)
        ensures
            r == (self@ == other@),
    {
        self.instance_id == other.instance_id && self.binding_id == other.binding_id
    }
}

/// What the store holds.
pub struct StoreView {
    pub instances: Map<Seq<char>, InstanceRecordView>,
    pub bindings: Map<(Seq<char>, Seq<char>), BindingRecordView>,
}

/// Keyed storage for instance and binding records.  Mutations are atomic per
/// key; cross-key atomicity is not offered.
pub struct ResourceStore {
    instances: KeyedMap<String, InstanceRecord>,
    bindings: KeyedMap<BindingKey, BindingRecord>,
}

impl View for ResourceStore {
    type V = StoreView;

    closed spec fn view(&self) -> StoreView {
        StoreView { instances: self.instances@, bindings: self.bindings@ }
    }
}

/// Some binding under the instance is still bound.
pub open spec fn spec_any_bound(
    bindings: Map<(Seq<char>, Seq<char>), BindingRecordView>,
    instance_id: Seq<char>,
) -> bool {
    exists|k: (Seq<char>, Seq<char>)|
        bindings.contains_key(k) && k.0 == instance_id && bindings[k].state == BindingState::Bound
}

impl ResourceStore {
    pub closed spec fn wf(&self) -> bool {
        self.instances.wf() && self.bindings.wf()
    }

    pub fn new() -> (r: Self)
        ensures
            r.wf(),
            r@.instances == Map::<Seq<char>, InstanceRecordView>::empty(),
            r@.bindings == Map::<(Seq<char>, Seq<char>), BindingRecordView>::empty(),
    {
        ResourceStore { instances: KeyedMap::new(), bindings: KeyedMap::new() }
    }

    /// Reads an instance record.
    pub fn instance_get<'a>(&'a self, instance_id: &String) -> (r: Option<&'a InstanceRecord>)
        requires
            self.wf(),
        ensures
            match r {
                Some(rec) => self@.instances.contains_key(instance_id@) && rec@
                    == self@.instances[instance_id@],
                None => !self@.instances.contains_key(instance_id@),
            },
    {
        self.instances.get(instance_id)
    }

    /// Writes an instance record unconditionally.
    pub fn instance_put(&mut self, instance_id: String, record: InstanceRecord)
        requires
            old(self).wf(),
        ensures
            final(self).wf(),
            final(self)@.instances == old(self)@.instances.insert(instance_id@, record@),
            final(self)@.bindings == old(self)@.bindings,
    {
        self.instances.insert(instance_id, record);
    }

    /// Deletes an instance record; absent keys are left alone.
    pub fn instance_delete(&mut self, instance_id: &String)
        requires
            old(self).wf(),
        ensures
            final(self).wf(),
            final(self)@.instances == old(self)@.instances.remove(instance_id@),
            final(self)@.bindings == old(self)@.bindings,
    {
        self.instances.remove(instance_id);
    }

    /// Writes an instance record only if the stored record still carries the
    /// expected revision; a `false` result is the concurrency-conflict signal.
    pub fn instance_cas(
        &mut self,
        instance_id: String,
        expected_revision: u64,
        record: InstanceRecord,
    ) -> (r: bool)
        requires
            old(self).wf(),
        ensures
            final(self).wf(),
            final(self)@.bindings == old(self)@.bindings,
            r == (old(self)@.instances.contains_key(instance_id@)
                && old(self)@.instances[instance_id@].revision == expected_revision),
            r ==> final(self)@.instances == old(self)@.instances.insert(instance_id@, record@),
            !r ==> final(self)@.instances == old(self)@.instances,
    {
        let matches = match self.instances.get(&instance_id) {
            Some(cur) => cur.revision == expected_revision,
            None => false,
        };
        if matches {
            self.instances.insert(instance_id, record);
            true
        } else {
            false
        }
    }

    /// Reads a binding record.
    pub fn binding_get<'a>(&'a self, key: &BindingKey) -> (r: Option<&'a BindingRecord>)
        requires
            self.wf(),
        ensures
            match r {
                Some(rec) => self@.bindings.contains_key(key@) && rec@ == self@.bindings[key@],
                None => !self@.bindings.contains_key(key@),
            },
    {
        self.bindings.get(key)
    }

    /// Writes a binding record unconditionally.
    pub fn binding_put(&mut self, key: BindingKey, record: BindingRecord)
        requires
            old(self).wf(),
        ensures
            final(self).wf(),
            final(self)@.bindings == old(self)@.bindings.insert(key@, record@),
            final(self)@.instances == old(self)@.instances,
    {
        self.bindings.insert(key, record);
    }

    /// Deletes a binding record; absent keys are left alone.
    pub fn binding_delete(&mut self, key: &BindingKey)
        requires
            old(self).wf(),
        ensures
            final(self).wf(),
            final(self)@.bindings == old(self)@.bindings.remove(key@),
            final(self)@.instances == old(self)@.instances,
    {
        self.bindings.remove(key);
    }

    /// Decides whether any binding under the instance is still bound: what
    /// blocks a deprovision.
    pub fn any_bound_binding(&self, instance_id: &String) -> (r: bool)
        requires
            self.wf(),
        ensures
            r == spec_any_bound(self@.bindings, instance_id@),
    {
        let entries = self.bindings.entries();
        let ghost bs = self@.bindings;
        let mut i: usize = 0;
        while i < entries.len()
            invariant
                bs == self@.bindings,
                kv_map(entries@) == bs,
                keys_unique(entries@),
                i <= entries@.len(),
                forall|j: int|
                    0 <= j < i ==> !(entries@[j].0@.0 == instance_id@ && entries@[j].1@.state
                        == BindingState::Bound),
            decreases entries@.len() - i,
        {
            if entries[i].0.instance_id == *instance_id && entries[i].1.state
                == BindingState::Bound {
                proof {
                    lemma_kv_map_index(entries@, i as int);
                    let k = entries@[i as int].0@;
                    assert(bs.contains_key(k) && k.0 == instance_id@ && bs[k].state
                        == BindingState::Bound);
                }
                return true;
            }
            i = i + 1;
        }
        proof {
            if spec_any_bound(bs, instance_id@) {
                let k = choose|k: (Seq<char>, Seq<char>)|
                    bs.contains_key(k) && k.0 == instance_id@ && bs[k].state
                        == BindingState::Bound;
                lemma_kv_map_contains(entries@, k);
                let j = choose|j: int| 0 <= j < entries@.len() && entries@[j].0@ == k;
                lemma_kv_map_index(entries@, j);
                assert(false);
            }
        }
        false
    }
}

} // verus!
