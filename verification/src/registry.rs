//! The process registry: the single source of truth for what is currently
//! running under each application identifier.
//!
//! The registry is a map from application identifier to dispatch record. The
//! surrounding program guards it with its own lock and serializes every
//! access through that lock; the operations here describe what each critical
//! section does to the map.

use vstd::prelude::*;

verus! {

broadcast use vstd::std_specs::hash::group_hash_axioms;

/// `tokio::process::Child` is the live handle to a spawned process. The
/// registry only stores it and moves it out again; it never looks inside.
#[verifier::external_type_specification]
#[verifier::external_body]
pub struct ExChild(tokio::process::Child);

/// One currently tracked managed process.
///
/// The `child` slot holds the live process handle from the moment of the
/// spawn until the background wait task takes it; after that it is `None`
/// for the rest of the record's life, so no second consumer can ever wait
/// on the same handle.
#[derive(Debug)]
pub struct DispatchedItem {
    pub app_id: i64,
    pub executable_name: String,
    pub full_executable_path: String,
    pub pid: Option<u32>,
    pub child: Option<tokio::process::Child>,
}

/// A read-only snapshot of a record's metadata, without its handle.
pub struct DispatchMetadata {
    pub executable_name: String,
    pub full_executable_path: String,
    pub pid: Option<u32>,
}

/// The registry of dispatched processes, keyed by application identifier.
pub struct GameDispatcherState {
    map: std::collections::HashMap<i64, DispatchedItem>,
}

impl View for GameDispatcherState {
    type V = Map<i64, DispatchedItem>;

    closed spec fn view(&self) -> Map<i64, DispatchedItem> {
        self.map@
    }
}

impl GameDispatcherState {
    /// Every record sits under its own identifier: the registry never
    /// attributes a record to a key other than the record's `app_id`.
    pub open spec fn wf(&self) -> bool {
        forall|k: i64| self@.contains_key(k) ==> (#[trigger] self@[k]).app_id == k
    }

    /// An empty registry: nothing is running.
    pub fn new() -> (r: GameDispatcherState)
        ensures
            r@ == Map::<i64, DispatchedItem>::empty(),
            r.wf(),
    {
        GameDispatcherState { map: std::collections::HashMap::new() }
    }

    /// How many processes are currently tracked.
    pub fn len(&self) -> (n: usize)
        ensures
            n == self@.len(),
    {
        proof {
            vstd::std_specs::hash::axiom_hashmap_view_finite_dom(self.map);
        }
        self.map.len()
    }

    /// Whether a record exists for `app_id`.
    pub fn contains(&self, app_id: i64) -> (r: bool)
        ensures
            r == self@.contains_key(app_id),
    {
        self.map.contains_key(&app_id)
    }

    /// Inserts a record under its own `app_id`, overwriting any prior record
    /// for that identifier (a repeat dispatch replaces the older entry).
    pub fn insert(&mut self, item: DispatchedItem)
        ensures
            final(self)@ == old(self)@.insert(item.app_id, item),
            old(self).wf() ==> final(self).wf(),
    {
        let key = item.app_id;
        self.map.insert(key, item);
    }

    /// Removes and returns the record for `app_id`, if any.
    pub fn remove(&mut self, app_id: i64) -> (r: Option<DispatchedItem>)
        ensures
            old(self)@.contains_key(app_id) ==> r == Some(old(self)@[app_id]) && final(self)@
                == old(self)@.remove(app_id),
            !old(self)@.contains_key(app_id) ==> r is None && final(self)@ == old(self)@,
            old(self).wf() ==> final(self).wf(),
    {
        let r = self.map.remove(&app_id);
        proof {
            if old(self)@.contains_key(app_id) {
                assert(self.map@ =~= old(self)@.remove(app_id));
            } else {
                assert(self.map@ =~= old(self)@);
            }
        }
        r
    }

    /// Removes and returns only the process handle for `app_id`, leaving the
    /// record's metadata in place. A missing record, or a record whose handle
    /// was already taken, yields `None` and changes nothing.
    pub fn take_handle(&mut self, app_id: i64) -> (r: Option<tokio::process::Child>)
        ensures
            old(self)@.contains_key(app_id) ==> {
                &&& r == old(self)@[app_id].child
                &&& final(self)@.contains_key(app_id)
                &&& final(self)@[app_id].app_id == old(self)@[app_id].app_id
                &&& final(self)@[app_id].executable_name == old(self)@[app_id].executable_name
                &&& final(self)@[app_id].full_executable_path == old(
                    self,
                )@[app_id].full_executable_path
                &&& final(self)@[app_id].pid == old(self)@[app_id].pid
                &&& final(self)@[app_id].child is None
                &&& final(self)@.remove(app_id) == old(self)@.remove(app_id)
            },
            !old(self)@.contains_key(app_id) ==> r is None && final(self)@ == old(self)@,
            old(self).wf() ==> final(self).wf(),
    {
        match self.map.remove(&app_id) {
            Some(item) => {
                let DispatchedItem { app_id: key, executable_name, full_executable_path, pid, child
                } = item;
                let rest = DispatchedItem {
                    app_id: key,
                    executable_name,
                    full_executable_path,
                    pid,
                    child: None,
                };
                self.map.insert(app_id, rest);
                proof {
                    assert(self.map@.remove(app_id) =~= old(self)@.remove(app_id));
                }
                child
            },
            None => {
                proof {
                    assert(self.map@ =~= old(self)@);
                }
                None
            },
        }
    }

    /// A read-only snapshot of the metadata recorded for `app_id`.
    pub fn lookup_metadata(&self, app_id: i64) -> (r: Option<DispatchMetadata>)
        ensures
            self@.contains_key(app_id) ==> {
                &&& r matches Some(m)
                &&& m.executable_name@ == self@[app_id].executable_name@
                &&& m.full_executable_path@ == self@[app_id].full_executable_path@
                &&& m.pid == self@[app_id].pid
            },
            !self@.contains_key(app_id) ==> r is None,
    {
        match self.map.get(&app_id) {
            Some(item) => Some(
                DispatchMetadata {
                    executable_name: item.executable_name.clone(),
                    full_executable_path: item.full_executable_path.clone(),
                    pid: item.pid,
                },
            ),
            None => None,
        }
    }
}

/// Dispatches for two distinct identifiers never disturb each other: the
/// registry after both insertions holds both records, each under its own
/// identifier, and the same registry results whichever insertion came first.
pub proof fn lemma_independent_dispatches(
    m: Map<i64, DispatchedItem>,
    a: DispatchedItem,
    b: DispatchedItem,
)
    requires
        a.app_id != b.app_id,
    ensures
        m.insert(a.app_id, a).insert(b.app_id, b) == m.insert(b.app_id, b).insert(a.app_id, a),
        m.insert(a.app_id, a).insert(b.app_id, b)[a.app_id] == a,
        m.insert(a.app_id, a).insert(b.app_id, b)[b.app_id] == b,
{
    assert(m.insert(a.app_id, a).insert(b.app_id, b) =~= m.insert(b.app_id, b).insert(
        a.app_id,
        a,
    ));
}

} // verus!
