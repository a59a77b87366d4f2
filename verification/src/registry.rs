//! The capability registry: plugin identifiers, which of them are activated,
//! and the resolution an invocation goes through. The plugin instances
//! themselves live outside; the registry decides membership and activation,
//! idempotently, and names the failure when resolution misses.

use vstd::prelude::*;
use vstd::string::StringExecFns;
use crate::strutil::str_eq;

verus! {

/// Why registry resolution failed.
#[derive(Debug)]
pub enum RegistryError {
    /// No plugin of this identifier is registered.
    NotFound { id: String },
    /// The plugin is registered but not activated.
    NotActive { id: String },
    /// The plugin's own activation hook failed.
    ActivationFailed { id: String, detail: String },
}

/// The message text of each resolution failure.
pub open spec fn registry_message_of(e: RegistryError) -> Seq<char> {
    match e {
        RegistryError::NotFound { id } => "Plugin "@ + id@ + " not found"@,
        RegistryError::NotActive { id } => "Plugin "@ + id@ + " not active"@,
        RegistryError::ActivationFailed { id, detail } => "Failed to activate plugin "@ + id@
            + ": "@ + detail@,
    }
}

impl RegistryError {
    /// Renders the failure as its caller-facing message.
    pub fn message(&self) -> (r: String)
        ensures
            r@ == registry_message_of(*self),
    {
        match self {
            RegistryError::NotFound { id } => {
                let mut r = "Plugin ".to_owned();
                r.append(id.as_str());
                r.append(" not found");
                r
            },
            RegistryError::NotActive { id } => {
                let mut r = "Plugin ".to_owned();
                r.append(id.as_str());
                r.append(" not active");
                r
            },
            RegistryError::ActivationFailed { id, detail } => {
                let mut r = "Failed to activate plugin ".to_owned();
                r.append(id.as_str());
                r.append(": ");
                r.append(detail.as_str());
                r
            },
        }
    }
}

/// One registered plugin and whether it is activated.
pub struct RegistryEntry {
    pub id: String,
    pub active: bool,
}

/// An identifier appears in the entries.
pub open spec fn is_registered(entries: Seq<RegistryEntry>, id: Seq<char>) -> bool {
    exists|i: int| 0 <= i < entries.len() && (#[trigger] entries[i]).id@ == id
}

/// An identifier appears in the entries and is activated.
pub open spec fn is_active(entries: Seq<RegistryEntry>, id: Seq<char>) -> bool {
    exists|i: int| 0 <= i < entries.len() && (#[trigger] entries[i]).id@ == id && entries[i].active
}

/// The registry of plugin descriptors, owned for the process lifetime.
pub struct PluginRegistry {
    pub entries: Vec<RegistryEntry>,
}

impl PluginRegistry {
    /// No two entries share an identifier.
    pub open spec fn wf(self) -> bool {
        forall|i: int, j: int|
            0 <= i < j < self.entries@.len() ==> (#[trigger] self.entries@[i]).id@ != (
            #[trigger] self.entries@[j]).id@
    }

    /// An empty registry.
    pub fn new() -> (r: Self)
        ensures
            r.wf(),
            r.entries@.len() == 0,
    {
        PluginRegistry { entries: Vec::new() }
    }

    fn find(&self, id: &str) -> (r: Option<usize>)
        ensures
            match r {
                Option::Some(i) => i < self.entries@.len() && self.entries@[i as int].id@ == id@,
                Option::None => !is_registered(self.entries@, id@),
            },
    {
        let mut i: usize = 0;
        while i < self.entries.len()
            invariant
                i <= self.entries@.len(),
                forall|k: int| 0 <= k < i ==> (#[trigger] self.entries@[k]).id@ != id@,
            decreases self.entries@.len() - i,
        {
            if str_eq(self.entries[i].id.as_str(), id) {
                return Some(i);
            }
            i = i + 1;
        }
        None
    }

    /// Registers a plugin identifier; registering an identifier twice leaves
    /// the registry as it was.
    pub fn register(&mut self, id: &str)
        requires
            old(self).wf(),
        ensures
            final(self).wf(),
            is_registered(final(self).entries@, id@),
            is_registered(old(self).entries@, id@) ==> final(self).entries@ == old(self).entries@,
            !is_registered(old(self).entries@, id@) ==> {
                &&& final(self).entries@.len() == old(self).entries@.len() + 1
                &&& final(self).entries@.subrange(0, old(self).entries@.len() as int) == old(
                    self,
                ).entries@
                &&& final(self).entries@.last().id@ == id@
                &&& !final(self).entries@.last().active
            },
    {
        match self.find(id) {
            Some(i) => {
                proof {
                    assert(is_registered(self.entries@, id@));
                }
            },
            None => {
                let ghost pre = self.entries@;
                self.entries.push(RegistryEntry { id: id.to_owned(), active: false });
                proof {
                    assert(self.entries@.subrange(0, pre.len() as int) =~= pre);
                    assert(self.entries@[pre.len() as int].id@ == id@);
                }
            },
        }
    }

    /// Activates a plugin: `Ok(true)` when it was newly activated and the
    /// caller must create its instance, `Ok(false)` when it was already
    /// active, and not-found when the identifier is unregistered.
    pub fn activate(&mut self, id: &str) -> (r: Result<bool, RegistryError>)
        requires
            old(self).wf(),
        ensures
            final(self).wf(),
            !is_registered(old(self).entries@, id@) ==> (r matches Result::Err(
                RegistryError::NotFound { id: n },
            ) && n@ == id@ && final(self).entries@ == old(self).entries@),
            is_registered(old(self).entries@, id@) ==> {
                &&& r matches Result::Ok(fresh) && fresh == !is_active(old(self).entries@, id@)
                &&& is_active(final(self).entries@, id@)
                &&& final(self).entries@.len() == old(self).entries@.len()
                &&& (forall|k: int|
                    0 <= k < old(self).entries@.len() && (#[trigger] old(self).entries@[k]).id@
                        != id@ ==> final(self).entries@[k] == old(self).entries@[k])
                &&& (forall|k: int|
                    0 <= k < old(self).entries@.len() && (#[trigger] old(self).entries@[k]).id@
                        == id@ ==> final(self).entries@[k].id@ == id@
                        && final(self).entries@[k].active)
            },
    {
        match self.find(id) {
            Some(i) => {
                let was_active = self.entries[i].active;
                proof {
                    assert(is_registered(self.entries@, id@));
                    if is_active(self.entries@, id@) {
                        let ghost w = choose|k: int|
                            0 <= k < self.entries@.len() && (#[trigger] self.entries@[k]).id@
                                == id@ && self.entries@[k].active;
                        assert(w == i);
                    }
                }
                let entry_id = self.entries[i].id.clone();
                self.entries[i] = RegistryEntry { id: entry_id, active: true };
                proof {
                    assert(is_active(self.entries@, id@));
                }
                Ok(!was_active)
            },
            None => Err(RegistryError::NotFound { id: id.to_owned() }),
        }
    }

    /// Deactivates a plugin, idempotently: the result says whether an active
    /// instance existed, so the caller can run its deactivation hook.
    pub fn deactivate(&mut self, id: &str) -> (r: bool)
        requires
            old(self).wf(),
        ensures
            final(self).wf(),
            r == is_active(old(self).entries@, id@),
            !is_active(final(self).entries@, id@),
            final(self).entries@.len() == old(self).entries@.len(),
            forall|k: int|
                0 <= k < old(self).entries@.len() && (#[trigger] old(self).entries@[k]).id@ != id@
                    ==> final(self).entries@[k] == old(self).entries@[k],
    {
        match self.find(id) {
            Some(i) => {
                let was_active = self.entries[i].active;
                proof {
                    if is_active(self.entries@, id@) {
                        let ghost w = choose|k: int|
                            0 <= k < self.entries@.len() && (#[trigger] self.entries@[k]).id@
                                == id@ && self.entries@[k].active;
                        assert(w == i);
                    }
                }
                let entry_id = self.entries[i].id.clone();
                self.entries[i] = RegistryEntry { id: entry_id, active: false };
                proof {
                    if is_active(self.entries@, id@) {
                        let ghost w = choose|k: int|
                            0 <= k < self.entries@.len() && (#[trigger] self.entries@[k]).id@
                                == id@ && self.entries@[k].active;
                        assert(false);
                    }
                }
                was_active
            },
            None => {
                proof {
                    if is_active(self.entries@, id@) {
                        assert(is_registered(self.entries@, id@));
                    }
                }
                false
            },
        }
    }

    /// Resolves an invocation: unregistered identifiers are not found,
    /// registered but unactivated ones are not active, active ones pass.
    pub fn resolve(&self, id: &str) -> (r: Result<(), RegistryError>)
        requires
            self.wf(),
        ensures
            !is_registered(self.entries@, id@) ==> (r matches Result::Err(RegistryError::NotFound {
                id: n,
            }) && n@ == id@),
            is_registered(self.entries@, id@) && !is_active(self.entries@, id@) ==> (r
                matches Result::Err(RegistryError::NotActive { id: n }) && n@ == id@),
            is_active(self.entries@, id@) ==> r == Result::<(), RegistryError>::Ok(()),
    {
        match self.find(id) {
            Some(i) => {
                proof {
                    assert(is_registered(self.entries@, id@));
                    if is_active(self.entries@, id@) {
                        let ghost w = choose|k: int|
                            0 <= k < self.entries@.len() && (#[trigger] self.entries@[k]).id@
                                == id@ && self.entries@[k].active;
                        assert(w == i);
                    }
                }
                if self.entries[i].active {
                    proof {
                        assert(is_active(self.entries@, id@));
                    }
                    Ok(())
                } else {
                    Err(RegistryError::NotActive { id: id.to_owned() })
                }
            },
            None => Err(RegistryError::NotFound { id: id.to_owned() }),
        }
    }
}

} // verus!
