use vstd::prelude::*;

use crate::ident::{same_id, IdModel, Identifier};

verus! {

/// What a registry does when an identifier is registered a second time.
#[derive(Debug, Clone, Copy, PartialEq, Eq, Structural)]
pub enum DuplicatePolicy {
    /// The second registration fails; the first one stays.
    Reject,
    /// The second registration takes the place of the first.
    Overwrite,
    /// Both stay, in the order in which they were registered.
    Append,
}

/// Why a registration failed.
#[derive(Debug, Clone, Copy, PartialEq, Eq, Structural)]
pub enum RegistryError {
    /// The identifier is already claimed, and the registry rejects duplicates.
    DuplicateRegistration,
}

/// Whether some entry of `s` is registered under `id`.
pub open spec fn is_registered<T>(s: Seq<(IdModel, T)>, id: IdModel) -> bool {
    exists|i: int| 0 <= i < s.len() && #[trigger] s[i].0 == id
}

/// No identifier occurs twice in `s`.
pub open spec fn ids_unique<T>(s: Seq<(IdModel, T)>) -> bool {
    forall|i: int, j: int| 0 <= i < s.len() && 0 <= j < s.len() && i != j ==> #[trigger] s[i].0 != #[trigger] s[j].0
}

/// The entries of a registry after `item` was registered under `id`.
pub open spec fn after_register<T>(
    policy: DuplicatePolicy,
    s: Seq<(IdModel, T)>,
    id: IdModel,
    item: T,
) -> Seq<(IdModel, T)> {
    if !is_registered(s, id) || policy == DuplicatePolicy::Append {
        s.push((id, item))
    } else if policy == DuplicatePolicy::Overwrite {
        s.map_values(|p: (IdModel, T)| if p.0 == id { (id, item) } else { p })
    } else {
        s
    }
}

/// The items registered under `id`, in the order of registration.
pub open spec fn items_for<T>(s: Seq<(IdModel, T)>, id: IdModel) -> Seq<T>
    decreases s.len(),
{
    if s.len() == 0 {
        Seq::empty()
    } else if s.last().0 == id {
        items_for(s.drop_last(), id).push(s.last().1)
    } else {
        items_for(s.drop_last(), id)
    }
}

/// Under the policy that rejects duplicates, once an item is registered under
/// an identifier, registering another under the same identifier changes
/// nothing.
pub proof fn lemma_single_registration<T>(s: Seq<(IdModel, T)>, id: IdModel, first: T, second: T)
    ensures
        is_registered(after_register(DuplicatePolicy::Reject, s, id, first), id),
        after_register(
            DuplicatePolicy::Reject,
            after_register(DuplicatePolicy::Reject, s, id, first),
            id,
            second,
        ) == after_register(DuplicatePolicy::Reject, s, id, first),
{
    let s1 = after_register(DuplicatePolicy::Reject, s, id, first);
    if !is_registered(s, id) {
        assert(s1[s.len() as int].0 == id);
    }
}

/// A mapping from identifiers to registered items, with a policy for
/// duplicates.
pub struct Registry<T> {
    policy: DuplicatePolicy,
    entries: Vec<(Identifier, T)>,
}

impl<T> Registry<T> {
    /// The registrations, oldest first.
    pub closed spec fn view(&self) -> Seq<(IdModel, T)> {
        self.entries@.map_values(|p: (Identifier, T)| (p.0@, p.1))
    }

    /// The policy this registry was made with.
    pub closed spec fn spec_policy(&self) -> DuplicatePolicy {
        self.policy
    }

    /// Unless duplicates are appended, each identifier is registered once.
    pub open spec fn wf(&self) -> bool {
        self.spec_policy() != DuplicatePolicy::Append ==> ids_unique(self.view())
    }

    /// An empty registry.
    pub fn new(policy: DuplicatePolicy) -> (r: Registry<T>)
        ensures
            r.wf(),
            r.view() == Seq::<(IdModel, T)>::empty(),
            r.spec_policy() == policy,
    {
        let r = Registry { policy, entries: Vec::new() };
        assert(r.view() =~= Seq::<(IdModel, T)>::empty());
        r
    }

    /// The policy this registry was made with.
    pub fn policy(&self) -> (r: DuplicatePolicy)
        ensures
            r == self.spec_policy(),
    {
        self.policy
    }

    /// The number of registrations.
    pub fn len(&self) -> (r: usize)
        ensures
            r == self.view().len(),
    {
        self.entries.len()
    }

    /// The position of the first registration under `id`, if any.
    fn find(&self, id: &Identifier) -> (r: Option<usize>)
        ensures
            r.is_none() == !is_registered(self.view(), id@),
            r matches Some(i) ==> i < self.view().len() && self.view()[i as int].0 == id@,
    {
        let mut i: usize = 0;
        while i < self.entries.len()
            invariant
                i <= self.entries@.len(),
                forall|k: int| 0 <= k < i ==> self.view()[k].0 != id@,
            decreases self.entries@.len() - i,
        {
            if same_id(&self.entries[i].0, id) {
                assert(self.view()[i as int].0 == id@);
                return Some(i);
            }
            i = i + 1;
        }
        None
    }

    /// The registration at position `i`: its identifier and its item.
    pub fn entry(&self, i: usize) -> (r: (&Identifier, &T))
        requires
            i < self.view().len(),
        ensures
            r.0@ == self.view()[i as int].0,
            *r.1 == self.view()[i as int].1,
    {
        (&self.entries[i].0, &self.entries[i].1)
    }

    /// Whether something is registered under `id`.
    pub fn contains(&self, id: &Identifier) -> (r: bool)
        ensures
            r == is_registered(self.view(), id@),
    {
        self.find(id).is_some()
    }

    /// Registers `item` under `id`, as the registry's policy says: a
    /// duplicate is refused, takes the place of the earlier item, or is kept
    /// after it.
    pub fn register(&mut self, item: T, id: Identifier) -> (r: Result<(), RegistryError>)
        requires
            old(self).wf(),
        ensures
            final(self).wf(),
            final(self).spec_policy() == old(self).spec_policy(),
            final(self).view() == after_register(
                old(self).spec_policy(),
                old(self).view(),
                id@,
                item,
            ),
            r.is_err() == (old(self).spec_policy() == DuplicatePolicy::Reject && is_registered(
                old(self).view(),
                id@,
            )),
            r.is_err() ==> r == Err::<(), RegistryError>(RegistryError::DuplicateRegistration),
    {
        let ghost id_m = id@;
        let ghost before = self.view();
        match self.policy {
            DuplicatePolicy::Append => {
                self.entries.push((id, item));
                assert(self.view() =~= before.push((id_m, item)));
                Ok(())
            },
            _ => {
                match self.find(&id) {
                    None => {
                        self.entries.push((id, item));
                        assert(self.view() =~= before.push((id_m, item)));
                        assert forall|i: int, j: int|
                            0 <= i < self.view().len() && 0 <= j < self.view().len() && i != j
                                implies #[trigger] self.view()[i].0 != #[trigger] self.view()[j].0 by {
                            if i < before.len() && j < before.len() {
                            } else if i < before.len() {
                                assert(before[i].0 != id_m);
                            } else {
                                assert(before[j].0 != id_m);
                            }
                        }
                        Ok(())
                    },
                    Some(idx) => {
                        if self.policy == DuplicatePolicy::Reject {
                            Err(RegistryError::DuplicateRegistration)
                        } else {
                            self.entries[idx] = (id, item);
                            assert forall|k: int| 0 <= k < before.len() && k != idx implies before[k].0
                                != id_m by {
                                assert(before[k].0 != before[idx as int].0);
                            }
                            assert(self.view() =~= before.map_values(
                                |p: (IdModel, T)| if p.0 == id_m { (id_m, item) } else { p },
                            ));
                            assert forall|i: int, j: int|
                                0 <= i < self.view().len() && 0 <= j < self.view().len() && i != j
                                    implies #[trigger] self.view()[i].0 != #[trigger] self.view()[j].0 by {
                                assert(before[i].0 != before[j].0);
                            }
                            Ok(())
                        }
                    },
                }
            },
        }
    }
}

} // verus!
