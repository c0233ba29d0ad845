//! A registry that hands out identifiers in order and keeps what it built.
//!
//! A `Manager` is seen as the sequence of the entities it has created: the
//! entity at index `n` is the one that was created under the identifier
//! `n`. Entities are only ever added at the end, so an identifier, once
//! issued, stands for the same entity as long as the registry lives.

use std::collections::HashMap;
use std::rc::Rc;
use vstd::prelude::*;

verus! {

/// The identifier of an entity, unique within the registry that issued it.
pub type Id = usize;

/// How an entity is built from the identifier assigned to it and from what
/// the caller supplies. The registry promises of an entity what `new`
/// promises of its result, and nothing else.
pub trait Item<Param>: Sized {
    fn new(id: &Id, param: &Param) -> Self;
}

/// `Rc::clone`, which makes a second handle to the same allocation: the
/// value behind the new handle is the value behind `handle`.
#[verifier::external_body]
fn share<T>(handle: &Rc<T>) -> (other: Rc<T>)
    ensures
        other == *handle,
{
    Rc::clone(handle)
}

/// The identifiers below `bound`.
spec fn ids_below(bound: nat) -> Set<Id> {
    Set::new(|id: Id| id < bound)
}

/// There are `bound` identifiers below `bound`, as long as identifiers reach
/// that far.
proof fn lemma_ids_below(bound: nat)
    requires
        bound <= usize::MAX + 1,
    ensures
        ids_below(bound).finite(),
        ids_below(bound).len() == bound,
    decreases bound,
{
    if bound == 0 {
        assert(ids_below(bound) =~= Set::empty());
    } else {
        let rest = (bound - 1) as nat;
        lemma_ids_below(rest);
        assert(ids_below(bound) =~= ids_below(rest).insert(rest as Id));
    }
}

/// An append-only store of entities. The `n`-th entity created gets the
/// identifier `n - 1`; identifiers are never reused.
pub struct Manager<I, P> where I: Item<P> {
    next_id: usize,
    items: HashMap<Id, Rc<I>>,
    params: Ghost<Seq<P>>,
}

impl<I, P> Manager<I, P> where I: Item<P> {
    /// The identifiers in use are those below the counter, and the entity
    /// kept under each is what `Item::new` built from that identifier.
    #[verifier::type_invariant]
    spec fn well_formed(self) -> bool {
        &&& self.params@.len() == self.next_id
        &&& forall|id: Id| #[trigger] self.items@.contains_key(id) <==> id < self.next_id
        &&& forall|id: Id|
            id < self.next_id ==> call_ensures(
                I::new,
                (&id, &self.params@[id as int]),
                *#[trigger] self.items@[id],
            )
    }

    /// The entities created so far, each at the index that is its identifier.
    pub closed spec fn view(&self) -> Seq<I> {
        Seq::new(self.next_id as nat, |i: int| *self.items@[i as usize])
    }

    /// What each entity was created from, in the same order.
    pub closed spec fn params(&self) -> Seq<P> {
        self.params@
    }

    /// A registry that has issued no identifier yet.
    pub fn new() -> (manager: Self)
        ensures
            manager@ == Seq::<I>::empty(),
            manager.params() == Seq::<P>::empty(),
    {
        broadcast use vstd::std_specs::hash::group_hash_axioms;
        Manager { next_id: 0, items: HashMap::new(), params: Ghost(Seq::empty()) }
    }

    /// Builds an entity from the next identifier and `param`, keeps a handle to
    /// it, and returns another. The next identifier is the number of
    /// entities created before, so identifiers count up from zero and none
    /// is given twice or left out.
    pub fn create(&mut self, param: &P) -> (item: Rc<I>)
        ensures
            call_ensures(I::new, (&(old(self)@.len() as Id), param), *item),
            final(self)@ == old(self)@.push(*item),
            final(self).params() == old(self).params().push(*param),
            final(self)@.len() <= usize::MAX,
    {
        broadcast use vstd::std_specs::hash::group_hash_axioms;
        proof {
            use_type_invariant(&*self);
        }
        let id = self.next_id;
        let item = Rc::new(I::new(&id, param));
        let mut taken = Manager::new();
        std::mem::swap(self, &mut taken);
        let Manager { next_id: _, mut items, params } = taken;
        proof {
            lemma_ids_below(id as nat);
            assert(items@.dom() =~= ids_below(id as nat));
            assert(!items@.contains_key(id));
        }
        items.insert(id, share(&item));
        // The map holds one entity more than before, so its size is the next
        // identifier, and the counter cannot have run over.
        let count = items.len();
        *self = Manager { next_id: count, items, params: Ghost(params@.push(*param)) };
        item
    }

    /// Looks up the entity that was created under `id`. There is one exactly
    /// for the identifiers issued so far, and it is what `Item::new` built
    /// from `id` and from the parameter given then.
    pub fn get(&self, id: Id) -> (found: Option<&Rc<I>>)
        ensures
            match found {
                Some(item) => id < self@.len() && **item == self@[id as int],
                None => id >= self@.len(),
            },
            self@.len() <= usize::MAX,
            self.params().len() == self@.len(),
            id < self@.len() ==> call_ensures(
                I::new,
                (&id, &self.params()[id as int]),
                self@[id as int],
            ),
    {
        broadcast use vstd::std_specs::hash::group_hash_axioms;
        proof {
            use_type_invariant(self);
        }
        self.items.get(&id)
    }
}

impl<I, P> Default for Manager<I, P> where I: Item<P> {
    fn default() -> (manager: Self)
        ensures
            manager@ == Seq::<I>::empty(),
            manager.params() == Seq::<P>::empty(),
    {
        Self::new()
    }
}

} // verus!
