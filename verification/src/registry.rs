//! The extension registry: an ordered, append-only collection of loaded
//! extensions. Insertion order is dispatch order. There deliberately is
//! no remove or unload operation: once an extension is registered its
//! code image stays mapped for the life of the registry.

use vstd::prelude::*;

use crate::extension::LoadedExtension;

verus! {

/// True when `after` keeps every entry of `before`, in place, and at
/// most appends. Every operation of this interface that mutates a
/// registry ensures this of the registry's old and new views.
pub open spec fn grows_from<T>(before: Seq<T>, after: Seq<T>) -> bool {
    &&& before.len() <= after.len()
    &&& forall|i: int| 0 <= i < before.len() ==> after[i] == before[i]
}

/// Law: growth composes. Together with the `grows_from` clause on every
/// mutating operation, no chain of operations available at this
/// interface ever removes or replaces a registered entry.
pub proof fn lemma_grows_from_transitive<T>(a: Seq<T>, b: Seq<T>, c: Seq<T>)
    requires
        grows_from(a, b),
        grows_from(b, c),
    ensures
        grows_from(a, c),
{
}

/// The ordered registry of loaded extensions, viewed as the sequence of
/// its entries in insertion order.
pub struct Registry<H, E> {
    items: Vec<LoadedExtension<H, E>>,
}

impl<H, E> View for Registry<H, E> {
    type V = Seq<LoadedExtension<H, E>>;

    closed spec fn view(&self) -> Seq<LoadedExtension<H, E>> {
        self.items@
    }
}

impl<H, E> Registry<H, E> {
    /// An empty registry.
    pub fn new() -> (r: Registry<H, E>)
        ensures
            r@ == Seq::<LoadedExtension<H, E>>::empty(),
    {
        Registry { items: Vec::new() }
    }

    /// Appends one fully loaded extension at the tail. This is the only
    /// mutating operation of the registry.
    pub fn add(&mut self, le: LoadedExtension<H, E>)
        ensures
            final(self)@ == old(self)@.push(le),
            grows_from(old(self)@, final(self)@),
    {
        self.items.push(le);
    }

    /// The number of registered extensions.
    pub fn len(&self) -> (n: usize)
        ensures
            n == self@.len(),
    {
        self.items.len()
    }

    /// A read-only view of every entry, in insertion order: the
    /// registry's iteration surface.
    pub fn entries(&self) -> (r: &Vec<LoadedExtension<H, E>>)
        ensures
            r@ == self@,
    {
        &self.items
    }

    /// The entry at position `i` in insertion order.
    pub fn get(&self, i: usize) -> (r: &LoadedExtension<H, E>)
        requires
            i < self@.len(),
        ensures
            *r == self@[i as int],
    {
        &self.items[i]
    }
}

} // verus!
