//! The traits that were made mockable, by the identifier of their definition.
use super::trait_decl::TraitDecl;
use std::collections::HashMap;
use vstd::prelude::*;

verus! {

broadcast use vstd::std_specs::hash::group_hash_axioms;

/// Remembers the declaration of every mocked trait, so that a later
/// expansion can look up a trait by the identifier of its definition.
pub struct MockedTraitRegistryImpl {
    /// The registered declarations.
    pub mocked_traits: HashMap<u64, TraitDecl>,
}

impl View for MockedTraitRegistryImpl {
    type V = Map<u64, TraitDecl>;

    open spec fn view(&self) -> Map<u64, TraitDecl> {
        self.mocked_traits@
    }
}

impl MockedTraitRegistryImpl {
    /// An empty registry.
    pub fn new() -> (r: Self)
        ensures
            r@ == Map::<u64, TraitDecl>::empty(),
    {
        MockedTraitRegistryImpl { mocked_traits: HashMap::new() }
    }

    /// Registers the declaration of a mocked trait; a declaration registered
    /// earlier under the same identifier is replaced.
    pub fn register_mocked_trait(&mut self, identifier: u64, mocked_trait: TraitDecl)
        ensures
            final(self)@ == old(self)@.insert(identifier, mocked_trait),
    {
        self.mocked_traits.insert(identifier, mocked_trait);
    }

    /// The declaration registered under `identifier`, if any.
    pub fn get_mocked_trait(&self, identifier: u64) -> (r: Option<&TraitDecl>)
        ensures
            r == if self@.contains_key(identifier) {
                Some(&self@[identifier])
            } else {
                None
            },
    {
        self.mocked_traits.get(&identifier)
    }
}

/// A registered declaration is found again under its identifier, and
/// registering leaves every other identifier as it was.
pub proof fn lemma_registered_traits_are_found_again(
    before: MockedTraitRegistryImpl,
    after: MockedTraitRegistryImpl,
    identifier: u64,
    mocked_trait: TraitDecl,
    other: u64,
)
    requires
        after@ == before@.insert(identifier, mocked_trait),
        other != identifier,
    ensures
        after@.contains_key(identifier),
        after@[identifier] == mocked_trait,
        after@.contains_key(other) == before@.contains_key(other),
        before@.contains_key(other) ==> after@[other] == before@[other],
{
}

} // verus!
