//! The mapping protocol, and the registry of classes declared to follow it.
use vstd::prelude::*;
use std::collections::HashSet;

verus! {

broadcast use vstd::std_specs::hash::group_hash_axioms;

/// Marker for an object that behaves as a mapping.
pub struct PyMapping;

/// The classes registered as following a protocol (mapping or sequence), each by the
/// identity of its type object.
pub struct TypeRegistry {
    classes: HashSet<usize>,
}

impl View for TypeRegistry {
    type V = Set<usize>;

    /// The identities of the registered classes.
    closed spec fn view(&self) -> Set<usize> {
        self.classes@
    }
}

impl TypeRegistry {
    /// A registry with no class in it.
    pub fn new() -> (r: Self)
        ensures
            r@ == Set::<usize>::empty(),
    {
        TypeRegistry { classes: HashSet::new() }
    }

    /// Registers the class with identity `class_id`.
    pub fn register(&mut self, class_id: usize)
        ensures
            final(self)@ == old(self)@.insert(class_id),
    {
        self.classes.insert(class_id);
    }

    /// Whether the class with identity `class_id` has been registered.
    pub fn is_registered(&self, class_id: usize) -> (r: bool)
        ensures
            r == self@.contains(class_id),
    {
        self.classes.contains(&class_id)
    }
}

/// A registered class is recognised as registered from then on, and registering one
/// class changes the answer for no other.
pub proof fn lemma_registration_is_remembered(registered: Set<usize>, class_id: usize, other: usize)
    ensures
        registered.insert(class_id).contains(class_id),
        other != class_id ==> registered.insert(class_id).contains(other) == registered.contains(other),
        registered.contains(other) ==> registered.insert(class_id).contains(other),
{
}

} // verus!
