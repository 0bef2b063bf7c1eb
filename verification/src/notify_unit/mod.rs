use std::collections::HashMap;
use std::sync::Arc;

use vstd::prelude::*;

verus! {

/// A source of data units, read by position.  Sources are shared between
/// threads, so every source is `Send` and `Sync`.
pub trait UnitRepo<URType>: Send + Sync {
    fn retrieve(&self, index: i32) -> URType;
}

/// A shared handle on a unit source.
pub type URHook<URType> = Arc<dyn UnitRepo<URType>>;

/// Unit sources by name, and the name of each unit type.
#[verifier::reject_recursive_types(URType)]
pub struct URMap<URType> {
    name_repo: HashMap<&'static str, URHook<URType>>,
    urtype_name: HashMap<URType, &'static str>,
}

/// A unit source together with the name it is registered under.
#[verifier::reject_recursive_types(URType)]
pub struct URTypeInfo<URType> {
    pub name: &'static str,
    pub repo: URHook<URType>,
}

impl<URType> URMap<URType> {
    /// The names under which sources are registered.
    pub closed spec fn source_names(&self) -> Set<&'static str> {
        self.name_repo@.dom()
    }

    /// The unit types that have a name.
    pub closed spec fn named_types(&self) -> Set<URType> {
        self.urtype_name@.dom()
    }

    /// Builds the map.  The registration list is not read yet: the map
    /// starts without any source or unit type.
    pub fn new(map_info: Vec<(URType, URTypeInfo<URType>)>) -> (r: URMap<URType>)
        ensures
            r.source_names() == Set::<&'static str>::empty(),
            r.named_types() == Set::<URType>::empty(),
    {
        URMap { name_repo: HashMap::new(), urtype_name: HashMap::new() }
    }
}

} // verus!
