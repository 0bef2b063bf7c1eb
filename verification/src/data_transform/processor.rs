use vstd::prelude::*;

use super::change_desrip::ChangeDescrip;
use super::orig::RawFns;

verus! {

/// Brings an output in step with a raw store after the store changed as
/// `change` describes, and describes how the output changed in turn.
pub trait Processor<Out, RawType, RawStore> where RawStore: RawFns<RawType> {
    fn change<StoreType: RawFns<RawType>>(
        &mut self,
        raw: &StoreType,
        out: &mut Out,
        change: &ChangeDescrip,
    ) -> ChangeDescrip;
}

} // verus!
