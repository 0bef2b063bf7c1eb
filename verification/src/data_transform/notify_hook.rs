use vstd::prelude::*;

use super::mutate_info::MutateInfo;

verus! {

/// Tells interested parties that data changed as `change` describes.
pub trait NotifyHook {
    fn notify(&mut self, change: &MutateInfo);
}

} // verus!
