use vstd::prelude::*;

verus! {

/// A value that can be taken out at most once.
pub trait SingleConsume<T> {
    fn try_consume(&mut self) -> Option<T>;
}

pub struct SingleConsumable<T>(Option<T>);

impl<T> View for SingleConsumable<T> {
    type V = Option<T>;

    /// The value still waiting to be taken, if any.
    closed spec fn view(&self) -> Option<T> {
        self.0
    }
}

/// What a consumption hands out, and what is left waiting afterwards.
pub open spec fn consumed<T>(pending: Option<T>) -> (Option<T>, Option<T>) {
    (pending, None)
}

impl<T> SingleConsume<T> for SingleConsumable<T> {
    /// Hands out the waiting value, if there is one, and leaves nothing
    /// behind.
    fn try_consume(&mut self) -> (r: Option<T>)
        ensures
            (r, final(self)@) == consumed(old(self)@),
    {
        let consum = &mut self.0;
        match consum {
            None => None,
            Some(_) => consum.take(),
        }
    }
}

impl<T> SingleConsumable<T> {
    pub fn new(val: T) -> (r: SingleConsumable<T>)
        ensures
            r@ == Some(val),
    {
        SingleConsumable(Some(val))
    }
}

/// A value can be taken out only once: whatever was waiting, a second
/// consumption hands out nothing.
pub proof fn law_consumed_once<T>(pending: Option<T>)
    ensures
        consumed(consumed(pending).1).0 == None::<T>,
        consumed(pending).0 == pending,
{
}

} // verus!
